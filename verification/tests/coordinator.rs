use rustacean_roulette::commands::roulette::{RouletteCommand, Turn};
use rustacean_roulette::membership::Membership;
use rustacean_roulette::{FireResult, Probability, Roulette, RouletteConfig, TriggerOutcome};

fn game(chambers: usize, bullets: usize, jam_probability: Probability) -> Roulette {
    RouletteConfig { chambers, bullets, jam_probability, min_mute_time: 60, max_mute_time: 600 }
        .start()
        .unwrap()
}

fn exhaust(roulette: &mut Roulette) {
    while roulette.fire_with(false) != FireResult::NoBullets {}
    assert_eq!(roulette.peek().0, 0);
}

#[test]
fn trigger_on_exhausted_room_reloads_once() {
    for _ in 0..100 {
        let mut roulette = game(6, 2, Probability::never());
        exhaust(&mut roulette);
        let outcome = roulette.trigger(1_000);
        assert!(outcome.reloaded);
        assert!(!outcome.stalled());
        assert!(matches!(outcome.fired, FireResult::Bullet | FireResult::Empty));
        assert_eq!(roulette.position(), 1);
        let contents = roulette.contents();
        assert_eq!(contents.iter().filter(|loaded| **loaded).count(), 2);
        assert_eq!(outcome.fired == FireResult::Bullet, contents[0]);
    }
}

#[test]
fn trigger_fires_a_loaded_revolver_as_it_is() {
    let mut roulette = game(4, 2, Probability::never());
    assert!(roulette.load(&[1, 3]));
    assert_eq!(
        roulette.trigger(500),
        TriggerOutcome { fired: FireResult::Empty, reloaded: false, mute_until: None }
    );
    let second = roulette.trigger(500);
    assert_eq!(second.fired, FireResult::Bullet);
    assert!(!second.reloaded);
    let until = second.mute_until.unwrap();
    assert!((560..=1_100).contains(&until));
    assert_eq!(roulette.peek(), (1, 2));
    assert_eq!(roulette.contents(), vec![false, true, false, true]);
}

#[test]
fn trigger_mutes_exactly_on_a_bullet() {
    let mut roulette = game(3, 1, Probability::new(1, 4).unwrap());
    let mut bullets = 0;
    for _ in 0..500 {
        let outcome = roulette.trigger(10_000);
        assert_ne!(outcome.fired, FireResult::NoBullets);
        match outcome.mute_until {
            Some(until) => {
                assert_eq!(outcome.fired, FireResult::Bullet);
                assert!((10_060..=10_600).contains(&until));
                bullets += 1;
            }
            None => assert_ne!(outcome.fired, FireResult::Bullet),
        }
    }
    assert!(bullets > 0);
}

#[test]
fn trigger_with_certain_jam_reports_the_jam() {
    let mut roulette = game(6, 2, Probability::always());
    for _ in 0..20 {
        assert_eq!(
            roulette.trigger(0),
            TriggerOutcome { fired: FireResult::Jammed, reloaded: false, mute_until: None }
        );
    }
    exhaust(&mut roulette);
    let outcome = roulette.trigger(0);
    assert_eq!(
        outcome,
        TriggerOutcome { fired: FireResult::Jammed, reloaded: true, mute_until: None }
    );
    assert_eq!(roulette.peek(), (2, 6));
}

#[test]
fn trigger_plays_round_after_round() {
    let mut roulette = game(6, 2, Probability::never());
    let mut bullets = 0;
    let mut reloads = 0;
    for _ in 0..600 {
        let outcome = roulette.trigger(0);
        if outcome.fired == FireResult::Bullet {
            bullets += 1;
        }
        if outcome.reloaded {
            reloads += 1;
            assert_eq!(roulette.position(), 1);
        }
    }
    assert!(reloads >= 99);
    assert!(bullets >= 2 * reloads);
    assert!(bullets <= 2 * (reloads + 1));
}

#[test]
fn stalled_is_a_shot_that_finds_no_bullet() {
    let stalled = TriggerOutcome { fired: FireResult::NoBullets, reloaded: true, mute_until: None };
    assert!(stalled.stalled());
    let jammed = TriggerOutcome { fired: FireResult::Jammed, reloaded: true, mute_until: None };
    assert!(!jammed.stalled());
}

#[test]
fn membership_decides_who_administers() {
    assert!(Membership::Creator.is_admin());
    assert!(Membership::Administrator { can_restrict_members: false }.is_admin());
    assert!(Membership::Administrator { can_restrict_members: true }.is_admin());
    assert!(!Membership::Other.is_admin());
}

#[test]
fn membership_decides_who_may_restrict() {
    assert!(Membership::Creator.can_restrict());
    assert!(Membership::Administrator { can_restrict_members: true }.can_restrict());
    assert!(!Membership::Administrator { can_restrict_members: false }.can_restrict());
    assert!(!Membership::Other.can_restrict());
}

#[test]
fn admins_are_refused_and_the_revolver_is_kept() {
    let mut roulette = game(3, 1, Probability::never());
    assert!(roulette.load(&[0]));
    for sender in [Membership::Creator, Membership::Administrator { can_restrict_members: false }] {
        assert_eq!(RouletteCommand::play(&sender, &mut roulette, 100), Turn::Refused);
        assert_eq!(roulette.peek(), (1, 3));
        assert_eq!(roulette.position(), 0);
    }
}

#[test]
fn members_pull_the_trigger() {
    let mut roulette = game(3, 1, Probability::never());
    assert!(roulette.load(&[0]));
    match RouletteCommand::play(&Membership::Other, &mut roulette, 100) {
        Turn::Played(outcome) => {
            assert_eq!(outcome.fired, FireResult::Bullet);
            assert!(!outcome.reloaded);
            assert!((160..=700).contains(&outcome.mute_until.unwrap()));
        }
        Turn::Refused => panic!("a member may play"),
    }
    assert_eq!(roulette.peek(), (0, 2));
}

#[test]
fn admins_are_refused_whatever_the_clock_says() {
    let mut roulette = game(3, 1, Probability::never());
    assert!(roulette.load(&[2]));
    assert_eq!(RouletteCommand::play(&Membership::Creator, &mut roulette, u64::MAX), Turn::Refused);
    assert_eq!(roulette.peek(), (1, 3));
}

#[test]
fn an_exhausted_revolver_with_two_bullets_gives_a_shot_after_one_reload() {
    for _ in 0..100 {
        let mut roulette = game(7, 2, Probability::never());
        exhaust(&mut roulette);
        match RouletteCommand::play(&Membership::Other, &mut roulette, 42) {
            Turn::Played(outcome) => {
                assert!(outcome.reloaded);
                let filled = match outcome.fired {
                    FireResult::Bullet => 1,
                    FireResult::Empty => 2,
                    other => panic!("a revolver that never jams gave {other:?}"),
                };
                assert_eq!(roulette.peek(), (filled, 6));
                assert_eq!(roulette.position(), 1);
            }
            Turn::Refused => panic!("a member may play"),
        }
    }
}
