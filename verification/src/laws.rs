//! What holds of every game: properties of the revolver that follow from its
//! definition, each proved here.

use crate::chambers::{count_empty, count_loaded, lemma_count_push, lemma_count_skip};
use crate::config::{GroupConfig, RouletteConfig};
use crate::coordinator::{rewound, triggers, TriggerOutcome};
use crate::roulette::{lemma_filled_means_left, shot, FireResult, Revolver};
use vstd::prelude::*;
use vstd::seq_lib::*;

verus! {

impl Revolver {
    /// A chamber at `index` is live when it, or a chamber after it, is
    /// loaded.
    pub open spec fn live_at(self, index: int) -> bool {
        0 <= index < self.contents.len() && count_loaded(self.contents.skip(index)) > 0
    }

    /// The revolver after one attempt to fire for each entry of `jams`, in
    /// turn, where the entry tells whether that attempt jams; and what each
    /// attempt gave.
    pub open spec fn run(self, jams: Seq<bool>) -> (Revolver, Seq<FireResult>)
        decreases jams.len(),
    {
        if jams.len() == 0 {
            (self, Seq::empty())
        } else {
            let (before, results) = self.run(jams.drop_last());
            let (after, result) = before.fire(jams.last());
            (after, results.push(result))
        }
    }
}

/// What each chamber of `chambers` gives when it is fired.
pub open spec fn shots(chambers: Seq<bool>) -> Seq<FireResult> {
    Seq::new(chambers.len(), |i: int| shot(chambers[i]))
}

/// An attempt to fire never changes what a chamber holds nor the
/// configuration, never moves the cursor back, and keeps the revolver well
/// formed.
pub proof fn law_fire_keeps_cylinder(revolver: Revolver, jammed: bool)
    requires
        revolver.wf(),
    ensures
        revolver.fire(jammed).0.wf(),
        revolver.fire(jammed).0.contents == revolver.contents,
        revolver.fire(jammed).0.config == revolver.config,
        revolver.fire(jammed).0.position >= revolver.position,
{
    lemma_filled_means_left(revolver);
}

/// An attempt that jams, or that finds no loaded chamber, leaves the revolver
/// as it is; so counting the chambers before and after gives the same.
pub proof fn law_jam_consumes_nothing(revolver: Revolver)
    ensures
        revolver.fire(true).0 == revolver,
        revolver.fire(true).0.filled() == revolver.filled(),
        revolver.fire(true).0.left() == revolver.left(),
        revolver.fire(true).1 == if revolver.filled() == 0 {
            FireResult::NoBullets
        } else {
            FireResult::Jammed
        },
{
}

/// The chambers from a later index on hold no more bullets than those from
/// an earlier one.
pub proof fn lemma_count_skip_shrinks(chambers: Seq<bool>, from: int, to: int)
    requires
        0 <= from <= to <= chambers.len(),
    ensures
        count_loaded(chambers.skip(to)) <= count_loaded(chambers.skip(from)),
    decreases to - from,
{
    if from < to {
        lemma_count_skip(chambers, from);
        lemma_count_skip_shrinks(chambers, from + 1, to);
    }
}

/// Where the gun always jams and a loaded chamber is left, every attempt
/// reports `Jammed`, however many are made, and the revolver stays as it is.
pub proof fn law_certain_jam_stalls(revolver: Revolver, jams: Seq<bool>)
    requires
        revolver.filled() > 0,
        forall|i: int| 0 <= i < jams.len() ==> jams[i],
    ensures
        revolver.run(jams).0 == revolver,
        revolver.run(jams).1.len() == jams.len(),
        forall|i: int| 0 <= i < jams.len() ==> revolver.run(jams).1[i] == FireResult::Jammed,
    decreases jams.len(),
{
    if jams.len() > 0 {
        law_certain_jam_stalls(revolver, jams.drop_last());
    }
}

/// Where the gun never jams, the chambers are consumed in order: the attempt
/// number `i` reports what the chamber `i` places after the cursor holds, as
/// long as that chamber is live, and `NoBullets` afterwards.
pub proof fn law_chambers_fire_in_order(revolver: Revolver, jams: Seq<bool>)
    requires
        revolver.position <= revolver.contents.len(),
        forall|i: int| 0 <= i < jams.len() ==> !jams[i],
    ensures
        revolver.run(jams).0.contents == revolver.contents,
        revolver.run(jams).0.config == revolver.config,
        revolver.position <= revolver.run(jams).0.position <= revolver.contents.len(),
        revolver.run(jams).0.position == revolver.position + jams.len()
            || revolver.run(jams).0.filled() == 0,
        revolver.run(jams).0.position <= revolver.position + jams.len(),
        revolver.run(jams).1.len() == jams.len(),
        forall|i: int|
            0 <= i < jams.len() ==> #[trigger] revolver.run(jams).1[i] == if revolver.live_at(
                revolver.position + i,
            ) {
                shot(revolver.contents[revolver.position + i])
            } else {
                FireResult::NoBullets
            },
    decreases jams.len(),
{
    if jams.len() > 0 {
        let earlier = jams.drop_last();
        law_chambers_fire_in_order(revolver, earlier);
        let before = revolver.run(earlier).0;
        let target = (revolver.position + earlier.len()) as int;
        lemma_filled_means_left(before);
        if before.position != target {
            if target <= revolver.contents.len() {
                lemma_count_skip_shrinks(revolver.contents, before.position as int, target);
            }
        }
    }
}

/// Firing every chamber gives as many `Bullet` as chambers are loaded and as
/// many `Empty` as are not.
pub proof fn lemma_shots_count(chambers: Seq<bool>)
    ensures
        shots(chambers).to_multiset().count(FireResult::Bullet) == count_loaded(chambers),
        shots(chambers).to_multiset().count(FireResult::Empty) == count_empty(chambers),
    decreases chambers.len(),
{
    broadcast use vstd::multiset::group_multiset_axioms;

    if chambers.len() == 0 {
        to_multiset_len(chambers);
        to_multiset_len(shots(chambers));
    } else {
        let earlier = chambers.drop_last();
        lemma_shots_count(earlier);
        lemma_count_push(earlier, chambers.last());
        assert(earlier.push(chambers.last()) =~= chambers);
        assert(shots(earlier).push(shot(chambers.last())) =~= shots(chambers));
        to_multiset_build(shots(earlier), shot(chambers.last()));
    }
}

/// Where the gun never jams and the last chamber is loaded, firing a freshly
/// loaded revolver once per chamber reports the chambers in the order in
/// which they were loaded: a `Bullet` for each bullet and an `Empty` for each
/// other chamber. Every attempt after that reports `NoBullets`.
pub proof fn law_sequential_exhaustion(revolver: Revolver, jams: Seq<bool>)
    requires
        revolver.wf(),
        revolver.position == 0,
        revolver.contents.last(),
        jams.len() > revolver.contents.len(),
        forall|i: int| 0 <= i < jams.len() ==> !jams[i],
    ensures
        revolver.run(jams).1.len() == jams.len(),
        revolver.run(jams).1.take(revolver.contents.len() as int) == shots(revolver.contents),
        forall|i: int|
            revolver.contents.len() <= i < jams.len() ==> revolver.run(jams).1[i]
                == FireResult::NoBullets,
        revolver.run(jams).1.take(revolver.contents.len() as int).to_multiset().count(
            FireResult::Bullet,
        ) == revolver.config.bullets,
        revolver.run(jams).1.take(revolver.contents.len() as int).to_multiset().count(
            FireResult::Empty,
        ) == revolver.config.chambers - revolver.config.bullets,
{
    let chambers = revolver.contents;
    let count = chambers.len() as int;
    let results = revolver.run(jams).1;
    law_chambers_fire_in_order(revolver, jams);
    assert forall|i: int| 0 <= i < count implies revolver.live_at(i) by {
        lemma_count_skip_shrinks(chambers, i, count - 1);
        lemma_count_skip(chambers, count - 1);
    }
    assert forall|i: int| 0 <= i < count implies results.take(count)[i] == shots(chambers)[i] by {
        assert(results.take(count)[i] == results[i]);
    }
    assert(results.take(count) =~= shots(chambers));
    lemma_shots_count(chambers);
    crate::chambers::lemma_loaded_and_empty(chambers);
}

/// Where `results` reports a `Bullet` exactly for the loaded chambers, it
/// holds as many `Bullet` as chambers are loaded.
pub proof fn lemma_bullets_match(results: Seq<FireResult>, chambers: Seq<bool>)
    requires
        results.len() == chambers.len(),
        forall|i: int|
            0 <= i < chambers.len() ==> (#[trigger] results[i] == FireResult::Bullet) == chambers[i],
    ensures
        results.to_multiset().count(FireResult::Bullet) == count_loaded(chambers),
    decreases chambers.len(),
{
    broadcast use vstd::multiset::group_multiset_axioms;

    if chambers.len() == 0 {
        to_multiset_len(chambers);
        to_multiset_len(results);
    } else {
        lemma_bullets_match(results.drop_last(), chambers.drop_last());
        lemma_count_push(chambers.drop_last(), chambers.last());
        assert(chambers.drop_last().push(chambers.last()) =~= chambers);
        assert(results.drop_last().push(results.last()) =~= results);
        to_multiset_build(results.drop_last(), results.last());
    }
}

/// Where the gun never jams, firing a freshly loaded revolver once per
/// chamber reports a `Bullet` for each bullet, wherever the bullets lie.
pub proof fn law_every_bullet_is_fired(revolver: Revolver, jams: Seq<bool>)
    requires
        revolver.wf(),
        revolver.position == 0,
        jams.len() == revolver.contents.len(),
        forall|i: int| 0 <= i < jams.len() ==> !jams[i],
    ensures
        revolver.run(jams).1.len() == revolver.config.chambers,
        revolver.run(jams).1.to_multiset().count(FireResult::Bullet) == revolver.config.bullets,
        revolver.run(jams).0.filled() == 0,
{
    let chambers = revolver.contents;
    let results = revolver.run(jams).1;
    law_chambers_fire_in_order(revolver, jams);
    assert forall|i: int| 0 <= i < chambers.len() implies (#[trigger] results[i]
        == FireResult::Bullet) == chambers[i] by {
        if chambers[i] {
            lemma_count_skip(chambers, i);
        }
    }
    lemma_bullets_match(results, chambers);
    let after = revolver.run(jams).0;
    if after.position == chambers.len() {
        crate::chambers::lemma_count_zero(after.remaining());
    }
}

/// A pull of the trigger on an exhausted revolver reloads it and fires once:
/// the cursor stands at the first chamber if the gun jammed, and behind it
/// otherwise, with the shot reporting what the first chamber holds. Where the
/// gun never jams, the shot is `Bullet` or `Empty`, and one chamber fewer is
/// left, with one bullet fewer if the shot was live.
pub proof fn law_exhausted_trigger_reloads(
    before: Revolver,
    after: Revolver,
    now: u64,
    outcome: TriggerOutcome,
)
    requires
        before.wf(),
        before.filled() == 0,
        triggers(before, after, now, outcome),
    ensures
        outcome.reloaded,
        outcome.fired == FireResult::Jammed || outcome.fired == shot(after.contents[0]),
        outcome.fired == FireResult::Jammed ==> after.position == 0 && after.filled()
            == before.config.bullets && after.left() == before.config.chambers,
        outcome.fired != FireResult::Jammed ==> after.position == 1 && after.left()
            == before.config.chambers - 1,
        outcome.fired == FireResult::Bullet ==> after.filled() == before.config.bullets - 1,
        outcome.fired == FireResult::Empty ==> after.filled() == before.config.bullets,
        before.config.jam_probability.is_never() ==> outcome.fired == FireResult::Bullet
            || outcome.fired == FireResult::Empty,
        before.config.jam_probability.is_certain() ==> outcome.fired == FireResult::Jammed,
{
    let fresh = rewound(after);
    assert(fresh.remaining() =~= fresh.contents);
    lemma_count_skip(after.contents, 0);
    assert(fresh.advanced().remaining() =~= after.contents.skip(1));
}

/// A pull of the trigger on a revolver with a loaded chamber left fires it as
/// it is, without a reload.
pub proof fn law_loaded_trigger_fires(
    before: Revolver,
    after: Revolver,
    now: u64,
    outcome: TriggerOutcome,
)
    requires
        before.wf(),
        before.filled() > 0,
        triggers(before, after, now, outcome),
    ensures
        !outcome.reloaded,
        after.contents == before.contents,
        outcome.fired == FireResult::Jammed ==> after == before,
        outcome.fired != FireResult::Jammed ==> after == before.advanced() && outcome.fired
            == shot(before.contents[before.position as int]),
{
}

/// A group that overrides nothing but the number of bullets plays with the
/// base configuration in everything else.
pub proof fn law_override_bullets_only(group: GroupConfig, base: RouletteConfig, bullets: usize)
    requires
        group.chambers is None,
        group.bullets == Some(bullets),
        group.jam_probability is None,
        group.min_mute_time is None,
        group.max_mute_time is None,
    ensures
        group.resolved(base) == (RouletteConfig { bullets, ..base }),
{
}

/// A group that overrides nothing plays with the base configuration.
pub proof fn law_no_override(group: GroupConfig, base: RouletteConfig)
    requires
        group.chambers is None,
        group.bullets is None,
        group.jam_probability is None,
        group.min_mute_time is None,
        group.max_mute_time is None,
    ensures
        group.resolved(base) == base,
{
}

} // verus!
