use rustacean_roulette::constants;
use rustacean_roulette::defaults;
use rustacean_roulette::{ConfigError, GroupConfig, Probability, RouletteConfig};

fn same(left: &RouletteConfig, right: &RouletteConfig) -> bool {
    left.chambers == right.chambers
        && left.bullets == right.bullets
        && left.jam_probability.numerator() == right.jam_probability.numerator()
        && left.jam_probability.denominator() == right.jam_probability.denominator()
        && left.min_mute_time == right.min_mute_time
        && left.max_mute_time == right.max_mute_time
}

fn no_override(id: i64) -> GroupConfig {
    GroupConfig {
        id,
        chambers: None,
        bullets: None,
        jam_probability: None,
        min_mute_time: None,
        max_mute_time: None,
    }
}

#[test]
fn defaults_are_six_chambers_and_two_bullets() {
    assert_eq!(defaults::chambers(), 6);
    assert_eq!(defaults::bullets(), 2);
    assert_eq!(defaults::min_mute_time(), 60);
    assert_eq!(defaults::max_mute_time(), 600);
    assert_eq!(constants::chambers(), 6);
    assert_eq!(constants::bullets(), 2);
    assert_eq!(constants::min_mute_time(), 60);
    assert_eq!(constants::max_mute_time(), 600);
    assert_eq!(constants::jam_probability().numerator(), 1);
    assert_eq!(constants::jam_probability().denominator(), 20);
    assert_eq!(constants::SHORTEST_MUTE, 30);
    assert_eq!(constants::LONGEST_MUTE, 3600);
}

#[test]
fn default_config_is_valid() {
    let config = RouletteConfig::default();
    assert_eq!(config.info(), (2, 6));
    assert_eq!(config.min_mute_time, 60);
    assert_eq!(config.max_mute_time, 600);
    assert_eq!(config.jam_probability.numerator(), 1);
    assert_eq!(config.jam_probability.denominator(), 20);
    assert!(config.validate().is_ok());
    assert!(same(&config.validate().unwrap(), &config));
}

#[test]
fn validate_checks_in_order() {
    let base = RouletteConfig::default();
    let broken = |config: RouletteConfig| config.validate().unwrap_err();
    assert_eq!(broken(RouletteConfig { chambers: 0, ..base }), ConfigError::NoChambers);
    assert_eq!(broken(RouletteConfig { chambers: 0, bullets: 0, ..base }), ConfigError::NoChambers);
    assert_eq!(broken(RouletteConfig { bullets: 0, ..base }), ConfigError::NoBullets);
    assert_eq!(
        broken(RouletteConfig { bullets: 0, min_mute_time: 0, ..base }),
        ConfigError::NoBullets
    );
    assert_eq!(broken(RouletteConfig { bullets: 7, ..base }), ConfigError::TooManyBullets);
    assert_eq!(
        broken(RouletteConfig { bullets: 7, max_mute_time: 9999, ..base }),
        ConfigError::TooManyBullets
    );
    assert_eq!(broken(RouletteConfig { min_mute_time: 29, ..base }), ConfigError::MuteTooShort);
    assert_eq!(
        broken(RouletteConfig { min_mute_time: 29, max_mute_time: 3601, ..base }),
        ConfigError::MuteTooShort
    );
    assert_eq!(broken(RouletteConfig { max_mute_time: 3601, ..base }), ConfigError::MuteTooLong);
    assert_eq!(
        broken(RouletteConfig { min_mute_time: 4000, max_mute_time: 3601, ..base }),
        ConfigError::MuteTooLong
    );
    assert_eq!(
        broken(RouletteConfig { min_mute_time: 601, ..base }),
        ConfigError::MuteBoundsInverted
    );
}

#[test]
fn validate_accepts_the_bounds() {
    let base = RouletteConfig::default();
    assert!(RouletteConfig { chambers: 1, bullets: 1, ..base }.validate().is_ok());
    assert!(RouletteConfig { bullets: 6, ..base }.validate().is_ok());
    assert!(RouletteConfig { min_mute_time: 30, max_mute_time: 30, ..base }.validate().is_ok());
    assert!(RouletteConfig { min_mute_time: 3600, max_mute_time: 3600, ..base }
        .validate()
        .is_ok());
    assert!(RouletteConfig { min_mute_time: 30, max_mute_time: 3600, ..base }.validate().is_ok());
}

#[test]
fn messages_name_the_constraint() {
    assert_eq!(ConfigError::NoChambers.message(), "Number of chambers must be greater than 0");
    assert_eq!(ConfigError::NoBullets.message(), "Number of bullets must be greater than 0");
    assert_eq!(
        ConfigError::TooManyBullets.message(),
        "Number of bullets must be less than or equal to number of chambers"
    );
    assert_eq!(
        ConfigError::MuteTooShort.message(),
        "Minimum mute time must be greater than or equal to 30 seconds"
    );
    assert_eq!(
        ConfigError::MuteTooLong.message(),
        "Maximum mute time must be less than or equal to 3600 seconds"
    );
    assert_eq!(
        ConfigError::MuteBoundsInverted.message(),
        "Minimum mute time must be less than or equal to maximum mute time"
    );
}

#[test]
fn resolve_with_only_bullets_keeps_the_rest() {
    let base = RouletteConfig {
        chambers: 8,
        bullets: 2,
        jam_probability: Probability::new(3, 10).unwrap(),
        min_mute_time: 90,
        max_mute_time: 900,
    };
    let group = GroupConfig { bullets: Some(5), ..no_override(-1001) };
    let resolved = group.resolve(&base);
    assert!(same(&resolved, &RouletteConfig { bullets: 5, ..base }));
    assert_eq!(resolved.chambers, 8);
    assert_eq!(resolved.bullets, 5);
    assert_eq!(resolved.jam_probability.numerator(), 3);
    assert_eq!(resolved.jam_probability.denominator(), 10);
    assert_eq!(resolved.min_mute_time, 90);
    assert_eq!(resolved.max_mute_time, 900);
}

#[test]
fn resolve_without_override_is_the_base() {
    let base = RouletteConfig::default();
    assert!(same(&no_override(7).resolve(&base), &base));
}

#[test]
fn resolve_takes_every_override() {
    let base = RouletteConfig::default();
    let group = GroupConfig {
        id: 42,
        chambers: Some(10),
        bullets: Some(9),
        jam_probability: Some(Probability::always()),
        min_mute_time: Some(31),
        max_mute_time: Some(32),
    };
    let expected = RouletteConfig {
        chambers: 10,
        bullets: 9,
        jam_probability: Probability::always(),
        min_mute_time: 31,
        max_mute_time: 32,
    };
    assert!(same(&group.resolve(&base), &expected));
}

#[test]
fn resolve_does_not_validate() {
    let base = RouletteConfig::default();
    let group = GroupConfig { bullets: Some(7), ..no_override(1) };
    let resolved = group.resolve(&base);
    assert_eq!(resolved.bullets, 7);
    assert_eq!(resolved.validate().unwrap_err(), ConfigError::TooManyBullets);
}

#[test]
fn probability_is_a_ratio_in_the_unit_interval() {
    assert!(Probability::new(0, 1).is_some());
    assert!(Probability::new(1, 1).is_some());
    assert!(Probability::new(1, 20).is_some());
    assert!(Probability::new(u32::MAX, u32::MAX).is_some());
    assert!(Probability::new(0, 0).is_none());
    assert!(Probability::new(1, 0).is_none());
    assert!(Probability::new(2, 1).is_none());
    assert!(Probability::new(21, 20).is_none());
    let chance = Probability::new(3, 7).unwrap();
    assert_eq!((chance.numerator(), chance.denominator()), (3, 7));
    assert_eq!((Probability::never().numerator(), Probability::never().denominator()), (0, 1));
    assert_eq!((Probability::always().numerator(), Probability::always().denominator()), (1, 1));
}
