//! Game parameters, their validation, and per-group overrides.

use crate::constants;
use crate::probability::Probability;
use vstd::prelude::*;

verus! {

/// The constraint that a configuration breaks.
#[derive(Clone, Copy, Debug, PartialEq, Eq, Structural)]
pub enum ConfigError {
    /// The revolver has no chamber.
    NoChambers,
    /// The revolver is loaded with no bullet.
    NoBullets,
    /// There are more bullets than chambers.
    TooManyBullets,
    /// The minimum mute time is under thirty seconds.
    MuteTooShort,
    /// The maximum mute time is over an hour.
    MuteTooLong,
    /// The minimum mute time exceeds the maximum.
    MuteBoundsInverted,
}

impl ConfigError {
    /// The constraint in words.
    pub fn message(&self) -> (text: &'static str)
        ensures
            text@ == match self {
                ConfigError::NoChambers => "Number of chambers must be greater than 0"@,
                ConfigError::NoBullets => "Number of bullets must be greater than 0"@,
                ConfigError::TooManyBullets =>
                    "Number of bullets must be less than or equal to number of chambers"@,
                ConfigError::MuteTooShort =>
                    "Minimum mute time must be greater than or equal to 30 seconds"@,
                ConfigError::MuteTooLong =>
                    "Maximum mute time must be less than or equal to 3600 seconds"@,
                ConfigError::MuteBoundsInverted =>
                    "Minimum mute time must be less than or equal to maximum mute time"@,
            },
    {
        match self {
            ConfigError::NoChambers => "Number of chambers must be greater than 0",
            ConfigError::NoBullets => "Number of bullets must be greater than 0",
            ConfigError::TooManyBullets =>
                "Number of bullets must be less than or equal to number of chambers",
            ConfigError::MuteTooShort =>
                "Minimum mute time must be greater than or equal to 30 seconds",
            ConfigError::MuteTooLong =>
                "Maximum mute time must be less than or equal to 3600 seconds",
            ConfigError::MuteBoundsInverted =>
                "Minimum mute time must be less than or equal to maximum mute time",
        }
    }
}

/// Configuration for the Russian Roulette game.
#[derive(Clone, Copy, Debug)]
pub struct RouletteConfig {
    /// Number of chambers in the revolver.
    pub chambers: usize,
    /// Number of bullets in the revolver.
    pub bullets: usize,
    /// Probability of the gun getting jammed.
    pub jam_probability: Probability,
    /// Minimum time to mute in seconds.
    pub min_mute_time: u32,
    /// Maximum time to mute in seconds.
    pub max_mute_time: u32,
}

impl RouletteConfig {
    /// The first constraint that this configuration breaks, if any.
    ///
    /// The constraints are, in the order in which they are examined: there is
    /// a chamber; there is a bullet; the bullets fit in the chambers; the
    /// shortest mute lasts thirty seconds or more; the longest mute lasts an
    /// hour or less; the shortest mute is no longer than the longest.
    pub open spec fn first_violation(self) -> Option<ConfigError> {
        if self.chambers == 0 {
            Some(ConfigError::NoChambers)
        } else if self.bullets == 0 {
            Some(ConfigError::NoBullets)
        } else if self.bullets > self.chambers {
            Some(ConfigError::TooManyBullets)
        } else if self.min_mute_time < constants::SHORTEST_MUTE {
            Some(ConfigError::MuteTooShort)
        } else if self.max_mute_time > constants::LONGEST_MUTE {
            Some(ConfigError::MuteTooLong)
        } else if self.min_mute_time > self.max_mute_time {
            Some(ConfigError::MuteBoundsInverted)
        } else {
            None
        }
    }

    /// A configuration is valid when it breaks no constraint.
    pub open spec fn valid(self) -> bool {
        &&& 0 < self.bullets <= self.chambers
        &&& constants::SHORTEST_MUTE <= self.min_mute_time <= self.max_mute_time
            <= constants::LONGEST_MUTE
    }

    /// Checks the constraints in order and reports the first broken one.
    pub fn validate(self) -> (checked: Result<RouletteConfig, ConfigError>)
        ensures
            checked == match self.first_violation() {
                Some(broken) => Err::<RouletteConfig, ConfigError>(broken),
                None => Ok(self),
            },
            checked is Ok <==> self.valid(),
    {
        if self.chambers == 0 {
            return Err(ConfigError::NoChambers);
        }
        if self.bullets == 0 {
            return Err(ConfigError::NoBullets);
        }
        if self.bullets > self.chambers {
            return Err(ConfigError::TooManyBullets);
        }
        if self.min_mute_time < constants::SHORTEST_MUTE {
            return Err(ConfigError::MuteTooShort);
        }
        if self.max_mute_time > constants::LONGEST_MUTE {
            return Err(ConfigError::MuteTooLong);
        }
        if self.min_mute_time > self.max_mute_time {
            return Err(ConfigError::MuteBoundsInverted);
        }
        Ok(self)
    }
}

impl Default for RouletteConfig {
    /// Six chambers, two bullets, a jam in one shot of twenty, and a mute of
    /// one to ten minutes.
    fn default() -> (config: Self)
        ensures
            config.chambers == 6,
            config.bullets == 2,
            config.jam_probability.spec_numerator() == 1,
            config.jam_probability.spec_denominator() == 20,
            config.min_mute_time == 60,
            config.max_mute_time == 600,
            config.valid(),
    {
        Self {
            chambers: constants::chambers(),
            bullets: constants::bullets(),
            jam_probability: constants::jam_probability(),
            min_mute_time: constants::min_mute_time(),
            max_mute_time: constants::max_mute_time(),
        }
    }
}

/// Configuration for a group: the group's id and the parameters that it
/// overrides.
#[derive(Clone, Copy, Debug)]
pub struct GroupConfig {
    /// The ID of the group.
    pub id: i64,
    /// Override number of chambers in the revolver.
    pub chambers: Option<usize>,
    /// Override number of bullets in the revolver.
    pub bullets: Option<usize>,
    /// Override probability of the gun getting jammed.
    pub jam_probability: Option<Probability>,
    /// Override minimum time to mute in seconds.
    pub min_mute_time: Option<u32>,
    /// Override maximum time to mute in seconds.
    pub max_mute_time: Option<u32>,
}

/// The override where there is one, the base value where there is none.
pub open spec fn or_base<T>(overriding: Option<T>, base: T) -> T {
    match overriding {
        Some(value) => value,
        None => base,
    }
}

impl GroupConfig {
    /// The configuration that this group plays with, given the base one.
    pub open spec fn resolved(self, base: RouletteConfig) -> RouletteConfig {
        RouletteConfig {
            chambers: or_base(self.chambers, base.chambers),
            bullets: or_base(self.bullets, base.bullets),
            jam_probability: or_base(self.jam_probability, base.jam_probability),
            min_mute_time: or_base(self.min_mute_time, base.min_mute_time),
            max_mute_time: or_base(self.max_mute_time, base.max_mute_time),
        }
    }

    /// Resolves to a [`RouletteConfig`]: each parameter is the group's
    /// override where it has one, and the base value otherwise. The result is
    /// not validated.
    pub fn resolve(&self, default: &RouletteConfig) -> (resolved: RouletteConfig)
        ensures
            resolved == self.resolved(*default),
    {
        let chambers = match self.chambers {
            Some(value) => value,
            None => default.chambers,
        };
        let bullets = match self.bullets {
            Some(value) => value,
            None => default.bullets,
        };
        let jam_probability = match self.jam_probability {
            Some(value) => value,
            None => default.jam_probability,
        };
        let min_mute_time = match self.min_mute_time {
            Some(value) => value,
            None => default.min_mute_time,
        };
        let max_mute_time = match self.max_mute_time {
            Some(value) => value,
            None => default.max_mute_time,
        };
        RouletteConfig { chambers, bullets, jam_probability, min_mute_time, max_mute_time }
    }
}

} // verus!
