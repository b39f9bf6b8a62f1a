//! How long a player who was shot stays muted.

use crate::config::RouletteConfig;
use crate::random::draw_between;
use vstd::prelude::*;

verus! {

/// The instant at which a mute of `duration` seconds that starts at `now`
/// ends.
pub fn to_absolute(duration: u64, now: u64) -> (until: u64)
    requires
        now + duration <= u64::MAX,
    ensures
        until == now + duration,
{
    now + duration
}

impl RouletteConfig {
    /// Draws a mute time, in seconds, between the configured minimum and
    /// maximum, both included.
    pub fn random_mute_duration(&self) -> (seconds: u64)
        requires
            self.min_mute_time <= self.max_mute_time,
        ensures
            self.min_mute_time <= seconds <= self.max_mute_time,
            self.min_mute_time == self.max_mute_time ==> seconds == self.min_mute_time,
    {
        let drawn = draw_between(self.min_mute_time, self.max_mute_time);
        drawn as u64
    }

    /// Generate a random mute time and the time until which the user will be
    /// muted, counted from `now`.
    pub fn random_mute_until(&self, now: u64) -> (mute: (u64, u64))
        requires
            self.min_mute_time <= self.max_mute_time,
            now + self.max_mute_time <= u64::MAX,
        ensures
            self.min_mute_time <= mute.0 <= self.max_mute_time,
            mute.1 == now + mute.0,
    {
        // Generate a random mute time between min and max
        let duration = self.random_mute_duration();
        // Add to current time
        (duration, to_absolute(duration, now))
    }
}

} // verus!
