//! What happens when a player pulls the trigger: the shot, the reload when
//! the revolver is exhausted, and the mute when the shot was live.

use crate::roulette::{fires, FireResult, Revolver, Roulette};
use vstd::prelude::*;

verus! {

/// What one pull of the trigger came to.
#[derive(Debug, Clone, Copy, PartialEq, Eq, Structural)]
pub struct TriggerOutcome {
    /// Result of the shot.
    pub fired: FireResult,
    /// Whether the revolver was reloaded before the shot.
    pub reloaded: bool,
    /// The instant until which the player is muted, if the shot was live.
    pub mute_until: Option<u64>,
}

impl TriggerOutcome {
    /// Whether the revolver gave no shot even after a reload.
    pub open spec fn is_stalled(self) -> bool {
        self.fired == FireResult::NoBullets
    }

    /// Whether the revolver gave no shot even after a reload. This never
    /// happens to a revolver with a valid configuration.
    pub fn stalled(&self) -> (stalled: bool)
        ensures
            stalled == self.is_stalled(),
    {
        match self.fired {
            FireResult::NoBullets => true,
            _ => false,
        }
    }
}

/// The revolver with its cursor back at the first chamber.
pub open spec fn rewound(revolver: Revolver) -> Revolver {
    Revolver { position: 0, ..revolver }
}

/// `outcome` is what a pull of the trigger at the instant `now` can come to
/// on the revolver `before`, and `after` is the revolver that it leaves.
///
/// With a loaded chamber left, the revolver is fired as it is. With none
/// left, it is first reloaded under the same configuration, and then fired
/// once. The player is muted exactly when the shot was live, for a time
/// within the configured bounds.
pub open spec fn triggers(
    before: Revolver,
    after: Revolver,
    now: u64,
    outcome: TriggerOutcome,
) -> bool {
    &&& after.wf()
    &&& after.config == before.config
    &&& outcome.reloaded == (before.filled() == 0)
    &&& if outcome.reloaded {
        fires(rewound(after), after, outcome.fired)
    } else {
        fires(before, after, outcome.fired)
    }
    &&& !outcome.is_stalled()
    &&& outcome.mute_until is Some <==> outcome.fired == FireResult::Bullet
    &&& outcome.mute_until matches Some(until) ==> now + before.config.min_mute_time <= until
        <= now + before.config.max_mute_time
}

impl Roulette {
    /// Pulls the trigger once at the instant `now`, in seconds.
    ///
    /// Fires the revolver. If it is exhausted, reloads it and fires exactly
    /// once more. A live shot comes with the instant until which the player
    /// is muted.
    pub fn trigger(&mut self, now: u64) -> (outcome: TriggerOutcome)
        requires
            now + old(self)@.config.max_mute_time <= u64::MAX,
        ensures
            triggers(old(self)@, final(self)@, now, outcome),
    {
        let first = self.fire();
        let (fired, reloaded) = match first {
            FireResult::NoBullets => {
                self.reload();
                assert(rewound(self@) == self@);
                (self.fire(), true)
            },
            _ => (first, false),
        };
        let mute_until = match fired {
            FireResult::Bullet => Some(self.random_mute_until(now).1),
            _ => None,
        };
        TriggerOutcome { fired, reloaded, mute_until }
    }
}

} // verus!
