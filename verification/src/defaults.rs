//! Default values for the game.

use vstd::prelude::*;

verus! {

/// Default number of chambers in the revolver.
pub fn chambers() -> (n: usize)
    ensures
        n == 6,
{
    6
}

/// Default number of bullets in the revolver.
pub fn bullets() -> (n: usize)
    ensures
        n == 2,
{
    2
}

/// Default minimum time to mute in seconds.
pub fn min_mute_time() -> (seconds: u32)
    ensures
        seconds == 60,
{
    60
}

/// Default maximum time to mute in seconds.
pub fn max_mute_time() -> (seconds: u32)
    ensures
        seconds == 600,
{
    600
}

} // verus!
