//! Constants of the game.

use crate::defaults;
use crate::probability::Probability;
use vstd::prelude::*;

verus! {

/// Shortest mute, in seconds, that a configuration may ask for.
pub const SHORTEST_MUTE: u32 = 30;

/// Longest mute, in seconds, that a configuration may ask for.
pub const LONGEST_MUTE: u32 = 3600;

/// Default number of chambers in the revolver.
pub fn chambers() -> (n: usize)
    ensures
        n == 6,
{
    defaults::chambers()
}

/// Default number of bullets in the revolver.
pub fn bullets() -> (n: usize)
    ensures
        n == 2,
{
    defaults::bullets()
}

/// Default probability of the gun getting jammed: one in twenty.
pub fn jam_probability() -> (p: Probability)
    ensures
        p.spec_numerator() == 1,
        p.spec_denominator() == 20,
{
    Probability::new(1, 20).unwrap()
}

/// Default minimum time to mute in seconds.
pub fn min_mute_time() -> (seconds: u32)
    ensures
        seconds == 60,
{
    defaults::min_mute_time()
}

/// Default maximum time to mute in seconds.
pub fn max_mute_time() -> (seconds: u32)
    ensures
        seconds == 600,
{
    defaults::max_mute_time()
}

} // verus!
