//! The command that plays a turn.

use crate::coordinator::{triggers, TriggerOutcome};
use crate::membership::Membership;
use crate::roulette::Roulette;
use vstd::prelude::*;

verus! {

/// Joins the roulette game.
pub struct RouletteCommand;

/// What became of a player's turn.
#[derive(Debug, Clone, Copy, PartialEq, Eq, Structural)]
pub enum Turn {
    /// The sender created or administers the chat, and may not play.
    Refused,
    /// The trigger was pulled.
    Played(TriggerOutcome),
}

impl RouletteCommand {
    /// Trigger word.
    pub const TRIGGER: &'static str = "roulette";

    /// Help message.
    pub const HELP: &'static str = "Joins the roulette game.";

    /// Plays the turn of `sender` at the instant `now`, in seconds.
    ///
    /// One who created or administers the chat cannot be muted and is
    /// refused; the revolver stays as it is. For anyone else the trigger is
    /// pulled.
    pub fn play(sender: &Membership, roulette: &mut Roulette, now: u64) -> (turn: Turn)
        requires
            !sender.is_admin() ==> now + old(roulette)@.config.max_mute_time <= u64::MAX,
        ensures
            sender.is_admin() ==> turn == Turn::Refused && final(roulette)@ == old(roulette)@,
            !sender.is_admin() ==> (turn matches Turn::Played(outcome) && triggers(
                old(roulette)@,
                final(roulette)@,
                now,
                outcome,
            )),
    {
        if sender.is_admin() {
            return Turn::Refused;
        }
        Turn::Played(roulette.trigger(now))
    }
}

} // verus!
