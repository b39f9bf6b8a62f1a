//! The rooms that play, each with a revolver of its own.

use crate::config::{ConfigError, GroupConfig, RouletteConfig};
use crate::coordinator::{triggers, TriggerOutcome};
use crate::roulette::Roulette;
use std::collections::HashMap;
use vstd::prelude::*;

verus! {

/// Maps the id of each provisioned room to what the room holds.
///
/// A registry of [`Roulette`] is driven through `&mut`, one trigger at a
/// time. A caller that serves rooms concurrently keeps each revolver behind
/// a guard of its own and uses the guard as `R`.
pub struct RoomRegistry<R> {
    rooms: HashMap<i64, R>,
}

impl<R> View for RoomRegistry<R> {
    type V = Map<i64, R>;

    closed spec fn view(&self) -> Map<i64, R> {
        self.rooms@
    }
}

impl<R> RoomRegistry<R> {
    /// A registry without rooms.
    pub fn new() -> (registry: Self)
        ensures
            registry@ == Map::<i64, R>::empty(),
    {
        RoomRegistry { rooms: HashMap::new() }
    }

    /// Stores `room` under `room_id` and hands back what the room held
    /// before, if it was provisioned already. No other room changes.
    pub fn insert(&mut self, room_id: i64, room: R) -> (previous: Option<R>)
        ensures
            final(self)@ == old(self)@.insert(room_id, room),
            previous == if old(self)@.dom().contains(room_id) {
                Some(old(self)@[room_id])
            } else {
                None
            },
    {
        broadcast use vstd::std_specs::hash::group_hash_axioms;

        self.rooms.insert(room_id, room)
    }

    /// What the room holds, or `None` for a room that is not provisioned.
    pub fn get(&self, room_id: i64) -> (room: Option<&R>)
        ensures
            room == if self@.dom().contains(room_id) {
                Some(&self@[room_id])
            } else {
                None
            },
    {
        broadcast use vstd::std_specs::hash::group_hash_axioms;

        self.rooms.get(&room_id)
    }

    /// Whether the room is provisioned.
    pub fn contains(&self, room_id: i64) -> (provisioned: bool)
        ensures
            provisioned == self@.dom().contains(room_id),
    {
        broadcast use vstd::std_specs::hash::group_hash_axioms;

        self.rooms.contains_key(&room_id)
    }

    /// Number of provisioned rooms.
    pub fn len(&self) -> (count: usize)
        ensures
            count == self@.len(),
    {
        broadcast use vstd::std_specs::hash::group_hash_axioms;

        self.rooms.len()
    }
}

impl RoomRegistry<Roulette> {
    /// Starts a game under `config` and stores it as the room's game,
    /// in place of the game that the room had, if any.
    ///
    /// A configuration that breaks a constraint is reported, and the registry
    /// stays as it is.
    pub fn provision_room(&mut self, room_id: i64, config: RouletteConfig) -> (provisioned: Result<
        (),
        ConfigError,
    >)
        ensures
            match config.first_violation() {
                Some(broken) => provisioned == Err::<(), ConfigError>(broken) && final(self)@
                    == old(self)@,
                None => {
                    &&& provisioned is Ok
                    &&& final(self)@.dom() == old(self)@.dom().insert(room_id)
                    &&& final(self)@[room_id]@.config == config
                    &&& final(self)@[room_id]@.position == 0
                    &&& final(self)@[room_id]@.wf()
                    &&& forall|other: i64|
                        other != room_id && old(self)@.dom().contains(other) ==> final(self)@[other]
                            == old(self)@[other]
                },
            },
    {
        match config.start() {
            Err(broken) => Err(broken),
            Ok(roulette) => {
                self.insert(room_id, roulette);
                Ok(())
            },
        }
    }

    /// Provisions the room of a group with the base configuration and the
    /// group's overrides.
    pub fn provision_group(&mut self, group: &GroupConfig, default: &RouletteConfig) -> (provisioned:
        Result<(), ConfigError>)
        ensures
            match group.resolved(*default).first_violation() {
                Some(broken) => provisioned == Err::<(), ConfigError>(broken) && final(self)@
                    == old(self)@,
                None => {
                    &&& provisioned is Ok
                    &&& final(self)@.dom() == old(self)@.dom().insert(group.id)
                    &&& final(self)@[group.id]@.config == group.resolved(*default)
                    &&& final(self)@[group.id]@.position == 0
                    &&& final(self)@[group.id]@.wf()
                    &&& forall|other: i64|
                        other != group.id && old(self)@.dom().contains(other) ==> final(self)@[other] == old(self)@[other]
                },
            },
    {
        self.provision_room(group.id, group.resolve(default))
    }

    /// Pulls the trigger in a room at the instant `now`, in seconds.
    ///
    /// Returns `None` for a room that is not provisioned, and leaves the
    /// registry as it is. Otherwise the room's revolver is triggered, and no
    /// other room changes.
    pub fn trigger(&mut self, room_id: i64, now: u64) -> (outcome: Option<TriggerOutcome>)
        requires
            old(self)@.dom().contains(room_id) ==> now + old(self)@[room_id]@.config.max_mute_time <= u64::MAX,
        ensures
            outcome is Some <==> old(self)@.dom().contains(room_id),
            outcome is None ==> final(self)@ == old(self)@,
            final(self)@.dom() == old(self)@.dom(),
            forall|other: i64|
                other != room_id && old(self)@.dom().contains(other) ==> final(self)@[other] == old(self)@[other],
            outcome matches Some(came) ==> triggers(
                old(self)@[room_id]@,
                final(self)@[room_id]@,
                now,
                came,
            ),
    {
        broadcast use vstd::std_specs::hash::group_hash_axioms;

        match self.rooms.remove(&room_id) {
            None => {
                assert(final(self)@ =~= old(self)@);
                None
            },
            Some(mut roulette) => {
                let came = roulette.trigger(now);
                self.rooms.insert(room_id, roulette);
                assert(final(self)@.dom() =~= old(self)@.dom());
                Some(came)
            },
        }
    }

    /// Counts the loaded chambers and the chambers that are left in a room,
    /// without touching them. Returns `None` for a room that is not
    /// provisioned.
    pub fn status(&self, room_id: i64) -> (counts: Option<(usize, usize)>)
        ensures
            counts is Some <==> self@.dom().contains(room_id),
            counts matches Some(seen) ==> seen.0 == self@[room_id]@.filled() && seen.1
                == self@[room_id]@.left(),
    {
        match self.get(room_id) {
            Some(roulette) => Some(roulette.peek()),
            None => None,
        }
    }
}

} // verus!
