//! What a member of a chat may do, as far as the game asks.

use vstd::prelude::*;

verus! {

/// The standing of a user in a chat.
#[derive(Debug, Clone, Copy, PartialEq, Eq, Structural)]
pub enum Membership {
    /// The user created the chat.
    Creator,
    /// The user administers the chat.
    Administrator {
        /// Whether the administrator may restrict other members.
        can_restrict_members: bool,
    },
    /// Anyone else.
    Other,
}

impl Membership {
    /// Whether the user created or administers the chat.
    pub open spec fn spec_is_admin(&self) -> bool {
        self is Creator || self is Administrator
    }

    /// Whether the user may restrict other members: the creator may, and an
    /// administrator who was given that right.
    pub open spec fn spec_can_restrict(&self) -> bool {
        match self {
            Membership::Creator => true,
            Membership::Administrator { can_restrict_members } => *can_restrict_members,
            Membership::Other => false,
        }
    }

    /// Whether the user created or administers the chat.
    #[verifier::when_used_as_spec(spec_is_admin)]
    pub fn is_admin(&self) -> (admin: bool)
        ensures
            admin == self.spec_is_admin(),
    {
        match self {
            Membership::Creator => true,
            Membership::Administrator { .. } => true,
            Membership::Other => false,
        }
    }

    /// Whether the user may restrict other members.
    #[verifier::when_used_as_spec(spec_can_restrict)]
    pub fn can_restrict(&self) -> (may: bool)
        ensures
            may == self.spec_can_restrict(),
    {
        match self {
            Membership::Creator => true,
            Membership::Administrator { can_restrict_members } => *can_restrict_members,
            Membership::Other => false,
        }
    }
}

} // verus!
