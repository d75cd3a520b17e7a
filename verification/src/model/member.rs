//! Guild member objects.

use vstd::prelude::*;
use crate::model::snowflake::{Id, RoleMarker};
use crate::model::user::User;

verus! {

/// A member's flag bitfield, carried as received.
#[derive(Clone, Copy, Debug, Eq, Hash, PartialEq, Structural)]
pub struct MemberFlags {
    bits: u64,
}

impl View for MemberFlags {
    type V = u64;

    closed spec fn view(&self) -> u64 {
        self.bits
    }
}

impl MemberFlags {
    pub fn from_bits(bits: u64) -> (r: Self)
        ensures
            r@ == bits,
    {
        MemberFlags { bits }
    }

    pub fn bits(self) -> (r: u64)
        ensures
            r == self@,
    {
        self.bits
    }
}

/// A guild member: a user together with their guild-local state.
#[derive(Clone, Debug)]
pub struct Member {
    pub avatar: Option<String>,
    pub communication_disabled_until: Option<String>,
    pub deaf: bool,
    pub flags: MemberFlags,
    pub joined_at: Option<String>,
    pub mute: bool,
    pub nick: Option<String>,
    pub pending: bool,
    pub premium_since: Option<String>,
    pub roles: Vec<Id<RoleMarker>>,
    pub user: User,
}

} // verus!
