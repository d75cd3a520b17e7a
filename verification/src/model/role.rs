//! Role objects.

use vstd::prelude::*;
use crate::model::guild::Permissions;
use crate::model::snowflake::{Id, IntegrationMarker, RoleMarker, SkuMarker, UserMarker};

verus! {

/// A role's flag bitfield, carried as received.
#[derive(Clone, Copy, Debug, Eq, Hash, PartialEq, Structural)]
pub struct RoleFlags {
    bits: u64,
}

impl View for RoleFlags {
    type V = u64;

    closed spec fn view(&self) -> u64 {
        self.bits
    }
}

impl RoleFlags {
    pub fn from_bits(bits: u64) -> (r: Self)
        ensures
            r@ == bits,
    {
        RoleFlags { bits }
    }

    pub fn bits(self) -> (r: u64)
        ensures
            r == self@,
    {
        self.bits
    }
}

/// A guild role.
#[derive(Clone, Debug)]
pub struct Role {
    pub color: u32,
    pub hoist: bool,
    pub icon: Option<String>,
    pub id: Id<RoleMarker>,
    pub managed: bool,
    pub mentionable: bool,
    pub name: String,
    pub permissions: Permissions,
    pub position: i64,
    pub flags: RoleFlags,
    pub tags: Option<RoleTags>,
    pub unicode_emoji: Option<String>,
}

/// The tags attached to a role. The boolean fields stand for tags that
/// are present-and-null on the wire: absent means false.
#[derive(Clone, Debug)]
pub struct RoleTags {
    pub available_for_purchase: bool,
    pub bot_id: Option<Id<UserMarker>>,
    pub guild_connections: bool,
    pub integration_id: Option<Id<IntegrationMarker>>,
    pub subscription_listing_id: Option<Id<SkuMarker>>,
    pub premium_subscriber: bool,
}

/// How a present-and-null boolean tag reads: a missing value means the
/// tag is set, an explicit boolean keeps its value.
pub fn null_bool_value(v: Option<bool>) -> (r: bool)
    ensures
        r == (match v {
            Some(b) => b,
            None => true,
        }),
{
    match v {
        Some(b) => b,
        None => true,
    }
}

} // verus!
