//! Guild objects and their flag sets.

use vstd::prelude::*;
use crate::model::channel::Channel;
use crate::model::member::Member;
use crate::model::role::Role;
use crate::model::snowflake::{ChannelMarker, GuildMarker, Id, UserMarker};

verus! {

/// A permission bitfield, carried as received.
#[derive(Clone, Copy, Debug, Eq, Hash, PartialEq, Structural)]
pub struct Permissions {
    bits: u64,
}

impl View for Permissions {
    type V = u64;

    closed spec fn view(&self) -> u64 {
        self.bits
    }
}

impl Permissions {
    pub fn from_bits(bits: u64) -> (r: Self)
        ensures
            r@ == bits,
    {
        Permissions { bits }
    }

    pub fn bits(self) -> (r: u64)
        ensures
            r == self@,
    {
        self.bits
    }
}

/// The flag bitfield of a guild's system channel, carried as received.
#[derive(Clone, Copy, Debug, Eq, Hash, PartialEq, Structural)]
pub struct SystemChannelFlags {
    bits: u64,
}

impl View for SystemChannelFlags {
    type V = u64;

    closed spec fn view(&self) -> u64 {
        self.bits
    }
}

impl SystemChannelFlags {
    pub fn from_bits(bits: u64) -> (r: Self)
        ensures
            r@ == bits,
    {
        SystemChannelFlags { bits }
    }

    pub fn bits(self) -> (r: u64)
        ensures
            r == self@,
    {
        self.bits
    }
}

/// A guild the gateway has announced but not yet delivered.
#[derive(Clone, Debug)]
pub struct UnavailableGuild {
    pub id: Id<GuildMarker>,
    pub unavailable: bool,
}

/// A full guild object, as delivered on guild creation.
#[derive(Clone, Debug)]
pub struct Guild {
    pub afk_channel_id: Option<u64>,
    pub afk_timeout: u32,
    pub application_id: Option<u64>,
    pub approximate_member_count: Option<u32>,
    pub approximate_presence_count: Option<u32>,
    pub banner: Option<String>,
    pub channels: Vec<Channel>,
    pub default_message_notifications: u8,
    pub description: Option<String>,
    pub discovery_splash: Option<String>,
    pub explicit_content_filter: u8,
    pub icon: Option<String>,
    pub id: Id<GuildMarker>,
    pub joined_at: Option<String>,
    pub large: bool,
    pub max_members: Option<u64>,
    pub max_presences: Option<u64>,
    pub max_stage_video_channel_users: Option<u32>,
    pub max_video_channel_users: Option<u32>,
    pub member_count: Option<u64>,
    pub members: Vec<Member>,
    pub mfa_level: u8,
    pub name: String,
    pub nsfw_level: u8,
    pub owner_id: Id<UserMarker>,
    pub owner: Option<bool>,
    pub permissions: Option<Permissions>,
    pub preferred_locale: String,
    pub premium_progress_bar_enabled: bool,
    pub premium_subscription_count: Option<u64>,
    pub premium_tier: u8,
    pub public_updates_channel_id: Option<Id<ChannelMarker>>,
    pub roles: Vec<Role>,
    pub rules_channel_id: Option<Id<ChannelMarker>>,
    pub safety_alerts_channel_id: Option<Id<ChannelMarker>>,
    pub splash: Option<String>,
    pub system_channel_flags: SystemChannelFlags,
    pub system_channel_id: Option<Id<ChannelMarker>>,
    pub threads: Vec<Channel>,
    pub unavailable: bool,
    pub vanity_url_code: Option<String>,
    pub verification_level: u8,
    pub widget_channel_id: Option<Id<ChannelMarker>>,
    pub widget_enabled: Option<bool>,
}

/// A partial guild object, as delivered on guild updates.
#[derive(Clone, Debug)]
pub struct PartialGuild {
    pub afk_channel_id: Option<u64>,
    pub afk_timeout: u32,
    pub application_id: Option<u64>,
    pub banner: Option<String>,
    pub default_message_notifications: u8,
    pub description: Option<String>,
    pub discovery_splash: Option<String>,
    pub explicit_content_filter: u8,
    pub icon: Option<String>,
    pub id: Id<GuildMarker>,
    pub max_members: Option<u64>,
    pub max_presences: Option<u64>,
    pub member_count: Option<u64>,
    pub mfa_level: u8,
    pub name: String,
    pub nsfw_level: u8,
    pub owner_id: Id<UserMarker>,
    pub owner: Option<bool>,
    pub permissions: Option<Permissions>,
    pub preferred_locale: String,
    pub premium_progress_bar_enabled: bool,
    pub premium_subscription_count: Option<u64>,
    pub premium_tier: u8,
    pub public_updates_channel_id: Option<Id<ChannelMarker>>,
    pub roles: Vec<Role>,
    pub rules_channel_id: Option<Id<ChannelMarker>>,
    pub splash: Option<String>,
    pub system_channel_flags: SystemChannelFlags,
    pub system_channel_id: Option<Id<ChannelMarker>>,
    pub vanity_url_code: Option<String>,
    pub verification_level: u8,
    pub widget_channel_id: Option<Id<ChannelMarker>>,
    pub widget_enabled: Option<bool>,
}

} // verus!
