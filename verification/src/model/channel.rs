//! Channel objects and the enumerations they carry.

use vstd::prelude::*;
use crate::model::member::Member;
use crate::model::snowflake::{
    ApplicationMarker,
    ChannelMarker,
    EmojiMarker,
    GuildMarker,
    Id,
    MessageMarker,
    TagMarker,
    UserMarker,
};
use crate::model::user::User;

verus! {

/// A channel's flag bitfield, carried as received.
#[derive(Clone, Copy, Debug, Eq, Hash, PartialEq, Structural)]
pub struct ChannelFlags {
    bits: u64,
}

impl View for ChannelFlags {
    type V = u64;

    closed spec fn view(&self) -> u64 {
        self.bits
    }
}

impl ChannelFlags {
    pub fn from_bits(bits: u64) -> (r: Self)
        ensures
            r@ == bits,
    {
        ChannelFlags { bits }
    }

    pub fn bits(self) -> (r: u64)
        ensures
            r == self@,
    {
        self.bits
    }
}

/// A channel object.
#[derive(Clone, Debug)]
pub struct Channel {
    pub application_id: Option<Id<ApplicationMarker>>,
    pub applied_tags: Option<Vec<Id<TagMarker>>>,
    pub available_tags: Option<Vec<ForumTag>>,
    pub bitrate: Option<u32>,
    pub default_auto_archive_duration: Option<AutoArchiveDuration>,
    pub default_forum_layout: Option<ForumLayout>,
    pub default_sort_order: Option<ForumSortOrder>,
    pub default_thread_rate_limit_per_user: Option<u16>,
    pub flags: Option<ChannelFlags>,
    pub guild_id: Option<Id<GuildMarker>>,
    pub icon: Option<String>,
    pub id: Id<ChannelMarker>,
    pub invitable: Option<bool>,
    pub kind: ChannelType,
    pub last_message_id: Option<Id<MessageMarker>>,
    pub last_pin_timestamp: Option<String>,
    pub managed: Option<bool>,
    pub member: Option<ThreadMember>,
    pub member_count: Option<u8>,
    pub message_count: Option<u32>,
    pub name: Option<String>,
    pub newly_created: Option<bool>,
    pub nsfw: Option<bool>,
    pub owner_id: Option<Id<UserMarker>>,
    pub parent_id: Option<Id<ChannelMarker>>,
    pub permission_overwrites: Option<Vec<PermissionOverwrite>>,
    pub position: Option<i32>,
    pub rate_limit_per_user: Option<u16>,
    pub recipients: Option<Vec<User>>,
    pub rtc_region: Option<String>,
    pub thread_metadata: Option<ThreadMetadata>,
    pub topic: Option<String>,
    pub user_limit: Option<u32>,
}

/// The kind of a channel.
#[derive(Clone, Copy, Debug, Eq, Hash, PartialEq, Structural)]
pub enum ChannelType {
    GuildText,
    Private,
    GuildVoice,
    Group,
    GuildCategory,
    GuildAnnouncement,
    AnnouncementThread,
    PublicThread,
    PrivateThread,
    GuildStageVoice,
    GuildDirectory,
    GuildForum,
    GuildMedia,
    Unknown(u8),
}

/// The channel kind a numeric value stands for.
pub open spec fn spec_channel_type_of(value: u8) -> ChannelType {
    match value {
        0u8 => ChannelType::GuildText,
        1u8 => ChannelType::Private,
        2u8 => ChannelType::GuildVoice,
        3u8 => ChannelType::Group,
        4u8 => ChannelType::GuildCategory,
        5u8 => ChannelType::GuildAnnouncement,
        10u8 => ChannelType::AnnouncementThread,
        11u8 => ChannelType::PublicThread,
        12u8 => ChannelType::PrivateThread,
        13u8 => ChannelType::GuildStageVoice,
        14u8 => ChannelType::GuildDirectory,
        15u8 => ChannelType::GuildForum,
        16u8 => ChannelType::GuildMedia,
        _ => ChannelType::Unknown(value),
    }
}

/// The numeric value of a channel kind.
pub open spec fn spec_channel_type_value(t: ChannelType) -> u8 {
    match t {
        ChannelType::GuildText => 0,
        ChannelType::Private => 1,
        ChannelType::GuildVoice => 2,
        ChannelType::Group => 3,
        ChannelType::GuildCategory => 4,
        ChannelType::GuildAnnouncement => 5,
        ChannelType::AnnouncementThread => 10,
        ChannelType::PublicThread => 11,
        ChannelType::PrivateThread => 12,
        ChannelType::GuildStageVoice => 13,
        ChannelType::GuildDirectory => 14,
        ChannelType::GuildForum => 15,
        ChannelType::GuildMedia => 16,
        ChannelType::Unknown(unknown) => unknown,
    }
}

impl From<u8> for ChannelType {
    fn from(value: u8) -> (r: Self) {
        match value {
            0 => ChannelType::GuildText,
            1 => ChannelType::Private,
            2 => ChannelType::GuildVoice,
            3 => ChannelType::Group,
            4 => ChannelType::GuildCategory,
            5 => ChannelType::GuildAnnouncement,
            10 => ChannelType::AnnouncementThread,
            11 => ChannelType::PublicThread,
            12 => ChannelType::PrivateThread,
            13 => ChannelType::GuildStageVoice,
            14 => ChannelType::GuildDirectory,
            15 => ChannelType::GuildForum,
            16 => ChannelType::GuildMedia,
            unknown => ChannelType::Unknown(unknown),
        }
    }
}

impl vstd::std_specs::convert::FromSpecImpl<u8> for ChannelType {
    open spec fn obeys_from_spec() -> bool {
        true
    }

    open spec fn from_spec(value: u8) -> Self {
        spec_channel_type_of(value)
    }
}

impl From<ChannelType> for u8 {
    fn from(value: ChannelType) -> (r: Self) {
        match value {
            ChannelType::GuildText => 0,
            ChannelType::Private => 1,
            ChannelType::GuildVoice => 2,
            ChannelType::Group => 3,
            ChannelType::GuildCategory => 4,
            ChannelType::GuildAnnouncement => 5,
            ChannelType::AnnouncementThread => 10,
            ChannelType::PublicThread => 11,
            ChannelType::PrivateThread => 12,
            ChannelType::GuildStageVoice => 13,
            ChannelType::GuildDirectory => 14,
            ChannelType::GuildForum => 15,
            ChannelType::GuildMedia => 16,
            ChannelType::Unknown(unknown) => unknown,
        }
    }
}

impl vstd::std_specs::convert::FromSpecImpl<ChannelType> for u8 {
    open spec fn obeys_from_spec() -> bool {
        true
    }

    open spec fn from_spec(value: ChannelType) -> Self {
        spec_channel_type_value(value)
    }
}

/// A member of a thread.
#[derive(Clone, Debug)]
pub struct ThreadMember {
    pub flags: u64,
    pub id: Option<Id<ChannelMarker>>,
    pub join_timestamp: String,
    pub member: Option<Member>,
    pub user_id: Option<Id<UserMarker>>,
}

/// The thread-specific state of a channel.
#[derive(Clone, Debug)]
pub struct ThreadMetadata {
    pub archived: bool,
    pub auto_archive_duration: AutoArchiveDuration,
    pub archive_timestamp: String,
    pub create_timestamp: Option<String>,
    pub invitable: Option<bool>,
    pub locked: bool,
}

/// The layout of a forum channel.
#[derive(Clone, Copy, Debug, Eq, Hash, PartialEq, Structural)]
pub enum ForumLayout {
    GalleryView,
    ListView,
    NotSet,
    Unknown(u8),
}

/// The forum layout a numeric value stands for.
pub open spec fn spec_forum_layout_of(value: u8) -> ForumLayout {
    match value {
        0u8 => ForumLayout::NotSet,
        1u8 => ForumLayout::ListView,
        2u8 => ForumLayout::GalleryView,
        _ => ForumLayout::Unknown(value),
    }
}

/// The numeric value of a forum layout.
pub open spec fn spec_forum_layout_value(l: ForumLayout) -> u8 {
    match l {
        ForumLayout::NotSet => 0,
        ForumLayout::ListView => 1,
        ForumLayout::GalleryView => 2,
        ForumLayout::Unknown(unknown) => unknown,
    }
}

impl From<u8> for ForumLayout {
    fn from(value: u8) -> (r: Self) {
        match value {
            0 => Self::NotSet,
            1 => Self::ListView,
            2 => Self::GalleryView,
            unknown => Self::Unknown(unknown),
        }
    }
}

impl vstd::std_specs::convert::FromSpecImpl<u8> for ForumLayout {
    open spec fn obeys_from_spec() -> bool {
        true
    }

    open spec fn from_spec(value: u8) -> Self {
        spec_forum_layout_of(value)
    }
}

impl From<ForumLayout> for u8 {
    fn from(value: ForumLayout) -> (r: Self) {
        match value {
            ForumLayout::NotSet => 0,
            ForumLayout::ListView => 1,
            ForumLayout::GalleryView => 2,
            ForumLayout::Unknown(unknown) => unknown,
        }
    }
}

impl vstd::std_specs::convert::FromSpecImpl<ForumLayout> for u8 {
    open spec fn obeys_from_spec() -> bool {
        true
    }

    open spec fn from_spec(value: ForumLayout) -> Self {
        spec_forum_layout_value(value)
    }
}

/// The default sort order of a forum channel.
#[derive(Clone, Copy, Debug, Eq, Hash, PartialEq, Structural)]
pub enum ForumSortOrder {
    CreationDate,
    LatestActivity,
    Unknown(u8),
}

/// The sort order a numeric value stands for.
pub open spec fn spec_forum_sort_order_of(value: u8) -> ForumSortOrder {
    match value {
        0u8 => ForumSortOrder::LatestActivity,
        1u8 => ForumSortOrder::CreationDate,
        _ => ForumSortOrder::Unknown(value),
    }
}

/// The numeric value of a sort order.
pub open spec fn spec_forum_sort_order_value(o: ForumSortOrder) -> u8 {
    match o {
        ForumSortOrder::LatestActivity => 0,
        ForumSortOrder::CreationDate => 1,
        ForumSortOrder::Unknown(unknown) => unknown,
    }
}

impl From<u8> for ForumSortOrder {
    fn from(value: u8) -> (r: Self) {
        match value {
            0 => Self::LatestActivity,
            1 => Self::CreationDate,
            unknown => Self::Unknown(unknown),
        }
    }
}

impl vstd::std_specs::convert::FromSpecImpl<u8> for ForumSortOrder {
    open spec fn obeys_from_spec() -> bool {
        true
    }

    open spec fn from_spec(value: u8) -> Self {
        spec_forum_sort_order_of(value)
    }
}

impl From<ForumSortOrder> for u8 {
    fn from(value: ForumSortOrder) -> (r: Self) {
        match value {
            ForumSortOrder::LatestActivity => 0,
            ForumSortOrder::CreationDate => 1,
            ForumSortOrder::Unknown(unknown) => unknown,
        }
    }
}

impl vstd::std_specs::convert::FromSpecImpl<ForumSortOrder> for u8 {
    open spec fn obeys_from_spec() -> bool {
        true
    }

    open spec fn from_spec(value: ForumSortOrder) -> Self {
        spec_forum_sort_order_value(value)
    }
}

/// A tag that can be applied in a forum channel.
#[derive(Clone, Debug)]
pub struct ForumTag {
    pub emoji_id: Option<Id<EmojiMarker>>,
    pub emoji_name: Option<String>,
    pub id: Id<TagMarker>,
    pub moderated: bool,
    pub name: String,
}

/// How long a thread stays active before it is archived.
#[derive(Clone, Copy, Debug, Eq, Hash, PartialEq, Structural)]
pub enum AutoArchiveDuration {
    Hour,
    Day,
    ThreeDays,
    Week,
    Unknown { value: u16 },
}

/// The number of minutes an archive duration stands for.
pub open spec fn spec_auto_archive_minutes(d: AutoArchiveDuration) -> u16 {
    match d {
        AutoArchiveDuration::Hour => 60,
        AutoArchiveDuration::Day => 1440,
        AutoArchiveDuration::ThreeDays => 4320,
        AutoArchiveDuration::Week => 10080,
        AutoArchiveDuration::Unknown { value } => value,
    }
}

/// The archive duration a number of minutes stands for.
pub open spec fn spec_auto_archive_of(value: u16) -> AutoArchiveDuration {
    match value {
        60u16 => AutoArchiveDuration::Hour,
        1440u16 => AutoArchiveDuration::Day,
        4320u16 => AutoArchiveDuration::ThreeDays,
        10080u16 => AutoArchiveDuration::Week,
        _ => AutoArchiveDuration::Unknown { value },
    }
}

impl AutoArchiveDuration {
    /// The duration in minutes.
    pub fn number(self) -> (r: u16)
        ensures
            r == spec_auto_archive_minutes(self),
    {
        match self {
            Self::Hour => 60,
            Self::Day => 1440,
            Self::ThreeDays => 4320,
            Self::Week => 10080,
            Self::Unknown { value } => value,
        }
    }
}

impl From<u16> for AutoArchiveDuration {
    fn from(value: u16) -> (r: Self) {
        match value {
            60 => Self::Hour,
            1440 => Self::Day,
            4320 => Self::ThreeDays,
            10080 => Self::Week,
            value => Self::Unknown { value },
        }
    }
}

impl vstd::std_specs::convert::FromSpecImpl<u16> for AutoArchiveDuration {
    open spec fn obeys_from_spec() -> bool {
        true
    }

    open spec fn from_spec(value: u16) -> Self {
        spec_auto_archive_of(value)
    }
}

impl From<AutoArchiveDuration> for u16 {
    fn from(value: AutoArchiveDuration) -> (r: Self) {
        value.number()
    }
}

impl vstd::std_specs::convert::FromSpecImpl<AutoArchiveDuration> for u16 {
    open spec fn obeys_from_spec() -> bool {
        true
    }

    open spec fn from_spec(value: AutoArchiveDuration) -> Self {
        spec_auto_archive_minutes(value)
    }
}

/// A permission overwrite on a channel.
#[derive(Clone, Copy, Debug)]
pub struct PermissionOverwrite {
    pub id: Id<ChannelMarker>,
    pub kind: PermissionOverwriteType,
}

/// What a permission overwrite applies to.
#[derive(Clone, Copy, Debug, Eq, Hash, PartialEq, Structural)]
pub enum PermissionOverwriteType {
    Member,
    Role,
    Unknown(u8),
}

/// The overwrite kind a numeric value stands for.
pub open spec fn spec_overwrite_type_of(value: u8) -> PermissionOverwriteType {
    match value {
        0u8 => PermissionOverwriteType::Role,
        1u8 => PermissionOverwriteType::Member,
        _ => PermissionOverwriteType::Unknown(value),
    }
}

/// The numeric value of an overwrite kind.
pub open spec fn spec_overwrite_type_value(t: PermissionOverwriteType) -> u8 {
    match t {
        PermissionOverwriteType::Member => 1,
        PermissionOverwriteType::Role => 0,
        PermissionOverwriteType::Unknown(unknown) => unknown,
    }
}

impl From<u8> for PermissionOverwriteType {
    fn from(value: u8) -> (r: Self) {
        match value {
            0 => PermissionOverwriteType::Role,
            1 => PermissionOverwriteType::Member,
            unknown => PermissionOverwriteType::Unknown(unknown),
        }
    }
}

impl vstd::std_specs::convert::FromSpecImpl<u8> for PermissionOverwriteType {
    open spec fn obeys_from_spec() -> bool {
        true
    }

    open spec fn from_spec(value: u8) -> Self {
        spec_overwrite_type_of(value)
    }
}

impl From<PermissionOverwriteType> for u8 {
    fn from(value: PermissionOverwriteType) -> (r: Self) {
        match value {
            PermissionOverwriteType::Member => 1,
            PermissionOverwriteType::Role => 0,
            PermissionOverwriteType::Unknown(unknown) => unknown,
        }
    }
}

impl vstd::std_specs::convert::FromSpecImpl<PermissionOverwriteType> for u8 {
    open spec fn obeys_from_spec() -> bool {
        true
    }

    open spec fn from_spec(value: PermissionOverwriteType) -> Self {
        spec_overwrite_type_value(value)
    }
}

} // verus!
