//! The cacheable projection of a guild: its scalar fields plus the
//! identifiers of its channels, members, roles and threads.

use vstd::prelude::*;
use vstd::string::StringExecFns;
use crate::cache::fields::{
    fields_view,
    list_contrib,
    opt_bool,
    opt_contrib,
    opt_dec,
    opt_str,
    push_bool_field,
    push_id_list_field,
    push_opt_bool_field,
    push_opt_str_field,
    push_opt_u64_field,
    push_str_field,
    push_u64_field,
    RedisFieldProvider,
    RedisKeyProvider,
    spec_join_ids,
};
use crate::codec::num::{spec_dec, u64_to_decimal};
use crate::model::guild::{Guild, PartialGuild};
use crate::model::snowflake::{
    ApplicationMarker,
    ChannelMarker,
    GuildMarker,
    Id,
    RoleMarker,
    UserMarker,
};
use crate::strutil::chars_to_string;

verus! {

broadcast use vstd::seq::group_seq_axioms, vstd::std_specs::vec::group_vec_axioms;

/// The guild fields worth caching, with object lists reduced to their
/// identifiers.
#[derive(Clone, Debug)]
pub struct CacheableGuild {
    pub afk_timeout: u32,
    pub application_id: Option<Id<ApplicationMarker>>,
    pub approximate_member_count: Option<u32>,
    pub approximate_presence_count: Option<u32>,
    pub banner: Option<String>,
    pub channels: Vec<Id<ChannelMarker>>,
    pub default_message_notifications: u8,
    pub description: Option<String>,
    pub discovery_splash: Option<String>,
    pub explicit_content_filter: u8,
    pub icon: Option<String>,
    pub id: Id<GuildMarker>,
    pub joined_at: Option<String>,
    pub large: Option<bool>,
    pub max_members: Option<u64>,
    pub max_presences: Option<u64>,
    pub max_stage_video_channel_users: Option<u32>,
    pub max_video_channel_users: Option<u32>,
    pub member_count: Option<u64>,
    pub members: Vec<Id<UserMarker>>,
    pub mfa_level: u8,
    pub name: String,
    pub nsfw_level: u8,
    pub owner_id: Id<UserMarker>,
    pub owner: Option<bool>,
    pub permissions: Option<u64>,
    pub preferred_locale: String,
    pub premium_progress_bar_enabled: bool,
    pub premium_subscription_count: Option<u64>,
    pub premium_tier: u8,
    pub public_updates_channel_id: Option<Id<ChannelMarker>>,
    pub roles: Vec<Id<RoleMarker>>,
    pub rules_channel_id: Option<Id<ChannelMarker>>,
    pub safety_alerts_channel_id: Option<Id<ChannelMarker>>,
    pub splash: Option<String>,
    pub system_channel_flags: u64,
    pub system_channel_id: Option<Id<ChannelMarker>>,
    pub threads: Vec<Id<ChannelMarker>>,
    pub unavailable: bool,
    pub vanity_url_code: Option<String>,
    pub verification_level: u8,
    pub widget_channel_id: Option<Id<ChannelMarker>>,
    pub widget_enabled: Option<bool>,
}

/// The value of an optional identifier.
pub open spec fn opt_id<T>(v: Option<Id<T>>) -> Option<u64> {
    match v {
        Some(i) => Some(i@),
        None => None,
    }
}

/// The values of an identifier list.
pub open spec fn id_values<T>(s: Seq<Id<T>>) -> Seq<u64> {
    Seq::new(s.len(), |i: int| s[i]@)
}

/// The value of an optional 32-bit count.
pub open spec fn opt_u32(v: Option<u32>) -> Option<u64> {
    match v {
        Some(n) => Some(n as u64),
        None => None,
    }
}

/// Extracts the raw values of an identifier list.
pub fn ids_of<T>(v: &Vec<Id<T>>) -> (r: Vec<u64>)
    ensures
        r@ == id_values(v@),
{
    let mut out: Vec<u64> = Vec::new();
    let mut i: usize = 0;
    while i < v.len()
        invariant
            i <= v@.len(),
            out@.len() == i,
            forall|k: int| 0 <= k < i ==> out@[k] == v@[k]@,
        decreases v@.len() - i,
    {
        out.push(v[i].value());
        i = i + 1;
    }
    proof {
        assert(out@ =~= id_values(v@));
    }
    out
}

/// The first fields of a cacheable guild, in declaration order.
pub open spec fn guild_fields_a(g: CacheableGuild) -> Seq<(Seq<char>, Seq<char>)> {
    seq![("afk_timeout"@, spec_dec(g.afk_timeout as u64))]
        + opt_contrib("application_id"@, opt_dec(opt_id(g.application_id)))
        + opt_contrib(
        "approximate_member_count"@,
        opt_dec(opt_u32(g.approximate_member_count)),
    ) + opt_contrib(
        "approximate_presence_count"@,
        opt_dec(opt_u32(g.approximate_presence_count)),
    ) + opt_contrib("banner"@, opt_str(g.banner)) + list_contrib(
        "channels"@,
        id_values(g.channels@),
    ) + seq![
        ("default_message_notifications"@, spec_dec(g.default_message_notifications as u64)),
    ] + opt_contrib("description"@, opt_str(g.description)) + opt_contrib(
        "discovery_splash"@,
        opt_str(g.discovery_splash),
    )
}

/// The next fields, through the large flag.
pub open spec fn guild_fields_b1(g: CacheableGuild) -> Seq<(Seq<char>, Seq<char>)> {
    seq![("explicit_content_filter"@, spec_dec(g.explicit_content_filter as u64))]
        + opt_contrib("icon"@, opt_str(g.icon)) + seq![("id"@, spec_dec(g.id@))]
        + opt_contrib("joined_at"@, opt_str(g.joined_at)) + opt_contrib(
        "large"@,
        opt_bool(g.large),
    )
}

/// The next fields, through the member list.
pub open spec fn guild_fields_b2(g: CacheableGuild) -> Seq<(Seq<char>, Seq<char>)> {
    opt_contrib("max_members"@, opt_dec(g.max_members)) + opt_contrib(
        "max_presences"@,
        opt_dec(g.max_presences),
    ) + opt_contrib(
        "max_stage_video_channel_users"@,
        opt_dec(opt_u32(g.max_stage_video_channel_users)),
    ) + opt_contrib(
        "max_video_channel_users"@,
        opt_dec(opt_u32(g.max_video_channel_users)),
    ) + opt_contrib("member_count"@, opt_dec(g.member_count)) + list_contrib(
        "members"@,
        id_values(g.members@),
    )
}

/// The middle fields as one span.
pub open spec fn guild_fields_b(g: CacheableGuild) -> Seq<(Seq<char>, Seq<char>)> {
    guild_fields_b1(g) + guild_fields_b2(g)
}

/// The next fields, through the premium tier.
pub open spec fn guild_fields_c(g: CacheableGuild) -> Seq<(Seq<char>, Seq<char>)> {
    seq![("mfa_level"@, spec_dec(g.mfa_level as u64)), ("name"@, g.name@)] + seq![
        ("nsfw_level"@, spec_dec(g.nsfw_level as u64)),
        ("owner_id"@, spec_dec(g.owner_id@)),
    ] + opt_contrib("owner"@, opt_bool(g.owner)) + opt_contrib(
        "permissions"@,
        opt_dec(g.permissions),
    ) + seq![
        ("preferred_locale"@, g.preferred_locale@),
        (
            "premium_progress_bar_enabled"@,
            if g.premium_progress_bar_enabled {
                "1"@
            } else {
                "0"@
            },
        ),
    ] + opt_contrib("premium_subscription_count"@, opt_dec(g.premium_subscription_count))
        + seq![("premium_tier"@, spec_dec(g.premium_tier as u64))]
}

/// The next fields, through the thread list.
pub open spec fn guild_fields_d(g: CacheableGuild) -> Seq<(Seq<char>, Seq<char>)> {
    opt_contrib(
        "public_updates_channel_id"@,
        opt_dec(opt_id(g.public_updates_channel_id)),
    ) + list_contrib("roles"@, id_values(g.roles@)) + opt_contrib(
        "rules_channel_id"@,
        opt_dec(opt_id(g.rules_channel_id)),
    ) + opt_contrib(
        "safety_alerts_channel_id"@,
        opt_dec(opt_id(g.safety_alerts_channel_id)),
    ) + opt_contrib("splash"@, opt_str(g.splash)) + seq![
        ("system_channel_flags"@, spec_dec(g.system_channel_flags)),
    ] + opt_contrib("system_channel_id"@, opt_dec(opt_id(g.system_channel_id)))
        + list_contrib("threads"@, id_values(g.threads@))
}

/// The last fields.
pub open spec fn guild_fields_e(g: CacheableGuild) -> Seq<(Seq<char>, Seq<char>)> {
    seq![
        (
            "unavailable"@,
            if g.unavailable {
                "1"@
            } else {
                "0"@
            },
        ),
    ] + opt_contrib("vanity_url_code"@, opt_str(g.vanity_url_code)) + seq![
        ("verification_level"@, spec_dec(g.verification_level as u64)),
    ] + opt_contrib("widget_channel_id"@, opt_dec(opt_id(g.widget_channel_id)))
        + opt_contrib("widget_enabled"@, opt_bool(g.widget_enabled))
}

/// The ordered field list of a cacheable guild: one entry per set
/// field, in declaration order, with counts in decimal, booleans as `1`
/// or `0`, and identifier lists comma-joined (skipped when empty).
pub open spec fn spec_guild_fields(g: CacheableGuild) -> Seq<(Seq<char>, Seq<char>)> {
    guild_fields_a(g) + guild_fields_b(g) + guild_fields_c(g) + guild_fields_d(g)
        + guild_fields_e(g)
}

impl CacheableGuild {
    #[verifier::rlimit(100)]
    fn fields_a(&self, out: &mut Vec<(String, String)>)
        ensures
            fields_view(final(out)@) == fields_view(old(out)@) + guild_fields_a(*self),
    {
        let ghost base = fields_view(old(out)@);
        let ghost mut acc = base;
        push_u64_field(out, "afk_timeout", self.afk_timeout as u64);
        proof {
            acc = acc + seq![("afk_timeout"@, spec_dec(self.afk_timeout as u64))];
            assert(fields_view(out@) =~= acc);
        }
        push_opt_u64_field(
            out,
            "application_id",
            match &self.application_id {
                Some(i) => Some(i.value()),
                None => None,
            },
        );
        proof {
            acc = acc + opt_contrib("application_id"@, opt_dec(opt_id(self.application_id)));
            assert(fields_view(out@) =~= acc);
        }
        push_opt_u64_field(
            out,
            "approximate_member_count",
            match self.approximate_member_count {
                Some(n) => Some(n as u64),
                None => None,
            },
        );
        proof {
            acc = acc + opt_contrib(
                "approximate_member_count"@,
                opt_dec(opt_u32(self.approximate_member_count)),
            );
            assert(fields_view(out@) =~= acc);
        }
        push_opt_u64_field(
            out,
            "approximate_presence_count",
            match self.approximate_presence_count {
                Some(n) => Some(n as u64),
                None => None,
            },
        );
        proof {
            acc = acc + opt_contrib(
                "approximate_presence_count"@,
                opt_dec(opt_u32(self.approximate_presence_count)),
            );
            assert(fields_view(out@) =~= acc);
        }
        push_opt_str_field(
            out,
            "banner",
            match &self.banner {
                Some(s) => Some(s.clone()),
                None => None,
            },
        );
        proof {
            acc = acc + opt_contrib("banner"@, opt_str(self.banner));
            assert(fields_view(out@) =~= acc);
        }
        push_id_list_field(out, "channels", &ids_of(&self.channels));
        proof {
            acc = acc + list_contrib("channels"@, id_values(self.channels@));
            assert(fields_view(out@) =~= acc);
        }
        push_u64_field(
            out,
            "default_message_notifications",
            self.default_message_notifications as u64,
        );
        proof {
            acc = acc + seq![
                (
                    "default_message_notifications"@,
                    spec_dec(self.default_message_notifications as u64),
                ),
            ];
            assert(fields_view(out@) =~= acc);
        }
        push_opt_str_field(
            out,
            "description",
            match &self.description {
                Some(s) => Some(s.clone()),
                None => None,
            },
        );
        proof {
            acc = acc + opt_contrib("description"@, opt_str(self.description));
            assert(fields_view(out@) =~= acc);
        }
        push_opt_str_field(
            out,
            "discovery_splash",
            match &self.discovery_splash {
                Some(s) => Some(s.clone()),
                None => None,
            },
        );
        proof {
            acc = acc + opt_contrib("discovery_splash"@, opt_str(self.discovery_splash));
            assert(fields_view(out@) =~= acc);
            assert(acc =~= base + guild_fields_a(*self));
        }
    }

    #[verifier::rlimit(100)]
    fn fields_b1(&self, out: &mut Vec<(String, String)>)
        ensures
            fields_view(final(out)@) == fields_view(old(out)@) + guild_fields_b1(*self),
    {
        let ghost base = fields_view(old(out)@);
        let ghost mut acc = base;
        push_u64_field(out, "explicit_content_filter", self.explicit_content_filter as u64);
        proof {
            acc = acc + seq![
                ("explicit_content_filter"@, spec_dec(self.explicit_content_filter as u64)),
            ];
            assert(fields_view(out@) =~= acc);
        }
        push_opt_str_field(
            out,
            "icon",
            match &self.icon {
                Some(s) => Some(s.clone()),
                None => None,
            },
        );
        proof {
            acc = acc + opt_contrib("icon"@, opt_str(self.icon));
            assert(fields_view(out@) =~= acc);
        }
        push_u64_field(out, "id", self.id.value());
        proof {
            acc = acc + seq![("id"@, spec_dec(self.id@))];
            assert(fields_view(out@) =~= acc);
        }
        push_opt_str_field(
            out,
            "joined_at",
            match &self.joined_at {
                Some(s) => Some(s.clone()),
                None => None,
            },
        );
        proof {
            acc = acc + opt_contrib("joined_at"@, opt_str(self.joined_at));
            assert(fields_view(out@) =~= acc);
        }
        push_opt_bool_field(out, "large", self.large);
        proof {
            acc = acc + opt_contrib("large"@, opt_bool(self.large));
            assert(fields_view(out@) =~= acc);
            assert(acc =~= base + guild_fields_b1(*self));
        }
    }

    #[verifier::rlimit(100)]
    fn fields_b2(&self, out: &mut Vec<(String, String)>)
        ensures
            fields_view(final(out)@) == fields_view(old(out)@) + guild_fields_b2(*self),
    {
        let ghost base = fields_view(old(out)@);
        let ghost mut acc = base;
        push_opt_u64_field(out, "max_members", self.max_members);
        proof {
            acc = acc + opt_contrib("max_members"@, opt_dec(self.max_members));
            assert(fields_view(out@) =~= acc);
        }
        push_opt_u64_field(out, "max_presences", self.max_presences);
        proof {
            acc = acc + opt_contrib("max_presences"@, opt_dec(self.max_presences));
            assert(fields_view(out@) =~= acc);
        }
        push_opt_u64_field(
            out,
            "max_stage_video_channel_users",
            match self.max_stage_video_channel_users {
                Some(n) => Some(n as u64),
                None => None,
            },
        );
        proof {
            acc = acc + opt_contrib(
                "max_stage_video_channel_users"@,
                opt_dec(opt_u32(self.max_stage_video_channel_users)),
            );
            assert(fields_view(out@) =~= acc);
        }
        push_opt_u64_field(
            out,
            "max_video_channel_users",
            match self.max_video_channel_users {
                Some(n) => Some(n as u64),
                None => None,
            },
        );
        proof {
            acc = acc + opt_contrib(
                "max_video_channel_users"@,
                opt_dec(opt_u32(self.max_video_channel_users)),
            );
            assert(fields_view(out@) =~= acc);
        }
        push_opt_u64_field(out, "member_count", self.member_count);
        proof {
            acc = acc + opt_contrib("member_count"@, opt_dec(self.member_count));
            assert(fields_view(out@) =~= acc);
        }
        push_id_list_field(out, "members", &ids_of(&self.members));
        proof {
            acc = acc + list_contrib("members"@, id_values(self.members@));
            assert(fields_view(out@) =~= acc);
            assert(acc =~= base + guild_fields_b2(*self));
        }
    }

    #[verifier::rlimit(100)]
    fn fields_c(&self, out: &mut Vec<(String, String)>)
        ensures
            fields_view(final(out)@) == fields_view(old(out)@) + guild_fields_c(*self),
    {
        push_u64_field(out, "mfa_level", self.mfa_level as u64);
        push_str_field(out, "name", self.name.clone());
        push_u64_field(out, "nsfw_level", self.nsfw_level as u64);
        push_u64_field(out, "owner_id", self.owner_id.value());
        push_opt_bool_field(out, "owner", self.owner);
        push_opt_u64_field(out, "permissions", self.permissions);
        push_str_field(out, "preferred_locale", self.preferred_locale.clone());
        push_bool_field(
            out,
            "premium_progress_bar_enabled",
            self.premium_progress_bar_enabled,
        );
        push_opt_u64_field(
            out,
            "premium_subscription_count",
            self.premium_subscription_count,
        );
        push_u64_field(out, "premium_tier", self.premium_tier as u64);
        proof {
            assert(fields_view(out@) =~= fields_view(old(out)@) + guild_fields_c(*self));
        }
    }

    #[verifier::rlimit(100)]
    fn fields_d(&self, out: &mut Vec<(String, String)>)
        ensures
            fields_view(final(out)@) == fields_view(old(out)@) + guild_fields_d(*self),
    {
        push_opt_u64_field(
            out,
            "public_updates_channel_id",
            match &self.public_updates_channel_id {
                Some(i) => Some(i.value()),
                None => None,
            },
        );
        push_id_list_field(out, "roles", &ids_of(&self.roles));
        push_opt_u64_field(
            out,
            "rules_channel_id",
            match &self.rules_channel_id {
                Some(i) => Some(i.value()),
                None => None,
            },
        );
        push_opt_u64_field(
            out,
            "safety_alerts_channel_id",
            match &self.safety_alerts_channel_id {
                Some(i) => Some(i.value()),
                None => None,
            },
        );
        push_opt_str_field(
            out,
            "splash",
            match &self.splash {
                Some(s) => Some(s.clone()),
                None => None,
            },
        );
        push_u64_field(out, "system_channel_flags", self.system_channel_flags);
        push_opt_u64_field(
            out,
            "system_channel_id",
            match &self.system_channel_id {
                Some(i) => Some(i.value()),
                None => None,
            },
        );
        push_id_list_field(out, "threads", &ids_of(&self.threads));
        proof {
            assert(fields_view(out@) =~= fields_view(old(out)@) + guild_fields_d(*self));
        }
    }

    #[verifier::rlimit(100)]
    fn fields_e(&self, out: &mut Vec<(String, String)>)
        ensures
            fields_view(final(out)@) == fields_view(old(out)@) + guild_fields_e(*self),
    {
        push_bool_field(out, "unavailable", self.unavailable);
        push_opt_str_field(
            out,
            "vanity_url_code",
            match &self.vanity_url_code {
                Some(s) => Some(s.clone()),
                None => None,
            },
        );
        push_u64_field(out, "verification_level", self.verification_level as u64);
        push_opt_u64_field(
            out,
            "widget_channel_id",
            match &self.widget_channel_id {
                Some(i) => Some(i.value()),
                None => None,
            },
        );
        push_opt_bool_field(out, "widget_enabled", self.widget_enabled);
        proof {
            assert(fields_view(out@) =~= fields_view(old(out)@) + guild_fields_e(*self));
        }
    }

    /// Writes this guild's fields, in declaration order.
    pub fn fields_into(&self, out: &mut Vec<(String, String)>)
        ensures
            fields_view(final(out)@) == fields_view(old(out)@) + spec_guild_fields(*self),
    {
        self.fields_a(out);
        self.fields_b1(out);
        self.fields_b2(out);
        self.fields_c(out);
        self.fields_d(out);
        self.fields_e(out);
        proof {
            assert(fields_view(out@) =~= fields_view(old(out)@) + spec_guild_fields(*self));
        }
    }
}

impl RedisKeyProvider for CacheableGuild {
    fn get_key(&self) -> String {
        String::from_str("guild:").concat(
            chars_to_string(u64_to_decimal(self.id.value())).as_str(),
        )
    }
}

impl RedisFieldProvider for CacheableGuild {
    fn add_fields(self, out: &mut Vec<(String, String)>) {
        self.fields_into(out);
    }
}

impl crate::cache::fields::Cacheable for CacheableGuild {

}

/// The argument list of the store write that caches an object: the
/// command name, the key, and the flattened fields.
pub open spec fn spec_hset_args(key: Seq<char>, fields: Seq<(Seq<char>, Seq<char>)>) -> Seq<
    Seq<char>,
> {
    seq!["HSET"@, key] + crate::cache::fields::spec_flatten(fields)
}

impl CacheableGuild {
    /// Builds the complete argument list of the store write for this
    /// guild; the embedding program hands it to the store.
    pub fn hset_args(&self) -> (r: Vec<String>)
        ensures
            crate::cache::fields::strs_view(r@) == spec_hset_args(
                "guild:"@ + spec_dec(self.id@),
                spec_guild_fields(*self),
            ),
    {
        let mut pairs: Vec<(String, String)> = Vec::new();
        self.fields_into(&mut pairs);
        let mut tail = crate::cache::fields::flatten_fields(&pairs);
        let mut r: Vec<String> = Vec::new();
        r.push(String::from_str("HSET"));
        r.push(self.cache_key());
        r.append(&mut tail);
        proof {
            assert(fields_view(pairs@) =~= spec_guild_fields(*self));
            assert(crate::cache::fields::strs_view(r@) =~= spec_hset_args(
                "guild:"@ + spec_dec(self.id@),
                spec_guild_fields(*self),
            ));
        }
        r
    }
}

impl CacheableGuild {
    /// The store key this guild is cached under.
    pub fn cache_key(&self) -> (r: String)
        ensures
            r@ == "guild:"@ + spec_dec(self.id@),
    {
        String::from_str("guild:").concat(
            chars_to_string(u64_to_decimal(self.id.value())).as_str(),
        )
    }

    /// Projects a full guild: object lists reduce to their identifiers,
    /// and members to the identifiers of their users.
    pub fn from_guild(value: Guild) -> (r: Self)
        ensures
            r.afk_timeout == value.afk_timeout,
            opt_id(r.application_id) == (match value.application_id {
                Some(n) => Some(n),
                None => None,
            }),
            r.approximate_member_count == value.approximate_member_count,
            r.approximate_presence_count == value.approximate_presence_count,
            opt_str(r.banner) == opt_str(value.banner),
            id_values(r.channels@) == Seq::new(
                value.channels@.len(),
                |i: int| value.channels@[i].id@,
            ),
            r.default_message_notifications == value.default_message_notifications,
            opt_str(r.description) == opt_str(value.description),
            opt_str(r.discovery_splash) == opt_str(value.discovery_splash),
            r.explicit_content_filter == value.explicit_content_filter,
            opt_str(r.icon) == opt_str(value.icon),
            r.id@ == value.id@,
            opt_str(r.joined_at) == opt_str(value.joined_at),
            r.large == Some(value.large),
            r.max_members == value.max_members,
            r.max_presences == value.max_presences,
            r.max_stage_video_channel_users == value.max_stage_video_channel_users,
            r.max_video_channel_users == value.max_video_channel_users,
            r.member_count == value.member_count,
            id_values(r.members@) == Seq::new(
                value.members@.len(),
                |i: int| value.members@[i].user.id@,
            ),
            r.mfa_level == value.mfa_level,
            r.name@ == value.name@,
            r.nsfw_level == value.nsfw_level,
            r.owner_id@ == value.owner_id@,
            r.owner == value.owner,
            r.permissions == (match value.permissions {
                Some(p) => Some(p@),
                None => None,
            }),
            r.preferred_locale@ == value.preferred_locale@,
            r.premium_progress_bar_enabled == value.premium_progress_bar_enabled,
            r.premium_subscription_count == value.premium_subscription_count,
            r.premium_tier == value.premium_tier,
            opt_id(r.public_updates_channel_id) == opt_id(value.public_updates_channel_id),
            id_values(r.roles@) == Seq::new(
                value.roles@.len(),
                |i: int| value.roles@[i].id@,
            ),
            opt_id(r.rules_channel_id) == opt_id(value.rules_channel_id),
            opt_id(r.safety_alerts_channel_id) == opt_id(value.safety_alerts_channel_id),
            opt_str(r.splash) == opt_str(value.splash),
            r.system_channel_flags == value.system_channel_flags@,
            opt_id(r.system_channel_id) == opt_id(value.system_channel_id),
            id_values(r.threads@) == Seq::new(
                value.threads@.len(),
                |i: int| value.threads@[i].id@,
            ),
            r.unavailable == value.unavailable,
            opt_str(r.vanity_url_code) == opt_str(value.vanity_url_code),
            r.verification_level == value.verification_level,
            opt_id(r.widget_channel_id) == opt_id(value.widget_channel_id),
            r.widget_enabled == value.widget_enabled,
    {
        let mut channels: Vec<Id<ChannelMarker>> = Vec::new();
        let mut i: usize = 0;
        while i < value.channels.len()
            invariant
                i <= value.channels@.len(),
                channels@.len() == i,
                forall|k: int| 0 <= k < i ==> channels@[k]@ == value.channels@[k].id@,
            decreases value.channels@.len() - i,
        {
            channels.push(value.channels[i].id);
            i = i + 1;
        }
        let mut members: Vec<Id<UserMarker>> = Vec::new();
        let mut i: usize = 0;
        while i < value.members.len()
            invariant
                i <= value.members@.len(),
                members@.len() == i,
                forall|k: int| 0 <= k < i ==> members@[k]@ == value.members@[k].user.id@,
            decreases value.members@.len() - i,
        {
            members.push(value.members[i].user.id);
            i = i + 1;
        }
        let mut roles: Vec<Id<RoleMarker>> = Vec::new();
        let mut i: usize = 0;
        while i < value.roles.len()
            invariant
                i <= value.roles@.len(),
                roles@.len() == i,
                forall|k: int| 0 <= k < i ==> roles@[k]@ == value.roles@[k].id@,
            decreases value.roles@.len() - i,
        {
            roles.push(value.roles[i].id);
            i = i + 1;
        }
        let mut threads: Vec<Id<ChannelMarker>> = Vec::new();
        let mut i: usize = 0;
        while i < value.threads.len()
            invariant
                i <= value.threads@.len(),
                threads@.len() == i,
                forall|k: int| 0 <= k < i ==> threads@[k]@ == value.threads@[k].id@,
            decreases value.threads@.len() - i,
        {
            threads.push(value.threads[i].id);
            i = i + 1;
        }
        let r = CacheableGuild {
            afk_timeout: value.afk_timeout,
            application_id: match value.application_id {
                Some(n) => Some(Id::new(n)),
                None => None,
            },
            approximate_member_count: value.approximate_member_count,
            approximate_presence_count: value.approximate_presence_count,
            banner: value.banner,
            channels,
            default_message_notifications: value.default_message_notifications,
            description: value.description,
            discovery_splash: value.discovery_splash,
            explicit_content_filter: value.explicit_content_filter,
            icon: value.icon,
            id: value.id,
            joined_at: value.joined_at,
            large: Some(value.large),
            max_members: value.max_members,
            max_presences: value.max_presences,
            max_stage_video_channel_users: value.max_stage_video_channel_users,
            max_video_channel_users: value.max_video_channel_users,
            member_count: value.member_count,
            members,
            mfa_level: value.mfa_level,
            name: value.name,
            nsfw_level: value.nsfw_level,
            owner_id: value.owner_id,
            owner: value.owner,
            permissions: match value.permissions {
                Some(p) => Some(p.bits()),
                None => None,
            },
            preferred_locale: value.preferred_locale,
            premium_progress_bar_enabled: value.premium_progress_bar_enabled,
            premium_subscription_count: value.premium_subscription_count,
            premium_tier: value.premium_tier,
            public_updates_channel_id: value.public_updates_channel_id,
            roles,
            rules_channel_id: value.rules_channel_id,
            safety_alerts_channel_id: value.safety_alerts_channel_id,
            splash: value.splash,
            system_channel_flags: value.system_channel_flags.bits(),
            system_channel_id: value.system_channel_id,
            threads,
            unavailable: value.unavailable,
            vanity_url_code: value.vanity_url_code,
            verification_level: value.verification_level,
            widget_channel_id: value.widget_channel_id,
            widget_enabled: value.widget_enabled,
        };
        proof {
            assert(id_values(r.channels@) =~= Seq::new(
                value.channels@.len(),
                |i: int| value.channels@[i].id@,
            ));
            assert(id_values(r.members@) =~= Seq::new(
                value.members@.len(),
                |i: int| value.members@[i].user.id@,
            ));
            assert(id_values(r.roles@) =~= Seq::new(
                value.roles@.len(),
                |i: int| value.roles@[i].id@,
            ));
            assert(id_values(r.threads@) =~= Seq::new(
                value.threads@.len(),
                |i: int| value.threads@[i].id@,
            ));
        }
        r
    }

    /// Projects a partial guild: the fields a partial guild does not
    /// carry are left empty.
    pub fn from_partial_guild(value: PartialGuild) -> (r: Self)
        ensures
            r.afk_timeout == value.afk_timeout,
            opt_id(r.application_id) == (match value.application_id {
                Some(n) => Some(n),
                None => None,
            }),
            r.approximate_member_count is None,
            r.approximate_presence_count is None,
            opt_str(r.banner) == opt_str(value.banner),
            r.channels@.len() == 0,
            r.default_message_notifications == value.default_message_notifications,
            opt_str(r.description) == opt_str(value.description),
            opt_str(r.discovery_splash) == opt_str(value.discovery_splash),
            r.explicit_content_filter == value.explicit_content_filter,
            opt_str(r.icon) == opt_str(value.icon),
            r.id@ == value.id@,
            r.joined_at is None,
            r.large is None,
            r.max_members == value.max_members,
            r.max_presences == value.max_presences,
            r.max_stage_video_channel_users is None,
            r.max_video_channel_users is None,
            r.member_count == value.member_count,
            r.members@.len() == 0,
            r.mfa_level == value.mfa_level,
            r.name@ == value.name@,
            r.nsfw_level == value.nsfw_level,
            r.owner_id@ == value.owner_id@,
            r.owner == value.owner,
            r.permissions == (match value.permissions {
                Some(p) => Some(p@),
                None => None,
            }),
            r.preferred_locale@ == value.preferred_locale@,
            r.premium_progress_bar_enabled == value.premium_progress_bar_enabled,
            r.premium_subscription_count == value.premium_subscription_count,
            r.premium_tier == value.premium_tier,
            opt_id(r.public_updates_channel_id) == opt_id(value.public_updates_channel_id),
            id_values(r.roles@) == Seq::new(
                value.roles@.len(),
                |i: int| value.roles@[i].id@,
            ),
            opt_id(r.rules_channel_id) == opt_id(value.rules_channel_id),
            r.safety_alerts_channel_id is None,
            opt_str(r.splash) == opt_str(value.splash),
            r.system_channel_flags == value.system_channel_flags@,
            opt_id(r.system_channel_id) == opt_id(value.system_channel_id),
            r.threads@.len() == 0,
            !r.unavailable,
            opt_str(r.vanity_url_code) == opt_str(value.vanity_url_code),
            r.verification_level == value.verification_level,
            opt_id(r.widget_channel_id) == opt_id(value.widget_channel_id),
            r.widget_enabled == value.widget_enabled,
    {
        let mut roles: Vec<Id<RoleMarker>> = Vec::new();
        let mut i: usize = 0;
        while i < value.roles.len()
            invariant
                i <= value.roles@.len(),
                roles@.len() == i,
                forall|k: int| 0 <= k < i ==> roles@[k]@ == value.roles@[k].id@,
            decreases value.roles@.len() - i,
        {
            roles.push(value.roles[i].id);
            i = i + 1;
        }
        let r = CacheableGuild {
            afk_timeout: value.afk_timeout,
            application_id: match value.application_id {
                Some(n) => Some(Id::new(n)),
                None => None,
            },
            approximate_member_count: None,
            approximate_presence_count: None,
            banner: value.banner,
            channels: Vec::new(),
            default_message_notifications: value.default_message_notifications,
            description: value.description,
            discovery_splash: value.discovery_splash,
            explicit_content_filter: value.explicit_content_filter,
            icon: value.icon,
            id: value.id,
            joined_at: None,
            large: None,
            max_members: value.max_members,
            max_presences: value.max_presences,
            max_stage_video_channel_users: None,
            max_video_channel_users: None,
            member_count: value.member_count,
            members: Vec::new(),
            mfa_level: value.mfa_level,
            name: value.name,
            nsfw_level: value.nsfw_level,
            owner_id: value.owner_id,
            owner: value.owner,
            permissions: match value.permissions {
                Some(p) => Some(p.bits()),
                None => None,
            },
            preferred_locale: value.preferred_locale,
            premium_progress_bar_enabled: value.premium_progress_bar_enabled,
            premium_subscription_count: value.premium_subscription_count,
            premium_tier: value.premium_tier,
            public_updates_channel_id: value.public_updates_channel_id,
            roles,
            rules_channel_id: value.rules_channel_id,
            safety_alerts_channel_id: None,
            splash: value.splash,
            system_channel_flags: value.system_channel_flags.bits(),
            system_channel_id: value.system_channel_id,
            threads: Vec::new(),
            unavailable: false,
            vanity_url_code: value.vanity_url_code,
            verification_level: value.verification_level,
            widget_channel_id: value.widget_channel_id,
            widget_enabled: value.widget_enabled,
        };
        proof {
            assert(id_values(r.roles@) =~= Seq::new(
                value.roles@.len(),
                |i: int| value.roles@[i].id@,
            ));
        }
        r
    }
}

} // verus!
