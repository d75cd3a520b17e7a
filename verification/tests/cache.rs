use fishmael::cache::fields::{flatten_fields, join_ids, join_strs, RedisKeyProvider};
use fishmael::cache::guild::CacheableGuild;
use fishmael::cache::interaction::{
    options_to_json,
    InteractionError,
    StreamableCommandInteraction,
    StreamableComponentInteraction,
    StreamableInteraction,
};
use fishmael::model::event::identify::ShardId;
use fishmael::model::guild::{Guild, Permissions, SystemChannelFlags};
use fishmael::model::interaction::{
    CommandData,
    CommandDataOption,
    CommandOptionValue,
    ComponentData,
    Interaction,
    InteractionData,
};
use fishmael::model::role::{Role, RoleFlags};
use fishmael::model::snowflake::Id;

fn small_guild() -> Guild {
    Guild {
        afk_channel_id: None,
        afk_timeout: 300,
        application_id: None,
        approximate_member_count: None,
        approximate_presence_count: None,
        banner: None,
        channels: Vec::new(),
        default_message_notifications: 0,
        description: None,
        discovery_splash: None,
        explicit_content_filter: 1,
        icon: None,
        id: Id::new(9),
        joined_at: Some(String::from("2024-01-01T00:00:00Z")),
        large: false,
        max_members: Some(500000),
        max_presences: None,
        max_stage_video_channel_users: None,
        max_video_channel_users: None,
        member_count: Some(2),
        members: Vec::new(),
        mfa_level: 0,
        name: String::from("testers"),
        nsfw_level: 0,
        owner_id: Id::new(7),
        owner: None,
        permissions: Some(Permissions::from_bits(8)),
        preferred_locale: String::from("en-US"),
        premium_progress_bar_enabled: false,
        premium_subscription_count: None,
        premium_tier: 0,
        public_updates_channel_id: None,
        roles: vec![
            Role {
                color: 0,
                hoist: false,
                icon: None,
                id: Id::new(31),
                managed: false,
                mentionable: false,
                name: String::from("everyone"),
                permissions: Permissions::from_bits(0),
                position: 0,
                flags: RoleFlags::from_bits(0),
                tags: None,
                unicode_emoji: None,
            },
        ],
        rules_channel_id: None,
        safety_alerts_channel_id: None,
        splash: None,
        system_channel_flags: SystemChannelFlags::from_bits(0),
        system_channel_id: None,
        threads: Vec::new(),
        unavailable: false,
        vanity_url_code: None,
        verification_level: 2,
        widget_channel_id: None,
        widget_enabled: None,
    }
}

#[test]
fn guild_projection_keeps_fields() {
    let cg = CacheableGuild::from_guild(small_guild());
    assert_eq!(cg.afk_timeout, 300);
    assert_eq!(cg.id.value(), 9);
    assert_eq!(cg.name, "testers");
    assert_eq!(cg.large, Some(false));
    assert_eq!(cg.permissions, Some(8));
    assert_eq!(cg.roles.len(), 1);
    assert_eq!(cg.roles[0].value(), 31);
    assert!(cg.channels.is_empty());
    assert_eq!(cg.get_key(), "guild:9");
    assert_eq!(cg.cache_key(), "guild:9");
}

#[test]
fn guild_fields_skip_empty_options_and_lists() {
    let cg = CacheableGuild::from_guild(small_guild());
    let mut out: Vec<(String, String)> = Vec::new();
    cg.fields_into(&mut out);
    let find = |key: &str| -> Option<String> {
        out.iter().find(|p| p.0 == key).map(|p| p.1.clone())
    };
    assert_eq!(find("afk_timeout"), Some(String::from("300")));
    assert_eq!(find("id"), Some(String::from("9")));
    assert_eq!(find("name"), Some(String::from("testers")));
    assert_eq!(find("large"), Some(String::from("0")));
    assert_eq!(find("permissions"), Some(String::from("8")));
    assert_eq!(find("roles"), Some(String::from("31")));
    assert_eq!(find("max_members"), Some(String::from("500000")));
    assert_eq!(find("unavailable"), Some(String::from("0")));
    // Empty options and empty identifier lists contribute nothing.
    assert_eq!(find("banner"), None);
    assert_eq!(find("channels"), None);
    assert_eq!(find("application_id"), None);
    // The declaration order is kept.
    assert_eq!(out[0].0, "afk_timeout");
}

#[test]
fn hset_args_are_command_key_then_fields() {
    let cg = CacheableGuild::from_guild(small_guild());
    let args = cg.hset_args();
    assert_eq!(args[0], "HSET");
    assert_eq!(args[1], "guild:9");
    assert_eq!(args[2], "afk_timeout");
    assert_eq!(args[3], "300");
    // Key/value pairs alternate after the header.
    assert_eq!(args.len() % 2, 0);
}

#[test]
fn id_lists_join_with_commas() {
    assert_eq!(join_ids(&vec![1, 22, 333]), "1,22,333");
    assert_eq!(join_ids(&vec![7]), "7");
    assert_eq!(join_ids(&Vec::new()), "");
    assert_eq!(
        join_strs(&vec![String::from("a"), String::from("b")]),
        "a,b"
    );
}

#[test]
fn options_render_as_quoted_pairs() {
    let options = vec![
        CommandDataOption {
            name: String::from("user"),
            value: CommandOptionValue::User(42),
        },
        CommandDataOption {
            name: String::from("force"),
            value: CommandOptionValue::Boolean(true),
        },
        CommandDataOption {
            name: String::from("count"),
            value: CommandOptionValue::Integer(-3),
        },
        CommandDataOption {
            name: String::from("ratio"),
            value: CommandOptionValue::Number(String::from("2.5")),
        },
        CommandDataOption {
            name: String::from("note"),
            value: CommandOptionValue::Text(String::from("hey")),
        },
    ];
    assert_eq!(
        options_to_json(&options),
        "{\"user\":\"42\",\"force\":\"true\",\"count\":\"-3\",\"ratio\":\"2.5\",\"note\":\"hey\"}"
    );
    assert_eq!(options_to_json(&Vec::new()), "{}");
}

fn command_interaction() -> Interaction {
    Interaction {
        app_permissions: Some(8),
        application_id: 11,
        channel_id: Some(22),
        guild_id: Some(33),
        guild_locale: None,
        id: 44,
        kind: 2,
        locale: Some(String::from("en-US")),
        message_id: None,
        token: String::from("itoken"),
        user_id: None,
        member_user_id: Some(55),
        data: Some(InteractionData::ApplicationCommand(CommandData {
            id: 66,
            options: vec![CommandDataOption {
                name: String::from("q"),
                value: CommandOptionValue::Text(String::from("hi")),
            }],
            resolved_channels: vec![1, 2],
            resolved_messages: Vec::new(),
            resolved_roles: Vec::new(),
            resolved_users: vec![55],
            target_id: None,
        })),
    }
}

#[test]
fn command_interaction_projection() {
    let ci = StreamableCommandInteraction::try_from_interaction(command_interaction())
        .unwrap();
    assert_eq!(ci.application_id, 11);
    assert_eq!(ci.command_id, 66);
    // The member's user stands in when no direct user is given.
    assert_eq!(ci.user_id, 55);
    assert_eq!(ci.options, "{\"q\":\"hi\"}");
    assert_eq!(ci.resolved_channels, vec![1, 2]);
    assert_eq!(ci.get_stream_key(&ShardId::new(0, 1)), "command_interaction:0");

    let args = ci.xadd_args(&ShardId::new(0, 1), 100);
    assert_eq!(args[0], "XADD");
    assert_eq!(args[1], "command_interaction:0");
    assert_eq!(args[2], "MAXLEN");
    assert_eq!(args[3], "100");
    assert_eq!(args[4], "*");
    assert!(args.contains(&String::from("resolved_channels")));
    assert!(args.contains(&String::from("1,2")));
}

#[test]
fn component_interaction_projection() {
    let mut i = command_interaction();
    i.data = Some(InteractionData::MessageComponent(ComponentData {
        component_type: 3,
        custom_id: String::from("pick"),
        values: vec![String::from("a"), String::from("b")],
    }));
    i.user_id = Some(9);
    let ci = StreamableComponentInteraction::try_from_interaction(i).unwrap();
    assert_eq!(ci.component_type, 3);
    assert_eq!(ci.custom_id, "pick");
    assert_eq!(ci.values, vec![String::from("a"), String::from("b")]);
    assert_eq!(ci.user_id, Some(9));

    // The wrong payload kind is refused.
    let err = StreamableComponentInteraction::try_from_interaction(command_interaction());
    assert!(matches!(err, Err(InteractionError::NotAComponent)));
    let mut plain = command_interaction();
    plain.data = None;
    assert!(matches!(
        StreamableCommandInteraction::try_from_interaction(plain),
        Err(InteractionError::NotACommand)
    ));
}

#[test]
fn generic_interaction_projection() {
    let mut i = command_interaction();
    i.user_id = Some(9);
    let si = StreamableInteraction::from_interaction(i);
    assert_eq!(si.application_id, 11);
    assert_eq!(si.user, Some(9));
    assert_eq!(si.get_key(), "interaction:44");

    let mut out: Vec<(String, String)> = Vec::new();
    si.fields_into(&mut out);
    let pairs = flatten_fields(&out);
    assert!(pairs.contains(&String::from("application_id")));
    assert!(pairs.contains(&String::from("11")));
}
