//! The streamable projections of interactions: the plain rows pushed to
//! the store's streams.

use vstd::prelude::*;
use vstd::string::StringExecFns;
use crate::cache::fields::{
    fields_view,
    list_contrib,
    opt_contrib,
    opt_dec,
    opt_str,
    push_id_list_field,
    push_opt_str_field,
    push_opt_u64_field,
    push_str_field,
    push_u64_field,
    RedisFieldProvider,
    RedisKeyProvider,
    spec_join_ids,
};
use crate::codec::num::{i64_to_decimal, spec_dec, spec_dec_i64, u64_to_decimal};
use crate::model::event::identify::ShardId;
use crate::model::interaction::{
    CommandData,
    CommandDataOption,
    CommandOptionValue,
    ComponentData,
    Interaction,
    InteractionData,
};
use crate::strutil::chars_to_string;

verus! {

broadcast use vstd::seq::group_seq_axioms, vstd::std_specs::vec::group_vec_axioms;

/// Why an interaction could not be converted to a streamable row.
#[derive(Clone, Copy, Debug, Eq, PartialEq, Structural)]
pub enum InteractionError {
    /// The interaction does not carry an application command.
    NotACommand,
    /// The interaction does not carry a message component.
    NotAComponent,
}

/// The text of one command option's value.
pub open spec fn spec_option_value_text(v: CommandOptionValue) -> Seq<char> {
    match v {
        CommandOptionValue::Attachment(a) => spec_dec(a),
        CommandOptionValue::Boolean(b) => if b {
            "true"@
        } else {
            "false"@
        },
        CommandOptionValue::Channel(c) => spec_dec(c),
        CommandOptionValue::Focused(f) => f@,
        CommandOptionValue::Integer(i) => spec_dec_i64(i),
        CommandOptionValue::Mentionable(m) => spec_dec(m),
        CommandOptionValue::Number(n) => n@,
        CommandOptionValue::Role(r) => spec_dec(r),
        CommandOptionValue::Text(s) => s@,
        CommandOptionValue::User(u) => spec_dec(u),
    }
}

/// One option as it appears in the options document: the quoted name, a
/// colon, and the quoted value text.
pub open spec fn spec_option_entry(o: CommandDataOption) -> Seq<char> {
    seq!['"'] + o.name@ + seq!['"', ':', '"'] + spec_option_value_text(o.value) + seq!['"']
}

/// The comma-joined option entries.
pub open spec fn spec_option_entries(s: Seq<CommandDataOption>) -> Seq<char>
    decreases s.len(),
{
    if s.len() == 0 {
        Seq::empty()
    } else if s.len() == 1 {
        spec_option_entry(s[0])
    } else {
        spec_option_entries(s.drop_last()) + seq![','] + spec_option_entry(s.last())
    }
}

/// The options document: the entries wrapped in braces. Values are
/// written verbatim between the quotes, as the stream's consumers
/// expect.
pub open spec fn spec_options_json(s: Seq<CommandDataOption>) -> Seq<char> {
    seq!['{'] + spec_option_entries(s) + seq!['}']
}

/// Writes the text of one option value.
fn push_option_value(out: &mut Vec<char>, v: &CommandOptionValue)
    ensures
        final(out)@ == old(out)@ + spec_option_value_text(*v),
{
    match v {
        CommandOptionValue::Attachment(a) => {
            let mut d = u64_to_decimal(*a);
            out.append(&mut d);
        },
        CommandOptionValue::Boolean(b) => {
            if *b {
                out.push('t');
                out.push('r');
                out.push('u');
                out.push('e');
                proof {
                    assert(out@ =~= old(out)@ + "true"@) by {
                        reveal_strlit("true");
                    }
                }
            } else {
                out.push('f');
                out.push('a');
                out.push('l');
                out.push('s');
                out.push('e');
                proof {
                    assert(out@ =~= old(out)@ + "false"@) by {
                        reveal_strlit("false");
                    }
                }
            }
        },
        CommandOptionValue::Channel(c) => {
            let mut d = u64_to_decimal(*c);
            out.append(&mut d);
        },
        CommandOptionValue::Focused(f) => {
            let mut d = crate::strutil::str_to_chars(f.as_str());
            out.append(&mut d);
        },
        CommandOptionValue::Integer(i) => {
            let mut d = i64_to_decimal(*i);
            out.append(&mut d);
        },
        CommandOptionValue::Mentionable(m) => {
            let mut d = u64_to_decimal(*m);
            out.append(&mut d);
        },
        CommandOptionValue::Number(n) => {
            let mut d = crate::strutil::str_to_chars(n.as_str());
            out.append(&mut d);
        },
        CommandOptionValue::Role(r) => {
            let mut d = u64_to_decimal(*r);
            out.append(&mut d);
        },
        CommandOptionValue::Text(s) => {
            let mut d = crate::strutil::str_to_chars(s.as_str());
            out.append(&mut d);
        },
        CommandOptionValue::User(u) => {
            let mut d = u64_to_decimal(*u);
            out.append(&mut d);
        },
    }
}

/// Renders the options of a command invocation as one braced document.
pub fn options_to_json(options: &Vec<CommandDataOption>) -> (r: String)
    ensures
        r@ == spec_options_json(options@),
{
    let mut out: Vec<char> = Vec::new();
    out.push('{');
    let mut i: usize = 0;
    proof {
        assert(options@.take(0) =~= Seq::<CommandDataOption>::empty());
    }
    while i < options.len()
        invariant
            i <= options@.len(),
            out@ == seq!['{'] + spec_option_entries(options@.take(i as int)),
        decreases options@.len() - i,
    {
        if i > 0 {
            out.push(',');
        }
        out.push('"');
        let mut name = crate::strutil::str_to_chars(options[i].name.as_str());
        out.append(&mut name);
        out.push('"');
        out.push(':');
        out.push('"');
        push_option_value(&mut out, &options[i].value);
        out.push('"');
        proof {
            assert(options@.take(i + 1).drop_last() =~= options@.take(i as int));
            assert(options@.take(i + 1).last() == options@[i as int]);
            if i == 0 {
                assert(options@.take(1) =~= seq![options@[0]]);
            }
            assert(out@ =~= seq!['{'] + spec_option_entries(options@.take(i + 1)));
        }
        i = i + 1;
    }
    out.push('}');
    proof {
        assert(options@.take(options@.len() as int) =~= options@);
        assert(out@ =~= spec_options_json(options@));
    }
    chars_to_string(out)
}

/// The row of a generic interaction.
#[derive(Clone, Debug)]
pub struct StreamableInteraction {
    pub app_permissions: Option<u64>,
    pub application_id: u64,
    pub channel: Option<u64>,
    pub guild_id: Option<u64>,
    pub guild_locale: Option<String>,
    pub id: u64,
    pub kind: u8,
    pub locale: Option<String>,
    pub message: Option<u64>,
    pub token: String,
    pub user: Option<u64>,
}

impl StreamableInteraction {
    /// Projects any interaction into its generic row.
    pub fn from_interaction(value: Interaction) -> (r: Self)
        ensures
            r.app_permissions == value.app_permissions,
            r.application_id == value.application_id,
            r.channel == value.channel_id,
            r.guild_id == value.guild_id,
            opt_str(r.guild_locale) == opt_str(value.guild_locale),
            r.id == value.id,
            r.kind == value.kind,
            opt_str(r.locale) == opt_str(value.locale),
            r.message == value.message_id,
            r.token@ == value.token@,
            r.user == value.user_id,
    {
        StreamableInteraction {
            app_permissions: value.app_permissions,
            application_id: value.application_id,
            channel: value.channel_id,
            guild_id: value.guild_id,
            guild_locale: value.guild_locale,
            id: value.id,
            kind: value.kind,
            locale: value.locale,
            message: value.message_id,
            token: value.token,
            user: value.user_id,
        }
    }

    /// The store key this interaction is kept under.
    pub fn cache_key(&self) -> (r: String)
        ensures
            r@ == "interaction:"@ + spec_dec(self.id),
    {
        String::from_str("interaction:").concat(
            chars_to_string(u64_to_decimal(self.id)).as_str(),
        )
    }
}

impl RedisKeyProvider for StreamableInteraction {
    fn get_key(&self) -> String {
        self.cache_key()
    }
}

/// The ordered field list of a generic interaction row.
pub open spec fn spec_interaction_fields(s: StreamableInteraction) -> Seq<
    (Seq<char>, Seq<char>),
> {
    opt_contrib("app_permissions"@, opt_dec(s.app_permissions)) + seq![
        ("application_id"@, spec_dec(s.application_id)),
    ] + opt_contrib("channel"@, opt_dec(s.channel)) + opt_contrib(
        "guild_id"@,
        opt_dec(s.guild_id),
    ) + opt_contrib("guild_locale"@, opt_str(s.guild_locale)) + seq![
        ("id"@, spec_dec(s.id)),
        ("kind"@, spec_dec(s.kind as u64)),
    ] + opt_contrib("locale"@, opt_str(s.locale)) + opt_contrib(
        "message"@,
        opt_dec(s.message),
    ) + seq![("token"@, s.token@)] + opt_contrib("user"@, opt_dec(s.user))
}

impl StreamableInteraction {
    /// Writes this row's fields, in declaration order.
    #[verifier::rlimit(100)]
    pub fn fields_into(&self, out: &mut Vec<(String, String)>)
        ensures
            fields_view(final(out)@) == fields_view(old(out)@) + spec_interaction_fields(
                *self,
            ),
    {
        let ghost base = fields_view(old(out)@);
        let ghost mut acc = base;
        push_opt_u64_field(out, "app_permissions", self.app_permissions);
        proof {
            acc = acc + opt_contrib("app_permissions"@, opt_dec(self.app_permissions));
            assert(fields_view(out@) =~= acc);
        }
        push_u64_field(out, "application_id", self.application_id);
        proof {
            acc = acc + seq![("application_id"@, spec_dec(self.application_id))];
            assert(fields_view(out@) =~= acc);
        }
        push_opt_u64_field(out, "channel", self.channel);
        proof {
            acc = acc + opt_contrib("channel"@, opt_dec(self.channel));
            assert(fields_view(out@) =~= acc);
        }
        push_opt_u64_field(out, "guild_id", self.guild_id);
        proof {
            acc = acc + opt_contrib("guild_id"@, opt_dec(self.guild_id));
            assert(fields_view(out@) =~= acc);
        }
        push_opt_str_field(
            out,
            "guild_locale",
            match &self.guild_locale {
                Some(s) => Some(s.clone()),
                None => None,
            },
        );
        proof {
            acc = acc + opt_contrib("guild_locale"@, opt_str(self.guild_locale));
            assert(fields_view(out@) =~= acc);
        }
        push_u64_field(out, "id", self.id);
        proof {
            acc = acc + seq![("id"@, spec_dec(self.id))];
            assert(fields_view(out@) =~= acc);
        }
        push_u64_field(out, "kind", self.kind as u64);
        proof {
            acc = acc + seq![("kind"@, spec_dec(self.kind as u64))];
            assert(fields_view(out@) =~= acc);
        }
        push_opt_str_field(
            out,
            "locale",
            match &self.locale {
                Some(s) => Some(s.clone()),
                None => None,
            },
        );
        proof {
            acc = acc + opt_contrib("locale"@, opt_str(self.locale));
            assert(fields_view(out@) =~= acc);
        }
        push_opt_u64_field(out, "message", self.message);
        proof {
            acc = acc + opt_contrib("message"@, opt_dec(self.message));
            assert(fields_view(out@) =~= acc);
        }
        push_str_field(out, "token", self.token.clone());
        proof {
            acc = acc + seq![("token"@, self.token@)];
            assert(fields_view(out@) =~= acc);
        }
        push_opt_u64_field(out, "user", self.user);
        proof {
            acc = acc + opt_contrib("user"@, opt_dec(self.user));
            assert(fields_view(out@) =~= acc);
            assert(acc =~= base + spec_interaction_fields(*self));
        }
    }
}

impl RedisFieldProvider for StreamableInteraction {
    fn add_fields(self, out: &mut Vec<(String, String)>) {
        self.fields_into(out);
    }
}

/// The row of an application command invocation.
#[derive(Clone, Debug)]
pub struct StreamableCommandInteraction {
    pub app_permissions: Option<u64>,
    pub application_id: u64,
    pub channel_id: Option<u64>,
    pub command_id: u64,
    pub guild_id: Option<u64>,
    pub guild_locale: Option<String>,
    pub id: u64,
    pub kind: u8,
    pub locale: Option<String>,
    pub options: String,
    pub resolved_channels: Vec<u64>,
    pub resolved_messages: Vec<u64>,
    pub resolved_roles: Vec<u64>,
    pub resolved_users: Vec<u64>,
    pub target_id: Option<u64>,
    pub token: String,
    pub user_id: u64,
}

impl StreamableCommandInteraction {
    /// The stream key rows of this shard are appended to.
    pub fn get_stream_key(&self, shard: &ShardId) -> (r: String)
        ensures
            r@ == "command_interaction:"@ + spec_dec(shard.number() as u64),
    {
        String::from_str("command_interaction:").concat(
            chars_to_string(u64_to_decimal(shard.number() as u64)).as_str(),
        )
    }

    /// Projects a command interaction. The invoking user is the direct
    /// user when present, else the member's user; an interaction that
    /// carries something other than a command is refused.
    pub fn try_from_interaction(value: Interaction) -> (r: Result<Self, InteractionError>)
        requires
            (value.data matches Some(InteractionData::ApplicationCommand(_))) ==> (
            value.user_id is Some || value.member_user_id is Some),
        ensures
            match r {
                Ok(s) => (value.data matches Some(InteractionData::ApplicationCommand(d))
                    && {
                    &&& s.app_permissions == value.app_permissions
                    &&& s.application_id == value.application_id
                    &&& s.channel_id == value.channel_id
                    &&& s.command_id == d.id
                    &&& s.guild_id == value.guild_id
                    &&& opt_str(s.guild_locale) == opt_str(value.guild_locale)
                    &&& s.id == value.id
                    &&& s.kind == value.kind
                    &&& opt_str(s.locale) == opt_str(value.locale)
                    &&& s.options@ == spec_options_json(d.options@)
                    &&& s.resolved_channels@ == d.resolved_channels@
                    &&& s.resolved_messages@ == d.resolved_messages@
                    &&& s.resolved_roles@ == d.resolved_roles@
                    &&& s.resolved_users@ == d.resolved_users@
                    &&& s.target_id == d.target_id
                    &&& s.token@ == value.token@
                    &&& s.user_id == (match value.user_id {
                        Some(u) => u,
                        None => value.member_user_id->Some_0,
                    })
                }),
                Err(e) => e == InteractionError::NotACommand && !(
                value.data matches Some(InteractionData::ApplicationCommand(_))),
            },
    {
        match value.data {
            Some(InteractionData::ApplicationCommand(data)) => {
                let user_id = match value.user_id {
                    Some(u) => u,
                    None => match value.member_user_id {
                        Some(u) => u,
                        None => {
                            proof {
                                assert(false);
                            }
                            0
                        },
                    },
                };
                Ok(
                    StreamableCommandInteraction {
                        app_permissions: value.app_permissions,
                        application_id: value.application_id,
                        channel_id: value.channel_id,
                        command_id: data.id,
                        guild_id: value.guild_id,
                        guild_locale: value.guild_locale,
                        id: value.id,
                        kind: value.kind,
                        locale: value.locale,
                        options: options_to_json(&data.options),
                        resolved_channels: data.resolved_channels,
                        resolved_messages: data.resolved_messages,
                        resolved_roles: data.resolved_roles,
                        resolved_users: data.resolved_users,
                        target_id: data.target_id,
                        token: value.token,
                        user_id,
                    },
                )
            },
            _ => Err(InteractionError::NotACommand),
        }
    }
}

/// The ordered field list of a command interaction row.
pub open spec fn spec_command_fields_a(s: StreamableCommandInteraction) -> Seq<
    (Seq<char>, Seq<char>),
> {
    opt_contrib("app_permissions"@, opt_dec(s.app_permissions)) + seq![
        ("application_id"@, spec_dec(s.application_id)),
    ] + opt_contrib("channel_id"@, opt_dec(s.channel_id)) + seq![
        ("command_id"@, spec_dec(s.command_id)),
    ] + opt_contrib("guild_id"@, opt_dec(s.guild_id)) + opt_contrib(
        "guild_locale"@,
        opt_str(s.guild_locale),
    ) + seq![("id"@, spec_dec(s.id)), ("kind"@, spec_dec(s.kind as u64))] + opt_contrib(
        "locale"@,
        opt_str(s.locale),
    )
}

/// The rest of a command interaction row's fields.
pub open spec fn spec_command_fields_b(s: StreamableCommandInteraction) -> Seq<
    (Seq<char>, Seq<char>),
> {
    seq![("options"@, s.options@)] + list_contrib(
        "resolved_channels"@,
        s.resolved_channels@,
    ) + list_contrib("resolved_messages"@, s.resolved_messages@) + list_contrib(
        "resolved_roles"@,
        s.resolved_roles@,
    ) + list_contrib("resolved_users"@, s.resolved_users@) + opt_contrib(
        "target_id"@,
        opt_dec(s.target_id),
    ) + seq![("token"@, s.token@), ("user_id"@, spec_dec(s.user_id))]
}

/// The complete field list of a command interaction row.
pub open spec fn spec_command_fields(s: StreamableCommandInteraction) -> Seq<
    (Seq<char>, Seq<char>),
> {
    spec_command_fields_a(s) + spec_command_fields_b(s)
}

impl StreamableCommandInteraction {
    #[verifier::rlimit(100)]
    fn fields_a(&self, out: &mut Vec<(String, String)>)
        ensures
            fields_view(final(out)@) == fields_view(old(out)@) + spec_command_fields_a(
                *self,
            ),
    {
        let ghost base = fields_view(old(out)@);
        let ghost mut acc = base;
        push_opt_u64_field(out, "app_permissions", self.app_permissions);
        proof {
            acc = acc + opt_contrib("app_permissions"@, opt_dec(self.app_permissions));
            assert(fields_view(out@) =~= acc);
        }
        push_u64_field(out, "application_id", self.application_id);
        proof {
            acc = acc + seq![("application_id"@, spec_dec(self.application_id))];
            assert(fields_view(out@) =~= acc);
        }
        push_opt_u64_field(out, "channel_id", self.channel_id);
        proof {
            acc = acc + opt_contrib("channel_id"@, opt_dec(self.channel_id));
            assert(fields_view(out@) =~= acc);
        }
        push_u64_field(out, "command_id", self.command_id);
        proof {
            acc = acc + seq![("command_id"@, spec_dec(self.command_id))];
            assert(fields_view(out@) =~= acc);
        }
        push_opt_u64_field(out, "guild_id", self.guild_id);
        proof {
            acc = acc + opt_contrib("guild_id"@, opt_dec(self.guild_id));
            assert(fields_view(out@) =~= acc);
        }
        push_opt_str_field(
            out,
            "guild_locale",
            match &self.guild_locale {
                Some(s) => Some(s.clone()),
                None => None,
            },
        );
        proof {
            acc = acc + opt_contrib("guild_locale"@, opt_str(self.guild_locale));
            assert(fields_view(out@) =~= acc);
        }
        push_u64_field(out, "id", self.id);
        proof {
            acc = acc + seq![("id"@, spec_dec(self.id))];
            assert(fields_view(out@) =~= acc);
        }
        push_u64_field(out, "kind", self.kind as u64);
        proof {
            acc = acc + seq![("kind"@, spec_dec(self.kind as u64))];
            assert(fields_view(out@) =~= acc);
        }
        push_opt_str_field(
            out,
            "locale",
            match &self.locale {
                Some(s) => Some(s.clone()),
                None => None,
            },
        );
        proof {
            acc = acc + opt_contrib("locale"@, opt_str(self.locale));
            assert(fields_view(out@) =~= acc);
            assert(acc =~= base + spec_command_fields_a(*self));
        }
    }

    #[verifier::rlimit(100)]
    fn fields_b(&self, out: &mut Vec<(String, String)>)
        ensures
            fields_view(final(out)@) == fields_view(old(out)@) + spec_command_fields_b(
                *self,
            ),
    {
        let ghost base = fields_view(old(out)@);
        let ghost mut acc = base;
        push_str_field(out, "options", self.options.clone());
        proof {
            acc = acc + seq![("options"@, self.options@)];
            assert(fields_view(out@) =~= acc);
        }
        push_id_list_field(out, "resolved_channels", &self.resolved_channels);
        proof {
            acc = acc + list_contrib("resolved_channels"@, self.resolved_channels@);
            assert(fields_view(out@) =~= acc);
        }
        push_id_list_field(out, "resolved_messages", &self.resolved_messages);
        proof {
            acc = acc + list_contrib("resolved_messages"@, self.resolved_messages@);
            assert(fields_view(out@) =~= acc);
        }
        push_id_list_field(out, "resolved_roles", &self.resolved_roles);
        proof {
            acc = acc + list_contrib("resolved_roles"@, self.resolved_roles@);
            assert(fields_view(out@) =~= acc);
        }
        push_id_list_field(out, "resolved_users", &self.resolved_users);
        proof {
            acc = acc + list_contrib("resolved_users"@, self.resolved_users@);
            assert(fields_view(out@) =~= acc);
        }
        push_opt_u64_field(out, "target_id", self.target_id);
        proof {
            acc = acc + opt_contrib("target_id"@, opt_dec(self.target_id));
            assert(fields_view(out@) =~= acc);
        }
        push_str_field(out, "token", self.token.clone());
        proof {
            acc = acc + seq![("token"@, self.token@)];
            assert(fields_view(out@) =~= acc);
        }
        push_u64_field(out, "user_id", self.user_id);
        proof {
            acc = acc + seq![("user_id"@, spec_dec(self.user_id))];
            assert(fields_view(out@) =~= acc);
            assert(acc =~= base + spec_command_fields_b(*self));
        }
    }

    /// Writes this row's fields, in declaration order.
    pub fn fields_into(&self, out: &mut Vec<(String, String)>)
        ensures
            fields_view(final(out)@) == fields_view(old(out)@) + spec_command_fields(
                *self,
            ),
    {
        self.fields_a(out);
        self.fields_b(out);
        proof {
            assert(fields_view(out@) =~= fields_view(old(out)@) + spec_command_fields(
                *self,
            ));
        }
    }
}

impl RedisFieldProvider for StreamableCommandInteraction {
    fn add_fields(self, out: &mut Vec<(String, String)>) {
        self.fields_into(out);
    }
}

/// The row of a message component interaction.
#[derive(Clone, Debug)]
pub struct StreamableComponentInteraction {
    pub app_permissions: Option<u64>,
    pub application_id: u64,
    pub channel_id: Option<u64>,
    pub component_type: u8,
    pub custom_id: String,
    pub guild_id: Option<u64>,
    pub guild_locale: Option<String>,
    pub id: u64,
    pub kind: u8,
    pub locale: Option<String>,
    pub message_id: Option<u64>,
    pub token: String,
    pub user_id: Option<u64>,
    pub values: Vec<String>,
}

impl StreamableComponentInteraction {
    /// Projects a component interaction; an interaction carrying
    /// anything else is refused.
    pub fn try_from_interaction(value: Interaction) -> (r: Result<Self, InteractionError>)
        ensures
            match r {
                Ok(s) => (value.data matches Some(InteractionData::MessageComponent(d))
                    && {
                    &&& s.app_permissions == value.app_permissions
                    &&& s.application_id == value.application_id
                    &&& s.channel_id == value.channel_id
                    &&& s.component_type == d.component_type
                    &&& s.custom_id@ == d.custom_id@
                    &&& s.guild_id == value.guild_id
                    &&& opt_str(s.guild_locale) == opt_str(value.guild_locale)
                    &&& s.id == value.id
                    &&& s.kind == value.kind
                    &&& opt_str(s.locale) == opt_str(value.locale)
                    &&& s.message_id == value.message_id
                    &&& s.token@ == value.token@
                    &&& s.user_id == value.user_id
                    &&& s.values@ == d.values@
                }),
                Err(e) => e == InteractionError::NotAComponent && !(
                value.data matches Some(InteractionData::MessageComponent(_))),
            },
    {
        match value.data {
            Some(InteractionData::MessageComponent(data)) => {
                Ok(
                    StreamableComponentInteraction {
                        app_permissions: value.app_permissions,
                        application_id: value.application_id,
                        channel_id: value.channel_id,
                        component_type: data.component_type,
                        custom_id: data.custom_id,
                        guild_id: value.guild_id,
                        guild_locale: value.guild_locale,
                        id: value.id,
                        kind: value.kind,
                        locale: value.locale,
                        message_id: value.message_id,
                        token: value.token,
                        user_id: value.user_id,
                        values: data.values,
                    },
                )
            },
            _ => Err(InteractionError::NotAComponent),
        }
    }
}

/// The first fields of a component interaction row.
pub open spec fn spec_component_fields_a(s: StreamableComponentInteraction) -> Seq<
    (Seq<char>, Seq<char>),
> {
    opt_contrib("app_permissions"@, opt_dec(s.app_permissions)) + seq![
        ("application_id"@, spec_dec(s.application_id)),
    ] + opt_contrib("channel_id"@, opt_dec(s.channel_id)) + seq![
        ("component_type"@, spec_dec(s.component_type as u64)),
        ("custom_id"@, s.custom_id@),
    ] + opt_contrib("guild_id"@, opt_dec(s.guild_id)) + opt_contrib(
        "guild_locale"@,
        opt_str(s.guild_locale),
    )
}

/// The rest of a component interaction row's fields.
pub open spec fn spec_component_fields_b(s: StreamableComponentInteraction) -> Seq<
    (Seq<char>, Seq<char>),
> {
    seq![("id"@, spec_dec(s.id)), ("kind"@, spec_dec(s.kind as u64))] + opt_contrib(
        "locale"@,
        opt_str(s.locale),
    ) + opt_contrib("message_id"@, opt_dec(s.message_id)) + seq![("token"@, s.token@)]
        + opt_contrib("user_id"@, opt_dec(s.user_id)) + seq![
        (
            "values"@,
            crate::cache::fields::spec_join_strs(
                crate::cache::fields::strs_view(s.values@),
            ),
        ),
    ]
}

/// The complete field list of a component interaction row.
pub open spec fn spec_component_fields(s: StreamableComponentInteraction) -> Seq<
    (Seq<char>, Seq<char>),
> {
    spec_component_fields_a(s) + spec_component_fields_b(s)
}

impl StreamableComponentInteraction {
    #[verifier::rlimit(100)]
    fn fields_a(&self, out: &mut Vec<(String, String)>)
        ensures
            fields_view(final(out)@) == fields_view(old(out)@) + spec_component_fields_a(
                *self,
            ),
    {
        let ghost base = fields_view(old(out)@);
        let ghost mut acc = base;
        push_opt_u64_field(out, "app_permissions", self.app_permissions);
        proof {
            acc = acc + opt_contrib("app_permissions"@, opt_dec(self.app_permissions));
            assert(fields_view(out@) =~= acc);
        }
        push_u64_field(out, "application_id", self.application_id);
        proof {
            acc = acc + seq![("application_id"@, spec_dec(self.application_id))];
            assert(fields_view(out@) =~= acc);
        }
        push_opt_u64_field(out, "channel_id", self.channel_id);
        proof {
            acc = acc + opt_contrib("channel_id"@, opt_dec(self.channel_id));
            assert(fields_view(out@) =~= acc);
        }
        push_u64_field(out, "component_type", self.component_type as u64);
        proof {
            acc = acc + seq![("component_type"@, spec_dec(self.component_type as u64))];
            assert(fields_view(out@) =~= acc);
        }
        push_str_field(out, "custom_id", self.custom_id.clone());
        proof {
            acc = acc + seq![("custom_id"@, self.custom_id@)];
            assert(fields_view(out@) =~= acc);
        }
        push_opt_u64_field(out, "guild_id", self.guild_id);
        proof {
            acc = acc + opt_contrib("guild_id"@, opt_dec(self.guild_id));
            assert(fields_view(out@) =~= acc);
        }
        push_opt_str_field(
            out,
            "guild_locale",
            match &self.guild_locale {
                Some(s) => Some(s.clone()),
                None => None,
            },
        );
        proof {
            acc = acc + opt_contrib("guild_locale"@, opt_str(self.guild_locale));
            assert(fields_view(out@) =~= acc);
            assert(acc =~= base + spec_component_fields_a(*self));
        }
    }

    #[verifier::rlimit(100)]
    fn fields_b(&self, out: &mut Vec<(String, String)>)
        ensures
            fields_view(final(out)@) == fields_view(old(out)@) + spec_component_fields_b(
                *self,
            ),
    {
        let ghost base = fields_view(old(out)@);
        let ghost mut acc = base;
        push_u64_field(out, "id", self.id);
        proof {
            acc = acc + seq![("id"@, spec_dec(self.id))];
            assert(fields_view(out@) =~= acc);
        }
        push_u64_field(out, "kind", self.kind as u64);
        proof {
            acc = acc + seq![("kind"@, spec_dec(self.kind as u64))];
            assert(fields_view(out@) =~= acc);
        }
        push_opt_str_field(
            out,
            "locale",
            match &self.locale {
                Some(s) => Some(s.clone()),
                None => None,
            },
        );
        proof {
            acc = acc + opt_contrib("locale"@, opt_str(self.locale));
            assert(fields_view(out@) =~= acc);
        }
        push_opt_u64_field(out, "message_id", self.message_id);
        proof {
            acc = acc + opt_contrib("message_id"@, opt_dec(self.message_id));
            assert(fields_view(out@) =~= acc);
        }
        push_str_field(out, "token", self.token.clone());
        proof {
            acc = acc + seq![("token"@, self.token@)];
            assert(fields_view(out@) =~= acc);
        }
        push_opt_u64_field(out, "user_id", self.user_id);
        proof {
            acc = acc + opt_contrib("user_id"@, opt_dec(self.user_id));
            assert(fields_view(out@) =~= acc);
        }
        crate::cache::fields::push_str_list_field(out, "values", &self.values);
        proof {
            acc = acc + seq![
                (
                    "values"@,
                    crate::cache::fields::spec_join_strs(
                        crate::cache::fields::strs_view(self.values@),
                    ),
                ),
            ];
            assert(fields_view(out@) =~= acc);
            assert(acc =~= base + spec_component_fields_b(*self));
        }
    }

    /// Writes this row's fields, in declaration order.
    pub fn fields_into(&self, out: &mut Vec<(String, String)>)
        ensures
            fields_view(final(out)@) == fields_view(old(out)@) + spec_component_fields(
                *self,
            ),
    {
        self.fields_a(out);
        self.fields_b(out);
        proof {
            assert(fields_view(out@) =~= fields_view(old(out)@) + spec_component_fields(
                *self,
            ));
        }
    }
}

impl RedisFieldProvider for StreamableComponentInteraction {
    fn add_fields(self, out: &mut Vec<(String, String)>) {
        self.fields_into(out);
    }
}

impl crate::cache::fields::Streamable for StreamableInteraction {

}

impl crate::cache::fields::Streamable for StreamableCommandInteraction {

}

impl crate::cache::fields::Streamable for StreamableComponentInteraction {

}

/// The argument list of the stream append that records a command
/// interaction: the command name, the per-shard stream key, the length
/// bound, the auto-identifier marker, and the flattened fields.
pub open spec fn spec_xadd_args(
    key: Seq<char>,
    max_len: u64,
    fields: Seq<(Seq<char>, Seq<char>)>,
) -> Seq<Seq<char>> {
    seq!["XADD"@, key, "MAXLEN"@, spec_dec(max_len), "*"@] + crate::cache::fields::spec_flatten(
        fields,
    )
}

impl StreamableCommandInteraction {
    /// Builds the complete argument list of the stream append for this
    /// row; the embedding program hands it to the store.
    pub fn xadd_args(&self, shard: &ShardId, max_len: u64) -> (r: Vec<String>)
        ensures
            crate::cache::fields::strs_view(r@) == spec_xadd_args(
                "command_interaction:"@ + spec_dec(shard.number() as u64),
                max_len,
                spec_command_fields(*self),
            ),
    {
        let mut pairs: Vec<(String, String)> = Vec::new();
        self.fields_into(&mut pairs);
        let mut tail = crate::cache::fields::flatten_fields(&pairs);
        let mut r: Vec<String> = Vec::new();
        r.push(String::from_str("XADD"));
        r.push(self.get_stream_key(shard));
        r.push(String::from_str("MAXLEN"));
        r.push(chars_to_string(u64_to_decimal(max_len)));
        r.push(String::from_str("*"));
        let ghost head = r@;
        r.append(&mut tail);
        proof {
            assert(fields_view(pairs@) =~= spec_command_fields(*self));
            assert(crate::cache::fields::strs_view(r@) =~= spec_xadd_args(
                "command_interaction:"@ + spec_dec(shard.number() as u64),
                max_len,
                spec_command_fields(*self),
            ));
        }
        r
    }
}

} // verus!
