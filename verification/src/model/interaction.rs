//! Interaction objects: what the logic reads of an interaction, with
//! identifiers as plain values and resolved objects reduced to their
//! identifier lists.

use vstd::prelude::*;

verus! {

/// An interaction as the shard's consumers see it.
#[derive(Clone, Debug)]
pub struct Interaction {
    pub app_permissions: Option<u64>,
    pub application_id: u64,
    pub channel_id: Option<u64>,
    pub guild_id: Option<u64>,
    pub guild_locale: Option<String>,
    pub id: u64,
    pub kind: u8,
    pub locale: Option<String>,
    pub message_id: Option<u64>,
    pub token: String,
    pub user_id: Option<u64>,
    /// The identifier of the invoking member's user, when the
    /// interaction came from a guild member rather than a direct user.
    pub member_user_id: Option<u64>,
    pub data: Option<InteractionData>,
}

/// The payload an interaction carries, by its kind.
#[derive(Clone, Debug)]
pub enum InteractionData {
    ApplicationCommand(CommandData),
    MessageComponent(ComponentData),
    ModalSubmit,
    Other,
}

/// The data of an application command invocation.
#[derive(Clone, Debug)]
pub struct CommandData {
    pub id: u64,
    pub options: Vec<CommandDataOption>,
    pub resolved_channels: Vec<u64>,
    pub resolved_messages: Vec<u64>,
    pub resolved_roles: Vec<u64>,
    pub resolved_users: Vec<u64>,
    pub target_id: Option<u64>,
}

/// One named option of a command invocation.
#[derive(Clone, Debug)]
pub struct CommandDataOption {
    pub name: String,
    pub value: CommandOptionValue,
}

/// The value of a command option. Identifier-valued options carry the
/// raw identifier; fractional numbers carry their decimal text.
#[derive(Clone, Debug)]
pub enum CommandOptionValue {
    Attachment(u64),
    Boolean(bool),
    Channel(u64),
    Focused(String),
    Integer(i64),
    Mentionable(u64),
    Number(String),
    Role(u64),
    Text(String),
    User(u64),
}

/// The data of a message component interaction.
#[derive(Clone, Debug)]
pub struct ComponentData {
    pub component_type: u8,
    pub custom_id: String,
    pub values: Vec<String>,
}

} // verus!
