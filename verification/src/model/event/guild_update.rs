//! The guild-update dispatch payload.

use vstd::prelude::*;
use crate::model::guild::PartialGuild;

verus! {

/// A change to an existing guild.
#[derive(Clone, Debug)]
pub struct GuildUpdate(pub PartialGuild);

} // verus!
