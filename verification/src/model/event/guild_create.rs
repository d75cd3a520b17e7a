//! The guild-create dispatch payload.

use vstd::prelude::*;
use crate::model::guild::{Guild, UnavailableGuild};

verus! {

/// A guild announced on connection: delivered in full when available,
/// else as a stub to be filled in later.
#[derive(Clone, Debug)]
pub enum GuildCreate {
    Available(Guild),
    Unavailable(UnavailableGuild),
}

} // verus!
