//! The ready payload: delivered once a session is established.

use vstd::prelude::*;
use crate::model::guild::UnavailableGuild;
use crate::model::user::User;

verus! {

/// The ready payload. The session identifier and the resume URL are what
/// the shard itself consumes; the rest is surfaced to the caller.
#[derive(Clone, Debug)]
pub struct Ready {
    pub guilds: Vec<UnavailableGuild>,
    pub resume_gateway_url: String,
    pub session_id: String,
    pub shard: Option<(u32, u32)>,
    pub user: User,
    pub version: u64,
}

} // verus!
