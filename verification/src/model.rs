//! The domain model: identifiers, flag sets, guild and user objects, and
//! the typed gateway event payloads.

use vstd::prelude::*;

pub mod channel;
pub mod event;
pub mod guild;
pub mod intents;
pub mod interaction;
pub mod member;
pub mod role;
pub mod snowflake;
pub mod user;

verus! {

/// Whether a boolean is false; used when a field is only written out
/// when set.
pub fn is_false(value: &bool) -> (r: bool)
    ensures
        r == !*value,
{
    !*value
}

} // verus!
