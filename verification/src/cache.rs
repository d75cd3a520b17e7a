//! The downstream projection: turning domain objects into the ordered
//! key/value field lists pushed to an external store.

use vstd::prelude::*;

pub mod fields;
pub mod guild;
pub mod interaction;

verus! {

} // verus!
