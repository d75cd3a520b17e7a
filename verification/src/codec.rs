//! The wire codec: decimal numbers, the JSON document model, and the
//! gateway envelope built on top of it.

use vstd::prelude::*;

pub mod envelope;
pub mod json;
pub mod num;
pub mod roundtrip;

verus! {

} // verus!
