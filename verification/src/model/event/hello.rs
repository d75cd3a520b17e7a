//! The hello payload: the first control frame a gateway sends.

use vstd::prelude::*;

verus! {

/// The hello payload; carries the heartbeat interval in milliseconds.
#[derive(Clone, Copy, Debug, Eq, Hash, PartialEq, Structural)]
pub struct Hello {
    pub heartbeat_interval: u64,
}

} // verus!
