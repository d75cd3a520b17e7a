//! The identify payload: the client-to-server handshake frame, and the
//! shard identifier it carries.

use vstd::prelude::*;
use crate::model::intents::Intents;

verus! {

/// One shard's slice of the workload: its number and the total count.
#[derive(Clone, Copy, Debug, Eq, Hash, PartialEq, Structural)]
pub struct ShardId {
    number: u32,
    total: u32,
}

impl ShardId {
    pub fn new(number: u32, total: u32) -> (r: Self)
        requires
            total > 0,
            number < total,
        ensures
            r.number() == number,
            r.total() == total,
    {
        ShardId { number, total }
    }

    /// This shard's index among its peers.
    #[verifier::when_used_as_spec(spec_number)]
    pub fn number(self) -> (r: u32)
        ensures
            r == self.spec_number(),
    {
        self.number
    }

    /// How many shards the workload is split into.
    #[verifier::when_used_as_spec(spec_total)]
    pub fn total(self) -> (r: u32)
        ensures
            r == self.spec_total(),
    {
        self.total
    }

    pub closed spec fn spec_number(self) -> u32 {
        self.number
    }

    pub closed spec fn spec_total(self) -> u32 {
        self.total
    }

    /// A shard identifier is valid when its index lies below the total.
    pub open spec fn wf(self) -> bool {
        self.total() > 0 && self.number() < self.total()
    }
}

/// The spec-level value of the identify connection properties.
#[verifier::ext_equal]
pub struct IdentifyPropertiesV {
    pub browser: Seq<char>,
    pub device: Seq<char>,
    pub os: Seq<char>,
}

/// The connection properties sent with identify.
#[derive(Debug)]
pub struct IdentifyProperties {
    pub browser: String,
    pub device: String,
    pub os: String,
}

impl View for IdentifyProperties {
    type V = IdentifyPropertiesV;

    open spec fn view(&self) -> IdentifyPropertiesV {
        IdentifyPropertiesV { browser: self.browser@, device: self.device@, os: self.os@ }
    }
}

/// The spec-level value of an identify payload.
#[verifier::ext_equal]
pub struct IdentifyV {
    pub compress: bool,
    pub intents: u64,
    pub large_threshold: u64,
    pub properties: IdentifyPropertiesV,
    pub shard: Option<(u32, u32)>,
    pub token: Seq<char>,
}

/// The identify payload: authenticates and selects intents.
#[derive(Debug)]
pub struct Identify {
    pub compress: bool,
    pub intents: Intents,
    pub large_threshold: u64,
    pub properties: IdentifyProperties,
    pub shard: Option<ShardId>,
    pub token: String,
}

impl View for Identify {
    type V = IdentifyV;

    open spec fn view(&self) -> IdentifyV {
        IdentifyV {
            compress: self.compress,
            intents: self.intents@,
            large_threshold: self.large_threshold,
            properties: self.properties@,
            shard: match self.shard {
                Some(s) => Some((s.number(), s.total())),
                None => None,
            },
            token: self.token@,
        }
    }
}

} // verus!
