//! Typed gateway event payloads and the envelope that carries them.

use vstd::prelude::*;
use crate::codec::json::{Json, JsonV};
use crate::opcode::Opcode;

pub mod guild_create;
pub mod guild_update;
pub mod hello;
pub mod identify;
pub mod ready;
pub mod resume;

use hello::Hello;
use identify::Identify;
use resume::Resume;

verus! {

/// The spec-level value of a payload.
#[verifier::ext_equal]
pub enum PayloadV {
    Heartbeat(Option<u64>),
    Identify(identify::IdentifyV),
    Hello(u64),
    Resume(resume::ResumeV),
    InvalidSession(bool),
    Raw(JsonV),
}

/// The decoded `d` field of an envelope: a typed control payload, or the
/// raw document for dispatches and shapes this crate does not model.
#[derive(Debug)]
pub enum Payload {
    Heartbeat(Option<u64>),
    Identify(Identify),
    Hello(Hello),
    Resume(Resume),
    InvalidSession(bool),
    Raw(Json),
}

impl View for Payload {
    type V = PayloadV;

    open spec fn view(&self) -> PayloadV {
        match self {
            Payload::Heartbeat(s) => PayloadV::Heartbeat(*s),
            Payload::Identify(i) => PayloadV::Identify(i@),
            Payload::Hello(h) => PayloadV::Hello(h.heartbeat_interval),
            Payload::Resume(r) => PayloadV::Resume(r@),
            Payload::InvalidSession(b) => PayloadV::InvalidSession(*b),
            Payload::Raw(j) => PayloadV::Raw(j@),
        }
    }
}

/// The spec-level value of an envelope.
#[verifier::ext_equal]
pub struct GatewayEventV {
    pub op: Opcode,
    pub d: Option<PayloadV>,
    pub s: Option<u64>,
    pub t: Option<Seq<char>>,
}

/// A gateway envelope: opcode, payload, sequence number and dispatch
/// name.
#[derive(Debug)]
pub struct GatewayEvent {
    pub op: Opcode,
    pub d: Option<Payload>,
    pub s: Option<u64>,
    pub t: Option<String>,
}

impl View for GatewayEvent {
    type V = GatewayEventV;

    open spec fn view(&self) -> GatewayEventV {
        GatewayEventV {
            op: self.op,
            d: match &self.d {
                Some(p) => Some(p@),
                None => None,
            },
            s: self.s,
            t: match &self.t {
                Some(t) => Some(t@),
                None => None,
            },
        }
    }
}

impl GatewayEvent {
    /// An envelope carrying a payload, with no sequence number or
    /// dispatch name.
    pub fn new(op: Opcode, d: Payload) -> (r: Self)
        ensures
            r@.op == op,
            r@.d == Some(d@),
            r@.s is None,
            r@.t is None,
    {
        GatewayEvent { op, d: Some(d), s: None, t: None }
    }
}

} // verus!
