//! The event adapter: lifts a decoded envelope or a close into the
//! event surface callers consume.

use vstd::prelude::*;
use vstd::string::StringExecFns;
use crate::codec::envelope::{decode_event, spec_decode_event, DecodeError};
use crate::codec::json::{Json, JsonV};
use crate::error::{ReceiveError, ReceiveErrorV};
use crate::message::{CloseFrame, Message, MessageV};
use crate::model::event::hello::Hello;
use crate::model::event::identify::{Identify, IdentifyV};
use crate::model::event::resume::{Resume, ResumeV};
use crate::model::event::{GatewayEvent, GatewayEventV, Payload, PayloadV};
use crate::opcode::Opcode;

verus! {

/// The spec-level value of an event.
#[verifier::ext_equal]
pub enum EventV {
    GatewayClose(Option<(u16, Seq<char>)>),
    Heartbeat(Option<u64>),
    HeartbeatAck,
    Hello(u64),
    Identify(IdentifyV),
    InvalidSession(bool),
    Reconnect,
    Resume(ResumeV),
    Unhandled { name: Seq<char>, raw: JsonV },
}

/// An event surfaced to the caller: a typed control frame, a close, or
/// a dispatch whose payload is carried raw under its name.
#[derive(Debug)]
pub enum Event {
    GatewayClose(Option<CloseFrame>),
    Heartbeat(Option<u64>),
    HeartbeatAck,
    Hello(Hello),
    Identify(Identify),
    InvalidSession(bool),
    Reconnect,
    Resume(Resume),
    Unhandled { name: String, raw: Json },
}

impl View for Event {
    type V = EventV;

    open spec fn view(&self) -> EventV {
        match self {
            Event::GatewayClose(f) => EventV::GatewayClose(
                match f {
                    Some(fr) => Some(fr@),
                    None => None,
                },
            ),
            Event::Heartbeat(s) => EventV::Heartbeat(*s),
            Event::HeartbeatAck => EventV::HeartbeatAck,
            Event::Hello(h) => EventV::Hello(h.heartbeat_interval),
            Event::Identify(i) => EventV::Identify(i@),
            Event::InvalidSession(b) => EventV::InvalidSession(*b),
            Event::Reconnect => EventV::Reconnect,
            Event::Resume(r) => EventV::Resume(r@),
            Event::Unhandled { name, raw } => EventV::Unhandled { name: name@, raw: raw@ },
        }
    }
}

/// The event a decoded envelope stands for: dispatches are carried raw
/// under their name, control opcodes become their typed variants.
pub open spec fn spec_event_of_envelope(ev: GatewayEventV) -> EventV {
    let fallback_name = match ev.t {
        Some(t) => t,
        None => Seq::<char>::empty(),
    };
    let fallback_raw = match ev.d {
        Some(PayloadV::Raw(j)) => j,
        _ => JsonV::Null,
    };
    match ev.op {
        Opcode::Dispatch => EventV::Unhandled { name: fallback_name, raw: fallback_raw },
        Opcode::Heartbeat => EventV::Heartbeat(
            match ev.d {
                Some(PayloadV::Heartbeat(s)) => s,
                _ => None,
            },
        ),
        Opcode::ACK => EventV::HeartbeatAck,
        Opcode::Hello => EventV::Hello(
            match ev.d {
                Some(PayloadV::Hello(n)) => n,
                _ => 0,
            },
        ),
        Opcode::Identify => match ev.d {
            Some(PayloadV::Identify(i)) => EventV::Identify(i),
            _ => EventV::Unhandled { name: Seq::empty(), raw: JsonV::Null },
        },
        Opcode::InvalidateSession => match ev.d {
            Some(PayloadV::InvalidSession(b)) => EventV::InvalidSession(b),
            _ => EventV::Unhandled { name: Seq::empty(), raw: JsonV::Null },
        },
        Opcode::Reconnect => EventV::Reconnect,
        Opcode::Resume => match ev.d {
            Some(PayloadV::Resume(p)) => EventV::Resume(p),
            _ => EventV::Unhandled { name: Seq::empty(), raw: JsonV::Null },
        },
        _ => EventV::Unhandled { name: fallback_name, raw: fallback_raw },
    }
}

impl Event {
    /// The name of the event kind; a dispatch reports the name the
    /// gateway sent it under.
    pub fn name(&self) -> (r: &str)
        ensures
            r@ == (match self@ {
                EventV::GatewayClose(_) => "GatewayClose"@,
                EventV::Heartbeat(_) => "Heartbeat"@,
                EventV::HeartbeatAck => "HeartbeatAck"@,
                EventV::Hello(_) => "Hello"@,
                EventV::Identify(_) => "Identify"@,
                EventV::InvalidSession(_) => "InvalidSession"@,
                EventV::Reconnect => "Reconnect"@,
                EventV::Resume(_) => "Resume"@,
                EventV::Unhandled { name, .. } => name,
            }),
    {
        match self {
            Event::GatewayClose(_) => "GatewayClose",
            Event::Heartbeat(_) => "Heartbeat",
            Event::HeartbeatAck => "HeartbeatAck",
            Event::Hello(_) => "Hello",
            Event::Identify(_) => "Identify",
            Event::InvalidSession(_) => "InvalidSession",
            Event::Reconnect => "Reconnect",
            Event::Resume(_) => "Resume",
            Event::Unhandled { name, .. } => name.as_str(),
        }
    }

    /// Lifts a decoded envelope into the event surface.
    pub fn from_envelope(ev: GatewayEvent) -> (r: Self)
        ensures
            r@ == spec_event_of_envelope(ev@),
    {
        match ev.op {
            Opcode::Dispatch => {
                let name = match ev.t {
                    Some(t) => t,
                    None => String::new(),
                };
                let raw = match ev.d {
                    Some(Payload::Raw(j)) => j,
                    _ => Json::Null,
                };
                Event::Unhandled { name, raw }
            },
            Opcode::Heartbeat => {
                let s = match ev.d {
                    Some(Payload::Heartbeat(s)) => s,
                    _ => None,
                };
                Event::Heartbeat(s)
            },
            Opcode::ACK => Event::HeartbeatAck,
            Opcode::Hello => {
                let h = match ev.d {
                    Some(Payload::Hello(h)) => h,
                    _ => Hello { heartbeat_interval: 0 },
                };
                Event::Hello(h)
            },
            Opcode::Identify => {
                match ev.d {
                    Some(Payload::Identify(i)) => Event::Identify(i),
                    _ => Event::Unhandled { name: String::new(), raw: Json::Null },
                }
            },
            Opcode::InvalidateSession => {
                match ev.d {
                    Some(Payload::InvalidSession(b)) => Event::InvalidSession(b),
                    _ => Event::Unhandled { name: String::new(), raw: Json::Null },
                }
            },
            Opcode::Reconnect => Event::Reconnect,
            Opcode::Resume => {
                match ev.d {
                    Some(Payload::Resume(p)) => Event::Resume(p),
                    _ => Event::Unhandled { name: String::new(), raw: Json::Null },
                }
            },
            _ => {
                let name = match ev.t {
                    Some(t) => t,
                    None => String::new(),
                };
                let raw = match ev.d {
                    Some(Payload::Raw(j)) => j,
                    _ => Json::Null,
                };
                Event::Unhandled { name, raw }
            },
        }
    }
}

/// Turns one message envelope into the event the caller sees: a close
/// becomes `GatewayClose`, a text frame is decoded and lifted; a text
/// frame that cannot be decoded yields the error with the raw payload
/// retained.
pub fn event_from_message(msg: Message) -> (r: Result<Event, ReceiveError>)
    ensures
        match r {
            Ok(ev) => (match msg@ {
                MessageV::Close(f) => ev@ == EventV::GatewayClose(f),
                MessageV::Text(t) => (match spec_decode_event(t) {
                    Ok(g) => ev@ == spec_event_of_envelope(g),
                    Err(_) => false,
                }),
            }),
            Err(e) => (match msg@ {
                MessageV::Close(_) => false,
                MessageV::Text(t) => spec_decode_event(t) is Err && (
                e@ matches ReceiveErrorV::Deserializing { event, .. } && event == t),
            }),
        },
{
    match msg {
        Message::Close(f) => Ok(Event::GatewayClose(f)),
        Message::Text(t) => {
            match decode_event(t.as_str()) {
                Ok(g) => Ok(Event::from_envelope(g)),
                Err(_) => Err(
                    ReceiveError::deserializing(
                        t,
                        Some(String::from_str("the frame is not a well-formed envelope")),
                    ),
                ),
            }
        },
    }
}

} // verus!
