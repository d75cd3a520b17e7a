//! Gateway opcodes and their numeric assignments on the wire.

use vstd::prelude::*;

verus! {

/// The opcodes of the gateway protocol.
#[derive(Clone, Copy, Debug, Eq, Hash, PartialEq, Structural)]
pub enum Opcode {
    Dispatch,
    Heartbeat,
    Identify,
    Presence,
    VoiceState,
    VoicePing,
    Resume,
    Reconnect,
    RequestMembers,
    InvalidateSession,
    Hello,
    ACK,
    GuildSync,
    Unknown(u8),
}

/// The numeric assignment of each opcode.
pub open spec fn spec_opcode_value(op: Opcode) -> u8 {
    match op {
        Opcode::Dispatch => 0,
        Opcode::Heartbeat => 1,
        Opcode::Identify => 2,
        Opcode::Presence => 3,
        Opcode::VoiceState => 4,
        Opcode::VoicePing => 5,
        Opcode::Resume => 6,
        Opcode::Reconnect => 7,
        Opcode::RequestMembers => 8,
        Opcode::InvalidateSession => 9,
        Opcode::Hello => 10,
        Opcode::ACK => 11,
        Opcode::GuildSync => 12,
        Opcode::Unknown(u) => u,
    }
}

/// The opcode a numeric value stands for.
pub open spec fn spec_opcode_of(value: u8) -> Opcode {
    match value {
        0u8 => Opcode::Dispatch,
        1u8 => Opcode::Heartbeat,
        2u8 => Opcode::Identify,
        3u8 => Opcode::Presence,
        4u8 => Opcode::VoiceState,
        5u8 => Opcode::VoicePing,
        6u8 => Opcode::Resume,
        7u8 => Opcode::Reconnect,
        8u8 => Opcode::RequestMembers,
        9u8 => Opcode::InvalidateSession,
        10u8 => Opcode::Hello,
        11u8 => Opcode::ACK,
        12u8 => Opcode::GuildSync,
        _ => Opcode::Unknown(value),
    }
}

/// An opcode as decoded from the wire never uses `Unknown` for a value
/// that has a named assignment.
pub open spec fn spec_opcode_wf(op: Opcode) -> bool {
    op matches Opcode::Unknown(u) ==> u > 12
}

impl Opcode {
    /// The opcode a numeric value stands for.
    pub fn from_u8(value: u8) -> (r: Self)
        ensures
            r == spec_opcode_of(value),
            spec_opcode_wf(r),
    {
        match value {
            0 => Self::Dispatch,
            1 => Self::Heartbeat,
            2 => Self::Identify,
            3 => Self::Presence,
            4 => Self::VoiceState,
            5 => Self::VoicePing,
            6 => Self::Resume,
            7 => Self::Reconnect,
            8 => Self::RequestMembers,
            9 => Self::InvalidateSession,
            10 => Self::Hello,
            11 => Self::ACK,
            12 => Self::GuildSync,
            unknown => Self::Unknown(unknown),
        }
    }

    /// The numeric value of this opcode on the wire.
    pub fn to_u8(self) -> (r: u8)
        ensures
            r == spec_opcode_value(self),
    {
        match self {
            Self::Dispatch => 0,
            Self::Heartbeat => 1,
            Self::Identify => 2,
            Self::Presence => 3,
            Self::VoiceState => 4,
            Self::VoicePing => 5,
            Self::Resume => 6,
            Self::Reconnect => 7,
            Self::RequestMembers => 8,
            Self::InvalidateSession => 9,
            Self::Hello => 10,
            Self::ACK => 11,
            Self::GuildSync => 12,
            Self::Unknown(unknown) => unknown,
        }
    }
}

/// Round trip: decoding a numeric opcode value and encoding it again is
/// the identity, and encoding a well-formed opcode and decoding it again
/// is the identity.
pub proof fn lemma_opcode_round_trip(value: u8, op: Opcode)
    requires
        spec_opcode_wf(op),
    ensures
        spec_opcode_value(spec_opcode_of(value)) == value,
        spec_opcode_of(spec_opcode_value(op)) == op,
{
}

} // verus!
