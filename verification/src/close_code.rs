//! Close-code classifier: maps the numeric close codes of the gateway
//! protocol onto reconnect decisions.

use vstd::prelude::*;

verus! {

/// The close codes the gateway protocol defines.
#[derive(Clone, Copy, Debug, Eq, Hash, PartialEq, Structural)]
pub enum LibraryCloseCode {
    UnknownError,
    UnknownOpcode,
    DecodeError,
    NotAuthenticated,
    AuthenticationFailed,
    AlreadyAuthenticated,
    InvalidSequence,
    RateLimited,
    SessionTimedOut,
    InvalidShard,
    ShardingRequired,
    InvalidApiVersion,
    InvalidIntents,
    DisallowedIntents,
}

/// How a close code is to be treated: reconnect and resume, or give up.
#[derive(Clone, Copy, Debug, Eq, PartialEq, Structural)]
pub enum CloseClass {
    Resumable,
    Fatal,
    Unknown,
}

/// The numeric value a known close code stands for.
pub open spec fn spec_code_value(c: LibraryCloseCode) -> u16 {
    match c {
        LibraryCloseCode::UnknownError => 4000,
        LibraryCloseCode::UnknownOpcode => 4001,
        LibraryCloseCode::DecodeError => 4002,
        LibraryCloseCode::NotAuthenticated => 4003,
        LibraryCloseCode::AuthenticationFailed => 4004,
        LibraryCloseCode::AlreadyAuthenticated => 4005,
        LibraryCloseCode::InvalidSequence => 4007,
        LibraryCloseCode::RateLimited => 4008,
        LibraryCloseCode::SessionTimedOut => 4009,
        LibraryCloseCode::InvalidShard => 4010,
        LibraryCloseCode::ShardingRequired => 4011,
        LibraryCloseCode::InvalidApiVersion => 4012,
        LibraryCloseCode::InvalidIntents => 4013,
        LibraryCloseCode::DisallowedIntents => 4014,
    }
}

/// The known close code standing for a numeric value, if any.
pub open spec fn spec_code_of_value(value: u16) -> Option<LibraryCloseCode> {
    match value {
        4000u16 => Some(LibraryCloseCode::UnknownError),
        4001u16 => Some(LibraryCloseCode::UnknownOpcode),
        4002u16 => Some(LibraryCloseCode::DecodeError),
        4003u16 => Some(LibraryCloseCode::NotAuthenticated),
        4004u16 => Some(LibraryCloseCode::AuthenticationFailed),
        4005u16 => Some(LibraryCloseCode::AlreadyAuthenticated),
        4007u16 => Some(LibraryCloseCode::InvalidSequence),
        4008u16 => Some(LibraryCloseCode::RateLimited),
        4009u16 => Some(LibraryCloseCode::SessionTimedOut),
        4010u16 => Some(LibraryCloseCode::InvalidShard),
        4011u16 => Some(LibraryCloseCode::ShardingRequired),
        4012u16 => Some(LibraryCloseCode::InvalidApiVersion),
        4013u16 => Some(LibraryCloseCode::InvalidIntents),
        4014u16 => Some(LibraryCloseCode::DisallowedIntents),
        _ => None,
    }
}

/// Whether a known close code permits the shard to reconnect and resume.
pub open spec fn spec_can_reconnect(c: LibraryCloseCode) -> bool {
    match c {
        LibraryCloseCode::UnknownError => true,
        LibraryCloseCode::UnknownOpcode => true,
        LibraryCloseCode::DecodeError => true,
        LibraryCloseCode::NotAuthenticated => true,
        LibraryCloseCode::AlreadyAuthenticated => true,
        LibraryCloseCode::InvalidSequence => true,
        LibraryCloseCode::RateLimited => true,
        LibraryCloseCode::SessionTimedOut => true,
        _ => false,
    }
}

/// The classification of an arbitrary numeric close code: known codes are
/// Resumable or Fatal by the table above; codes no entry exists for are
/// Unknown, which callers treat as resumable.
pub open spec fn spec_classify(value: u16) -> CloseClass {
    match spec_code_of_value(value) {
        Some(c) => if spec_can_reconnect(c) {
            CloseClass::Resumable
        } else {
            CloseClass::Fatal
        },
        None => CloseClass::Unknown,
    }
}

/// The human-readable name of each known close code.
pub open spec fn spec_description(c: LibraryCloseCode) -> Seq<char> {
    match c {
        LibraryCloseCode::UnknownError => "Unknown Error"@,
        LibraryCloseCode::UnknownOpcode => "Unknown Opcode"@,
        LibraryCloseCode::DecodeError => "Decode Error"@,
        LibraryCloseCode::NotAuthenticated => "Not Authenticated"@,
        LibraryCloseCode::AuthenticationFailed => "Authentication Failed"@,
        LibraryCloseCode::AlreadyAuthenticated => "Already Authenticated"@,
        LibraryCloseCode::InvalidSequence => "Invalid Sequence"@,
        LibraryCloseCode::RateLimited => "Rate Limited"@,
        LibraryCloseCode::SessionTimedOut => "Session Timed Out"@,
        LibraryCloseCode::InvalidShard => "Invalid Shard"@,
        LibraryCloseCode::ShardingRequired => "Sharding Required"@,
        LibraryCloseCode::InvalidApiVersion => "Invalid Api Version"@,
        LibraryCloseCode::InvalidIntents => "Invalid Intents"@,
        LibraryCloseCode::DisallowedIntents => "Disallowed Intents"@,
    }
}

impl LibraryCloseCode {
    /// The close code the shard sends when it drops a connection on purpose
    /// in order to resume it.
    pub fn resume() -> (r: Self)
        ensures
            r == LibraryCloseCode::UnknownError,
    {
        LibraryCloseCode::UnknownError
    }

    /// Whether the session may be resumed after closing with this code.
    pub fn can_reconnect(self) -> (r: bool)
        ensures
            r == spec_can_reconnect(self),
    {
        match self {
            Self::UnknownError
            | Self::UnknownOpcode
            | Self::DecodeError
            | Self::NotAuthenticated
            | Self::AlreadyAuthenticated
            | Self::InvalidSequence
            | Self::RateLimited
            | Self::SessionTimedOut => true,
            _ => false,
        }
    }

    /// The numeric value of this close code on the wire.
    pub fn code(self) -> (r: u16)
        ensures
            r == spec_code_value(self),
    {
        match self {
            Self::UnknownError => 4000,
            Self::UnknownOpcode => 4001,
            Self::DecodeError => 4002,
            Self::NotAuthenticated => 4003,
            Self::AuthenticationFailed => 4004,
            Self::AlreadyAuthenticated => 4005,
            Self::InvalidSequence => 4007,
            Self::RateLimited => 4008,
            Self::SessionTimedOut => 4009,
            Self::InvalidShard => 4010,
            Self::ShardingRequired => 4011,
            Self::InvalidApiVersion => 4012,
            Self::InvalidIntents => 4013,
            Self::DisallowedIntents => 4014,
        }
    }

    /// The known close code for a numeric value, or the value itself back
    /// when no entry exists for it.
    pub fn from_code(value: u16) -> (r: Result<Self, u16>)
        ensures
            r matches Ok(c) ==> spec_code_of_value(value) == Some(c),
            r matches Err(v) ==> spec_code_of_value(value) is None && v == value,
    {
        match value {
            4000 => Ok(Self::UnknownError),
            4001 => Ok(Self::UnknownOpcode),
            4002 => Ok(Self::DecodeError),
            4003 => Ok(Self::NotAuthenticated),
            4004 => Ok(Self::AuthenticationFailed),
            4005 => Ok(Self::AlreadyAuthenticated),
            4007 => Ok(Self::InvalidSequence),
            4008 => Ok(Self::RateLimited),
            4009 => Ok(Self::SessionTimedOut),
            4010 => Ok(Self::InvalidShard),
            4011 => Ok(Self::ShardingRequired),
            4012 => Ok(Self::InvalidApiVersion),
            4013 => Ok(Self::InvalidIntents),
            4014 => Ok(Self::DisallowedIntents),
            _ => Err(value),
        }
    }

    /// A human-readable name for the close code.
    pub fn description(self) -> (r: &'static str)
        ensures
            r@ == spec_description(self),
    {
        match self {
            Self::UnknownError => "Unknown Error",
            Self::UnknownOpcode => "Unknown Opcode",
            Self::DecodeError => "Decode Error",
            Self::NotAuthenticated => "Not Authenticated",
            Self::AuthenticationFailed => "Authentication Failed",
            Self::AlreadyAuthenticated => "Already Authenticated",
            Self::InvalidSequence => "Invalid Sequence",
            Self::RateLimited => "Rate Limited",
            Self::SessionTimedOut => "Session Timed Out",
            Self::InvalidShard => "Invalid Shard",
            Self::ShardingRequired => "Sharding Required",
            Self::InvalidApiVersion => "Invalid Api Version",
            Self::InvalidIntents => "Invalid Intents",
            Self::DisallowedIntents => "Disallowed Intents",
        }
    }
}

/// Classifies an arbitrary numeric close code.
pub fn classify(value: u16) -> (r: CloseClass)
    ensures
        r == spec_classify(value),
{
    match LibraryCloseCode::from_code(value) {
        Ok(c) => {
            if c.can_reconnect() {
                CloseClass::Resumable
            } else {
                CloseClass::Fatal
            }
        },
        Err(_) => CloseClass::Unknown,
    }
}

} // verus!
