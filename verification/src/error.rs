//! Error kinds a caller of the shard can observe.

use vstd::prelude::*;
use vstd::string::StringExecFns;

verus! {

/// What went wrong while producing the next event.
#[derive(Clone, Debug)]
pub enum ReceiveErrorKind {
    /// A received frame could not be decoded; the raw payload is retained
    /// for diagnostics.
    Deserializing { event: String },
    /// A connection attempt failed.
    Reconnect,
}

/// An error surfaced to the caller of the shard, with an optional
/// description of the underlying cause.
#[derive(Clone, Debug)]
pub struct ReceiveError {
    pub kind: ReceiveErrorKind,
    pub source: Option<String>,
}

/// The spec-level value of a receive error: the retained payload when the
/// error is a decode failure, and the cause description.
pub enum ReceiveErrorV {
    Deserializing { event: Seq<char>, source: Option<Seq<char>> },
    Reconnect { source: Option<Seq<char>> },
}

impl View for ReceiveError {
    type V = ReceiveErrorV;

    open spec fn view(&self) -> ReceiveErrorV {
        let source = match self.source {
            Some(s) => Some(s@),
            None => None,
        };
        match self.kind {
            ReceiveErrorKind::Deserializing { event } => ReceiveErrorV::Deserializing {
                event: event@,
                source,
            },
            ReceiveErrorKind::Reconnect => ReceiveErrorV::Reconnect { source },
        }
    }
}

impl ReceiveError {
    pub fn deserializing(event: String, source: Option<String>) -> (r: Self)
        ensures
            r@ == (ReceiveErrorV::Deserializing {
                event: event@,
                source: match source {
                    Some(s) => Some(s@),
                    None => None,
                },
            }),
    {
        ReceiveError { kind: ReceiveErrorKind::Deserializing { event }, source }
    }

    pub fn reconnect(source: Option<String>) -> (r: Self)
        ensures
            r@ == (ReceiveErrorV::Reconnect {
                source: match source {
                    Some(s) => Some(s@),
                    None => None,
                },
            }),
    {
        ReceiveError { kind: ReceiveErrorKind::Reconnect, source }
    }

    /// A human-readable description of the error.
    pub fn message(&self) -> (r: String)
        ensures
            r@ == (match self@ {
                ReceiveErrorV::Deserializing { event, .. } => "failed to deserialize event: "@
                    + event,
                ReceiveErrorV::Reconnect { .. } => "failed to reconnect"@,
            }),
    {
        match &self.kind {
            ReceiveErrorKind::Deserializing { event } => {
                let head = String::from_str("failed to deserialize event: ");
                head.concat(event.as_str())
            },
            ReceiveErrorKind::Reconnect => String::from_str("failed to reconnect"),
        }
    }

    /// The description of the underlying cause, if one was recorded.
    pub fn source(&self) -> (r: Option<&String>)
        ensures
            match (r, self.source) {
                (Some(s), Some(t)) => s@ == t@,
                (None, None) => true,
                _ => false,
            },
    {
        self.source.as_ref()
    }
}

} // verus!
