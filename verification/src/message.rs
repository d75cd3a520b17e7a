//! Message envelope: the transport-neutral view of an inbound or outbound
//! frame, and its conversions from and to the transport's frame kinds.

use vstd::prelude::*;

verus! {

/// A close frame: numeric close code plus a textual reason.
#[derive(Debug)]
pub struct CloseFrame {
    pub code: u16,
    pub reason: String,
}

impl Clone for CloseFrame {
    fn clone(&self) -> (r: Self)
        ensures
            r@ == self@,
    {
        CloseFrame { code: self.code, reason: self.reason.clone() }
    }
}

impl View for CloseFrame {
    type V = (u16, Seq<char>);

    open spec fn view(&self) -> (u16, Seq<char>) {
        (self.code, self.reason@)
    }
}

impl CloseFrame {
    pub fn new(code: u16, reason: String) -> (r: Self)
        ensures
            r@ == (code, reason@),
    {
        CloseFrame { code, reason }
    }

    /// The frame the shard closes with when it drops a connection on
    /// purpose so that the next connection can resume the session.
    pub fn resume() -> (r: Self)
        ensures
            r@ == (4000u16, Seq::<char>::empty()),
    {
        CloseFrame { code: 4000, reason: String::new() }
    }
}

/// The close code the transport reports when a close frame carried no
/// status code at all.
pub open spec fn no_status_code() -> u16 {
    1005
}

/// The spec-level value of a message envelope.
pub enum MessageV {
    Close(Option<(u16, Seq<char>)>),
    Text(Seq<char>),
}

/// An inbound or outbound frame as the shard sees it: either a text
/// payload or a close, with binary, ping and pong frames dropped before
/// this type is reached.
#[derive(Debug)]
pub enum Message {
    Close(Option<CloseFrame>),
    Text(String),
}

impl Clone for Message {
    fn clone(&self) -> (r: Self)
        ensures
            r@ == self@,
    {
        match self {
            Message::Close(None) => Message::Close(None),
            Message::Close(Some(f)) => Message::Close(Some(f.clone())),
            Message::Text(s) => Message::Text(s.clone()),
        }
    }
}

impl View for Message {
    type V = MessageV;

    open spec fn view(&self) -> MessageV {
        match self {
            Message::Close(f) => MessageV::Close(
                match f {
                    Some(frame) => Some(frame@),
                    None => None,
                },
            ),
            Message::Text(s) => MessageV::Text(s@),
        }
    }
}

/// The spec-level value of a transport frame.
pub enum TransportFrameV {
    Text(Seq<char>),
    Binary(Seq<u8>),
    Ping(Seq<u8>),
    Pong(Seq<u8>),
    Close(Option<(u16, Seq<char>)>),
}

/// The frame kinds the transport can deliver or accept. The embedding
/// program converts between this type and its socket library's frames.
#[derive(Clone, Debug)]
pub enum TransportFrame {
    Text(String),
    Binary(Vec<u8>),
    Ping(Vec<u8>),
    Pong(Vec<u8>),
    Close(Option<CloseFrame>),
}

impl View for TransportFrame {
    type V = TransportFrameV;

    open spec fn view(&self) -> TransportFrameV {
        match self {
            TransportFrame::Text(s) => TransportFrameV::Text(s@),
            TransportFrame::Binary(b) => TransportFrameV::Binary(b@),
            TransportFrame::Ping(b) => TransportFrameV::Ping(b@),
            TransportFrame::Pong(b) => TransportFrameV::Pong(b@),
            TransportFrame::Close(f) => TransportFrameV::Close(
                match f {
                    Some(frame) => Some(frame@),
                    None => None,
                },
            ),
        }
    }
}

/// How a transport frame normalizes into a message envelope: text frames
/// become `Text`, close frames become `Close` (a close whose code says
/// "no status" loses its frame), and binary, ping and pong frames are
/// dropped.
pub open spec fn spec_from_frame(f: TransportFrameV) -> Option<MessageV> {
    match f {
        TransportFrameV::Text(s) => Some(MessageV::Text(s)),
        TransportFrameV::Close(None) => Some(MessageV::Close(None)),
        TransportFrameV::Close(Some(frame)) => if frame.0 == no_status_code() {
            Some(MessageV::Close(None))
        } else {
            Some(MessageV::Close(Some(frame)))
        },
        _ => None,
    }
}

/// How a message envelope is emitted as a transport frame.
pub open spec fn spec_into_frame(m: MessageV) -> TransportFrameV {
    match m {
        MessageV::Text(s) => TransportFrameV::Text(s),
        MessageV::Close(f) => TransportFrameV::Close(f),
    }
}

impl Message {
    /// The envelope that signals a transport failure to the caller.
    pub fn abnormal_close() -> (r: Self)
        ensures
            r@ == MessageV::Close(Some((1006u16, Seq::<char>::empty()))),
    {
        Message::Close(Some(CloseFrame { code: 1006, reason: String::new() }))
    }

    pub fn is_close(&self) -> (r: bool)
        ensures
            r == (self@ matches MessageV::Close(_)),
    {
        match self {
            Message::Close(_) => true,
            Message::Text(_) => false,
        }
    }

    pub fn is_text(&self) -> (r: bool)
        ensures
            r == (self@ matches MessageV::Text(_)),
    {
        match self {
            Message::Text(_) => true,
            Message::Close(_) => false,
        }
    }

    /// Normalizes a transport frame into a message envelope; binary, ping
    /// and pong frames are dropped.
    pub fn from_frame(frame: &TransportFrame) -> (r: Option<Self>)
        ensures
            match r {
                Some(m) => spec_from_frame(frame@) == Some(m@),
                None => spec_from_frame(frame@) is None,
            },
    {
        match frame {
            TransportFrame::Text(s) => Some(Message::Text(s.clone())),
            TransportFrame::Close(None) => Some(Message::Close(None)),
            TransportFrame::Close(Some(f)) => {
                if f.code == 1005 {
                    Some(Message::Close(None))
                } else {
                    Some(Message::Close(Some(f.clone())))
                }
            },
            _ => None,
        }
    }

    /// Emits this envelope as a transport frame.
    pub fn into_frame(self) -> (r: TransportFrame)
        ensures
            r@ == spec_into_frame(self@),
    {
        match self {
            Message::Text(s) => TransportFrame::Text(s),
            Message::Close(f) => TransportFrame::Close(f),
        }
    }
}

/// Round trip: every message envelope that does not carry the reserved
/// "no status" close code survives conversion to a transport frame and
/// back unchanged.
pub proof fn lemma_frame_round_trip(m: MessageV)
    requires
        m matches MessageV::Close(Some(f)) ==> f.0 != no_status_code(),
    ensures
        spec_from_frame(spec_into_frame(m)) == Some(m),
{
}

/// Round trip, the other way: every transport frame that normalizes into
/// some message envelope, other than a close carrying the reserved "no
/// status" code, is reproduced exactly when that envelope is emitted
/// again.
pub proof fn lemma_frame_round_trip_back(f: TransportFrameV)
    requires
        spec_from_frame(f) is Some,
        !(f matches TransportFrameV::Close(Some(c)) && c.0 == no_status_code()),
    ensures
        spec_into_frame(spec_from_frame(f)->Some_0) == f,
{
}

} // verus!
