//! The shard state machine: the decisions of the connect, handshake,
//! heartbeat, send and receive loop, as pure verified steps. The
//! embedding program owns the socket and the timer; it asks this type
//! what to do, performs the I/O, and reports what happened.
//!
//! The pending outbound frame is a single `Option` slot, so the machine
//! can never buffer more than one outbound message; the well-formedness
//! predicate ties the slot, the heartbeat schedule and the handshake
//! counters to the connection.

use vstd::prelude::*;
use vstd::string::StringExecFns;
use crate::close_code::{classify, spec_classify, CloseClass};
use crate::codec::envelope::{
    decode_event,
    encode_event,
    ready_fields,
    spec_decode_event,
    spec_encode_event,
    spec_ready_fields,
    DecodeError,
};
use crate::error::{ReceiveError, ReceiveErrorV};
use crate::message::{CloseFrame, Message, MessageV, TransportFrame};
use crate::model::event::identify::{Identify, IdentifyProperties, IdentifyPropertiesV, IdentifyV, ShardId};
use crate::model::event::resume::{Resume, ResumeV};
use crate::model::event::{GatewayEvent, GatewayEventV, Payload, PayloadV};
use crate::model::intents::Intents;
use crate::opcode::Opcode;
use crate::session::Session;

verus! {

/// The lifecycle state of the shard.
#[derive(Clone, Copy, Debug, Eq, PartialEq, Structural)]
pub enum ShardState {
    Active,
    Disconnected { reconnect_attempts: u8 },
    FatallyClosed,
    Identifying,
    /// In the middle of event playback while resuming.
    Resuming,
}

/// The state a close code sends the shard to: fatal codes end it, every
/// other code allows a reconnect.
pub open spec fn spec_state_from_close_code(code: u16) -> ShardState {
    if spec_classify(code) is Fatal {
        ShardState::FatallyClosed
    } else {
        ShardState::Disconnected { reconnect_attempts: 0 }
    }
}

impl ShardState {
    pub fn from_close_code(close_code: u16) -> (r: Self)
        ensures
            r == spec_state_from_close_code(close_code),
    {
        match classify(close_code) {
            CloseClass::Fatal => Self::FatallyClosed,
            _ => Self::Disconnected { reconnect_attempts: 0 },
        }
    }
}

/// The spec-level state of a shard.
#[verifier::ext_equal]
pub struct ShardView {
    pub state: ShardState,
    pub connected: bool,
    pub identified: bool,
    pub pending: Option<MessageV>,
    pub session: Option<(Seq<char>, u64)>,
    pub resume_gateway_url: Option<Seq<char>>,
    pub heartbeat: Option<(u64, u64)>,
    pub shard_id: ShardId,
    pub intents: u64,
    pub token: Seq<char>,
    pub os: Seq<char>,
    pub identifies_sent: nat,
    pub resumes_sent: nat,
}

/// The heartbeat schedule: the tick interval and the jitter before the
/// first tick, both in milliseconds.
#[derive(Clone, Copy, Debug, Eq, PartialEq, Structural)]
pub struct HeartbeatSchedule {
    pub interval_ms: u64,
    pub first_delay_ms: u64,
}

/// One gateway shard: the session bookkeeping and the protocol
/// decisions, with all I/O left to the embedding program.
pub struct Shard {
    connected: bool,
    heartbeat: Option<HeartbeatSchedule>,
    identified: bool,
    identify_os: String,
    intents: Intents,
    pending: Option<Message>,
    resume_gateway_url: Option<String>,
    rng: rand::rngs::StdRng,
    session: Option<Session>,
    shard_id: ShardId,
    state: ShardState,
    token: String,
    identifies_sent: Ghost<nat>,
    resumes_sent: Ghost<nat>,
}

impl View for Shard {
    type V = ShardView;

    closed spec fn view(&self) -> ShardView {
        ShardView {
            state: self.state,
            connected: self.connected,
            identified: self.identified,
            pending: match &self.pending {
                Some(m) => Some(m@),
                None => None,
            },
            session: match &self.session {
                Some(s) => Some(s@),
                None => None,
            },
            resume_gateway_url: match &self.resume_gateway_url {
                Some(u) => Some(u@),
                None => None,
            },
            heartbeat: match self.heartbeat {
                Some(h) => Some((h.interval_ms, h.first_delay_ms)),
                None => None,
            },
            shard_id: self.shard_id,
            intents: self.intents@,
            token: self.token@,
            os: self.identify_os@,
            identifies_sent: self.identifies_sent@,
            resumes_sent: self.resumes_sent@,
        }
    }
}

/// The well-formedness of a shard state: an active shard holds a
/// session; the single pending slot and the heartbeat schedule exist
/// only while a connection does; and identify and resume are each sent
/// at most once per connection, never both.
pub open spec fn shard_wf(v: ShardView) -> bool {
    &&& (v.state is Active ==> v.session is Some)
    &&& (v.pending is Some ==> v.connected)
    &&& (v.heartbeat is Some ==> v.connected)
    &&& v.identifies_sent <= 1
    &&& v.resumes_sent <= 1
    &&& v.identifies_sent + v.resumes_sent <= 1
    &&& (v.identified <==> v.identifies_sent == 1)
    &&& (v.state is Identifying ==> v.resumes_sent == 0)
    &&& ((v.state is Identifying && v.session is Some) ==> v.identifies_sent == 0)
}

/// The default gateway URL, used when no resume URL is known.
pub open spec fn spec_default_gateway_url() -> Seq<char> {
    "wss://gateway.discord.gg"@
}

/// The URL the next connection attempt targets: the resume URL when one
/// is known, else the default, with the protocol version and encoding
/// appended.
pub open spec fn spec_connect_url(resume: Option<Seq<char>>) -> Seq<char> {
    (match resume {
        Some(u) => u,
        None => spec_default_gateway_url(),
    }) + "/?v=10&encoding=json"@
}

/// The wire text of a heartbeat carrying the given sequence number.
pub open spec fn spec_heartbeat_text(seq: Option<u64>) -> Seq<char> {
    spec_encode_event(
        GatewayEventV {
            op: Opcode::Heartbeat,
            d: Some(PayloadV::Heartbeat(seq)),
            s: None,
            t: None,
        },
    )
}

/// The wire text of the identify handshake.
pub open spec fn spec_identify_text(
    token: Seq<char>,
    os: Seq<char>,
    intents: u64,
    shard_id: ShardId,
) -> Seq<char> {
    spec_encode_event(
        GatewayEventV {
            op: Opcode::Identify,
            d: Some(
                PayloadV::Identify(
                    IdentifyV {
                        compress: false,
                        intents,
                        large_threshold: 250,
                        properties: IdentifyPropertiesV {
                            browser: "fishmael"@,
                            device: "fishmael"@,
                            os,
                        },
                        shard: Some((shard_id.number(), shard_id.total())),
                        token,
                    },
                ),
            ),
            s: None,
            t: None,
        },
    )
}

/// The wire text of the resume handshake.
pub open spec fn spec_resume_text(session_id: Seq<char>, seq: u64, token: Seq<char>) -> Seq<
    char,
> {
    spec_encode_event(
        GatewayEventV {
            op: Opcode::Resume,
            d: Some(PayloadV::Resume(ResumeV { seq, session_id, token })),
            s: None,
            t: None,
        },
    )
}

/// What the embedding program must do at the top of a poll.
#[derive(Debug)]
pub enum Directive {
    /// Close the socket and end the stream: the shard is fatally closed.
    CloseAndEnd,
    /// Start a connection attempt to the given URL.
    StartConnect(String),
    /// Go on with the heartbeat, send and receive steps.
    Proceed,
}

/// A session's sequence number, if a session exists.
pub open spec fn seq_of(session: Option<(Seq<char>, u64)>) -> Option<u64> {
    match session {
        Some(s) => Some(s.1),
        None => None,
    }
}

/// A session with its sequence number replaced, when one exists.
pub open spec fn upd_seq(session: Option<(Seq<char>, u64)>, n: u64) -> Option<
    (Seq<char>, u64),
> {
    match session {
        Some(s) => Some((s.0, n)),
        None => None,
    }
}

/// The state after the shard drops its own connection in order to
/// resume: the heartbeat schedule is cleared, the state returns to
/// `Disconnected`, and the resume close frame is queued; the session and
/// resume URL are kept.
pub open spec fn self_close(v: ShardView) -> ShardView {
    ShardView {
        heartbeat: None,
        state: ShardState::Disconnected { reconnect_attempts: 0 },
        pending: Some(MessageV::Close(Some((4000u16, Seq::empty())))),
        ..v
    }
}

/// Whether a heartbeat jitter is valid for an interval: below the
/// interval, and zero when the interval is zero so that the first tick
/// is immediate.
pub open spec fn jitter_ok(interval: u64, jitter: u64) -> bool {
    &&& interval > 0 ==> jitter < interval
    &&& interval == 0 ==> jitter == 0
}

/// The state after a hello: the heartbeat schedule is installed, and if
/// a session already exists while the shard is identifying, the resume
/// handshake is queued.
pub open spec fn hello_post(v: ShardView, interval: u64, jitter: u64) -> ShardView {
    if v.session is Some && v.state is Identifying {
        ShardView {
            heartbeat: Some((interval, jitter)),
            pending: Some(
                MessageV::Text(
                    spec_resume_text(v.session->Some_0.0, v.session->Some_0.1, v.token),
                ),
            ),
            state: ShardState::Resuming,
            resumes_sent: v.resumes_sent + 1,
            ..v
        }
    } else {
        ShardView { heartbeat: Some((interval, jitter)), ..v }
    }
}

/// How processing one text frame changes the shard: the relation between
/// the state before, the state after, and whether processing succeeded,
/// for every frame text. The heartbeat jitter is drawn at random, so the
/// hello case states its bounds rather than its value.
pub open spec fn process_rel(
    pre: ShardView,
    post: ShardView,
    ok: bool,
    text: Seq<char>,
) -> bool {
    match spec_decode_event(text) {
        Err(_) => !ok && post == pre,
        Ok(ev) => match ev.op {
            Opcode::Dispatch => {
                let n = ev.s->Some_0;
                let name = ev.t->Some_0;
                let d = ev.d->Some_0->Raw_0;
                if name == "READY"@ {
                    match spec_ready_fields(d) {
                        Some(f) => ok && post == (ShardView {
                            resume_gateway_url: Some(f.1),
                            session: Some((f.0, n)),
                            state: ShardState::Active,
                            ..pre
                        }),
                        None => !ok && post == pre,
                    }
                } else if name == "RESUMED"@ {
                    ok && post == (ShardView {
                        state: if pre.session is Some {
                            ShardState::Active
                        } else {
                            pre.state
                        },
                        session: upd_seq(pre.session, n),
                        ..pre
                    })
                } else {
                    ok && post == (ShardView { session: upd_seq(pre.session, n), ..pre })
                }
            },
            Opcode::Heartbeat => ok && post == (ShardView {
                pending: Some(MessageV::Text(spec_heartbeat_text(seq_of(pre.session)))),
                ..pre
            }),
            Opcode::ACK => ok && post == pre,
            Opcode::Hello => {
                let interval = ev.d->Some_0->Hello_0;
                ok && exists|j: u64|
                    #![trigger hello_post(pre, interval, j)]
                    jitter_ok(interval, j) && post == hello_post(pre, interval, j)
            },
            Opcode::Reconnect => ok && post == self_close(pre),
            Opcode::InvalidateSession => {
                let resumable = ev.d->Some_0->InvalidSession_0;
                ok && post == self_close(
                    if resumable {
                        pre
                    } else {
                        ShardView { session: None, ..pre }
                    },
                )
            },
            _ => ok && post == pre,
        },
    }
}

impl Shard {
    /// Whether this shard's state is well-formed.
    pub open spec fn wf(&self) -> bool {
        shard_wf(self@)
    }

    /// A fresh shard: disconnected, with no session and nothing pending.
    pub fn new(token: String, shard_id: ShardId, intents: Intents) -> (r: Self)
        ensures
            r.wf(),
            r@ == (ShardView {
                state: ShardState::Disconnected { reconnect_attempts: 0 },
                connected: false,
                identified: false,
                pending: None,
                session: None,
                resume_gateway_url: None,
                heartbeat: None,
                shard_id,
                intents: intents@,
                token: token@,
                os: "unknown"@,
                identifies_sent: 0,
                resumes_sent: 0,
            }),
    {
        Shard {
            connected: false,
            heartbeat: None,
            identified: false,
            identify_os: String::from_str("unknown"),
            intents,
            pending: None,
            resume_gateway_url: None,
            rng: crate::rng::new_std_rng(),
            session: None,
            shard_id,
            state: ShardState::Disconnected { reconnect_attempts: 0 },
            token,
            identifies_sent: Ghost(0),
            resumes_sent: Ghost(0),
        }
    }

    /// Records the host operating system name reported in the identify
    /// handshake.
    pub fn set_identify_os(&mut self, os: String)
        requires
            old(self).wf(),
        ensures
            final(self).wf(),
            final(self)@ == (ShardView { os: os@, ..old(self)@ }),
    {
        self.identify_os = os;
    }

    pub fn id(&self) -> (r: ShardId)
        ensures
            r == self@.shard_id,
    {
        self.shard_id
    }

    pub fn state(&self) -> (r: ShardState)
        ensures
            r == self@.state,
    {
        self.state
    }

    /// The heartbeat schedule to arm, once a hello has been processed.
    pub fn heartbeat_schedule(&self) -> (r: Option<HeartbeatSchedule>)
        ensures
            match r {
                Some(h) => self@.heartbeat == Some((h.interval_ms, h.first_delay_ms)),
                None => self@.heartbeat is None,
            },
    {
        self.heartbeat
    }

    /// The sequence number of the current session, if one exists.
    pub fn session_sequence(&self) -> (r: Option<u64>)
        ensures
            r == seq_of(self@.session),
    {
        match &self.session {
            Some(s) => Some(s.sequence()),
            None => None,
        }
    }

    /// What to do at the top of a poll: end the stream when fatally
    /// closed, connect when disconnected without a connection, else go
    /// on.
    pub fn poll_directive(&self) -> (r: Directive)
        ensures
            r is CloseAndEnd <==> self@.state is FatallyClosed,
            match r {
                Directive::CloseAndEnd => self@.state is FatallyClosed,
                Directive::StartConnect(url) => self@.state is Disconnected
                    && !self@.connected && url@ == spec_connect_url(
                    self@.resume_gateway_url,
                ),
                Directive::Proceed => !(self@.state is FatallyClosed) && (
                self@.state is Disconnected ==> self@.connected),
            },
    {
        match self.state {
            ShardState::FatallyClosed => Directive::CloseAndEnd,
            ShardState::Disconnected { .. } => {
                if !self.connected {
                    let base = match &self.resume_gateway_url {
                        Some(u) => u.clone(),
                        None => String::from_str("wss://gateway.discord.gg"),
                    };
                    Directive::StartConnect(base.concat("/?v=10&encoding=json"))
                } else {
                    Directive::Proceed
                }
            },
            _ => Directive::Proceed,
        }
    }

    /// A connection attempt succeeded: the shard starts identifying on
    /// the fresh connection, on which nothing has been sent yet.
    pub fn on_connect_success(&mut self)
        requires
            old(self).wf(),
            old(self)@.state is Disconnected,
            !old(self)@.connected,
        ensures
            final(self).wf(),
            final(self)@ == (ShardView {
                state: ShardState::Identifying,
                connected: true,
                identified: false,
                identifies_sent: 0,
                resumes_sent: 0,
                ..old(self)@
            }),
    {
        self.connected = true;
        self.identified = false;
        self.state = ShardState::Identifying;
        self.identifies_sent = Ghost(0);
        self.resumes_sent = Ghost(0);
    }

    /// A connection attempt failed: the attempt counter grows (saturating
    /// at its bound), the resume URL is dropped, and the error to surface
    /// is handed back.
    pub fn on_connect_failure(&mut self, cause: Option<String>) -> (r: ReceiveError)
        requires
            old(self).wf(),
            old(self)@.state is Disconnected,
            !old(self)@.connected,
        ensures
            final(self).wf(),
            ({
                let attempts = old(self)@.state->Disconnected_reconnect_attempts;
                final(self)@ == (ShardView {
                    state: ShardState::Disconnected {
                        reconnect_attempts: if attempts < 255 {
                            (attempts + 1) as u8
                        } else {
                            255u8
                        },
                    },
                    resume_gateway_url: None,
                    ..old(self)@
                })
            }),
            r@ == (ReceiveErrorV::Reconnect {
                source: match cause {
                    Some(c) => Some(c@),
                    None => None,
                },
            }),
    {
        let attempts = match self.state {
            ShardState::Disconnected { reconnect_attempts } => reconnect_attempts,
            _ => 0,
        };
        let next = if attempts < 255 {
            attempts + 1
        } else {
            255
        };
        self.state = ShardState::Disconnected { reconnect_attempts: next };
        self.resume_gateway_url = None;
        ReceiveError::reconnect(cause)
    }

    /// Takes the pending outbound message for sending; the slot empties.
    pub fn take_pending(&mut self) -> (r: Option<Message>)
        requires
            old(self).wf(),
        ensures
            final(self).wf(),
            final(self)@ == (ShardView { pending: None, ..old(self)@ }),
            match (r, old(self)@.pending) {
                (Some(m), Some(p)) => m@ == p,
                (None, None) => true,
                _ => false,
            },
    {
        self.pending.take()
    }

    /// The send of the pending message completed.
    pub fn on_flush_ok(&mut self)
        requires
            old(self).wf(),
        ensures
            final(self).wf(),
            final(self)@ == (ShardView { pending: None, ..old(self)@ }),
    {
        self.pending = None;
    }

    /// Sending failed: the connection is abandoned, the pending slot is
    /// dropped with it, and the abnormal-close envelope to surface is
    /// handed back. The session and resume URL survive for the next
    /// attempt.
    pub fn on_send_failure(&mut self) -> (r: Message)
        requires
            old(self).wf(),
        ensures
            final(self).wf(),
            final(self)@ == (ShardView {
                state: ShardState::Disconnected { reconnect_attempts: 0 },
                connected: false,
                heartbeat: None,
                pending: None,
                ..old(self)@
            }),
            r@ == MessageV::Close(Some((1006u16, Seq::<char>::empty()))),
    {
        self.heartbeat = None;
        self.state = ShardState::Disconnected { reconnect_attempts: 0 };
        self.connected = false;
        self.pending = None;
        Message::abnormal_close()
    }

    /// A heartbeat tick fired: the heartbeat envelope, carrying the
    /// current sequence number or null, takes the pending slot.
    pub fn on_heartbeat_tick(&mut self)
        requires
            old(self).wf(),
            old(self)@.pending is None,
            old(self)@.heartbeat is Some,
        ensures
            final(self).wf(),
            final(self)@ == (ShardView {
                pending: Some(
                    MessageV::Text(spec_heartbeat_text(seq_of(old(self)@.session))),
                ),
                ..old(self)@
            }),
    {
        let seq = self.session_sequence();
        let ev = GatewayEvent {
            op: Opcode::Heartbeat,
            d: Some(Payload::Heartbeat(seq)),
            s: None,
            t: None,
        };
        let text = encode_event(&ev);
        proof {
            assert(ev@ =~= (GatewayEventV {
                op: Opcode::Heartbeat,
                d: Some(PayloadV::Heartbeat(seq_of(old(self)@.session))),
                s: None,
                t: None,
            }));
        }
        self.pending = Some(Message::Text(text));
        proof {
            assert(self@ =~= (ShardView {
                pending: Some(
                    MessageV::Text(spec_heartbeat_text(seq_of(old(self)@.session))),
                ),
                ..old(self)@
            }));
        }
    }

    /// Sends the identify handshake if this connection still owes one:
    /// only while identifying, and only when no session could be resumed
    /// instead. Identify is marked sent, so it goes out at most once per
    /// connection.
    pub fn poll_identify(&mut self)
        requires
            old(self).wf(),
            old(self)@.pending is None,
            old(self)@.connected,
        ensures
            final(self).wf(),
            ({
                let v = old(self)@;
                if !v.identified && v.state is Identifying && v.session is None {
                    final(self)@ == (ShardView {
                        pending: Some(
                            MessageV::Text(
                                spec_identify_text(v.token, v.os, v.intents, v.shard_id),
                            ),
                        ),
                        identified: true,
                        identifies_sent: v.identifies_sent + 1,
                        ..v
                    })
                } else {
                    final(self)@ == v
                }
            }),
    {
        let do_send = !self.identified && matches!(self.state, ShardState::Identifying)
            && self.session.is_none();
        if do_send {
            let ident = Identify {
                compress: false,
                intents: self.intents,
                large_threshold: 250,
                properties: IdentifyProperties {
                    browser: String::from_str("fishmael"),
                    device: String::from_str("fishmael"),
                    os: self.identify_os.clone(),
                },
                shard: Some(self.shard_id),
                token: self.token.clone(),
            };
            let ev = GatewayEvent {
                op: Opcode::Identify,
                d: Some(Payload::Identify(ident)),
                s: None,
                t: None,
            };
            let text = encode_event(&ev);
            proof {
                assert(ev@ =~= (GatewayEventV {
                    op: Opcode::Identify,
                    d: Some(
                        PayloadV::Identify(
                            IdentifyV {
                                compress: false,
                                intents: old(self)@.intents,
                                large_threshold: 250,
                                properties: IdentifyPropertiesV {
                                    browser: "fishmael"@,
                                    device: "fishmael"@,
                                    os: old(self)@.os,
                                },
                                shard: Some(
                                    (
                                        old(self)@.shard_id.number(),
                                        old(self)@.shard_id.total(),
                                    ),
                                ),
                                token: old(self)@.token,
                            },
                        ),
                    ),
                    s: None,
                    t: None,
                }));
            }
            self.pending = Some(Message::Text(text));
            self.identified = true;
            self.identifies_sent = Ghost(self.identifies_sent@ + 1);
        }
    }

    /// Processes one inbound text frame: updates the session and state,
    /// and may queue a reply, as `process_rel` describes.
    fn process(&mut self, text: &str) -> (r: Result<(), ReceiveError>)
        requires
            old(self).wf(),
            old(self)@.pending is None,
            old(self)@.connected,
            !(old(self)@.state is FatallyClosed),
        ensures
            final(self).wf(),
            process_rel(old(self)@, final(self)@, r is Ok, text@),
            r matches Err(e) ==> (e@ matches ReceiveErrorV::Reconnect { .. }),
    {
        let ev = match decode_event(text) {
            Ok(ev) => ev,
            Err(_) => {
                return Err(
                    ReceiveError::reconnect(
                        Some(String::from_str("failed to decode gateway event")),
                    ),
                );
            },
        };
        match ev.op {
            Opcode::Dispatch => {
                let n = match ev.s {
                    Some(n) => n,
                    None => {
                        proof {
                            assert(false);
                        }
                        return Ok(());
                    },
                };
                let name = match ev.t {
                    Some(t) => t,
                    None => {
                        proof {
                            assert(false);
                        }
                        return Ok(());
                    },
                };
                let d_raw = match ev.d {
                    Some(Payload::Raw(j)) => j,
                    _ => {
                        proof {
                            assert(false);
                        }
                        return Ok(());
                    },
                };
                if name.eq(&String::from_str("READY")) {
                    match ready_fields(&d_raw) {
                        Some((sid, url)) => {
                            self.resume_gateway_url = Some(url);
                            self.session = Some(Session::new(n, sid));
                            self.state = ShardState::Active;
                            Ok(())
                        },
                        None => {
                            Err(
                                ReceiveError::reconnect(
                                    Some(
                                        String::from_str("failed to read the ready payload"),
                                    ),
                                ),
                            )
                        },
                    }
                } else {
                    if name.eq(&String::from_str("RESUMED")) {
                        if self.session.is_some() {
                            self.state = ShardState::Active;
                        }
                    }
                    match &mut self.session {
                        Some(sess) => {
                            sess.set_sequence(n);
                        },
                        None => {},
                    }
                    Ok(())
                }
            },
            Opcode::Heartbeat => {
                let seq = self.session_sequence();
                let reply = GatewayEvent {
                    op: Opcode::Heartbeat,
                    d: Some(Payload::Heartbeat(seq)),
                    s: None,
                    t: None,
                };
                let text = encode_event(&reply);
                proof {
                    assert(reply@ =~= (GatewayEventV {
                        op: Opcode::Heartbeat,
                        d: Some(PayloadV::Heartbeat(seq_of(old(self)@.session))),
                        s: None,
                        t: None,
                    }));
                }
                self.pending = Some(Message::Text(text));
                Ok(())
            },
            Opcode::ACK => Ok(()),
            Opcode::Hello => {
                let interval = match &ev.d {
                    Some(Payload::Hello(h)) => h.heartbeat_interval,
                    _ => {
                        proof {
                            assert(false);
                        }
                        return Ok(());
                    },
                };
                let jitter = if interval >= 1 {
                    crate::rng::rng_below(&mut self.rng, interval)
                } else {
                    0
                };
                self.heartbeat = Some(
                    HeartbeatSchedule { interval_ms: interval, first_delay_ms: jitter },
                );
                let resume_now = self.session.is_some() && matches!(
                    self.state,
                    ShardState::Identifying,
                );
                if resume_now {
                    let (sid, seq) = match &self.session {
                        Some(sess) => (String::from_str(sess.id()), sess.sequence()),
                        None => {
                            proof {
                                assert(false);
                            }
                            return Ok(());
                        },
                    };
                    let resume = Resume { seq, session_id: sid, token: self.token.clone() };
                    let reply = GatewayEvent {
                        op: Opcode::Resume,
                        d: Some(Payload::Resume(resume)),
                        s: None,
                        t: None,
                    };
                    let text = encode_event(&reply);
                    proof {
                        assert(reply@ =~= (GatewayEventV {
                            op: Opcode::Resume,
                            d: Some(
                                PayloadV::Resume(
                                    ResumeV {
                                        seq: old(self)@.session->Some_0.1,
                                        session_id: old(self)@.session->Some_0.0,
                                        token: old(self)@.token,
                                    },
                                ),
                            ),
                            s: None,
                            t: None,
                        }));
                    }
                    self.pending = Some(Message::Text(text));
                    self.state = ShardState::Resuming;
                    self.resumes_sent = Ghost(self.resumes_sent@ + 1);
                }
                proof {
                    assert(jitter_ok(interval, jitter));
                    assert(self@ =~= hello_post(old(self)@, interval, jitter));
                }
                Ok(())
            },
            Opcode::Reconnect => {
                self.heartbeat = None;
                self.state = ShardState::Disconnected { reconnect_attempts: 0 };
                self.pending = Some(Message::Close(Some(CloseFrame::resume())));
                proof {
                    assert(self@ =~= self_close(old(self)@));
                }
                Ok(())
            },
            Opcode::InvalidateSession => {
                let resumable = match ev.d {
                    Some(Payload::InvalidSession(b)) => b,
                    _ => {
                        proof {
                            assert(false);
                        }
                        return Ok(());
                    },
                };
                if !resumable {
                    self.session = None;
                }
                self.heartbeat = None;
                self.state = ShardState::Disconnected { reconnect_attempts: 0 };
                self.pending = Some(Message::Close(Some(CloseFrame::resume())));
                Ok(())
            },
            _ => Ok(()),
        }
    }
}

/// The state after a close frame arrives from the gateway: a fatal code
/// ends the shard whatever it was doing, even when it had initiated the
/// close itself; any other code is ignored while already disconnected,
/// and otherwise stops the heartbeat and returns to `Disconnected`.
pub open spec fn close_post(v: ShardView, f: Option<(u16, Seq<char>)>) -> ShardView {
    if (match f {
        Some(fr) => spec_classify(fr.0) is Fatal,
        None => false,
    }) {
        ShardView { heartbeat: None, state: ShardState::FatallyClosed, ..v }
    } else if v.state is Disconnected {
        v
    } else {
        ShardView {
            heartbeat: None,
            state: ShardState::Disconnected { reconnect_attempts: 0 },
            ..v
        }
    }
}

/// What one received frame produced: nothing (a dropped frame kind), an
/// envelope to surface, or an error to surface.
#[derive(Debug)]
pub enum FrameOutcome {
    Skip,
    Yield(Message),
    Error(ReceiveError),
}

impl Shard {
    /// Handles one frame read from the transport. Text frames run the
    /// protocol step; close frames classify their code; binary, ping and
    /// pong frames are dropped.
    pub fn on_frame(&mut self, frame: &TransportFrame) -> (r: FrameOutcome)
        requires
            old(self).wf(),
            old(self)@.pending is None,
            old(self)@.connected,
            !(old(self)@.state is FatallyClosed),
        ensures
            final(self).wf(),
            match r {
                FrameOutcome::Skip => crate::message::spec_from_frame(frame@) is None
                    && final(self)@ == old(self)@,
                FrameOutcome::Yield(m) => (match crate::message::spec_from_frame(frame@) {
                    Some(MessageV::Close(f)) => m@ == MessageV::Close(f) && final(self)@
                        == close_post(old(self)@, f),
                    Some(MessageV::Text(t)) => m@ == MessageV::Text(t) && process_rel(
                        old(self)@,
                        final(self)@,
                        true,
                        t,
                    ),
                    None => false,
                }),
                FrameOutcome::Error(e) => (match crate::message::spec_from_frame(frame@) {
                    Some(MessageV::Text(t)) => process_rel(
                        old(self)@,
                        final(self)@,
                        false,
                        t,
                    ) && (e@ matches ReceiveErrorV::Reconnect { .. }),
                    _ => false,
                }),
            },
    {
        let msg = match Message::from_frame(frame) {
            Some(m) => m,
            None => {
                return FrameOutcome::Skip;
            },
        };
        match msg {
            Message::Close(f) => {
                let fatal = match &f {
                    Some(fr) => matches!(classify(fr.code), CloseClass::Fatal),
                    None => false,
                };
                if fatal {
                    self.heartbeat = None;
                    self.state = ShardState::FatallyClosed;
                } else if !matches!(self.state, ShardState::Disconnected { .. }) {
                    self.heartbeat = None;
                    self.state = ShardState::Disconnected { reconnect_attempts: 0 };
                }
                FrameOutcome::Yield(Message::Close(f))
            },
            Message::Text(t) => {
                match self.process(t.as_str()) {
                    Ok(()) => FrameOutcome::Yield(Message::Text(t)),
                    Err(e) => FrameOutcome::Error(e),
                }
            },
        }
    }

    /// A transport error occurred while reading. An unexpected
    /// end-of-file while already disconnected is absorbed and the loop
    /// goes on; any other error abandons the heartbeat and surfaces the
    /// abnormal-close envelope.
    pub fn on_transport_error(&mut self, unexpected_eof: bool) -> (r: Option<Message>)
        requires
            old(self).wf(),
            old(self)@.pending is None,
        ensures
            final(self).wf(),
            if unexpected_eof && old(self)@.state is Disconnected {
                r is None && final(self)@ == old(self)@
            } else {
                (r matches Some(m) && m@ == MessageV::Close(
                    Some((1006u16, Seq::<char>::empty())),
                )) && final(self)@ == (ShardView {
                    heartbeat: None,
                    state: ShardState::Disconnected { reconnect_attempts: 0 },
                    ..old(self)@
                })
            },
    {
        if unexpected_eof && matches!(self.state, ShardState::Disconnected { .. }) {
            None
        } else {
            self.heartbeat = None;
            self.state = ShardState::Disconnected { reconnect_attempts: 0 };
            Some(Message::abnormal_close())
        }
    }

    /// The transport stream ended: the connection is gone. A shard that
    /// was not already disconnected becomes so.
    pub fn on_stream_end(&mut self)
        requires
            old(self).wf(),
            old(self)@.pending is None,
        ensures
            final(self).wf(),
            final(self)@ == (ShardView {
                connected: false,
                heartbeat: None,
                state: if old(self)@.state is Disconnected {
                    old(self)@.state
                } else {
                    ShardState::Disconnected { reconnect_attempts: 0 }
                },
                ..old(self)@
            }),
    {
        self.heartbeat = None;
        self.connected = false;
        if !matches!(self.state, ShardState::Disconnected { .. }) {
            self.state = ShardState::Disconnected { reconnect_attempts: 0 };
        }
    }
}

/// Sequence monotonicity: across one session, a processing step never
/// lowers the recorded sequence number, as long as the gateway honours
/// its guarantee that dispatch sequence numbers do not decrease.
pub proof fn lemma_sequence_monotonic(
    pre: ShardView,
    post: ShardView,
    ok: bool,
    text: Seq<char>,
)
    requires
        process_rel(pre, post, ok, text),
        pre.session is Some,
        post.session is Some,
        (match spec_decode_event(text) {
            Ok(ev) => ev.op is Dispatch ==> ev.s->Some_0 >= pre.session->Some_0.1,
            Err(_) => true,
        }),
    ensures
        post.session->Some_0.1 >= pre.session->Some_0.1,
{
    match spec_decode_event(text) {
        Ok(ev) => match ev.op {
            Opcode::Hello => {
                let j = choose|j: u64|
                    jitter_ok(ev.d->Some_0->Hello_0, j) && post == #[trigger] hello_post(
                        pre,
                        ev.d->Some_0->Hello_0,
                        j,
                    );
                assert(post.session == pre.session);
            },
            _ => {},
        },
        Err(_) => {},
    }
}

/// The pending outbound slot: the shard buffers at most one outbound
/// message by construction, and only while a connection exists.
pub proof fn lemma_single_pending(v: ShardView)
    requires
        shard_wf(v),
    ensures
        v.pending is Some ==> v.connected,
{
}

/// Identify and resume each go out at most once per connection, and
/// never both on the same connection.
pub proof fn lemma_handshake_once(v: ShardView)
    requires
        shard_wf(v),
    ensures
        v.identifies_sent <= 1,
        v.resumes_sent <= 1,
        !(v.identifies_sent >= 1 && v.resumes_sent >= 1),
{
}

/// The close-code classification table: the codes the protocol marks
/// resumable allow a reconnect, the fatal ones end the shard, and every
/// code without an entry is treated as resumable.
pub proof fn lemma_close_code_table()
    ensures
        forall|c: u16|
            (c == 4000 || c == 4001 || c == 4002 || c == 4003 || c == 4005 || c == 4007
                || c == 4008 || c == 4009) ==> spec_classify(c) is Resumable,
        forall|c: u16|
            (c == 4004 || c == 4010 || c == 4011 || c == 4012 || c == 4013 || c == 4014)
                ==> spec_classify(c) is Fatal,
        forall|c: u16|
            !(4000 <= c <= 4005 || c == 4007 || c == 4008 || c == 4009 || 4010 <= c <= 4014)
                ==> spec_classify(c) is Unknown,
        forall|c: u16|
            #![trigger spec_state_from_close_code(c)]
            (spec_state_from_close_code(c) is FatallyClosed <==> spec_classify(c) is Fatal)
                && (spec_state_from_close_code(c) == (ShardState::Disconnected {
                reconnect_attempts: 0u8,
            }) <==> !(spec_classify(c) is Fatal)),
{
}

/// A hello with a zero heartbeat interval schedules an immediate first
/// tick: both the interval and the jitter are zero.
pub proof fn lemma_hello_zero_interval(
    pre: ShardView,
    post: ShardView,
    text: Seq<char>,
)
    requires
        process_rel(pre, post, true, text),
        (match spec_decode_event(text) {
            Ok(ev) => ev.op is Hello && ev.d->Some_0->Hello_0 == 0,
            Err(_) => false,
        }),
    ensures
        post.heartbeat == Some((0u64, 0u64)),
{
    let ev = spec_decode_event(text)->Ok_0;
    let j = choose|j: u64|
        jitter_ok(ev.d->Some_0->Hello_0, j) && post == #[trigger] hello_post(
            pre,
            ev.d->Some_0->Hello_0,
            j,
        );
}

/// A reconnect with no prior session targets the default gateway URL;
/// the fresh identify is owed by `poll_identify`'s contract, which sends
/// exactly when no session exists.
pub proof fn lemma_fresh_reconnect_url(v: ShardView)
    requires
        v.resume_gateway_url is None,
    ensures
        spec_connect_url(v.resume_gateway_url) == spec_default_gateway_url()
            + "/?v=10&encoding=json"@,
{
}

} // verus!
