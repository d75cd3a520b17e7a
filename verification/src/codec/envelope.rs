//! The gateway envelope codec: encodes and decodes the `{op, d, s, t}`
//! wire document, with the control payloads decoded into their typed
//! forms and dispatch payloads carried as raw JSON.

use vstd::prelude::*;
use vstd::string::StringExecFns;
use crate::codec::json::{
    jview,
    jview_members,
    jview_seq,
    lemma_jview_members_index,
    Json,
    JsonV,
    parse_text,
    spec_parse_text,
    spec_print,
    to_text,
};
use crate::model::event::{GatewayEvent, GatewayEventV, Payload, PayloadV};
use crate::model::event::hello::Hello;
use crate::model::event::identify::{Identify, IdentifyV};
use crate::model::event::resume::{Resume, ResumeV};
use crate::model::intents::Intents;
use crate::opcode::{Opcode, spec_opcode_of, spec_opcode_value};

verus! {

broadcast use vstd::seq::group_seq_axioms, vstd::std_specs::vec::group_vec_axioms, vstd::string::group_string_axioms;

/// Why a received document could not be decoded.
#[derive(Clone, Copy, Debug, Eq, PartialEq, Structural)]
pub enum DecodeError {
    /// The text is not a JSON document.
    Malformed,
    /// The document is JSON but does not have the required shape.
    SchemaMismatch,
    /// The opcode has no assignment in the protocol.
    UnknownOpcode,
}

/// The JSON value of an optional number: the number itself, or null.
pub open spec fn json_of_opt_u64(v: Option<u64>) -> JsonV {
    match v {
        Some(n) => JsonV::Num(n),
        None => JsonV::Null,
    }
}

/// The JSON value of a payload, as this crate writes it.
pub open spec fn json_of_payload(p: PayloadV) -> JsonV {
    match p {
        PayloadV::Heartbeat(s) => json_of_opt_u64(s),
        PayloadV::Identify(i) => JsonV::Obj(
            seq![
                ("token"@, JsonV::Str(i.token)),
                (
                    "properties"@,
                    JsonV::Obj(
                        seq![
                            ("os"@, JsonV::Str(i.properties.os)),
                            ("browser"@, JsonV::Str(i.properties.browser)),
                            ("device"@, JsonV::Str(i.properties.device)),
                        ],
                    ),
                ),
                ("intents"@, JsonV::Num(i.intents)),
                ("large_threshold"@, JsonV::Num(i.large_threshold)),
                ("compress"@, JsonV::Bool(i.compress)),
            ] + (match i.shard {
                Some(sh) => seq![
                    (
                        "shard"@,
                        JsonV::Arr(seq![JsonV::Num(sh.0 as u64), JsonV::Num(sh.1 as u64)]),
                    ),
                ],
                None => Seq::empty(),
            }),
        ),
        PayloadV::Hello(n) => JsonV::Obj(seq![("heartbeat_interval"@, JsonV::Num(n))]),
        PayloadV::Resume(r) => JsonV::Obj(
            seq![
                ("token"@, JsonV::Str(r.token)),
                ("session_id"@, JsonV::Str(r.session_id)),
                ("seq"@, JsonV::Num(r.seq)),
            ],
        ),
        PayloadV::InvalidSession(b) => JsonV::Bool(b),
        PayloadV::Raw(j) => j,
    }
}

/// The JSON document of an envelope.
pub open spec fn json_of_event(e: GatewayEventV) -> JsonV {
    JsonV::Obj(
        seq![
            ("op"@, JsonV::Num(spec_opcode_value(e.op) as u64)),
            (
                "d"@,
                match e.d {
                    Some(p) => json_of_payload(p),
                    None => JsonV::Null,
                },
            ),
            ("s"@, json_of_opt_u64(e.s)),
            (
                "t"@,
                match e.t {
                    Some(t) => JsonV::Str(t),
                    None => JsonV::Null,
                },
            ),
        ],
    )
}

/// The canonical wire text of an envelope.
pub open spec fn spec_encode_event(e: GatewayEventV) -> Seq<char> {
    spec_print(json_of_event(e))
}

/// The value of the first member with the given key, if any.
pub open spec fn spec_obj_get(m: Seq<(Seq<char>, JsonV)>, key: Seq<char>) -> Option<JsonV>
    decreases m.len(),
{
    if m.len() == 0 {
        None
    } else if m[0].0 == key {
        Some(m[0].1)
    } else {
        spec_obj_get(m.drop_first(), key)
    }
}

/// A field that must be a number or null (or absent).
pub open spec fn spec_opt_u64_field(m: Seq<(Seq<char>, JsonV)>, key: Seq<char>) -> Result<
    Option<u64>,
    DecodeError,
> {
    match spec_obj_get(m, key) {
        None => Ok(None),
        Some(JsonV::Null) => Ok(None),
        Some(JsonV::Num(n)) => Ok(Some(n)),
        Some(_) => Err(DecodeError::SchemaMismatch),
    }
}

/// A field that must be a string or null (or absent).
pub open spec fn spec_opt_str_field(m: Seq<(Seq<char>, JsonV)>, key: Seq<char>) -> Result<
    Option<Seq<char>>,
    DecodeError,
> {
    match spec_obj_get(m, key) {
        None => Ok(None),
        Some(JsonV::Null) => Ok(None),
        Some(JsonV::Str(s)) => Ok(Some(s)),
        Some(_) => Err(DecodeError::SchemaMismatch),
    }
}

/// A field that must be present and a string.
pub open spec fn spec_str_field(m: Seq<(Seq<char>, JsonV)>, key: Seq<char>) -> Result<
    Seq<char>,
    DecodeError,
> {
    match spec_obj_get(m, key) {
        Some(JsonV::Str(s)) => Ok(s),
        _ => Err(DecodeError::SchemaMismatch),
    }
}

/// A field that must be present and a number.
pub open spec fn spec_u64_field(m: Seq<(Seq<char>, JsonV)>, key: Seq<char>) -> Result<
    u64,
    DecodeError,
> {
    match spec_obj_get(m, key) {
        Some(JsonV::Num(n)) => Ok(n),
        _ => Err(DecodeError::SchemaMismatch),
    }
}

/// A field that must be present and a boolean.
pub open spec fn spec_bool_field(m: Seq<(Seq<char>, JsonV)>, key: Seq<char>) -> Result<
    bool,
    DecodeError,
> {
    match spec_obj_get(m, key) {
        Some(JsonV::Bool(b)) => Ok(b),
        _ => Err(DecodeError::SchemaMismatch),
    }
}

/// The identify payload read back from its JSON form. The intent bits
/// are truncated to the defined intents, as the wire format prescribes.
pub open spec fn spec_decode_identify(d: JsonV) -> Result<IdentifyV, DecodeError> {
    match d {
        JsonV::Obj(dm) => match (
            spec_str_field(dm, "token"@),
            spec_u64_field(dm, "intents"@),
            spec_u64_field(dm, "large_threshold"@),
            spec_bool_field(dm, "compress"@),
        ) {
            (Ok(token), Ok(intents), Ok(large_threshold), Ok(compress)) => match spec_obj_get(
                dm,
                "properties"@,
            ) {
                Some(JsonV::Obj(pm)) => match (
                    spec_str_field(pm, "os"@),
                    spec_str_field(pm, "browser"@),
                    spec_str_field(pm, "device"@),
                ) {
                    (Ok(os), Ok(browser), Ok(device)) => match spec_decode_shard_pair(dm) {
                        Ok(shard) => Ok(
                            IdentifyV {
                                compress,
                                intents: intents
                                    & crate::model::intents::spec_intents_mask(),
                                large_threshold,
                                properties:
                                    crate::model::event::identify::IdentifyPropertiesV {
                                    browser,
                                    device,
                                    os,
                                },
                                shard,
                                token,
                            },
                        ),
                        Err(e) => Err(e),
                    },
                    _ => Err(DecodeError::SchemaMismatch),
                },
                _ => Err(DecodeError::SchemaMismatch),
            },
            _ => Err(DecodeError::SchemaMismatch),
        },
        _ => Err(DecodeError::SchemaMismatch),
    }
}

/// The shard pair of an identify payload: absent, or a two-element array
/// of a shard number below the shard total.
pub open spec fn spec_decode_shard_pair(dm: Seq<(Seq<char>, JsonV)>) -> Result<
    Option<(u32, u32)>,
    DecodeError,
> {
    match spec_obj_get(dm, "shard"@) {
        None => Ok(None),
        Some(JsonV::Arr(a)) => {
            if a.len() == 2 {
                match (a[0], a[1]) {
                    (JsonV::Num(n), JsonV::Num(t)) => {
                        if t > 0 && t <= u32::MAX && n < t {
                            Ok(Some((n as u32, t as u32)))
                        } else {
                            Err(DecodeError::SchemaMismatch)
                        }
                    },
                    _ => Err(DecodeError::SchemaMismatch),
                }
            } else {
                Err(DecodeError::SchemaMismatch)
            }
        },
        Some(_) => Err(DecodeError::SchemaMismatch),
    }
}

/// The resume payload read back from its JSON form.
pub open spec fn spec_decode_resume(d: JsonV) -> Result<ResumeV, DecodeError> {
    match d {
        JsonV::Obj(dm) => match (
            spec_str_field(dm, "token"@),
            spec_str_field(dm, "session_id"@),
            spec_u64_field(dm, "seq"@),
        ) {
            (Ok(token), Ok(session_id), Ok(seq)) => Ok(ResumeV { seq, session_id, token }),
            _ => Err(DecodeError::SchemaMismatch),
        },
        _ => Err(DecodeError::SchemaMismatch),
    }
}

/// The hello payload read back from its JSON form: an object carrying
/// the heartbeat interval; other members are ignored.
pub open spec fn spec_decode_hello(d: JsonV) -> Result<u64, DecodeError> {
    match d {
        JsonV::Obj(dm) => spec_u64_field(dm, "heartbeat_interval"@),
        _ => Err(DecodeError::SchemaMismatch),
    }
}

/// The payload of an envelope, decoded by its opcode.
pub open spec fn spec_decode_payload(op: Opcode, d: JsonV) -> Result<
    Option<PayloadV>,
    DecodeError,
> {
    match op {
        Opcode::Dispatch => Ok(Some(PayloadV::Raw(d))),
        Opcode::Heartbeat => match d {
            JsonV::Null => Ok(Some(PayloadV::Heartbeat(None))),
            JsonV::Num(n) => Ok(Some(PayloadV::Heartbeat(Some(n)))),
            _ => Err(DecodeError::SchemaMismatch),
        },
        Opcode::Identify => match spec_decode_identify(d) {
            Ok(i) => Ok(Some(PayloadV::Identify(i))),
            Err(e) => Err(e),
        },
        Opcode::Resume => match spec_decode_resume(d) {
            Ok(r) => Ok(Some(PayloadV::Resume(r))),
            Err(e) => Err(e),
        },
        Opcode::Hello => match spec_decode_hello(d) {
            Ok(n) => Ok(Some(PayloadV::Hello(n))),
            Err(e) => Err(e),
        },
        Opcode::InvalidateSession => match d {
            JsonV::Bool(b) => Ok(Some(PayloadV::InvalidSession(b))),
            _ => Err(DecodeError::SchemaMismatch),
        },
        Opcode::Reconnect => match d {
            JsonV::Null => Ok(None),
            _ => Err(DecodeError::SchemaMismatch),
        },
        Opcode::ACK => match d {
            JsonV::Null => Ok(None),
            _ => Err(DecodeError::SchemaMismatch),
        },
        Opcode::Unknown(_) => Err(DecodeError::UnknownOpcode),
        _ => Ok(Some(PayloadV::Raw(d))),
    }
}

/// An envelope decoded from wire text: the opcode must be a known
/// assignment, a dispatch must carry its sequence number and name, and
/// the payload must have the shape its opcode prescribes.
pub open spec fn spec_decode_event(s: Seq<char>) -> Result<GatewayEventV, DecodeError> {
    match spec_parse_text(s) {
        None => Err(DecodeError::Malformed),
        Some(j) => match j {
            JsonV::Obj(m) => match spec_obj_get(m, "op"@) {
                Some(JsonV::Num(n)) => {
                    if n <= 255 {
                        spec_decode_fields(m, spec_opcode_of(n as u8))
                    } else {
                        Err(DecodeError::SchemaMismatch)
                    }
                },
                _ => Err(DecodeError::SchemaMismatch),
            },
            _ => Err(DecodeError::SchemaMismatch),
        },
    }
}

/// The sequence, name and payload fields of an envelope whose opcode is
/// already known.
pub open spec fn spec_decode_fields(m: Seq<(Seq<char>, JsonV)>, op: Opcode) -> Result<
    GatewayEventV,
    DecodeError,
> {
    match (spec_opt_u64_field(m, "s"@), spec_opt_str_field(m, "t"@)) {
        (Ok(s), Ok(t)) => {
            let d = match spec_obj_get(m, "d"@) {
                Some(j) => j,
                None => JsonV::Null,
            };
            if op is Dispatch && (s is None || t is None) {
                Err(DecodeError::SchemaMismatch)
            } else {
                match spec_decode_payload(op, d) {
                    Ok(p) => Ok(GatewayEventV { op, d: p, s, t }),
                    Err(e) => Err(e),
                }
            }
        },
        _ => Err(DecodeError::SchemaMismatch),
    }
}

/// The value of the first member with the given key, if any.
pub fn obj_get<'a>(m: &'a Vec<(String, Json)>, key: &String) -> (r: Option<&'a Json>)
    ensures
        match r {
            Some(j) => spec_obj_get(jview_members(m@), key@) == Some(j@),
            None => spec_obj_get(jview_members(m@), key@) is None,
        },
{
    let ghost mv = jview_members(m@);
    proof {
        lemma_jview_members_index(m@);
        assert(mv.skip(0) =~= mv);
    }
    let mut i: usize = 0;
    while i < m.len()
        invariant
            i <= m@.len(),
            mv == jview_members(m@),
            mv.len() == m@.len(),
            forall|k: int| 0 <= k < m@.len() ==> mv[k] == (m@[k].0@, jview(m@[k].1)),
            spec_obj_get(mv, key@) == spec_obj_get(mv.skip(i as int), key@),
        decreases m@.len() - i,
    {
        if m[i].0.eq(key) {
            proof {
                assert(mv.skip(i as int)[0] == mv[i as int]);
                assert(spec_obj_get(mv.skip(i as int), key@) == Some(mv[i as int].1));
            }
            return Some(&m[i].1);
        }
        proof {
            assert(mv.skip(i as int)[0] == mv[i as int]);
            assert(mv.skip(i as int).drop_first() =~= mv.skip(i + 1));
        }
        i = i + 1;
    }
    proof {
        assert(mv.skip(m@.len() as int).len() == 0);
    }
    None
}

/// A field that must be a number or null (or absent).
pub fn field_opt_u64(m: &Vec<(String, Json)>, key: &String) -> (r: Result<
    Option<u64>,
    DecodeError,
>)
    ensures
        r == spec_opt_u64_field(jview_members(m@), key@),
{
    match obj_get(m, key) {
        None => Ok(None),
        Some(Json::Null) => Ok(None),
        Some(Json::Num(n)) => Ok(Some(*n)),
        Some(_) => Err(DecodeError::SchemaMismatch),
    }
}

/// A field that must be a string or null (or absent).
pub fn field_opt_str(m: &Vec<(String, Json)>, key: &String) -> (r: Result<
    Option<String>,
    DecodeError,
>)
    ensures
        match r {
            Ok(Some(s)) => spec_opt_str_field(jview_members(m@), key@) == Ok::<
                Option<Seq<char>>,
                DecodeError,
            >(Some(s@)),
            Ok(None) => spec_opt_str_field(jview_members(m@), key@) == Ok::<
                Option<Seq<char>>,
                DecodeError,
            >(None),
            Err(e) => spec_opt_str_field(jview_members(m@), key@) == Err::<
                Option<Seq<char>>,
                DecodeError,
            >(e),
        },
{
    match obj_get(m, key) {
        None => Ok(None),
        Some(Json::Null) => Ok(None),
        Some(Json::Str(s)) => Ok(Some(s.clone())),
        Some(_) => Err(DecodeError::SchemaMismatch),
    }
}

/// A field that must be present and a string.
pub fn field_str(m: &Vec<(String, Json)>, key: &String) -> (r: Result<String, DecodeError>)
    ensures
        match r {
            Ok(s) => spec_str_field(jview_members(m@), key@) == Ok::<Seq<char>, DecodeError>(
                s@,
            ),
            Err(e) => spec_str_field(jview_members(m@), key@) == Err::<Seq<char>, DecodeError>(
                e,
            ),
        },
{
    match obj_get(m, key) {
        Some(Json::Str(s)) => Ok(s.clone()),
        Some(_) => Err(DecodeError::SchemaMismatch),
        None => Err(DecodeError::SchemaMismatch),
    }
}

/// A field that must be present and a number.
pub fn field_u64(m: &Vec<(String, Json)>, key: &String) -> (r: Result<u64, DecodeError>)
    ensures
        r == spec_u64_field(jview_members(m@), key@),
{
    match obj_get(m, key) {
        Some(Json::Num(n)) => Ok(*n),
        Some(_) => Err(DecodeError::SchemaMismatch),
        None => Err(DecodeError::SchemaMismatch),
    }
}

/// A field that must be present and a boolean.
pub fn field_bool(m: &Vec<(String, Json)>, key: &String) -> (r: Result<bool, DecodeError>)
    ensures
        r == spec_bool_field(jview_members(m@), key@),
{
    match obj_get(m, key) {
        Some(Json::Bool(b)) => Ok(*b),
        Some(_) => Err(DecodeError::SchemaMismatch),
        None => Err(DecodeError::SchemaMismatch),
    }
}

/// Decodes an identify payload from its JSON form.
pub fn decode_identify(d: &Json) -> (r: Result<Identify, DecodeError>)
    ensures
        match r {
            Ok(i) => spec_decode_identify(d@) == Ok::<IdentifyV, DecodeError>(i@),
            Err(e) => spec_decode_identify(d@) == Err::<IdentifyV, DecodeError>(e),
        },
{
    let dm = match d {
        Json::Obj(dm) => dm,
        _ => {
            return Err(DecodeError::SchemaMismatch);
        },
    };
    let token = match field_str(dm, &String::from_str("token")) {
        Ok(t) => t,
        Err(e) => {
            return Err(e);
        },
    };
    let intents = match field_u64(dm, &String::from_str("intents")) {
        Ok(n) => n,
        Err(e) => {
            return Err(e);
        },
    };
    let large_threshold = match field_u64(dm, &String::from_str("large_threshold")) {
        Ok(n) => n,
        Err(e) => {
            return Err(e);
        },
    };
    let compress = match field_bool(dm, &String::from_str("compress")) {
        Ok(b) => b,
        Err(e) => {
            return Err(e);
        },
    };
    let pm = match obj_get(dm, &String::from_str("properties")) {
        Some(Json::Obj(pm)) => pm,
        _ => {
            return Err(DecodeError::SchemaMismatch);
        },
    };
    let os = match field_str(pm, &String::from_str("os")) {
        Ok(s) => s,
        Err(e) => {
            return Err(e);
        },
    };
    let browser = match field_str(pm, &String::from_str("browser")) {
        Ok(s) => s,
        Err(e) => {
            return Err(e);
        },
    };
    let device = match field_str(pm, &String::from_str("device")) {
        Ok(s) => s,
        Err(e) => {
            return Err(e);
        },
    };
    let shard = match obj_get(dm, &String::from_str("shard")) {
        None => None,
        Some(Json::Arr(a)) => {
            proof {
                crate::codec::json::lemma_jview_seq_index(a@);
            }
            if a.len() == 2 {
                let n = match &a[0] {
                    Json::Num(n) => *n,
                    _ => {
                        return Err(DecodeError::SchemaMismatch);
                    },
                };
                let t = match &a[1] {
                    Json::Num(t) => *t,
                    _ => {
                        return Err(DecodeError::SchemaMismatch);
                    },
                };
                if t > 0 && t <= 0xFFFF_FFFF && n < t {
                    Some(crate::model::event::identify::ShardId::new(n as u32, t as u32))
                } else {
                    return Err(DecodeError::SchemaMismatch);
                }
            } else {
                return Err(DecodeError::SchemaMismatch);
            }
        },
        Some(_) => {
            return Err(DecodeError::SchemaMismatch);
        },
    };
    Ok(
        Identify {
            compress,
            intents: Intents::from_bits_truncate(intents),
            large_threshold,
            properties: crate::model::event::identify::IdentifyProperties {
                browser,
                device,
                os,
            },
            shard,
            token,
        },
    )
}

/// Decodes a resume payload from its JSON form.
pub fn decode_resume(d: &Json) -> (r: Result<Resume, DecodeError>)
    ensures
        match r {
            Ok(p) => spec_decode_resume(d@) == Ok::<ResumeV, DecodeError>(p@),
            Err(e) => spec_decode_resume(d@) == Err::<ResumeV, DecodeError>(e),
        },
{
    let dm = match d {
        Json::Obj(dm) => dm,
        _ => {
            return Err(DecodeError::SchemaMismatch);
        },
    };
    let token = match field_str(dm, &String::from_str("token")) {
        Ok(t) => t,
        Err(e) => {
            return Err(e);
        },
    };
    let session_id = match field_str(dm, &String::from_str("session_id")) {
        Ok(s) => s,
        Err(e) => {
            return Err(e);
        },
    };
    let seq = match field_u64(dm, &String::from_str("seq")) {
        Ok(n) => n,
        Err(e) => {
            return Err(e);
        },
    };
    Ok(Resume { seq, session_id, token })
}

/// Decodes a hello payload from its JSON form.
pub fn decode_hello(d: &Json) -> (r: Result<Hello, DecodeError>)
    ensures
        match r {
            Ok(h) => spec_decode_hello(d@) == Ok::<u64, DecodeError>(h.heartbeat_interval),
            Err(e) => spec_decode_hello(d@) == Err::<u64, DecodeError>(e),
        },
{
    let dm = match d {
        Json::Obj(dm) => dm,
        _ => {
            return Err(DecodeError::SchemaMismatch);
        },
    };
    match field_u64(dm, &String::from_str("heartbeat_interval")) {
        Ok(n) => Ok(Hello { heartbeat_interval: n }),
        Err(e) => Err(e),
    }
}

/// Decodes an envelope from wire text.
pub fn decode_event(text: &str) -> (r: Result<GatewayEvent, DecodeError>)
    ensures
        match r {
            Ok(e) => spec_decode_event(text@) == Ok::<GatewayEventV, DecodeError>(e@),
            Err(er) => spec_decode_event(text@) == Err::<GatewayEventV, DecodeError>(er),
        },
{
    let j = match parse_text(text) {
        Some(j) => j,
        None => {
            return Err(DecodeError::Malformed);
        },
    };
    let m = match j {
        Json::Obj(m) => m,
        _ => {
            return Err(DecodeError::SchemaMismatch);
        },
    };
    let n = match obj_get(&m, &String::from_str("op")) {
        Some(Json::Num(n)) => *n,
        Some(_) => {
            return Err(DecodeError::SchemaMismatch);
        },
        None => {
            return Err(DecodeError::SchemaMismatch);
        },
    };
    if n > 255 {
        return Err(DecodeError::SchemaMismatch);
    }
    let op = Opcode::from_u8(n as u8);
    let s = match field_opt_u64(&m, &String::from_str("s")) {
        Ok(s) => s,
        Err(e) => {
            return Err(e);
        },
    };
    let t = match field_opt_str(&m, &String::from_str("t")) {
        Ok(t) => t,
        Err(e) => {
            return Err(e);
        },
    };
    let d = match obj_get(&m, &String::from_str("d")) {
        Some(j) => j.clone(),
        None => Json::Null,
    };
    if matches!(op, Opcode::Dispatch) && (s.is_none() || t.is_none()) {
        return Err(DecodeError::SchemaMismatch);
    }
    let payload: Option<Payload> = match op {
        Opcode::Dispatch => Some(Payload::Raw(d)),
        Opcode::Heartbeat => match d {
            Json::Null => Some(Payload::Heartbeat(None)),
            Json::Num(k) => Some(Payload::Heartbeat(Some(k))),
            _ => {
                return Err(DecodeError::SchemaMismatch);
            },
        },
        Opcode::Identify => match decode_identify(&d) {
            Ok(i) => Some(Payload::Identify(i)),
            Err(e) => {
                return Err(e);
            },
        },
        Opcode::Resume => match decode_resume(&d) {
            Ok(p) => Some(Payload::Resume(p)),
            Err(e) => {
                return Err(e);
            },
        },
        Opcode::Hello => match decode_hello(&d) {
            Ok(h) => Some(Payload::Hello(h)),
            Err(e) => {
                return Err(e);
            },
        },
        Opcode::InvalidateSession => match d {
            Json::Bool(b) => Some(Payload::InvalidSession(b)),
            _ => {
                return Err(DecodeError::SchemaMismatch);
            },
        },
        Opcode::Reconnect => match d {
            Json::Null => None,
            _ => {
                return Err(DecodeError::SchemaMismatch);
            },
        },
        Opcode::ACK => match d {
            Json::Null => None,
            _ => {
                return Err(DecodeError::SchemaMismatch);
            },
        },
        Opcode::Unknown(_) => {
            return Err(DecodeError::UnknownOpcode);
        },
        _ => Some(Payload::Raw(d)),
    };
    Ok(GatewayEvent { op, d: payload, s, t })
}

/// Builds the JSON form of a payload.
pub fn encode_payload(p: &Payload) -> (r: Json)
    ensures
        r@ == json_of_payload(p@),
{
    match p {
        Payload::Heartbeat(None) => Json::Null,
        Payload::Heartbeat(Some(n)) => Json::Num(*n),
        Payload::Identify(i) => {
            let mut pm: Vec<(String, Json)> = Vec::new();
            pm.push((String::from_str("os"), Json::Str(i.properties.os.clone())));
            pm.push((String::from_str("browser"), Json::Str(i.properties.browser.clone())));
            pm.push((String::from_str("device"), Json::Str(i.properties.device.clone())));
            proof {
                lemma_jview_members_index(pm@);
                assert(jview_members(pm@) =~= seq![
                    ("os"@, JsonV::Str(i.properties.os@)),
                    ("browser"@, JsonV::Str(i.properties.browser@)),
                    ("device"@, JsonV::Str(i.properties.device@)),
                ]);
            }
            let mut dm: Vec<(String, Json)> = Vec::new();
            dm.push((String::from_str("token"), Json::Str(i.token.clone())));
            dm.push((String::from_str("properties"), Json::Obj(pm)));
            dm.push((String::from_str("intents"), Json::Num(i.intents.bits())));
            dm.push((String::from_str("large_threshold"), Json::Num(i.large_threshold)));
            dm.push((String::from_str("compress"), Json::Bool(i.compress)));
            match &i.shard {
                Some(sh) => {
                    let mut a: Vec<Json> = Vec::new();
                    a.push(Json::Num(sh.number() as u64));
                    a.push(Json::Num(sh.total() as u64));
                    proof {
                        crate::codec::json::lemma_jview_seq_index(a@);
                        assert(jview_seq(a@) =~= seq![
                            JsonV::Num(sh.number() as u64),
                            JsonV::Num(sh.total() as u64),
                        ]);
                    }
                    dm.push((String::from_str("shard"), Json::Arr(a)));
                },
                None => {},
            }
            proof {
                lemma_jview_members_index(dm@);
                assert(jview_members(dm@) =~= (json_of_payload(p@))->Obj_0);
            }
            Json::Obj(dm)
        },
        Payload::Hello(h) => {
            let mut dm: Vec<(String, Json)> = Vec::new();
            dm.push((String::from_str("heartbeat_interval"), Json::Num(h.heartbeat_interval)));
            proof {
                lemma_jview_members_index(dm@);
                assert(jview_members(dm@) =~= seq![
                    ("heartbeat_interval"@, JsonV::Num(h.heartbeat_interval)),
                ]);
            }
            Json::Obj(dm)
        },
        Payload::Resume(rp) => {
            let mut dm: Vec<(String, Json)> = Vec::new();
            dm.push((String::from_str("token"), Json::Str(rp.token.clone())));
            dm.push((String::from_str("session_id"), Json::Str(rp.session_id.clone())));
            dm.push((String::from_str("seq"), Json::Num(rp.seq)));
            proof {
                lemma_jview_members_index(dm@);
                assert(jview_members(dm@) =~= seq![
                    ("token"@, JsonV::Str(rp.token@)),
                    ("session_id"@, JsonV::Str(rp.session_id@)),
                    ("seq"@, JsonV::Num(rp.seq)),
                ]);
            }
            Json::Obj(dm)
        },
        Payload::InvalidSession(b) => Json::Bool(*b),
        Payload::Raw(j) => j.clone(),
    }
}

/// Encodes an envelope as its canonical wire text.
pub fn encode_event(e: &GatewayEvent) -> (r: String)
    ensures
        r@ == spec_encode_event(e@),
{
    let mut m: Vec<(String, Json)> = Vec::new();
    m.push((String::from_str("op"), Json::Num(e.op.to_u8() as u64)));
    let d = match &e.d {
        Some(p) => encode_payload(p),
        None => Json::Null,
    };
    m.push((String::from_str("d"), d));
    let s = match e.s {
        Some(n) => Json::Num(n),
        None => Json::Null,
    };
    m.push((String::from_str("s"), s));
    let t = match &e.t {
        Some(name) => Json::Str(name.clone()),
        None => Json::Null,
    };
    m.push((String::from_str("t"), t));
    let doc = Json::Obj(m);
    proof {
        let mv = jview_members(m@);
        lemma_jview_members_index(m@);
        assert(mv.len() == 4);
        assert(mv[0] == ("op"@, JsonV::Num(spec_opcode_value(e@.op) as u64)));
        assert(mv[1] == (
            "d"@,
            match e@.d {
                Some(p) => json_of_payload(p),
                None => JsonV::Null,
            },
        ));
        assert(mv[2] == ("s"@, json_of_opt_u64(e@.s)));
        assert(mv[3] == (
            "t"@,
            match e@.t {
                Some(t) => JsonV::Str(t),
                None => JsonV::Null,
            },
        ));
        assert(mv =~= json_of_event(e@)->Obj_0);
        assert(doc@ =~= json_of_event(e@));
    }
    to_text(&doc)
}

/// One step of a member lookup: a mismatching head is skipped.
pub proof fn lemma_obj_get_skip(m: Seq<(Seq<char>, JsonV)>, key: Seq<char>)
    requires
        m.len() > 0,
        m[0].0 != key,
    ensures
        spec_obj_get(m, key) == spec_obj_get(m.drop_first(), key),
{
}

/// One step of a member lookup: a matching head is found.
pub proof fn lemma_obj_get_hit(m: Seq<(Seq<char>, JsonV)>, key: Seq<char>)
    requires
        m.len() > 0,
        m[0].0 == key,
    ensures
        spec_obj_get(m, key) == Some(m[0].1),
{
}

/// A control envelope in the shape this crate writes: a control opcode
/// whose payload matches it, intents restricted to the defined bits, and
/// a valid shard pair when one is carried.
pub open spec fn wf_control_event(e: GatewayEventV) -> bool {
    match e.op {
        Opcode::Heartbeat => e.d matches Some(PayloadV::Heartbeat(_)),
        Opcode::Identify => e.d matches Some(PayloadV::Identify(i)) && (i.intents
            & crate::model::intents::spec_intents_mask()) == i.intents && (match i.shard {
            Some(p) => p.1 > 0 && p.0 < p.1,
            None => true,
        }),
        Opcode::Resume => e.d matches Some(PayloadV::Resume(_)),
        Opcode::Hello => e.d matches Some(PayloadV::Hello(_)),
        Opcode::InvalidateSession => e.d matches Some(PayloadV::InvalidSession(_)),
        Opcode::Reconnect => e.d is None,
        Opcode::ACK => e.d is None,
        _ => false,
    }
}

/// Round trip at the document layer: reading the envelope document this
/// crate writes for any control envelope gives the envelope back —
/// opcode, payload, sequence and name all survive. (The document is
/// printed to text and parsed back by the JSON layer on the wire.)
pub proof fn lemma_control_document_round_trip(e: GatewayEventV)
    requires
        wf_control_event(e),
    ensures
        json_of_event(e) is Obj,
        spec_obj_get(json_of_event(e)->Obj_0, "op"@) == Some(
            JsonV::Num(spec_opcode_value(e.op) as u64),
        ),
        spec_decode_fields(json_of_event(e)->Obj_0, e.op) == Ok::<
            GatewayEventV,
            DecodeError,
        >(e),
{
    reveal_strlit("op");
    reveal_strlit("d");
    reveal_strlit("s");
    reveal_strlit("t");
    reveal_strlit("token");
    reveal_strlit("properties");
    reveal_strlit("intents");
    reveal_strlit("large_threshold");
    reveal_strlit("compress");
    reveal_strlit("shard");
    reveal_strlit("os");
    reveal_strlit("browser");
    reveal_strlit("device");
    reveal_strlit("session_id");
    reveal_strlit("seq");
    reveal_strlit("heartbeat_interval");
    let m = json_of_event(e)->Obj_0;
    let dj = match e.d {
        Some(p) => json_of_payload(p),
        None => JsonV::Null,
    };
    let tj = match e.t {
        Some(t) => JsonV::Str(t),
        None => JsonV::Null,
    };
    assert(m =~= seq![
        ("op"@, JsonV::Num(spec_opcode_value(e.op) as u64)),
        ("d"@, dj),
        ("s"@, json_of_opt_u64(e.s)),
        ("t"@, tj),
    ]);
    assert(m.drop_first() =~= seq![("d"@, dj), ("s"@, json_of_opt_u64(e.s)), ("t"@, tj)]);
    assert(m.drop_first().drop_first() =~= seq![("s"@, json_of_opt_u64(e.s)), ("t"@, tj)]);
    assert(m.drop_first().drop_first().drop_first() =~= seq![("t"@, tj)]);
    let m1 = m.drop_first();
    let m2 = m1.drop_first();
    let m3 = m2.drop_first();
    assert(m[0] == ("op"@, JsonV::Num(spec_opcode_value(e.op) as u64)));
    assert("op"@.len() == 2 && "d"@.len() == 1 && "s"@.len() == 1 && "t"@.len() == 1);
    assert("s"@[0] == 's' && "t"@[0] == 't' && "d"@[0] == 'd');
    lemma_obj_get_hit(m, "op"@);
    lemma_obj_get_skip(m, "d"@);
    lemma_obj_get_hit(m1, "d"@);
    lemma_obj_get_skip(m, "s"@);
    lemma_obj_get_skip(m1, "s"@);
    lemma_obj_get_hit(m2, "s"@);
    lemma_obj_get_skip(m, "t"@);
    lemma_obj_get_skip(m1, "t"@);
    lemma_obj_get_skip(m2, "t"@);
    lemma_obj_get_hit(m3, "t"@);
    assert(spec_obj_get(m, "op"@) == Some(JsonV::Num(spec_opcode_value(e.op) as u64)));
    assert(spec_obj_get(m, "d"@) == Some(dj));
    assert(spec_obj_get(m, "s"@) == Some(json_of_opt_u64(e.s)));
    assert(spec_obj_get(m, "t"@) == Some(tj));
    assert(spec_opt_u64_field(m, "s"@) == Ok::<Option<u64>, DecodeError>(e.s));
    assert(spec_opt_str_field(m, "t"@) == Ok::<Option<Seq<char>>, DecodeError>(e.t));
    match e.op {
        Opcode::Identify => {
            let i = e.d->Some_0->Identify_0;
            let props = JsonV::Obj(
                seq![
                    ("os"@, JsonV::Str(i.properties.os)),
                    ("browser"@, JsonV::Str(i.properties.browser)),
                    ("device"@, JsonV::Str(i.properties.device)),
                ],
            );
            let dm = dj->Obj_0;
            let head = seq![
                ("token"@, JsonV::Str(i.token)),
                ("properties"@, props),
                ("intents"@, JsonV::Num(i.intents)),
                ("large_threshold"@, JsonV::Num(i.large_threshold)),
                ("compress"@, JsonV::Bool(i.compress)),
            ];
            match i.shard {
                Some(sh) => {
                    let shj = JsonV::Arr(
                        seq![JsonV::Num(sh.0 as u64), JsonV::Num(sh.1 as u64)],
                    );
                    assert(dm =~= head.push(("shard"@, shj)));
                    lemma_obj_get_identify(dm, i, Some(shj));
                },
                None => {
                    assert(dm =~= head);
                    lemma_obj_get_identify(dm, i, None);
                },
            }
            let pm = props->Obj_0;
            let p1 = pm.drop_first();
            let p2 = p1.drop_first();
            assert(p1 =~= seq![
                ("browser"@, JsonV::Str(i.properties.browser)),
                ("device"@, JsonV::Str(i.properties.device)),
            ]);
            assert(p2 =~= seq![("device"@, JsonV::Str(i.properties.device))]);
            assert("os"@.len() == 2 && "browser"@.len() == 7 && "device"@.len() == 6);
            assert(pm[0].0 == "os"@ && pm[1].0 == "browser"@ && pm[2].0 == "device"@);
            lemma_obj_get_hit(pm, "os"@);
            lemma_obj_get_skip(pm, "browser"@);
            lemma_obj_get_hit(p1, "browser"@);
            lemma_obj_get_skip(pm, "device"@);
            lemma_obj_get_skip(p1, "device"@);
            lemma_obj_get_hit(p2, "device"@);
            assert(spec_str_field(pm, "os"@) == Ok::<Seq<char>, DecodeError>(
                i.properties.os,
            ));
            assert(spec_str_field(pm, "browser"@) == Ok::<Seq<char>, DecodeError>(
                i.properties.browser,
            ));
            assert(spec_str_field(pm, "device"@) == Ok::<Seq<char>, DecodeError>(
                i.properties.device,
            ));
            assert(spec_decode_identify(dj) == Ok::<IdentifyV, DecodeError>(i));
        },
        Opcode::Resume => {
            let p = e.d->Some_0->Resume_0;
            let dm = dj->Obj_0;
            assert(dm =~= seq![
                ("token"@, JsonV::Str(p.token)),
                ("session_id"@, JsonV::Str(p.session_id)),
                ("seq"@, JsonV::Num(p.seq)),
            ]);
            let r1 = dm.drop_first();
            let r2 = r1.drop_first();
            assert(r1 =~= seq![
                ("session_id"@, JsonV::Str(p.session_id)),
                ("seq"@, JsonV::Num(p.seq)),
            ]);
            assert(r2 =~= seq![("seq"@, JsonV::Num(p.seq))]);
            assert("token"@.len() == 5 && "session_id"@.len() == 10 && "seq"@.len() == 3);
            assert(dm[0].0 == "token"@ && dm[1].0 == "session_id"@ && dm[2].0 == "seq"@);
            lemma_obj_get_hit(dm, "token"@);
            lemma_obj_get_skip(dm, "session_id"@);
            lemma_obj_get_hit(r1, "session_id"@);
            lemma_obj_get_skip(dm, "seq"@);
            lemma_obj_get_skip(r1, "seq"@);
            lemma_obj_get_hit(r2, "seq"@);
            assert(spec_str_field(dm, "token"@) == Ok::<Seq<char>, DecodeError>(p.token));
            assert(spec_str_field(dm, "session_id"@) == Ok::<Seq<char>, DecodeError>(
                p.session_id,
            ));
            assert(spec_u64_field(dm, "seq"@) == Ok::<u64, DecodeError>(p.seq));
            assert(spec_decode_resume(dj) == Ok::<ResumeV, DecodeError>(p));
        },
        Opcode::Hello => {
            let n = e.d->Some_0->Hello_0;
            let dm = dj->Obj_0;
            assert(dm =~= seq![("heartbeat_interval"@, JsonV::Num(n))]);
            lemma_obj_get_hit(dm, "heartbeat_interval"@);
            assert(spec_u64_field(dm, "heartbeat_interval"@) == Ok::<u64, DecodeError>(n));
        },
        _ => {},
    }
    assert(spec_decode_fields(m, e.op) == Ok::<GatewayEventV, DecodeError>(e));
}

/// Field lookups in the identify document this crate writes.
proof fn lemma_obj_get_identify(
    dm: Seq<(Seq<char>, JsonV)>,
    i: IdentifyV,
    shard_json: Option<JsonV>,
)
    requires
        ({
            let props = JsonV::Obj(
                seq![
                    ("os"@, JsonV::Str(i.properties.os)),
                    ("browser"@, JsonV::Str(i.properties.browser)),
                    ("device"@, JsonV::Str(i.properties.device)),
                ],
            );
            let head = seq![
                ("token"@, JsonV::Str(i.token)),
                ("properties"@, props),
                ("intents"@, JsonV::Num(i.intents)),
                ("large_threshold"@, JsonV::Num(i.large_threshold)),
                ("compress"@, JsonV::Bool(i.compress)),
            ];
            match shard_json {
                Some(sj) => dm == head.push(("shard"@, sj)),
                None => dm == head,
            }
        }),
    ensures
        spec_obj_get(dm, "token"@) == Some(JsonV::Str(i.token)),
        spec_obj_get(dm, "properties"@) == Some(
            JsonV::Obj(
                seq![
                    ("os"@, JsonV::Str(i.properties.os)),
                    ("browser"@, JsonV::Str(i.properties.browser)),
                    ("device"@, JsonV::Str(i.properties.device)),
                ],
            ),
        ),
        spec_obj_get(dm, "intents"@) == Some(JsonV::Num(i.intents)),
        spec_obj_get(dm, "large_threshold"@) == Some(JsonV::Num(i.large_threshold)),
        spec_obj_get(dm, "compress"@) == Some(JsonV::Bool(i.compress)),
        spec_obj_get(dm, "shard"@) == shard_json,
{
    reveal_strlit("token");
    reveal_strlit("properties");
    reveal_strlit("intents");
    reveal_strlit("large_threshold");
    reveal_strlit("compress");
    reveal_strlit("shard");
    let d1 = dm.drop_first();
    let d2 = d1.drop_first();
    let d3 = d2.drop_first();
    let d4 = d3.drop_first();
    let d5 = d4.drop_first();
    assert("token"@.len() == 5 && "properties"@.len() == 10 && "intents"@.len() == 7
        && "large_threshold"@.len() == 15 && "compress"@.len() == 8 && "shard"@.len() == 5);
    assert("token"@[0] == 't' && "shard"@[0] == 's');
    assert(dm[0].0 == "token"@ && dm[1].0 == "properties"@ && dm[2].0 == "intents"@
        && dm[3].0 == "large_threshold"@ && dm[4].0 == "compress"@);
    lemma_obj_get_hit(dm, "token"@);
    lemma_obj_get_skip(dm, "properties"@);
    lemma_obj_get_hit(d1, "properties"@);
    lemma_obj_get_skip(dm, "intents"@);
    lemma_obj_get_skip(d1, "intents"@);
    lemma_obj_get_hit(d2, "intents"@);
    lemma_obj_get_skip(dm, "large_threshold"@);
    lemma_obj_get_skip(d1, "large_threshold"@);
    lemma_obj_get_skip(d2, "large_threshold"@);
    lemma_obj_get_hit(d3, "large_threshold"@);
    lemma_obj_get_skip(dm, "compress"@);
    lemma_obj_get_skip(d1, "compress"@);
    lemma_obj_get_skip(d2, "compress"@);
    lemma_obj_get_skip(d3, "compress"@);
    lemma_obj_get_hit(d4, "compress"@);
    lemma_obj_get_skip(dm, "shard"@);
    lemma_obj_get_skip(d1, "shard"@);
    lemma_obj_get_skip(d2, "shard"@);
    lemma_obj_get_skip(d3, "shard"@);
    lemma_obj_get_skip(d4, "shard"@);
    match shard_json {
        Some(sj) => {
            assert(d5 =~= seq![("shard"@, sj)]);
            lemma_obj_get_hit(d5, "shard"@);
        },
        None => {
            assert(d5 =~= Seq::<(Seq<char>, JsonV)>::empty());
            assert(spec_obj_get(d5, "shard"@) is None);
        },
    }
}

/// The session identifier and resume URL inside a ready payload.
pub open spec fn spec_ready_fields(d: JsonV) -> Option<(Seq<char>, Seq<char>)> {
    match d {
        JsonV::Obj(dm) => match (
            spec_str_field(dm, "session_id"@),
            spec_str_field(dm, "resume_gateway_url"@),
        ) {
            (Ok(sid), Ok(url)) => Some((sid, url)),
            _ => None,
        },
        _ => None,
    }
}

/// Reads the session identifier and resume URL out of a ready payload.
pub fn ready_fields(d: &Json) -> (r: Option<(String, String)>)
    ensures
        match r {
            Some((sid, url)) => spec_ready_fields(d@) == Some((sid@, url@)),
            None => spec_ready_fields(d@) is None,
        },
{
    let dm = match d {
        Json::Obj(dm) => dm,
        _ => {
            return None;
        },
    };
    let sid = match field_str(dm, &String::from_str("session_id")) {
        Ok(s) => s,
        Err(_) => {
            return None;
        },
    };
    let url = match field_str(dm, &String::from_str("resume_gateway_url")) {
        Ok(s) => s,
        Err(_) => {
            return None;
        },
    };
    Some((sid, url))
}

} // verus!
