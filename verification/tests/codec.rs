use fishmael::codec::envelope::{decode_event, encode_event, DecodeError};
use fishmael::codec::json::{parse_text, to_text, Json};
use fishmael::codec::num::{i64_to_decimal, parse_digits, u64_to_decimal};
use fishmael::model::event::hello::Hello;
use fishmael::model::event::identify::{Identify, IdentifyProperties, ShardId};
use fishmael::model::event::resume::Resume;
use fishmael::model::event::{GatewayEvent, Payload};
use fishmael::model::intents::Intents;
use fishmael::opcode::Opcode;
use fishmael::strutil::chars_to_string;

fn chars(s: &str) -> Vec<char> {
    s.chars().collect()
}

#[test]
fn decimal_rendering_is_exact() {
    assert_eq!(chars_to_string(u64_to_decimal(0)), "0");
    assert_eq!(chars_to_string(u64_to_decimal(41250)), "41250");
    assert_eq!(
        chars_to_string(u64_to_decimal(u64::MAX)),
        "18446744073709551615"
    );
    assert_eq!(chars_to_string(i64_to_decimal(-17)), "-17");
    assert_eq!(
        chars_to_string(i64_to_decimal(i64::MIN)),
        "-9223372036854775808"
    );
}

#[test]
fn digit_parsing_round_trips() {
    let v = chars("41250");
    assert_eq!(parse_digits(&v, 0, v.len()), Some(41250));
    let overflow = chars("99999999999999999999999");
    assert_eq!(parse_digits(&overflow, 0, overflow.len()), None);
}

#[test]
fn json_print_parse_round_trip_hello() {
    let text = "{\"op\":10,\"d\":{\"heartbeat_interval\":41250},\"s\":null,\"t\":null}";
    let parsed = parse_text(text).unwrap();
    assert_eq!(to_text(&parsed), text);
}

#[test]
fn json_parser_accepts_whitespace_and_reordered_fields() {
    let text = "{ \"t\" : null, \"s\" : null, \"op\" : 10, \"d\" : { \"heartbeat_interval\" : 41250, \"_trace\" : [\"a\", 2.5, -3, true] } }";
    let ev = decode_event(text).unwrap();
    assert!(matches!(ev.op, Opcode::Hello));
    match ev.d {
        Some(Payload::Hello(h)) => assert_eq!(h.heartbeat_interval, 41250),
        _ => panic!("expected a hello payload"),
    }
}

#[test]
fn json_parser_handles_escapes() {
    let parsed = parse_text("\"a\\n\\\"b\\\\c\\u0041\\u00e9\"").unwrap();
    match parsed {
        Json::Str(s) => assert_eq!(s, "a\n\"b\\cA\u{e9}"),
        _ => panic!("expected a string"),
    }
}

#[test]
fn json_parser_handles_surrogate_pairs() {
    let parsed = parse_text("\"\\ud83d\\ude00\"").unwrap();
    match parsed {
        Json::Str(s) => assert_eq!(s, "\u{1F600}"),
        _ => panic!("expected a string"),
    }
}

#[test]
fn json_parser_keeps_odd_numbers_raw() {
    let text = "[1,-2,3.5,1e3,18446744073709551616]";
    let parsed = parse_text(text).unwrap();
    match &parsed {
        Json::Arr(items) => {
            assert!(matches!(items[0], Json::Num(1)));
            assert!(matches!(&items[1], Json::NumRaw(s) if s == "-2"));
            assert!(matches!(&items[2], Json::NumRaw(s) if s == "3.5"));
            assert!(matches!(&items[3], Json::NumRaw(s) if s == "1e3"));
            assert!(
                matches!(&items[4], Json::NumRaw(s) if s == "18446744073709551616")
            );
        },
        _ => panic!("expected an array"),
    }
    assert_eq!(to_text(&parsed), text);
}

#[test]
fn json_parser_rejects_malformed_documents() {
    assert!(parse_text("{").is_none());
    assert!(parse_text("{\"a\":}").is_none());
    assert!(parse_text("[1,]").is_none());
    assert!(parse_text("nul").is_none());
    assert!(parse_text("\"unterminated").is_none());
    assert!(parse_text("{\"a\":1} trailing").is_none());
}

#[test]
fn envelope_round_trip_heartbeat() {
    let ev = GatewayEvent {
        op: Opcode::Heartbeat,
        d: Some(Payload::Heartbeat(Some(251))),
        s: None,
        t: None,
    };
    let text = encode_event(&ev);
    assert_eq!(text, "{\"op\":1,\"d\":251,\"s\":null,\"t\":null}");
    let back = decode_event(&text).unwrap();
    assert!(matches!(back.op, Opcode::Heartbeat));
    assert!(matches!(back.d, Some(Payload::Heartbeat(Some(251)))));
    assert_eq!(back.s, None);
    assert!(back.t.is_none());
}

#[test]
fn envelope_round_trip_hello() {
    let ev = GatewayEvent {
        op: Opcode::Hello,
        d: Some(Payload::Hello(Hello { heartbeat_interval: 41250 })),
        s: None,
        t: None,
    };
    let text = encode_event(&ev);
    let back = decode_event(&text).unwrap();
    assert!(matches!(back.d, Some(Payload::Hello(h)) if h.heartbeat_interval == 41250));
}

#[test]
fn envelope_round_trip_identify() {
    let ev = GatewayEvent {
        op: Opcode::Identify,
        d: Some(Payload::Identify(Identify {
            compress: false,
            intents: Intents::guilds(),
            large_threshold: 250,
            properties: IdentifyProperties {
                browser: String::from("fishmael"),
                device: String::from("fishmael"),
                os: String::from("linux"),
            },
            shard: Some(ShardId::new(0, 1)),
            token: String::from("SECRET-REDACTED"),
        })),
        s: None,
        t: None,
    };
    let text = encode_event(&ev);
    let back = decode_event(&text).unwrap();
    match back.d {
        Some(Payload::Identify(i)) => {
            assert!(!i.compress);
            assert_eq!(i.intents.bits(), 1);
            assert_eq!(i.large_threshold, 250);
            assert_eq!(i.properties.os, "linux");
            assert_eq!(i.properties.browser, "fishmael");
            let sh = i.shard.unwrap();
            assert_eq!(sh.number(), 0);
            assert_eq!(sh.total(), 1);
            assert_eq!(i.token, "SECRET-REDACTED");
        },
        _ => panic!("expected an identify payload"),
    }
}

#[test]
fn envelope_round_trip_resume_and_controls() {
    let ev = GatewayEvent {
        op: Opcode::Resume,
        d: Some(Payload::Resume(Resume {
            seq: 1,
            session_id: String::from("abc"),
            token: String::from("tok"),
        })),
        s: None,
        t: None,
    };
    let text = encode_event(&ev);
    assert_eq!(
        text,
        "{\"op\":6,\"d\":{\"token\":\"tok\",\"session_id\":\"abc\",\"seq\":1},\"s\":null,\"t\":null}"
    );
    let back = decode_event(&text).unwrap();
    match back.d {
        Some(Payload::Resume(r)) => {
            assert_eq!(r.seq, 1);
            assert_eq!(r.session_id, "abc");
            assert_eq!(r.token, "tok");
        },
        _ => panic!("expected a resume payload"),
    }

    for (op, expected) in [
        (Opcode::Reconnect, "{\"op\":7,\"d\":null,\"s\":null,\"t\":null}"),
        (Opcode::ACK, "{\"op\":11,\"d\":null,\"s\":null,\"t\":null}"),
    ] {
        let ev = GatewayEvent { op, d: None, s: None, t: None };
        let text = encode_event(&ev);
        assert_eq!(text, expected);
        let back = decode_event(&text).unwrap();
        assert!(back.d.is_none());
    }

    let ev = GatewayEvent {
        op: Opcode::InvalidateSession,
        d: Some(Payload::InvalidSession(false)),
        s: None,
        t: None,
    };
    let back = decode_event(&encode_event(&ev)).unwrap();
    assert!(matches!(back.d, Some(Payload::InvalidSession(false))));
}

#[test]
fn envelope_decode_errors() {
    assert!(matches!(decode_event("not json"), Err(DecodeError::Malformed)));
    assert!(matches!(decode_event("[1,2]"), Err(DecodeError::SchemaMismatch)));
    assert!(matches!(
        decode_event("{\"op\":99,\"d\":null,\"s\":null,\"t\":null}"),
        Err(DecodeError::UnknownOpcode)
    ));
    assert!(matches!(
        decode_event("{\"op\":0,\"d\":{},\"s\":null,\"t\":null}"),
        Err(DecodeError::SchemaMismatch)
    ));
    assert!(matches!(
        decode_event("{\"op\":10,\"d\":{\"heartbeat_interval\":\"x\"},\"s\":null,\"t\":null}"),
        Err(DecodeError::SchemaMismatch)
    ));
    assert!(matches!(
        decode_event("{\"d\":null}"),
        Err(DecodeError::SchemaMismatch)
    ));
}
