use fishmael::message::{CloseFrame, Message, TransportFrame};
use fishmael::model::event::identify::ShardId;
use fishmael::model::intents::Intents;
use fishmael::shard::{Directive, FrameOutcome, Shard, ShardState};

fn fresh_shard() -> Shard {
    let mut shard = Shard::new(
        String::from("tok"),
        ShardId::new(0, 1),
        Intents::guilds(),
    );
    shard.set_identify_os(String::from("linux"));
    shard
}

fn text_frame(s: &str) -> TransportFrame {
    TransportFrame::Text(String::from(s))
}

fn take_text(shard: &mut Shard) -> String {
    match shard.take_pending() {
        Some(Message::Text(t)) => t,
        other => panic!("expected a pending text frame, got {:?}", other),
    }
}

fn yield_text(outcome: FrameOutcome) -> String {
    match outcome {
        FrameOutcome::Yield(Message::Text(t)) => t,
        other => panic!("expected a yielded text frame, got {:?}", other),
    }
}

const HELLO: &str = "{\"op\":10,\"d\":{\"heartbeat_interval\":41250},\"s\":null,\"t\":null}";
const READY: &str = "{\"op\":0,\"t\":\"READY\",\"s\":1,\"d\":{\"session_id\":\"abc\",\"resume_gateway_url\":\"wss://r\",\"user\":{\"id\":\"1\"},\"guilds\":[]}}";

#[test]
fn fresh_shard_connects_to_default_url() {
    let shard = fresh_shard();
    assert!(matches!(
        shard.state(),
        ShardState::Disconnected {
            reconnect_attempts: 0
        }
    ));
    match shard.poll_directive() {
        Directive::StartConnect(url) => {
            assert_eq!(url, "wss://gateway.discord.gg/?v=10&encoding=json");
        },
        other => panic!("expected a connect directive, got {:?}", other),
    }
}

#[test]
fn hello_then_identify_exactly_once() {
    let mut shard = fresh_shard();
    shard.on_connect_success();
    assert!(matches!(shard.state(), ShardState::Identifying));

    // The identify handshake is owed on the fresh connection.
    shard.poll_identify();
    let identify = take_text(&mut shard);
    assert_eq!(
        identify,
        "{\"op\":2,\"d\":{\"token\":\"tok\",\"properties\":{\"os\":\"linux\",\"browser\":\"fishmael\",\"device\":\"fishmael\"},\"intents\":1,\"large_threshold\":250,\"compress\":false,\"shard\":[0,1]},\"s\":null,\"t\":null}"
    );
    shard.on_flush_ok();

    // A second poll sends nothing further.
    shard.poll_identify();
    assert!(shard.take_pending().is_none());

    // The hello arms the heartbeat schedule with a jitter inside the
    // interval.
    let hello = shard.on_frame(&text_frame(HELLO));
    assert_eq!(yield_text(hello), HELLO);
    let schedule = shard.heartbeat_schedule().unwrap();
    assert_eq!(schedule.interval_ms, 41250);
    assert!(schedule.first_delay_ms < 41250);

    // A heartbeat tick queues the heartbeat envelope with a null
    // sequence while no session exists.
    shard.on_heartbeat_tick();
    assert_eq!(
        take_text(&mut shard),
        "{\"op\":1,\"d\":null,\"s\":null,\"t\":null}"
    );
}

#[test]
fn ready_activates_and_later_reconnects_to_resume_url() {
    let mut shard = fresh_shard();
    shard.on_connect_success();
    shard.poll_identify();
    let _ = take_text(&mut shard);
    let _ = shard.on_frame(&text_frame(HELLO));
    let outcome = shard.on_frame(&text_frame(READY));
    assert_eq!(yield_text(outcome), READY);
    assert!(matches!(shard.state(), ShardState::Active));
    assert_eq!(shard.session_sequence(), Some(1));

    // The transport drops; the next connect targets the resume URL.
    shard.on_stream_end();
    assert!(matches!(
        shard.state(),
        ShardState::Disconnected {
            reconnect_attempts: 0
        }
    ));
    match shard.poll_directive() {
        Directive::StartConnect(url) => {
            assert_eq!(url, "wss://r/?v=10&encoding=json");
        },
        other => panic!("expected a connect directive, got {:?}", other),
    }
}

#[test]
fn resume_flow_reaches_active() {
    let mut shard = fresh_shard();
    shard.on_connect_success();
    shard.poll_identify();
    let _ = take_text(&mut shard);
    let _ = shard.on_frame(&text_frame(HELLO));
    let _ = shard.on_frame(&text_frame(READY));
    shard.on_stream_end();
    shard.on_connect_success();

    // With a session at hand, no identify goes out.
    shard.poll_identify();
    assert!(shard.take_pending().is_none());

    // The hello triggers the resume handshake instead.
    let _ = shard.on_frame(&text_frame(HELLO));
    assert_eq!(
        take_text(&mut shard),
        "{\"op\":6,\"d\":{\"token\":\"tok\",\"session_id\":\"abc\",\"seq\":1},\"s\":null,\"t\":null}"
    );
    assert!(matches!(shard.state(), ShardState::Resuming));

    let resumed = "{\"op\":0,\"t\":\"RESUMED\",\"s\":2,\"d\":null}";
    let _ = shard.on_frame(&text_frame(resumed));
    assert!(matches!(shard.state(), ShardState::Active));
    assert_eq!(shard.session_sequence(), Some(2));
}

#[test]
fn fatal_close_ends_the_stream() {
    let mut shard = fresh_shard();
    shard.on_connect_success();
    let _ = shard.on_frame(&text_frame(HELLO));
    let outcome = shard.on_frame(&TransportFrame::Close(Some(CloseFrame::new(
        4004,
        String::from("Authentication failed"),
    ))));
    match outcome {
        FrameOutcome::Yield(Message::Close(Some(f))) => {
            assert_eq!(f.code, 4004);
        },
        other => panic!("expected a yielded close, got {:?}", other),
    }
    assert!(matches!(shard.state(), ShardState::FatallyClosed));
    assert!(matches!(shard.poll_directive(), Directive::CloseAndEnd));
}

#[test]
fn close_4014_is_fatal_even_after_self_close() {
    let mut shard = fresh_shard();
    shard.on_connect_success();
    let _ = shard.on_frame(&text_frame(HELLO));

    // The shard drops the connection on purpose (a reconnect request),
    // which leaves it disconnected with the close queued.
    let reconnect = "{\"op\":7,\"d\":null,\"s\":null,\"t\":null}";
    let _ = shard.on_frame(&text_frame(reconnect));
    let _ = shard.take_pending();
    assert!(matches!(shard.state(), ShardState::Disconnected { .. }));

    // The gateway answers with a fatal code: the stream still ends.
    let outcome = shard.on_frame(&TransportFrame::Close(Some(CloseFrame::new(
        4014,
        String::new(),
    ))));
    assert!(matches!(outcome, FrameOutcome::Yield(Message::Close(_))));
    assert!(matches!(shard.state(), ShardState::FatallyClosed));
    assert!(matches!(shard.poll_directive(), Directive::CloseAndEnd));
}

#[test]
fn reconnect_opcode_closes_to_resume() {
    let mut shard = fresh_shard();
    shard.on_connect_success();
    shard.poll_identify();
    let _ = take_text(&mut shard);
    let _ = shard.on_frame(&text_frame(HELLO));
    let _ = shard.on_frame(&text_frame(READY));

    let reconnect = "{\"op\":7,\"d\":null,\"s\":null,\"t\":null}";
    let _ = shard.on_frame(&text_frame(reconnect));
    match shard.take_pending() {
        Some(Message::Close(Some(f))) => {
            assert_eq!(f.code, 4000);
            assert_eq!(f.reason, "");
        },
        other => panic!("expected the resume close, got {:?}", other),
    }
    assert!(matches!(
        shard.state(),
        ShardState::Disconnected {
            reconnect_attempts: 0
        }
    ));
    // The session survives for the resume.
    assert_eq!(shard.session_sequence(), Some(1));
}

#[test]
fn server_heartbeat_requests_an_immediate_reply() {
    let mut shard = fresh_shard();
    shard.on_connect_success();
    shard.poll_identify();
    let _ = take_text(&mut shard);
    let _ = shard.on_frame(&text_frame(HELLO));
    let _ = shard.on_frame(&text_frame(READY));

    let request = "{\"op\":1,\"d\":null,\"s\":null,\"t\":null}";
    let _ = shard.on_frame(&text_frame(request));
    assert_eq!(
        take_text(&mut shard),
        "{\"op\":1,\"d\":1,\"s\":null,\"t\":null}"
    );
}

#[test]
fn zero_heartbeat_interval_ticks_immediately() {
    let mut shard = fresh_shard();
    shard.on_connect_success();
    let zero = "{\"op\":10,\"d\":{\"heartbeat_interval\":0},\"s\":null,\"t\":null}";
    let _ = shard.on_frame(&text_frame(zero));
    let schedule = shard.heartbeat_schedule().unwrap();
    assert_eq!(schedule.interval_ms, 0);
    assert_eq!(schedule.first_delay_ms, 0);
}

#[test]
fn invalid_session_false_drops_the_session() {
    let mut shard = fresh_shard();
    shard.on_connect_success();
    shard.poll_identify();
    let _ = take_text(&mut shard);
    let _ = shard.on_frame(&text_frame(HELLO));
    let _ = shard.on_frame(&text_frame(READY));

    let invalid = "{\"op\":9,\"d\":false,\"s\":null,\"t\":null}";
    let _ = shard.on_frame(&text_frame(invalid));
    assert_eq!(shard.session_sequence(), None);
    assert!(matches!(shard.state(), ShardState::Disconnected { .. }));
    assert!(matches!(shard.take_pending(), Some(Message::Close(Some(_)))));
}

#[test]
fn connect_failure_counts_attempts_and_drops_resume_url() {
    let mut shard = fresh_shard();
    let err = shard.on_connect_failure(Some(String::from("refused")));
    assert_eq!(err.message(), "failed to reconnect");
    assert!(matches!(
        shard.state(),
        ShardState::Disconnected {
            reconnect_attempts: 1
        }
    ));
    match shard.poll_directive() {
        Directive::StartConnect(url) => {
            assert_eq!(url, "wss://gateway.discord.gg/?v=10&encoding=json");
        },
        other => panic!("expected a connect directive, got {:?}", other),
    }
}

#[test]
fn dropped_frame_kinds_are_skipped() {
    let mut shard = fresh_shard();
    shard.on_connect_success();
    assert!(matches!(
        shard.on_frame(&TransportFrame::Ping(vec![1, 2])),
        FrameOutcome::Skip
    ));
    assert!(matches!(
        shard.on_frame(&TransportFrame::Binary(vec![0])),
        FrameOutcome::Skip
    ));
    assert!(matches!(
        shard.on_frame(&TransportFrame::Pong(vec![])),
        FrameOutcome::Skip
    ));
}

#[test]
fn transport_errors_surface_an_abnormal_close() {
    let mut shard = fresh_shard();
    shard.on_connect_success();
    match shard.on_transport_error(false) {
        Some(Message::Close(Some(f))) => {
            assert_eq!(f.code, 1006);
            assert_eq!(f.reason, "");
        },
        other => panic!("expected the abnormal close, got {:?}", other),
    }
    // An unexpected end-of-file while already disconnected is absorbed.
    assert!(shard.on_transport_error(true).is_none());
}

#[test]
fn undecodable_frames_yield_an_error_and_keep_state() {
    let mut shard = fresh_shard();
    shard.on_connect_success();
    let outcome = shard.on_frame(&text_frame("{nope"));
    match outcome {
        FrameOutcome::Error(e) => {
            assert!(e.message().starts_with("failed to"));
        },
        other => panic!("expected an error, got {:?}", other),
    }
    assert!(matches!(shard.state(), ShardState::Identifying));
}
