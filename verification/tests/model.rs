use fishmael::error::ReceiveError;
use fishmael::event::{event_from_message, Event};
use fishmael::message::{CloseFrame, Message, TransportFrame};
use fishmael::model::channel::{AutoArchiveDuration, ChannelType, ForumLayout, ForumSortOrder, PermissionOverwriteType};
use fishmael::model::intents::Intents;
use fishmael::model::is_false;
use fishmael::model::role::null_bool_value;
use fishmael::model::snowflake::{GuildMarker, Id};
use fishmael::model::user::PremiumType;
use fishmael::opcode::Opcode;
use fishmael::session::Session;

#[test]
fn opcode_values_round_trip() {
    for value in 0u8..=12 {
        assert_eq!(Opcode::from_u8(value).to_u8(), value);
    }
    assert!(matches!(Opcode::from_u8(0), Opcode::Dispatch));
    assert!(matches!(Opcode::from_u8(10), Opcode::Hello));
    assert!(matches!(Opcode::from_u8(42), Opcode::Unknown(42)));
    assert_eq!(Opcode::Unknown(42).to_u8(), 42);
}

#[test]
fn channel_type_conversions() {
    assert!(matches!(ChannelType::from(0), ChannelType::GuildText));
    assert!(matches!(ChannelType::from(16), ChannelType::GuildMedia));
    assert!(matches!(ChannelType::from(9), ChannelType::Unknown(9)));
    assert_eq!(u8::from(ChannelType::PublicThread), 11);
    assert_eq!(u8::from(ChannelType::Unknown(99)), 99);
}

#[test]
fn forum_and_overwrite_conversions() {
    assert!(matches!(ForumLayout::from(2), ForumLayout::GalleryView));
    assert_eq!(u8::from(ForumLayout::ListView), 1);
    assert!(matches!(
        ForumSortOrder::from(1),
        ForumSortOrder::CreationDate
    ));
    assert_eq!(u8::from(ForumSortOrder::LatestActivity), 0);
    assert!(matches!(
        PermissionOverwriteType::from(0),
        PermissionOverwriteType::Role
    ));
    assert_eq!(u8::from(PermissionOverwriteType::Member), 1);
}

#[test]
fn auto_archive_durations_count_minutes() {
    assert_eq!(AutoArchiveDuration::Hour.number(), 60);
    assert_eq!(AutoArchiveDuration::Week.number(), 10080);
    assert!(matches!(
        AutoArchiveDuration::from(1440),
        AutoArchiveDuration::Day
    ));
    assert!(matches!(
        AutoArchiveDuration::from(75),
        AutoArchiveDuration::Unknown { value: 75 }
    ));
    assert_eq!(u16::from(AutoArchiveDuration::ThreeDays), 4320);
}

#[test]
fn premium_type_conversions() {
    assert!(matches!(PremiumType::from(2), PremiumType::Nitro));
    assert_eq!(u8::from(PremiumType::NitroClassic), 1);
    assert_eq!(u8::from(PremiumType::Unknown(9)), 9);
}

#[test]
fn intents_bit_operations() {
    let i = Intents::guilds().union(Intents::guild_messages());
    assert_eq!(i.bits(), 1 | (1 << 9));
    assert!(i.contains(Intents::guilds()));
    assert!(!i.contains(Intents::message_content()));
    // Unknown bits are dropped.
    assert_eq!(Intents::from_bits_truncate(u64::MAX).bits(), 0x331FFFF);
    assert_eq!(Intents::empty().bits(), 0);
}

#[test]
fn snowflakes_encode_as_decimal_strings() {
    let id: Id<GuildMarker> = Id::new(175928847299117063);
    assert_eq!(id.to_decimal(), "175928847299117063");
    assert_eq!(id.value(), 175928847299117063);
    // The upper bits carry a millisecond timestamp from the platform
    // epoch.
    assert_eq!(id.timestamp(), 1462015105796);
    let parsed: Id<GuildMarker> = Id::from_decimal_str("175928847299117063").unwrap();
    assert_eq!(parsed.value(), 175928847299117063);
    assert!(Id::<GuildMarker>::from_decimal_str("").is_none());
    assert!(Id::<GuildMarker>::from_decimal_str("12a").is_none());
    assert!(Id::<GuildMarker>::from_decimal_str("99999999999999999999999").is_none());
    assert!(parsed == id);
}

#[test]
fn session_records_the_latest_sequence() {
    let mut session = Session::new(1, String::from("abc"));
    assert_eq!(session.id(), "abc");
    assert_eq!(session.sequence(), 1);
    let previous = session.set_sequence(7);
    assert_eq!(previous, 1);
    assert_eq!(session.sequence(), 7);
}

#[test]
fn message_and_frame_conversions_round_trip() {
    // A text envelope survives the trip to the transport and back.
    let text = Message::Text(String::from("hi"));
    let frame = text.into_frame();
    match Message::from_frame(&frame) {
        Some(Message::Text(t)) => assert_eq!(t, "hi"),
        other => panic!("expected text, got {:?}", other),
    }

    // A close with a code survives too.
    let close = Message::Close(Some(CloseFrame::new(4000, String::from("bye"))));
    let frame = close.into_frame();
    match Message::from_frame(&frame) {
        Some(Message::Close(Some(f))) => {
            assert_eq!(f.code, 4000);
            assert_eq!(f.reason, "bye");
        },
        other => panic!("expected a close, got {:?}", other),
    }

    // The reserved "no status" code loses its frame.
    let frame = TransportFrame::Close(Some(CloseFrame::new(1005, String::new())));
    assert!(matches!(
        Message::from_frame(&frame),
        Some(Message::Close(None))
    ));

    // Dropped frame kinds produce nothing.
    assert!(Message::from_frame(&TransportFrame::Ping(vec![])).is_none());
    assert!(Message::from_frame(&TransportFrame::Pong(vec![])).is_none());
    assert!(Message::from_frame(&TransportFrame::Binary(vec![1])).is_none());
}

#[test]
fn receive_error_messages() {
    let e = ReceiveError::reconnect(None);
    assert_eq!(e.message(), "failed to reconnect");
    assert!(e.source().is_none());
    let e = ReceiveError::deserializing(String::from("{bad"), Some(String::from("cause")));
    assert_eq!(e.message(), "failed to deserialize event: {bad");
    assert_eq!(e.source().unwrap(), "cause");
}

#[test]
fn events_carry_their_names() {
    let close = event_from_message(Message::Close(None)).unwrap();
    assert_eq!(close.name(), "GatewayClose");
    let hb = event_from_message(Message::Text(String::from(
        "{\"op\":11,\"d\":null,\"s\":null,\"t\":null}",
    )))
    .unwrap();
    assert_eq!(hb.name(), "HeartbeatAck");
    let dispatch = event_from_message(Message::Text(String::from(
        "{\"op\":0,\"t\":\"GUILD_CREATE\",\"s\":3,\"d\":{\"id\":\"9\"}}",
    )))
    .unwrap();
    match &dispatch {
        Event::Unhandled { name, .. } => assert_eq!(name, "GUILD_CREATE"),
        other => panic!("expected an unhandled dispatch, got {:?}", other),
    }
    assert_eq!(dispatch.name(), "GUILD_CREATE");
    let bad = event_from_message(Message::Text(String::from("}{")));
    assert!(bad.is_err());
}

#[test]
fn null_bool_and_is_false_helpers() {
    assert!(null_bool_value(None));
    assert!(null_bool_value(Some(true)));
    assert!(!null_bool_value(Some(false)));
    assert!(is_false(&false));
    assert!(!is_false(&true));
}
