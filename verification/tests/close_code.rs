use fishmael::close_code::{classify, CloseClass, LibraryCloseCode};
use fishmael::shard::ShardState;

#[test]
fn resumable_codes_classify_resumable() {
    for code in [4000u16, 4001, 4002, 4003, 4005, 4007, 4008, 4009] {
        assert!(matches!(classify(code), CloseClass::Resumable), "{code}");
    }
}

#[test]
fn fatal_codes_classify_fatal() {
    for code in [4004u16, 4010, 4011, 4012, 4013, 4014] {
        assert!(matches!(classify(code), CloseClass::Fatal), "{code}");
    }
}

#[test]
fn out_of_band_codes_classify_unknown() {
    for code in [1000u16, 1006, 4006, 4015, 4999, 65535] {
        assert!(matches!(classify(code), CloseClass::Unknown), "{code}");
    }
}

#[test]
fn known_codes_round_trip() {
    for code in [4000u16, 4001, 4002, 4003, 4004, 4005, 4007, 4008, 4009, 4010, 4011, 4012,
        4013, 4014]
    {
        let c = LibraryCloseCode::from_code(code).unwrap();
        assert_eq!(c.code(), code);
    }
    assert!(LibraryCloseCode::from_code(4006).is_err());
}

#[test]
fn can_reconnect_matches_table() {
    assert!(LibraryCloseCode::UnknownError.can_reconnect());
    assert!(LibraryCloseCode::SessionTimedOut.can_reconnect());
    assert!(!LibraryCloseCode::AuthenticationFailed.can_reconnect());
    assert!(!LibraryCloseCode::DisallowedIntents.can_reconnect());
    assert!(LibraryCloseCode::InvalidSequence.can_reconnect());
}

#[test]
fn resume_code_is_unknown_error() {
    let c = LibraryCloseCode::resume();
    assert_eq!(c.code(), 4000);
}

#[test]
fn descriptions_are_readable() {
    assert_eq!(LibraryCloseCode::RateLimited.description(), "Rate Limited");
    assert_eq!(
        LibraryCloseCode::AuthenticationFailed.description(),
        "Authentication Failed"
    );
}

#[test]
fn close_codes_drive_shard_state() {
    assert!(matches!(
        ShardState::from_close_code(4004),
        ShardState::FatallyClosed
    ));
    assert!(matches!(
        ShardState::from_close_code(4000),
        ShardState::Disconnected {
            reconnect_attempts: 0
        }
    ));
    assert!(matches!(
        ShardState::from_close_code(1006),
        ShardState::Disconnected {
            reconnect_attempts: 0
        }
    ));
}
