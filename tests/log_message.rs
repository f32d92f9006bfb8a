use cec_rs::{cec_log_message, CecLogLevel, CecLogMessage, TryFromCecLogMessageError};
use std::time::Duration;

#[test]
fn log_message_decodes() {
    let raw = cec_log_message {
        message: b"hello".to_vec(),
        level: CecLogLevel::Notice.repr(),
        time: 1500,
    };
    let msg = CecLogMessage::from_native(&raw).unwrap();
    assert_eq!(msg.message, "hello");
    assert_eq!(msg.level, CecLogLevel::Notice);
    assert_eq!(msg.time, Duration::from_millis(1500));
}

#[test]
fn log_message_errors() {
    let raw = cec_log_message {
        message: vec![0xff, 0xfe],
        level: 77,
        time: -1,
    };
    assert_eq!(
        CecLogMessage::from_native(&raw).err(),
        Some(TryFromCecLogMessageError::MessageParseError)
    );
    let raw = cec_log_message {
        message: b"ok".to_vec(),
        level: 77,
        time: -1,
    };
    assert_eq!(
        CecLogMessage::from_native(&raw).err(),
        Some(TryFromCecLogMessageError::LogLevelParseError)
    );
    let raw = cec_log_message {
        message: b"ok".to_vec(),
        level: CecLogLevel::Error.repr(),
        time: -1,
    };
    assert_eq!(
        CecLogMessage::from_native(&raw).err(),
        Some(TryFromCecLogMessageError::TimestampParseError)
    );
}

#[test]
fn log_level_names() {
    assert_eq!(CecLogLevel::Error.as_str(), "Error");
    assert_eq!(CecLogLevel::Warning.as_str(), "Warning");
    assert_eq!(CecLogLevel::Notice.as_str(), "Notice");
    assert_eq!(CecLogLevel::Traffic.as_str(), "Traffic");
    assert_eq!(CecLogLevel::Debug.as_str(), "Debug");
    assert_eq!(CecLogLevel::All.as_str(), "All");
}
