// Tests for the log event type.
use perceptlog::{JsonVal, LogEvent};

#[test]
fn core_types_tests_test_log_event_creation() {
    let event = LogEvent::new("test message")
        .with_metadata("source", JsonVal::Str("sshd".to_string()))
        .with_metadata("severity", JsonVal::Int(3));

    assert_eq!(event.message, "test message");
    assert_eq!(event.metadata.len(), 2);
}

#[test]
fn types_test_log_event_creation() {
    let event = LogEvent::new("test message")
        .with_metadata("source", JsonVal::Str("sshd".to_string()))
        .with_metadata("severity", JsonVal::Int(3));

    assert_eq!(event.message, "test message");
    assert_eq!(event.metadata.len(), 2);
}

#[test]
fn lib_test_log_event_creation() {
    let event = LogEvent::new("test message")
        .with_metadata("source", JsonVal::Str("sshd".to_string()))
        .with_metadata("severity", JsonVal::Int(3));

    assert_eq!(event.message, "test message");
    assert_eq!(event.metadata.len(), 2);
}

#[test]
fn test_log_event_empty() {
    let event = LogEvent::new("empty event");
    assert_eq!(event.message, "empty event");
    assert_eq!(event.metadata.len(), 0);
}

#[test]
fn test_log_event_multiple_metadata() {
    let event = LogEvent::new("test")
        .with_metadata("key1", JsonVal::Str("value1".to_string()))
        .with_metadata("key2", JsonVal::Int(42))
        .with_metadata("key3", JsonVal::Bool(true));

    assert_eq!(event.metadata.len(), 3);
    assert_eq!(
        event.metadata_value("key1").unwrap(),
        &JsonVal::Str("value1".to_string())
    );
    assert_eq!(event.metadata_value("key2").unwrap(), &JsonVal::Int(42));
    assert_eq!(event.metadata_value("key3").unwrap(), &JsonVal::Bool(true));
}

#[test]
fn test_log_event_metadata_replacement() {
    let event = LogEvent::new("test")
        .with_metadata("key", JsonVal::Int(1))
        .with_metadata("key", JsonVal::Int(2));
    assert_eq!(event.metadata.len(), 1);
    assert_eq!(event.metadata_value("key").unwrap(), &JsonVal::Int(2));
}
