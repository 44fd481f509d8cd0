use bsreceiver::error::{ErrorKind, SessionError};

#[test]
fn missing_target_is_a_configuration_error() {
    let error = SessionError::NoTarget;
    assert_eq!(error.kind(), ErrorKind::Configuration);
    assert_eq!(error.message(), "no target specified");
}

#[test]
fn invalid_numbers_are_configuration_errors() {
    let time = SessionError::InvalidTime { text: "soon".to_string() };
    let messages = SessionError::InvalidMessages { text: "-1".to_string() };
    let level = SessionError::InvalidLevel { text: "high".to_string() };
    let size = SessionError::InvalidSize { text: "1.5".to_string() };
    assert_eq!(time.kind(), ErrorKind::Configuration);
    assert_eq!(messages.kind(), ErrorKind::Configuration);
    assert_eq!(level.kind(), ErrorKind::Configuration);
    assert_eq!(size.kind(), ErrorKind::Configuration);
    assert_eq!(time.message(), "Invalid value of time: soon");
    assert_eq!(messages.message(), "Invalid value of messages: -1");
    assert_eq!(level.message(), "Invalid value of level: high");
    assert_eq!(size.message(), "Invalid value of size: 1.5");
}

#[test]
fn dispatcher_failure_is_a_resolution_error() {
    let error = SessionError::Dispatcher { cause: "connection refused".to_string() };
    assert_eq!(error.kind(), ErrorKind::Resolution);
    assert_eq!(error.message(), "Error requesting stream to Dispatcher: connection refused");
}

#[test]
fn debug_source_failure_is_a_resolution_error() {
    let error = SessionError::DebugSource { cause: "port in use".to_string() };
    assert_eq!(error.kind(), ErrorKind::Resolution);
    assert_eq!(error.message(), "Failed to start sender: port in use");
}

#[test]
fn receiver_failure_is_a_transport_error() {
    let error = SessionError::Receiver { cause: "no socket".to_string() };
    assert_eq!(error.kind(), ErrorKind::Transport);
    assert_eq!(error.message(), "Failed to create receiver: no socket");
}

#[test]
fn an_error_is_cloned_with_its_text() {
    let error = SessionError::Dispatcher { cause: "timeout".to_string() };
    assert_eq!(error.clone(), error);
    assert_eq!(SessionError::NoTarget.clone(), SessionError::NoTarget);
}
