use task_with_me::error::AppError;

#[test]
fn describe_names_the_kind() {
    assert_eq!(AppError::Io("disk full".to_string()).describe(), "I/O error: disk full");
    assert_eq!(
        AppError::Serialization("bad token".to_string()).describe(),
        "Serialization error: bad token"
    );
    assert_eq!(
        AppError::Config("Cannot determine data directory".to_string()).describe(),
        "Configuration error: Cannot determine data directory"
    );
    assert_eq!(
        AppError::Execution("no shell".to_string()).describe(),
        "Execution error: no shell"
    );
    assert_eq!(AppError::Io(String::new()).describe(), "I/O error: ");
}

#[test]
fn an_io_error_becomes_an_io_app_error() {
    let err = std::io::Error::new(std::io::ErrorKind::PermissionDenied, "denied");
    match AppError::from(err) {
        AppError::Io(message) => assert_eq!(message, "denied"),
        other => panic!("unexpected error: {:?}", other),
    }
}

#[test]
fn a_json_error_becomes_a_serialization_error() {
    let err = serde_json::from_str::<serde_json::Value>("{ not json").unwrap_err();
    let text = err.to_string();
    match AppError::from(err) {
        AppError::Serialization(message) => {
            assert_eq!(message, text);
            assert!(!message.is_empty());
        }
        other => panic!("unexpected error: {:?}", other),
    }
}

#[test]
fn clone_keeps_kind_and_message() {
    let err = AppError::Config("x".to_string());
    match err.clone() {
        AppError::Config(message) => assert_eq!(message, "x"),
        other => panic!("unexpected error: {:?}", other),
    }
}
