use geoclue_prometheus_exporter::classify::is_disconnection_error;

#[test]
fn test_is_disconnection_error() {
    // Test errors that should be detected as disconnection errors
    let disconnection_errors = vec![
        "org.freedesktop.DBus.Error.NoReply: Remote peer disconnected",
        "Connection closed by peer",
        "Transport endpoint is not connected",
        "Broken pipe (os error 32)",
        "No reply from remote service",
    ];

    for error_msg in disconnection_errors {
        let error = anyhow::Error::msg(error_msg);
        assert!(is_disconnection_error(&error.to_string()), "Failed to detect: {}", error_msg);
    }

    // Test errors that should NOT be detected as disconnection errors
    let non_disconnection_errors =
        vec!["Permission denied", "Invalid argument", "File not found", "Service not found"];

    for error_msg in non_disconnection_errors {
        let error = anyhow::Error::msg(error_msg);
        assert!(!is_disconnection_error(&error.to_string()), "False positive for: {}", error_msg);
    }
}

#[test]
fn test_classifier_transient_versus_fatal() {
    // The two canonical outcomes of the classification.
    assert!(is_disconnection_error("Remote peer disconnected"));
    assert!(!is_disconnection_error("Permission denied"));
}

#[test]
fn test_classifier_is_case_insensitive() {
    assert!(is_disconnection_error("REMOTE PEER DISCONNECTED"));
    assert!(is_disconnection_error("broken PIPE"));
    assert!(is_disconnection_error("somewhere: No Reply: details"));
    assert!(!is_disconnection_error(""));
    assert!(!is_disconnection_error("connectionclosed"));
}
