use ussd_sim::error::SimError;

#[test]
fn every_error_has_its_message() {
    let cases = vec![
        (SimError::HttpError("boom".to_string()), "HTTP request failed: boom"),
        (SimError::InputError("eof".to_string()), "Failed to read user input: eof"),
        (
            SimError::InvalidResponse("hello".to_string()),
            "Invalid response from app: expected 'CON' or 'END' prefix, got: 'hello'",
        ),
        (
            SimError::AppUnreachable {
                url: "http://localhost:3000".to_string(),
                reason: "connection refused".to_string(),
            },
            "App is unreachable at 'http://localhost:3000': connection refused",
        ),
        (
            SimError::InvalidUssdCode("737".to_string()),
            "Invalid USSD code '737': must start with * and end with #",
        ),
        (
            SimError::InvalidAppUrl("ftp://x".to_string()),
            "Invalid app URL 'ftp://x': must be a valid HTTP/HTTPS URL",
        ),
        (
            SimError::MaxStepsReached(20),
            "Session reached maximum steps (20) \u{2014} possible infinite loop detected",
        ),
        (SimError::Timeout(30), "Request timed out after 30 seconds"),
        (SimError::LogError("disk full".to_string()), "Failed to write session log: disk full"),
        (SimError::ConfigError("bad toml".to_string()), "Failed to read config file: bad toml"),
        (
            SimError::ReplayFileNotFound("x.json".to_string()),
            "Replay file not found: 'x.json'",
        ),
        (SimError::InvalidReplayFile("eof".to_string()), "Invalid replay file: eof"),
        (SimError::SessionTerminated, "Session ended unexpectedly"),
    ];
    for (e, expected) in cases.iter() {
        assert_eq!(e.message(), *expected);
    }
}

#[test]
fn numbers_in_messages_are_decimal() {
    assert_eq!(
        SimError::MaxStepsReached(0).message(),
        "Session reached maximum steps (0) \u{2014} possible infinite loop detected"
    );
    assert_eq!(
        SimError::Timeout(18446744073709551615).message(),
        "Request timed out after 18446744073709551615 seconds"
    );
}
