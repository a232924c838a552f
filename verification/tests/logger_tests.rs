use ussd_sim::logger::{compact_timestamp, LocalTime, SessionLog, SessionStep};

fn sample_log() -> SessionLog {
    SessionLog::started(
        "550e8400-e29b-41d4-a716-446655440000".to_string(),
        "*737#".to_string(),
        "+2348000000000".to_string(),
        "http://localhost:3000".to_string(),
        "2024-01-01T12:00:00+01:00".to_string(),
    )
}

#[test]
fn started_log_is_empty_and_open() {
    let log = sample_log();
    assert_eq!(log.session_id, "550e8400-e29b-41d4-a716-446655440000");
    assert_eq!(log.service_code, "*737#");
    assert_eq!(log.phone_number, "+2348000000000");
    assert_eq!(log.app_url, "http://localhost:3000");
    assert_eq!(log.started_at, "2024-01-01T12:00:00+01:00");
    assert_eq!(log.ended_at, None);
    assert!(!log.completed);
    assert!(log.steps.is_empty());
}

#[test]
fn new_log_starts_now() {
    let log = SessionLog::new("id".to_string(), "*1#".to_string(), "+1".to_string(), "http://a".to_string());
    assert!(!log.started_at.is_empty());
    assert!(log.started_at.contains('T'));
    assert_eq!(log.ended_at, None);
    assert!(log.steps.is_empty());
}

#[test]
fn add_step_appends() {
    let mut log = sample_log();
    log.add_step(SessionStep {
        step: 1,
        text_sent: "".to_string(),
        response: "CON Welcome".to_string(),
        user_input: Some("2".to_string()),
    });
    log.add_step(SessionStep {
        step: 2,
        text_sent: "2".to_string(),
        response: "END Bye".to_string(),
        user_input: None,
    });
    assert_eq!(log.steps.len(), 2);
    assert_eq!(log.steps[0].response, "CON Welcome");
    assert_eq!(log.steps[1].text_sent, "2");
    assert_eq!(log.steps[1].user_input, None);
    assert_eq!(log.session_id, "550e8400-e29b-41d4-a716-446655440000");
}

#[test]
fn finish_records_the_outcome() {
    let mut log = sample_log();
    log.finish_at(true, "2024-01-01T12:00:15+01:00".to_string());
    assert!(log.completed);
    assert_eq!(log.ended_at, Some("2024-01-01T12:00:15+01:00".to_string()));
    let mut other = sample_log();
    other.finish(false);
    assert!(!other.completed);
    assert!(other.ended_at.is_some());
    assert_ne!(other.ended_at, Some(String::new()));
}

#[test]
fn file_name_uses_timestamp_and_id_prefix() {
    let log = sample_log();
    assert!(log.has_file_prefix());
    assert_eq!(log.file_name("20240101_120000"), "session_20240101_120000_550e8400.json");
}

#[test]
fn file_name_cuts_at_eight_bytes() {
    let mut log = sample_log();
    log.session_id = "ab\u{e9}cdef\u{e9}xyz".to_string();
    assert!(log.has_file_prefix());
    assert_eq!(log.file_name("T"), "session_T_ab\u{e9}cdef.json");
    log.session_id = "abcdefg\u{e9}xyz".to_string();
    assert!(!log.has_file_prefix());
    log.session_id = "short".to_string();
    assert!(!log.has_file_prefix());
}

#[test]
fn new_file_name_has_the_log_name_form() {
    let log = sample_log();
    let name = log.new_file_name();
    assert!(name.starts_with("session_"));
    assert!(name.ends_with("_550e8400.json"));
    assert_eq!(name.len(), "session_".len() + 15 + "_550e8400.json".len());
    let stamp = &name["session_".len().."session_".len() + 15];
    for (i, c) in stamp.chars().enumerate() {
        if i == 8 {
            assert_eq!(c, '_');
        } else {
            assert!(c.is_ascii_digit(), "stamp {:?}", stamp);
        }
    }
}

fn time(year: i32, month: u32, day: u32, hour: u32, minute: u32, second: u32, nanosecond: u32) -> LocalTime {
    LocalTime { year, month, day, hour, minute, second, nanosecond }
}

#[test]
fn compact_timestamp_pads_every_field() {
    assert_eq!(compact_timestamp(&time(2024, 1, 1, 12, 0, 0, 0)), "20240101_120000");
    assert_eq!(compact_timestamp(&time(2024, 12, 31, 23, 59, 59, 999_999_999)), "20241231_235959");
    assert_eq!(compact_timestamp(&time(999, 3, 7, 4, 5, 6, 0)), "09990307_040506");
    assert_eq!(compact_timestamp(&time(2016, 12, 31, 23, 59, 59, 1_500_000_000)), "20161231_235960");
}

#[test]
fn compact_timestamp_signs_years_out_of_four_digits() {
    assert_eq!(compact_timestamp(&time(10000, 1, 2, 3, 4, 5, 0)), "+100000102_030405");
    assert_eq!(compact_timestamp(&time(-5, 1, 2, 3, 4, 5, 0)), "-00050102_030405");
}

#[test]
fn clock_readings_are_rfc3339() {
    let log = SessionLog::new("id".to_string(), "*1#".to_string(), "+1".to_string(), "http://a".to_string());
    let t = log.started_at.as_bytes();
    assert!(t.len() >= 25);
    assert_eq!(t[4], b'-');
    assert_eq!(t[7], b'-');
    assert_eq!(t[10], b'T');
    assert_eq!(t[13], b':');
    assert_eq!(t[16], b':');
    let off = &t[t.len() - 6..];
    assert!(off[0] == b'+' || off[0] == b'-');
    assert_eq!(off[3], b':');
}
