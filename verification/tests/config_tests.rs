use ussd_sim::config::{rule_string, Config};

fn saved() -> Config {
    Config {
        app_url: Some("http://localhost:3000/ussd".to_string()),
        phone: Some("+2348012345678".to_string()),
        max_steps: Some(10),
        timeout_secs: Some(15),
        log_dir: Some("/home/user/my-ussd-logs".to_string()),
    }
}

#[test]
fn default_config_is_empty() {
    let c = Config::default();
    assert_eq!(c.app_url, None);
    assert_eq!(c.phone, None);
    assert_eq!(c.max_steps, None);
    assert_eq!(c.timeout_secs, None);
    assert_eq!(c.log_dir, None);
}

#[test]
fn phone_precedence() {
    assert_eq!(saved().resolve_phone(Some("+1".to_string())), "+1");
    assert_eq!(saved().resolve_phone(None), "+2348012345678");
    assert_eq!(Config::default().resolve_phone(None), "+2348000000000");
}

#[test]
fn session_settings_precedence() {
    let c = saved().resolve_session(Some(3), None, false);
    assert_eq!(c.max_steps, 3);
    assert_eq!(c.timeout_secs, 15);
    assert!(!c.save_log);
    assert_eq!(c.log_dir, Some("/home/user/my-ussd-logs".to_string()));
    let d = Config::default().resolve_session(None, None, true);
    assert_eq!(d.max_steps, 20);
    assert_eq!(d.timeout_secs, 30);
    assert!(d.save_log);
    assert_eq!(d.log_dir, None);
    let e = Config::default().resolve_session(None, Some(5), true);
    assert_eq!(e.timeout_secs, 5);
}

#[test]
fn updates_replace_only_what_is_given() {
    let mut c = saved();
    let changed = c.apply_updates(Some("http://localhost:3000".to_string()), None, Some(10), Some(15), None);
    assert!(changed);
    assert_eq!(c.app_url, Some("http://localhost:3000".to_string()));
    assert_eq!(c.phone, Some("+2348012345678".to_string()));
    assert_eq!(c.log_dir, Some("/home/user/my-ussd-logs".to_string()));
    let mut d = Config::default();
    assert!(!d.apply_updates(None, None, None, None, None));
    assert_eq!(d.app_url, None);
    assert!(Config::should_print(false, false));
    assert!(Config::should_print(true, true));
    assert!(!Config::should_print(false, true));
}

#[test]
fn summary_text() {
    let rule = "\u{2500}".repeat(41);
    let expected = format!(
        "\n\u{1f4c4} Config file: {}\n{}\n  app_url     : {}\n  phone       : {}\n  max_steps   : {}\n  timeout_secs: {}\n  log_dir     : {}\n{}\n",
        "/tmp/config.toml", rule, "not set", "not set", 20, 30, "not set", rule
    );
    assert_eq!(Config::default().print("/tmp/config.toml"), expected);
    let expected2 = format!(
        "\n\u{1f4c4} Config file: {}\n{}\n  app_url     : {}\n  phone       : {}\n  max_steps   : {}\n  timeout_secs: {}\n  log_dir     : {}\n{}\n",
        "c.toml", rule, "http://localhost:3000/ussd", "+2348012345678", 10, 15, "/home/user/my-ussd-logs", rule
    );
    assert_eq!(saved().print("c.toml"), expected2);
    assert_eq!(rule_string(), rule);
}
