use ussd_sim::cli::Cli;
use ussd_sim::error::SimError;

#[test]
fn dial_uses_the_given_app() {
    let r = Cli::validate_dial(
        "*737#",
        &Some("http://localhost:5000/ussd".to_string()),
        &Some("http://localhost:3000/ussd".to_string()),
    );
    assert_eq!(r.unwrap(), "http://localhost:5000/ussd");
}

#[test]
fn dial_falls_back_to_the_saved_app() {
    let r = Cli::validate_dial("*737#", &None, &Some("https://example.com/ussd".to_string()));
    assert_eq!(r.unwrap(), "https://example.com/ussd");
}

#[test]
fn dial_rejects_bad_codes() {
    for code in ["737#", "*737", "", "#737*", "*"] {
        match Cli::validate_dial(code, &Some("http://a".to_string()), &None) {
            Err(SimError::InvalidUssdCode(c)) => assert_eq!(c, code),
            other => panic!("unexpected {:?} for {:?}", other, code),
        }
    }
    assert_eq!(Cli::validate_dial("*#", &Some("http://a".to_string()), &None).unwrap(), "http://a");
}

#[test]
fn dial_without_any_app_url() {
    match Cli::validate_dial("*737#", &None, &None) {
        Err(SimError::InvalidAppUrl(m)) => assert_eq!(
            m,
            "No app URL provided. Use --app or set it with: ussd-sim config --set-url <URL>"
        ),
        other => panic!("unexpected {:?}", other),
    }
}

#[test]
fn dial_rejects_non_web_urls() {
    for url in ["localhost:3000", "ftp://a", "", "HTTP://a", "http:/a"] {
        match Cli::validate_dial("*737#", &Some(url.to_string()), &None) {
            Err(SimError::InvalidAppUrl(u)) => assert_eq!(u, url),
            other => panic!("unexpected {:?} for {:?}", other, url),
        }
    }
}

#[test]
fn dial_code_is_checked_before_the_url() {
    assert!(matches!(Cli::validate_dial("737", &None, &None), Err(SimError::InvalidUssdCode(_))));
}
