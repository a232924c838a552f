use ussd_sim::error::SimError;
use ussd_sim::http::{UssdAction, UssdResponse};
use ussd_sim::session::{Session, SessionConfig, SessionPhase};

fn con(msg: &str) -> UssdResponse {
    UssdResponse { action: UssdAction::Continue, message: msg.to_string() }
}

fn end(msg: &str) -> UssdResponse {
    UssdResponse { action: UssdAction::End, message: msg.to_string() }
}

fn config(max_steps: u32) -> SessionConfig {
    SessionConfig { max_steps, timeout_secs: 30, save_log: true, log_dir: None }
}

fn fixed_session(max_steps: u32) -> Session {
    Session::start(
        "550e8400-e29b-41d4-a716-446655440000".to_string(),
        "*737#".to_string(),
        "+2348000000000".to_string(),
        "http://localhost:3000".to_string(),
        config(max_steps),
        "2024-01-01T12:00:00+01:00".to_string(),
    )
}

#[test]
fn default_session_config() {
    let c = SessionConfig::default();
    assert_eq!(c.max_steps, 20);
    assert_eq!(c.timeout_secs, 30);
    assert!(c.save_log);
    assert_eq!(c.log_dir, None);
}

#[test]
fn text_accumulates_as_in_the_readme() {
    let mut s = fixed_session(20);
    let mut sent = Vec::new();
    for input in ["2", "0123456789", "5000"] {
        let req = s.begin_step().unwrap();
        sent.push(req.text.clone());
        s.record_reply(&con("menu"), Some(input.to_string()));
    }
    let req = s.begin_step().unwrap();
    sent.push(req.text.clone());
    assert_eq!(sent, vec!["", "2", "2*0123456789", "2*0123456789*5000"]);
    assert_eq!(s.text(), "2*0123456789*5000");
}

#[test]
fn empty_first_input_is_not_joined() {
    let mut s = fixed_session(20);
    s.begin_step().unwrap();
    s.record_reply(&con("menu"), Some(String::new()));
    s.begin_step().unwrap();
    s.record_reply(&con("menu"), Some("2".to_string()));
    assert_eq!(s.text(), "2");
}

#[test]
fn requests_carry_the_session() {
    let mut s = fixed_session(5);
    let req = s.begin_step().unwrap();
    assert_eq!(req.session_id, "550e8400-e29b-41d4-a716-446655440000");
    assert_eq!(req.service_code, "*737#");
    assert_eq!(req.phone_number, "+2348000000000");
    assert_eq!(req.text, "");
    assert_eq!(s.step(), 1);
    assert_eq!(s.phase(), SessionPhase::AwaitingReply);
}

#[test]
fn session_is_logged_step_by_step() {
    let mut s = fixed_session(20);
    s.begin_step().unwrap();
    s.record_reply(&con("Welcome to TestBank\n1. Check Balance\n2. Transfer"), Some("2".to_string()));
    s.begin_step().unwrap();
    s.record_reply(&con("Enter account number:"), Some("0123456789".to_string()));
    s.begin_step().unwrap();
    s.record_reply(&end("Transfer successful!"), None);
    assert_eq!(s.phase(), SessionPhase::Ended);
    let log = s.log();
    assert_eq!(log.steps.len(), 3);
    assert_eq!(log.steps[0].step, 1);
    assert_eq!(log.steps[0].text_sent, "");
    assert_eq!(log.steps[0].response, "CON Welcome to TestBank\n1. Check Balance\n2. Transfer");
    assert_eq!(log.steps[0].user_input, Some("2".to_string()));
    assert_eq!(log.steps[1].step, 2);
    assert_eq!(log.steps[1].text_sent, "2");
    assert_eq!(log.steps[1].response, "CON Enter account number:");
    assert_eq!(log.steps[2].step, 3);
    assert_eq!(log.steps[2].text_sent, "2*0123456789");
    assert_eq!(log.steps[2].response, "END Transfer successful!");
    assert_eq!(log.steps[2].user_input, None);
    assert_eq!(s.text(), "2*0123456789");
}

#[test]
fn step_limit_stops_the_session() {
    let mut s = fixed_session(3);
    for _ in 0..3 {
        s.begin_step().unwrap();
        s.record_reply(&con("again"), Some("1".to_string()));
    }
    match s.begin_step() {
        Err(SimError::MaxStepsReached(n)) => assert_eq!(n, 3),
        other => panic!("unexpected {:?}", other.map(|r| r.text)),
    }
    assert_eq!(s.step(), 4);
    assert_eq!(s.phase(), SessionPhase::Failed);
    assert_eq!(s.log().steps.len(), 3);
}

#[test]
fn zero_step_limit_sends_nothing() {
    let mut s = fixed_session(0);
    assert!(matches!(s.begin_step(), Err(SimError::MaxStepsReached(0))));
    assert!(s.log().steps.is_empty());
}

#[test]
fn finish_closes_the_log() {
    let mut s = fixed_session(20);
    s.begin_step().unwrap();
    s.record_reply(&end("Bye"), None);
    s.finish(true);
    assert!(s.log().completed);
    assert!(s.log().ended_at.is_some());
    assert_eq!(s.log().steps.len(), 1);
}

#[test]
fn new_session_has_a_random_v4_id() {
    let s = Session::new("*737#".to_string(), "+2348000000000".to_string(), "http://a".to_string(), config(20));
    let id = s.session_id();
    assert_eq!(id.len(), 36);
    for (i, c) in id.chars().enumerate() {
        if [8, 13, 18, 23].contains(&i) {
            assert_eq!(c, '-');
        } else {
            assert!(c.is_ascii_digit() || ('a'..='f').contains(&c));
        }
    }
    assert_eq!(id.chars().nth(14), Some('4'));
    assert!(matches!(id.chars().nth(19), Some('8' | '9' | 'a' | 'b')));
    assert!(s.log().has_file_prefix());
    let other = Session::new("*737#".to_string(), "+1".to_string(), "http://a".to_string(), config(20));
    assert_ne!(other.session_id(), id);
    assert_eq!(s.log().session_id, id);
    assert_eq!(s.log().app_url, "http://a");
    assert_eq!(s.step(), 0);
    assert_eq!(s.text(), "");
    assert_eq!(s.config().max_steps, 20);
}

#[test]
fn finished_session_log_holds_each_exchange() {
    let mut s = fixed_session(20);
    let replies = [con("Welcome"), con("Enter amount:"), end("Done")];
    let inputs = [Some("1".to_string()), Some("500".to_string()), None];
    let mut sent = Vec::new();
    for (r, i) in replies.iter().zip(inputs.iter()) {
        sent.push(s.begin_step().unwrap().text);
        s.record_reply(r, i.clone());
    }
    let log = s.log();
    assert_eq!(log.steps.len(), 3);
    for k in 0..3 {
        assert_eq!(log.steps[k].step as usize, k + 1);
        assert_eq!(log.steps[k].text_sent, sent[k]);
        assert_eq!(log.steps[k].response, replies[k].log_line());
        assert_eq!(log.steps[k].user_input, inputs[k]);
    }
    assert_eq!(log.steps[2].response, "END Done");
    assert_eq!(log.steps[0].response, "CON Welcome");
}
