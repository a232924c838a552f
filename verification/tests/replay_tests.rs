use ussd_sim::http::{UssdAction, UssdResponse};
use ussd_sim::replay::Replay;
use ussd_sim::session::{Session, SessionConfig};

fn finished_session() -> Session {
    let mut s = Session::start(
        "550e8400-e29b-41d4-a716-446655440000".to_string(),
        "*737#".to_string(),
        "+2348000000000".to_string(),
        "http://localhost:3000".to_string(),
        SessionConfig { max_steps: 20, timeout_secs: 30, save_log: true, log_dir: None },
        "2024-01-01T12:00:00+01:00".to_string(),
    );
    let mut sent = Vec::new();
    for input in ["2", "0123456789"] {
        sent.push(s.begin_step().unwrap().text);
        s.record_reply(
            &UssdResponse { action: UssdAction::Continue, message: "menu".to_string() },
            Some(input.to_string()),
        );
    }
    sent.push(s.begin_step().unwrap().text);
    s.record_reply(&UssdResponse { action: UssdAction::End, message: "done".to_string() }, None);
    s
}

fn copy_log(s: &Session) -> ussd_sim::logger::SessionLog {
    let l = s.log();
    let mut log = ussd_sim::logger::SessionLog::started(
        l.session_id.clone(),
        l.service_code.clone(),
        l.phone_number.clone(),
        l.app_url.clone(),
        l.started_at.clone(),
    );
    for st in l.steps.iter() {
        log.add_step(ussd_sim::logger::SessionStep {
            step: st.step,
            text_sent: st.text_sent.clone(),
            response: st.response.clone(),
            user_input: st.user_input.clone(),
        });
    }
    log
}

#[test]
fn replay_uses_the_logged_app_unless_overridden() {
    let s = finished_session();
    let r = Replay::from_log(copy_log(&s), None, 500);
    assert_eq!(r.app_url(), "http://localhost:3000");
    assert_eq!(r.delay_ms(), 500);
    let r2 = Replay::from_log(copy_log(&s), Some("http://staging.myapp.com/ussd".to_string()), 0);
    assert_eq!(r2.app_url(), "http://staging.myapp.com/ussd");
    assert_eq!(r2.delay_ms(), 0);
    assert_eq!(r2.log().app_url, "http://localhost:3000");
}

#[test]
fn replay_sends_what_the_session_sent() {
    let s = finished_session();
    let r = Replay::from_log(copy_log(&s), None, 0);
    assert_eq!(r.total_steps(), 3);
    let reqs = r.requests();
    let texts: Vec<&str> = reqs.iter().map(|q| q.text.as_str()).collect();
    assert_eq!(texts, vec!["", "2", "2*0123456789"]);
    for q in reqs.iter() {
        assert_eq!(q.session_id, "550e8400-e29b-41d4-a716-446655440000");
        assert_eq!(q.service_code, "*737#");
        assert_eq!(q.phone_number, "+2348000000000");
    }
    assert_eq!(r.request_at(2).text, "2*0123456789");
}

#[test]
fn replay_pauses_between_steps() {
    let s = finished_session();
    let r = Replay::from_log(copy_log(&s), None, 10);
    assert!(!r.pauses_before(0));
    assert!(r.pauses_before(1));
    assert!(r.pauses_before(2));
}
