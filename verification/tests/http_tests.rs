use ussd_sim::error::SimError;
use ussd_sim::http::{UssdAction, UssdResponse};

#[test]
fn parse_continue_reply() {
    let r = UssdResponse::parse("CON Welcome\n1. Balance\n2. Transfer\n3. Airtime").unwrap();
    assert_eq!(r.action, UssdAction::Continue);
    assert_eq!(r.message, "Welcome\n1. Balance\n2. Transfer\n3. Airtime");
}

#[test]
fn parse_end_reply_trims_message() {
    let r = UssdResponse::parse("END   Transfer successful!  \n").unwrap();
    assert_eq!(r.action, UssdAction::End);
    assert_eq!(r.message, "Transfer successful!");
}

#[test]
fn parse_empty_message() {
    let r = UssdResponse::parse("END ").unwrap();
    assert_eq!(r.action, UssdAction::End);
    assert_eq!(r.message, "");
}

#[test]
fn parse_rejects_other_replies() {
    for raw in ["", "CON", "END", "con Welcome", "Welcome", " CON Welcome", "CONWelcome"] {
        match UssdResponse::parse(raw) {
            Err(SimError::InvalidResponse(s)) => assert_eq!(s, raw),
            other => panic!("unexpected {:?} for {:?}", other, raw),
        }
    }
}

#[test]
fn log_line_prefixes_the_action() {
    let c = UssdResponse { action: UssdAction::Continue, message: "Enter amount:".to_string() };
    assert_eq!(c.log_line(), "CON Enter amount:");
    let e = UssdResponse { action: UssdAction::End, message: "Bye".to_string() };
    assert_eq!(e.log_line(), "END Bye");
}

#[test]
fn logged_reply_parses_back() {
    for raw in ["CON  Enter account number:\n", "END Transfer successful!", "END \t"] {
        let r = UssdResponse::parse(raw).unwrap();
        let again = UssdResponse::parse(&r.log_line()).unwrap();
        assert_eq!(again.action, r.action);
        assert_eq!(again.message, r.message);
    }
}

#[test]
fn from_reply_maps_transport_failure() {
    match UssdResponse::from_reply("http://localhost:3000", Err("connection refused".to_string())) {
        Err(SimError::AppUnreachable { url, reason }) => {
            assert_eq!(url, "http://localhost:3000");
            assert_eq!(reason, "connection refused");
        },
        other => panic!("unexpected {:?}", other),
    }
    let ok = UssdResponse::from_reply("http://x", Ok("CON Hi".to_string())).unwrap();
    assert_eq!(ok.action, UssdAction::Continue);
    assert_eq!(ok.message, "Hi");
    match UssdResponse::from_reply("http://x", Ok("oops".to_string())) {
        Err(SimError::InvalidResponse(s)) => assert_eq!(s, "oops"),
        other => panic!("unexpected {:?}", other),
    }
}
