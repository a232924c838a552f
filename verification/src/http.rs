//! The messages exchanged with the USSD application: the request the
//! simulated gateway sends and the `CON` / `END` reply it expects back.

use vstd::prelude::*;

use crate::error::SimError;
use crate::text::{lemma_trimmed_idempotent, strip_prefix, trim, trimmed};

verus! {

/// The body the gateway posts to the application on every step.
pub struct UssdRequest {
    pub session_id: String,
    pub service_code: String,
    pub phone_number: String,
    pub text: String,
}

/// The mathematical content of a [`UssdRequest`].
pub struct UssdRequestView {
    pub session_id: Seq<char>,
    pub service_code: Seq<char>,
    pub phone_number: Seq<char>,
    pub text: Seq<char>,
}

impl View for UssdRequest {
    type V = UssdRequestView;

    open spec fn view(&self) -> UssdRequestView {
        UssdRequestView {
            session_id: self.session_id@,
            service_code: self.service_code@,
            phone_number: self.phone_number@,
            text: self.text@,
        }
    }
}

/// Whether the application wants to go on with the session or close it.
#[derive(Debug, Clone, Copy, PartialEq, Eq, Structural)]
pub enum UssdAction {
    Continue,
    End,
}

/// A parsed reply of the application.
#[derive(Debug)]
pub struct UssdResponse {
    pub action: UssdAction,
    pub message: String,
}

/// The mathematical content of a [`UssdResponse`].
pub struct UssdResponseView {
    pub action: UssdAction,
    pub message: Seq<char>,
}

impl View for UssdResponse {
    type V = UssdResponseView;

    open spec fn view(&self) -> UssdResponseView {
        UssdResponseView { action: self.action, message: self.message@ }
    }
}

/// The prefix of a reply that continues the session.
pub open spec fn con_prefix() -> Seq<char> {
    seq!['C', 'O', 'N', ' ']
}

/// The prefix of a reply that ends the session.
pub open spec fn end_prefix() -> Seq<char> {
    seq!['E', 'N', 'D', ' ']
}

/// The prefix that marks a reply with `action`.
pub open spec fn action_prefix(action: UssdAction) -> Seq<char> {
    match action {
        UssdAction::Continue => con_prefix(),
        UssdAction::End => end_prefix(),
    }
}

/// What a raw reply means: the action and the trimmed message, or `None`
/// where the reply starts with neither `"CON "` nor `"END "`.
pub open spec fn parse_reply(raw: Seq<char>) -> Option<UssdResponseView> {
    if con_prefix().is_prefix_of(raw) {
        Some(UssdResponseView { action: UssdAction::Continue, message: trimmed(raw.skip(4)) })
    } else if end_prefix().is_prefix_of(raw) {
        Some(UssdResponseView { action: UssdAction::End, message: trimmed(raw.skip(4)) })
    } else {
        None
    }
}

/// The line a reply is recorded as in a session log.
pub open spec fn log_line(r: UssdResponseView) -> Seq<char> {
    action_prefix(r.action) + r.message
}

/// What [`UssdResponse::parse`] promises of its result `r` for the reply `raw`.
pub open spec fn parse_post(raw: Seq<char>, r: Result<UssdResponse, SimError>) -> bool {
    &&& parse_reply(raw) is Some <==> r is Ok
    &&& r matches Ok(resp) ==> Some(resp@) == parse_reply(raw)
    &&& r matches Err(e) ==> e matches SimError::InvalidResponse(s) && s@ == raw
}

/// How a reply is read: one that starts with `CON ` continues the session
/// and one that starts with `END ` ends it, whatever the message holds, and
/// the message is the rest of the reply without surrounding whitespace; any
/// other reply is refused as it came.
pub proof fn law_parse(raw: Seq<char>, r: Result<UssdResponse, SimError>)
    requires
        parse_post(raw, r),
    ensures
        raw.len() >= 4 && raw.take(4) == seq!['C', 'O', 'N', ' '] ==> (r matches Ok(resp)
            && resp.action == UssdAction::Continue && resp.message@ == trimmed(raw.skip(4))),
        raw.len() >= 4 && raw.take(4) == seq!['E', 'N', 'D', ' '] ==> (r matches Ok(resp)
            && resp.action == UssdAction::End && resp.message@ == trimmed(raw.skip(4))),
        !(raw.len() >= 4 && raw.take(4) == seq!['C', 'O', 'N', ' ']) && !(raw.len() >= 4
            && raw.take(4) == seq!['E', 'N', 'D', ' ']) ==> (r matches Err(
            SimError::InvalidResponse(s),
        ) && s@ == raw),
{
    if raw.len() >= 4 {
        assert(con_prefix().is_prefix_of(raw) <==> raw.take(4) == con_prefix());
        assert(end_prefix().is_prefix_of(raw) <==> raw.take(4) == end_prefix());
    }
}

/// A reply is logged as `CON ` or `END `, as its action says, followed by
/// its message.
pub proof fn law_log_line(r: UssdResponseView)
    ensures
        log_line(r).len() == r.message.len() + 4,
        log_line(r).take(4) == if r.action == UssdAction::Continue {
            seq!['C', 'O', 'N', ' ']
        } else {
            seq!['E', 'N', 'D', ' ']
        },
        log_line(r).skip(4) == r.message,
{
    assert(log_line(r).take(4) =~= action_prefix(r.action));
    assert(log_line(r).skip(4) =~= r.message);
}

impl UssdResponse {
    /// Parses a raw reply of the application.
    pub fn parse(raw: &str) -> (r: Result<UssdResponse, SimError>)
        ensures
            parse_post(raw@, r),
    {
        proof {
            reveal_strlit("CON ");
            reveal_strlit("END ");
        }
        assert("CON "@ =~= con_prefix());
        assert("END "@ =~= end_prefix());
        if let Some(msg) = strip_prefix(raw, "CON ") {
            assert(msg@ =~= raw@.skip(4));
            Ok(UssdResponse { action: UssdAction::Continue, message: trim(msg.as_str()) })
        } else if let Some(msg) = strip_prefix(raw, "END ") {
            assert(msg@ =~= raw@.skip(4));
            Ok(UssdResponse { action: UssdAction::End, message: trim(msg.as_str()) })
        } else {
            Err(SimError::InvalidResponse(raw.to_owned()))
        }
    }

    /// What a request to the application at `app_url` came to: the reply's
    /// body, parsed, or, where the application could not be reached or its
    /// body not read, [`SimError::AppUnreachable`] with the reason.
    pub fn from_reply(app_url: &str, reply: Result<String, String>) -> (r: Result<
        UssdResponse,
        SimError,
    >)
        ensures
            match reply {
                Ok(body) => parse_post(body@, r),
                Err(reason) => r matches Err(e) && e matches SimError::AppUnreachable {
                    url,
                    reason: why,
                } && url@ == app_url@ && why@ == reason@,
            },
    {
        match reply {
            Ok(body) => UssdResponse::parse(body.as_str()),
            Err(reason) => Err(SimError::AppUnreachable { url: app_url.to_owned(), reason }),
        }
    }

    /// The line this reply is recorded as in a session log:
    /// `"CON "` or `"END "` followed by the message.
    pub fn log_line(&self) -> (l: String)
        ensures
            l@ == log_line(self@),
    {
        proof {
            reveal_strlit("CON ");
            reveal_strlit("END ");
        }
        let mut l = match self.action {
            UssdAction::Continue => "CON ".to_owned(),
            UssdAction::End => "END ".to_owned(),
        };
        assert(l@ =~= action_prefix(self.action));
        l.append(self.message.as_str());
        l
    }
}

/// A reply recorded in a session log reads back as the same reply: parsing
/// the log line of any parsed reply gives that reply again.
pub proof fn lemma_log_line_parses_back(raw: Seq<char>)
    requires
        parse_reply(raw) is Some,
    ensures
        parse_reply(log_line(parse_reply(raw)->0)) == parse_reply(raw),
{
    let r = parse_reply(raw)->0;
    let line = log_line(r);
    lemma_trimmed_idempotent(raw.skip(4));
    assert(line.skip(4) =~= r.message);
    assert(action_prefix(r.action).is_prefix_of(line));
    if r.action == UssdAction::End {
        assert(line[0] == 'E');
        assert(!con_prefix().is_prefix_of(line));
    }
}

} // verus!
