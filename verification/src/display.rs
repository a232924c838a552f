//! What the simulator shows on the terminal. Each function gives the text
//! to print; the terminal itself is written to by the program around the
//! library.

use vstd::prelude::*;

use crate::config::{lemma_occurs_between, occurs_in, rule, rule_string};
use crate::text::{decimal, decimal_string};

verus! {

/// The screens of the simulator.
pub struct Display;

/// The heading of a dialed session.
pub open spec fn banner_text(code: Seq<char>, app: Seq<char>, phone: Seq<char>) -> Seq<char> {
    "\n"@ + "\u{250c}\u{2500}\u{2500}\u{2500}\u{2500}\u{2500}\u{2500}\u{2500}\u{2500}\u{2500}\u{2500}\u{2500}\u{2500}\u{2500}\u{2500}\u{2500}\u{2500}\u{2500}\u{2500}\u{2500}\u{2500}\u{2500}\u{2500}\u{2500}\u{2500}\u{2500}\u{2500}\u{2500}\u{2500}\u{2500}\u{2500}\u{2500}\u{2500}\u{2500}\u{2500}\u{2500}\u{2500}\u{2500}\u{2510}\n"@
        + "\u{2502}         USSD Session Simulator       \u{2502}\n"@
        + "\u{2514}\u{2500}\u{2500}\u{2500}\u{2500}\u{2500}\u{2500}\u{2500}\u{2500}\u{2500}\u{2500}\u{2500}\u{2500}\u{2500}\u{2500}\u{2500}\u{2500}\u{2500}\u{2500}\u{2500}\u{2500}\u{2500}\u{2500}\u{2500}\u{2500}\u{2500}\u{2500}\u{2500}\u{2500}\u{2500}\u{2500}\u{2500}\u{2500}\u{2500}\u{2500}\u{2500}\u{2500}\u{2500}\u{2518}\n"@
        + "  \u{1f4de} Code  : "@ + code + "\n"@ + "  \u{1f310} App   : "@ + app + "\n"@
        + "  \u{1f4f1} Phone : "@ + phone + "\n"@ + rule() + "\n"@
}

/// A menu sent by the application.
pub open spec fn menu_text(message: Seq<char>) -> Seq<char> {
    "\n"@ + message + "\n"@ + rule() + "\n"@
}

/// The final message of a session.
pub open spec fn end_text(message: Seq<char>) -> Seq<char> {
    "\n"@ + message + "\n"@ + rule() + "\n"@ + "\u{2705} Session ended.\n"@ + "\n"@
}

/// An error, as written to the error stream.
pub open spec fn error_text(message: Seq<char>) -> Seq<char> {
    "\n"@ + "\u{274c} Error: "@ + message + "\n"@ + "\n"@
}

/// The step counter and the input entered so far.
pub open spec fn step_text(step: u32, text: Seq<char>) -> Seq<char> {
    "  [Step "@ + decimal(step as nat) + "] Input so far: \""@ + text + "\"\n"@
}

/// Where a session log was saved.
pub open spec fn log_saved_text(path: Seq<char>) -> Seq<char> {
    "  \u{1f4be} Session log saved: "@ + path + "\n"@
}

/// The heading of a replay.
pub open spec fn replay_banner_text(
    code: Seq<char>,
    app: Seq<char>,
    phone: Seq<char>,
    total_steps: nat,
) -> Seq<char> {
    "\n"@ + "\u{250c}\u{2500}\u{2500}\u{2500}\u{2500}\u{2500}\u{2500}\u{2500}\u{2500}\u{2500}\u{2500}\u{2500}\u{2500}\u{2500}\u{2500}\u{2500}\u{2500}\u{2500}\u{2500}\u{2500}\u{2500}\u{2500}\u{2500}\u{2500}\u{2500}\u{2500}\u{2500}\u{2500}\u{2500}\u{2500}\u{2500}\u{2500}\u{2500}\u{2500}\u{2500}\u{2500}\u{2500}\u{2500}\u{2510}\n"@
        + "\u{2502}         USSD Session Replay          \u{2502}\n"@
        + "\u{2514}\u{2500}\u{2500}\u{2500}\u{2500}\u{2500}\u{2500}\u{2500}\u{2500}\u{2500}\u{2500}\u{2500}\u{2500}\u{2500}\u{2500}\u{2500}\u{2500}\u{2500}\u{2500}\u{2500}\u{2500}\u{2500}\u{2500}\u{2500}\u{2500}\u{2500}\u{2500}\u{2500}\u{2500}\u{2500}\u{2500}\u{2500}\u{2500}\u{2500}\u{2500}\u{2500}\u{2500}\u{2500}\u{2518}\n"@
        + "  \u{1f4de} Code        : "@ + code + "\n"@ + "  \u{1f310} App         : "@ + app
        + "\n"@ + "  \u{1f4f1} Phone       : "@ + phone + "\n"@ + "  \u{1f522} Total Steps : "@
        + decimal(total_steps) + "\n"@ + rule() + "\n"@
}

/// One replayed step: what was sent, what came back and the input that
/// followed it, if any.
pub open spec fn replay_step_text(
    step: u32,
    text_sent: Seq<char>,
    user_input: Option<Seq<char>>,
    response: Seq<char>,
) -> Seq<char> {
    "\n"@ + "  [Step "@ + decimal(step as nat) + "]\n"@ + "  \u{1f4e4} Sent  : \""@ + text_sent
        + "\"\n"@ + "  \u{1f4e5} Got   : "@ + response + "\n"@ + match user_input {
        Some(i) => "  \u{2328}\u{fe0f}  Input : \""@ + i + "\"\n"@,
        None => Seq::empty(),
    } + rule() + "\n"@
}

/// The end of a replay.
pub open spec fn replay_done_text() -> Seq<char> {
    "\n"@ + "\u{2705} Replay complete.\n"@ + "\n"@
}

/// The confirmation that the configuration was saved.
pub open spec fn config_saved_text() -> Seq<char> {
    "\n"@ + "\u{2705} Config saved.\n"@ + "\n"@
}

/// A menu, a final message and an error show the message.
pub proof fn law_messages_shown(message: Seq<char>)
    ensures
        occurs_in(message, menu_text(message)),
        occurs_in(message, end_text(message)),
        occurs_in(message, error_text(message)),
{
    let nl = "\n"@;
    let m = menu_text(message);
    assert(m =~= nl + message + (nl + rule() + nl));
    lemma_occurs_between(nl, message, nl + rule() + nl, m);
    let e = end_text(message);
    let e_tail = nl + rule() + nl + "\u{2705} Session ended.\n"@ + nl;
    assert(e =~= nl + message + e_tail);
    lemma_occurs_between(nl, message, e_tail, e);
    let r = error_text(message);
    let r_head = nl + "\u{274c} Error: "@;
    assert(r =~= r_head + message + (nl + nl));
    lemma_occurs_between(r_head, message, nl + nl, r);
}

/// The step counter shows `[Step n]` with the step's number, and the input
/// so far in quotes.
pub proof fn law_step_counter(step: u32, text: Seq<char>)
    ensures
        occurs_in("[Step "@ + decimal(step as nat) + "]"@, step_text(step, text)),
        occurs_in("\""@ + text + "\""@, step_text(step, text)),
{
    reveal_strlit("  [Step ");
    reveal_strlit("[Step ");
    reveal_strlit("  ");
    reveal_strlit("] Input so far: \"");
    reveal_strlit(" Input so far: ");
    reveal_strlit("]");
    reveal_strlit("\"");
    reveal_strlit("\"\n");
    reveal_strlit("\n");
    let nl = "\n"@;
    let q = "\""@;
    let d = decimal(step as nat);
    let st = step_text(step, text);
    let tag = "[Step "@ + d + "]"@;
    let quoted = q + text + q;
    let so_far = " Input so far: "@;
    assert("] Input so far: \""@ =~= "]"@ + so_far + q);
    assert("  [Step "@ =~= "  "@ + "[Step "@);
    assert("\"\n"@ =~= q + nl);
    assert(st =~= "  "@ + tag + (so_far + quoted + nl));
    lemma_occurs_between("  "@, tag, so_far + quoted + nl, st);
    assert(st =~= "  "@ + tag + so_far + quoted + nl);
    lemma_occurs_between("  "@ + tag + so_far, quoted, nl, st);
}

/// A replayed step shows `[Step n]` with its number, the text sent in
/// quotes, the reply and, where one followed, the input in quotes.
pub proof fn law_replay_step_shown(
    step: u32,
    text: Seq<char>,
    input: Option<Seq<char>>,
    response: Seq<char>,
)
    ensures
        occurs_in(
            "[Step "@ + decimal(step as nat) + "]"@,
            replay_step_text(step, text, input, response),
        ),
        occurs_in("\""@ + text + "\""@, replay_step_text(step, text, input, response)),
        occurs_in(response, replay_step_text(step, text, input, response)),
        input matches Some(i) ==> occurs_in(
            "\""@ + i + "\""@,
            replay_step_text(step, text, input, response),
        ),
{
    reveal_strlit("  [Step ");
    reveal_strlit("[Step ");
    reveal_strlit("  ");
    reveal_strlit("]");
    reveal_strlit("]\n");
    reveal_strlit("\"");
    reveal_strlit("\"\n");
    reveal_strlit("\n");
    reveal_strlit("  \u{1f4e4} Sent  : \"");
    reveal_strlit("  \u{1f4e4} Sent  : ");
    let nl = "\n"@;
    let q = "\""@;
    let tag = "[Step "@ + decimal(step as nat) + "]"@;
    let quoted = q + text + q;
    let rs = replay_step_text(step, text, input, response);
    let sent = "  \u{1f4e4} Sent  : "@;
    assert("  \u{1f4e4} Sent  : \""@ =~= sent + q);
    assert("]\n"@ =~= "]"@ + nl);
    assert("  [Step "@ =~= "  "@ + "[Step "@);
    assert("\"\n"@ =~= q + nl);
    let got = "  \u{1f4e5} Got   : "@;
    let inp = match input {
        Some(i) => "  \u{2328}\u{fe0f}  Input : \""@ + i + "\"\n"@,
        None => Seq::<char>::empty(),
    };
    let tail = nl + got + response + nl + inp + rule() + nl;
    assert(rs =~= nl + "  "@ + tag + (nl + sent + quoted + tail));
    lemma_occurs_between(nl + "  "@, tag, nl + sent + quoted + tail, rs);
    assert(rs =~= nl + "  "@ + tag + nl + sent + quoted + tail);
    lemma_occurs_between(nl + "  "@ + tag + nl + sent, quoted, tail, rs);
    let before_resp = nl + "  "@ + tag + nl + sent + quoted + nl + got;
    assert(rs =~= before_resp + response + (nl + inp + rule() + nl));
    lemma_occurs_between(before_resp, response, nl + inp + rule() + nl, rs);
    if let Some(i) = input {
        let lab = "  \u{2328}\u{fe0f}  Input : "@;
        reveal_strlit("  \u{2328}\u{fe0f}  Input : ");
        reveal_strlit("  \u{2328}\u{fe0f}  Input : \"");
        assert("  \u{2328}\u{fe0f}  Input : \""@ =~= lab + q);
        let qi = q + i + q;
        assert(rs =~= before_resp + response + nl + lab + qi + (nl + rule() + nl));
        lemma_occurs_between(before_resp + response + nl + lab, qi, nl + rule() + nl, rs);
    }
}

/// The heading of a dialed session shows the code, the app and the phone.
pub proof fn law_banner_shown(code: Seq<char>, app: Seq<char>, phone: Seq<char>)
    ensures
        occurs_in(code, banner_text(code, app, phone)),
        occurs_in(app, banner_text(code, app, phone)),
        occurs_in(phone, banner_text(code, app, phone)),
{
    let b = banner_text(code, app, phone);
    let nl = "\n"@;
    let l_app = "  \u{1f310} App   : "@;
    let l_phone = "  \u{1f4f1} Phone : "@;
    let end = nl + rule() + nl;
    let top = b.take(b.len() - (code.len() + nl.len() + l_app.len() + app.len() + nl.len() + l_phone.len()
        + phone.len() + end.len()));
    assert(b =~= top + code + nl + l_app + app + nl + l_phone + phone + end);
    assert(b =~= top + code + (nl + l_app + app + nl + l_phone + phone + end));
    lemma_occurs_between(top, code, nl + l_app + app + nl + l_phone + phone + end, b);
    assert(b =~= (top + code + nl + l_app) + app + (nl + l_phone + phone + end));
    lemma_occurs_between(top + code + nl + l_app, app, nl + l_phone + phone + end, b);
    assert(b =~= (top + code + nl + l_app + app + nl + l_phone) + phone + end);
    lemma_occurs_between(top + code + nl + l_app + app + nl + l_phone, phone, end, b);
}

/// The heading of a replay shows the code, the app, the phone and the
/// number of steps the log holds.
pub proof fn law_replay_banner_shown(
    code: Seq<char>,
    app: Seq<char>,
    phone: Seq<char>,
    total_steps: nat,
)
    ensures
        occurs_in(code, replay_banner_text(code, app, phone, total_steps)),
        occurs_in(app, replay_banner_text(code, app, phone, total_steps)),
        occurs_in(phone, replay_banner_text(code, app, phone, total_steps)),
        occurs_in(decimal(total_steps), replay_banner_text(code, app, phone, total_steps)),
{
    let b = replay_banner_text(code, app, phone, total_steps);
    let nl = "\n"@;
    let top = b.take(b.len() - (code.len() + nl.len() + "  \u{1f310} App         : "@.len() + app.len() + nl.len()
        + "  \u{1f4f1} Phone       : "@.len() + phone.len() + nl.len() + "  \u{1f522} Total Steps : "@.len()
        + decimal(total_steps).len() + nl.len() + rule().len() + nl.len()));
    let l_app = "  \u{1f310} App         : "@;
    let l_phone = "  \u{1f4f1} Phone       : "@;
    let l_total = "  \u{1f522} Total Steps : "@;
    let d = decimal(total_steps);
    let end = nl + rule() + nl;
    assert(b =~= top + code + nl + l_app + app + nl + l_phone + phone + nl + l_total + d + end);
    assert(b =~= top + code + (nl + l_app + app + nl + l_phone + phone + nl + l_total + d + end));
    lemma_occurs_between(top, code, nl + l_app + app + nl + l_phone + phone + nl + l_total + d + end, b);
    assert(b =~= (top + code + nl + l_app) + app + (nl + l_phone + phone + nl + l_total + d + end));
    lemma_occurs_between(top + code + nl + l_app, app, nl + l_phone + phone + nl + l_total + d + end, b);
    assert(b =~= (top + code + nl + l_app + app + nl + l_phone) + phone + (nl + l_total + d + end));
    lemma_occurs_between(top + code + nl + l_app + app + nl + l_phone, phone, nl + l_total + d + end, b);
    assert(b =~= (top + code + nl + l_app + app + nl + l_phone + phone + nl + l_total) + d + end);
    lemma_occurs_between(top + code + nl + l_app + app + nl + l_phone + phone + nl + l_total, d, end, b);
}

impl Display {
    /// The heading of a dialed session.
    pub fn banner(code: &str, app: &str, phone: &str) -> (t: String)
        ensures
            t@ == banner_text(code@, app@, phone@),
    {
        let mut t = "\n".to_owned();
        t.append(
            "\u{250c}\u{2500}\u{2500}\u{2500}\u{2500}\u{2500}\u{2500}\u{2500}\u{2500}\u{2500}\u{2500}\u{2500}\u{2500}\u{2500}\u{2500}\u{2500}\u{2500}\u{2500}\u{2500}\u{2500}\u{2500}\u{2500}\u{2500}\u{2500}\u{2500}\u{2500}\u{2500}\u{2500}\u{2500}\u{2500}\u{2500}\u{2500}\u{2500}\u{2500}\u{2500}\u{2500}\u{2500}\u{2500}\u{2510}\n",
        );
        t.append("\u{2502}         USSD Session Simulator       \u{2502}\n");
        t.append(
            "\u{2514}\u{2500}\u{2500}\u{2500}\u{2500}\u{2500}\u{2500}\u{2500}\u{2500}\u{2500}\u{2500}\u{2500}\u{2500}\u{2500}\u{2500}\u{2500}\u{2500}\u{2500}\u{2500}\u{2500}\u{2500}\u{2500}\u{2500}\u{2500}\u{2500}\u{2500}\u{2500}\u{2500}\u{2500}\u{2500}\u{2500}\u{2500}\u{2500}\u{2500}\u{2500}\u{2500}\u{2500}\u{2500}\u{2518}\n",
        );
        t.append("  \u{1f4de} Code  : ");
        t.append(code);
        t.append("\n");
        t.append("  \u{1f310} App   : ");
        t.append(app);
        t.append("\n");
        t.append("  \u{1f4f1} Phone : ");
        t.append(phone);
        t.append("\n");
        let rule = rule_string();
        t.append(rule.as_str());
        t.append("\n");
        t
    }

    /// A menu sent by the application.
    pub fn menu(message: &str) -> (t: String)
        ensures
            t@ == menu_text(message@),
    {
        let mut t = "\n".to_owned();
        t.append(message);
        t.append("\n");
        let rule = rule_string();
        t.append(rule.as_str());
        t.append("\n");
        t
    }

    /// The final message of a session.
    pub fn end(message: &str) -> (t: String)
        ensures
            t@ == end_text(message@),
    {
        let mut t = Display::menu(message);
        t.append("\u{2705} Session ended.\n");
        t.append("\n");
        t
    }

    /// An error, as written to the error stream.
    pub fn error(message: &str) -> (t: String)
        ensures
            t@ == error_text(message@),
    {
        let mut t = "\n".to_owned();
        t.append("\u{274c} Error: ");
        t.append(message);
        t.append("\n");
        t.append("\n");
        t
    }

    /// The step counter and the input entered so far.
    pub fn step(step: u32, text: &str) -> (t: String)
        ensures
            t@ == step_text(step, text@),
    {
        let mut t = "  [Step ".to_owned();
        let n = decimal_string(step as u64);
        t.append(n.as_str());
        t.append("] Input so far: \"");
        t.append(text);
        t.append("\"\n");
        t
    }

    /// Where a session log was saved.
    pub fn log_saved(path: &str) -> (t: String)
        ensures
            t@ == log_saved_text(path@),
    {
        let mut t = "  \u{1f4be} Session log saved: ".to_owned();
        t.append(path);
        t.append("\n");
        t
    }

    /// The heading of a replay.
    pub fn replay_banner(code: &str, app: &str, phone: &str, total_steps: usize) -> (t: String)
        ensures
            t@ == replay_banner_text(code@, app@, phone@, total_steps as nat),
    {
        let mut t = "\n".to_owned();
        t.append(
            "\u{250c}\u{2500}\u{2500}\u{2500}\u{2500}\u{2500}\u{2500}\u{2500}\u{2500}\u{2500}\u{2500}\u{2500}\u{2500}\u{2500}\u{2500}\u{2500}\u{2500}\u{2500}\u{2500}\u{2500}\u{2500}\u{2500}\u{2500}\u{2500}\u{2500}\u{2500}\u{2500}\u{2500}\u{2500}\u{2500}\u{2500}\u{2500}\u{2500}\u{2500}\u{2500}\u{2500}\u{2500}\u{2500}\u{2510}\n",
        );
        t.append("\u{2502}         USSD Session Replay          \u{2502}\n");
        t.append(
            "\u{2514}\u{2500}\u{2500}\u{2500}\u{2500}\u{2500}\u{2500}\u{2500}\u{2500}\u{2500}\u{2500}\u{2500}\u{2500}\u{2500}\u{2500}\u{2500}\u{2500}\u{2500}\u{2500}\u{2500}\u{2500}\u{2500}\u{2500}\u{2500}\u{2500}\u{2500}\u{2500}\u{2500}\u{2500}\u{2500}\u{2500}\u{2500}\u{2500}\u{2500}\u{2500}\u{2500}\u{2500}\u{2500}\u{2518}\n",
        );
        t.append("  \u{1f4de} Code        : ");
        t.append(code);
        t.append("\n");
        t.append("  \u{1f310} App         : ");
        t.append(app);
        t.append("\n");
        t.append("  \u{1f4f1} Phone       : ");
        t.append(phone);
        t.append("\n");
        t.append("  \u{1f522} Total Steps : ");
        let n = decimal_string(total_steps as u64);
        t.append(n.as_str());
        t.append("\n");
        let rule = rule_string();
        t.append(rule.as_str());
        t.append("\n");
        t
    }

    /// One replayed step: what was sent, what came back and the input that
    /// followed it, if any.
    pub fn replay_step(step: u32, text_sent: &str, user_input: Option<&str>, response: &str) -> (t:
        String)
        ensures
            t@ == replay_step_text(
                step,
                text_sent@,
                match user_input {
                    Some(i) => Some(i@),
                    None => None,
                },
                response@,
            ),
    {
        let mut t = "\n".to_owned();
        t.append("  [Step ");
        let n = decimal_string(step as u64);
        t.append(n.as_str());
        t.append("]\n");
        t.append("  \u{1f4e4} Sent  : \"");
        t.append(text_sent);
        t.append("\"\n");
        t.append("  \u{1f4e5} Got   : ");
        t.append(response);
        t.append("\n");
        let ghost before = t@;
        if let Some(input) = user_input {
            t.append("  \u{2328}\u{fe0f}  Input : \"");
            t.append(input);
            t.append("\"\n");
        } else {
            assert(t@ =~= before + Seq::<char>::empty());
        }
        let rule = rule_string();
        t.append(rule.as_str());
        t.append("\n");
        t
    }

    /// The end of a replay.
    pub fn replay_done() -> (t: String)
        ensures
            t@ == replay_done_text(),
    {
        let mut t = "\n".to_owned();
        t.append("\u{2705} Replay complete.\n");
        t.append("\n");
        t
    }

    /// The confirmation that the configuration was saved.
    pub fn config_saved() -> (t: String)
        ensures
            t@ == config_saved_text(),
    {
        let mut t = "\n".to_owned();
        t.append("\u{2705} Config saved.\n");
        t.append("\n");
        t
    }
}

} // verus!
