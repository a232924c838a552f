//! The USSD session: the decisions the simulated gateway takes between the
//! requests it sends and the replies and input it gets back.
//!
//! The session is a state machine. [`Session::begin_step`] opens a step and
//! yields the request to send, or fails once the step limit is passed;
//! [`Session::record_reply`] takes the application's reply (and the user's
//! input, where the reply continues the session) and logs the step.

use vstd::prelude::*;

use crate::error::SimError;
use crate::http::{
    con_prefix, end_prefix, log_line, UssdAction, UssdRequest, UssdRequestView, UssdResponse,
    UssdResponseView,
};
use crate::logger::{
    has_id_prefix, is_rfc3339_text, local_now_rfc3339, opt_chars, SessionLog, SessionLogView, SessionStep, SessionStepView,
};

use vstd::utf8::{
    encode_utf8, is_ascii_chars, is_ascii_chars_encode_utf8, is_char_boundary_iff_not_is_continuation_byte,
    is_continuation_byte,
};

verus! {

/// The text sent after `input` was entered on top of `text`: inputs are
/// joined by `*`, and the first input stands alone.
pub open spec fn next_text(text: Seq<char>, input: Seq<char>) -> Seq<char> {
    if text.len() == 0 {
        input
    } else {
        text + seq!['*'] + input
    }
}

/// The text sent after the user entered `inputs`, one per step.
pub open spec fn accumulated(inputs: Seq<Seq<char>>) -> Seq<char>
    decreases inputs.len(),
{
    if inputs.len() == 0 {
        Seq::empty()
    } else {
        next_text(accumulated(inputs.drop_last()), inputs.last())
    }
}

/// `inputs` joined by `*`.
pub open spec fn joined(inputs: Seq<Seq<char>>) -> Seq<char>
    decreases inputs.len(),
{
    if inputs.len() == 0 {
        Seq::empty()
    } else if inputs.len() == 1 {
        inputs[0]
    } else {
        joined(inputs.drop_last()) + seq!['*'] + inputs.last()
    }
}

/// The inputs recorded in `steps`.
pub open spec fn inputs_of(steps: Seq<SessionStepView>) -> Seq<Seq<char>> {
    steps.map_values(|s: SessionStepView| s.user_input->0)
}

/// Whether the recorded reply of `s` agrees with the presence of an input:
/// a continued step holds the input, an ended one holds none.
pub open spec fn entry_agrees(s: SessionStepView) -> bool {
    ||| s.user_input is Some && con_prefix().is_prefix_of(s.response)
    ||| s.user_input is None && end_prefix().is_prefix_of(s.response)
}

/// Whether `steps` is the log of a session: steps are numbered from 1 in
/// order, each step sent the text accumulated from the inputs of the steps
/// before it, and only the last step may have ended the session.
pub open spec fn log_consistent(steps: Seq<SessionStepView>) -> bool {
    forall|i: int|
        #![trigger steps[i]]
        0 <= i < steps.len() ==> {
            &&& steps[i].step == i + 1
            &&& steps[i].text_sent == accumulated(inputs_of(steps.take(i)))
            &&& entry_agrees(steps[i])
            &&& (i + 1 < steps.len() ==> steps[i].user_input is Some)
        }
}

/// Whether every step in `steps` continued the session.
pub open spec fn all_continued(steps: Seq<SessionStepView>) -> bool {
    forall|i: int| #![trigger steps[i]] 0 <= i < steps.len() ==> steps[i].user_input is Some
}

/// The settings of one session.
#[derive(Debug)]
pub struct SessionConfig {
    pub max_steps: u32,
    pub timeout_secs: u64,
    pub save_log: bool,
    pub log_dir: Option<String>,
}

/// The mathematical content of a [`SessionConfig`].
pub struct SessionConfigView {
    pub max_steps: u32,
    pub timeout_secs: u64,
    pub save_log: bool,
    pub log_dir: Option<Seq<char>>,
}

impl View for SessionConfig {
    type V = SessionConfigView;

    open spec fn view(&self) -> SessionConfigView {
        SessionConfigView {
            max_steps: self.max_steps,
            timeout_secs: self.timeout_secs,
            save_log: self.save_log,
            log_dir: opt_chars(self.log_dir),
        }
    }
}

impl Default for SessionConfig {
    /// 20 steps, 30 seconds, log saved in the default directory.
    fn default() -> (c: Self)
        ensures
            c@ == (SessionConfigView {
                max_steps: 20,
                timeout_secs: 30,
                save_log: true,
                log_dir: None,
            }),
    {
        SessionConfig { max_steps: 20, timeout_secs: 30, save_log: true, log_dir: None }
    }
}

/// Where a session stands between two calls.
#[derive(Debug, Clone, Copy, PartialEq, Eq, Structural)]
pub enum SessionPhase {
    /// The next step may begin.
    Ready,
    /// A request was issued; its reply is awaited.
    AwaitingReply,
    /// The application ended the session.
    Ended,
    /// The step limit was passed.
    Failed,
}

/// A USSD session against one application.
pub struct Session {
    session_id: String,
    service_code: String,
    phone_number: String,
    text: String,
    step: u32,
    config: SessionConfig,
    log: SessionLog,
    phase: SessionPhase,
    /// The replies received so far, one per logged step.
    replies: Ghost<Seq<UssdResponseView>>,
}

/// The mathematical content of a [`Session`].
pub struct SessionView {
    pub session_id: Seq<char>,
    pub service_code: Seq<char>,
    pub phone_number: Seq<char>,
    pub text: Seq<char>,
    pub step: u32,
    pub config: SessionConfigView,
    pub log: SessionLogView,
    pub phase: SessionPhase,
    pub replies: Seq<UssdResponseView>,
}

impl View for Session {
    type V = SessionView;

    closed spec fn view(&self) -> SessionView {
        SessionView {
            session_id: self.session_id@,
            service_code: self.service_code@,
            phone_number: self.phone_number@,
            text: self.text@,
            step: self.step,
            config: self.config@,
            log: self.log@,
            phase: self.phase,
            replies: self.replies@,
        }
    }
}

impl SessionView {
    /// The request the session sends at step `k` (counted from 1), given the
    /// steps it recorded before it.
    pub open spec fn request_at_step(self, k: int) -> UssdRequestView {
        UssdRequestView {
            session_id: self.session_id,
            service_code: self.service_code,
            phone_number: self.phone_number,
            text: accumulated(inputs_of(self.log.steps.take(k - 1))),
        }
    }

    /// The session's invariant: the log names this session and is
    /// consistent, and the step counter, the text and the phase agree with it.
    pub open spec fn wf(self) -> bool {
        let steps = self.log.steps;
        &&& self.log.session_id == self.session_id
        &&& self.log.service_code == self.service_code
        &&& self.log.phone_number == self.phone_number
        &&& log_consistent(steps)
        &&& self.replies.len() == steps.len()
        &&& forall|i: int|
            #![trigger self.replies[i]]
            0 <= i < steps.len() ==> {
                &&& steps[i].response == log_line(self.replies[i])
                &&& (self.replies[i].action == UssdAction::Continue) == (
                steps[i].user_input is Some)
            }
        &&& match self.phase {
            SessionPhase::Ready => {
                &&& steps.len() == self.step
                &&& self.step <= self.config.max_steps
                &&& all_continued(steps)
                &&& self.text == accumulated(inputs_of(steps))
            },
            SessionPhase::AwaitingReply => {
                &&& steps.len() + 1 == self.step
                &&& self.step <= self.config.max_steps
                &&& all_continued(steps)
                &&& self.text == accumulated(inputs_of(steps))
            },
            SessionPhase::Ended => {
                &&& steps.len() == self.step
                &&& self.step <= self.config.max_steps
                &&& steps.len() > 0
                &&& steps.last().user_input is None
                &&& self.text == steps.last().text_sent
            },
            SessionPhase::Failed => {
                &&& steps.len() + 1 == self.step
                &&& self.step == self.config.max_steps + 1
                &&& all_continued(steps)
                &&& self.text == accumulated(inputs_of(steps))
            },
        }
    }
}

/// The lowercase hexadecimal digits.
pub open spec fn is_lower_hex(c: char) -> bool {
    ('0' <= c <= '9') || ('a' <= c <= 'f')
}

/// Whether `s` is a random (version 4) UUID in its hyphenated lowercase form,
/// such as `550e8400-e29b-41d4-a716-446655440000`.
pub open spec fn is_uuid_v4_text(s: Seq<char>) -> bool {
    &&& s.len() == 36
    &&& forall|i: int|
        #![trigger s[i]]
        0 <= i < 36 ==> if i == 8 || i == 13 || i == 18 || i == 23 {
            s[i] == '-'
        } else {
            is_lower_hex(s[i])
        }
    &&& s[14] == '4'
    &&& (s[19] == '8' || s[19] == '9' || s[19] == 'a' || s[19] == 'b')
}

/// `uuid::Uuid::new_v4()` rendered by its `Display` impl: a fresh random
/// UUID in hyphenated lowercase form. The value is random; what holds of
/// every outcome (the form, the version digit `4` and the variant digit) is
/// stated.
#[verifier::external_body]
fn new_session_id() -> (id: String)
    ensures
        is_uuid_v4_text(id@),
{
    uuid::Uuid::new_v4().to_string()
}

/// The text after `input` was entered on top of `text`.
fn join_input(text: &str, input: &str) -> (r: String)
    ensures
        r@ == next_text(text@, input@),
{
    if text.unicode_len() == 0 {
        input.to_owned()
    } else {
        let mut r = text.to_owned();
        r.append("*");
        proof {
            reveal_strlit("*");
        }
        r.append(input);
        assert(r@ =~= next_text(text@, input@));
        r
    }
}

proof fn lemma_take_push(steps: Seq<SessionStepView>, s: SessionStepView, i: int)
    requires
        0 <= i <= steps.len(),
    ensures
        steps.push(s).take(i) == steps.take(i),
{
    assert(steps.push(s).take(i) =~= steps.take(i));
}

proof fn lemma_inputs_push(steps: Seq<SessionStepView>, s: SessionStepView)
    requires
        s.user_input is Some,
    ensures
        accumulated(inputs_of(steps.push(s))) == next_text(
            accumulated(inputs_of(steps)),
            s.user_input->0,
        ),
{
    let ins = inputs_of(steps.push(s));
    assert(ins.drop_last() =~= inputs_of(steps));
}

/// The first input is sent as it is; each later one is sent after the text
/// so far and a `*` (where that text is not empty).
pub proof fn law_accumulated_step(inputs: Seq<Seq<char>>, input: Seq<char>)
    ensures
        accumulated(seq![input]) == input,
        accumulated(inputs).len() > 0 ==> accumulated(inputs.push(input)) == accumulated(inputs)
            + seq!['*'] + input,
        accumulated(inputs).len() == 0 ==> accumulated(inputs.push(input)) == input,
{
    let one = seq![input];
    assert(one.drop_last() =~= Seq::<Seq<char>>::empty());
    assert(accumulated(one.drop_last()) == Seq::<char>::empty());
    assert(one.last() == input);
    assert(accumulated(one) == next_text(Seq::<char>::empty(), input));
    assert(inputs.push(input).drop_last() =~= inputs);
}

/// Inputs that are not empty accumulate into the inputs joined by `*`: the
/// inputs `2`, `0123456789` and `5000` are sent as `2*0123456789*5000`.
pub proof fn lemma_accumulated_is_joined(inputs: Seq<Seq<char>>)
    requires
        forall|i: int| #![trigger inputs[i]] 0 <= i < inputs.len() ==> inputs[i].len() > 0,
    ensures
        accumulated(inputs) == joined(inputs),
    decreases inputs.len(),
{
    if inputs.len() == 1 {
        assert(accumulated(inputs.drop_last()) == Seq::<char>::empty());
    } else if inputs.len() > 1 {
        let init = inputs.drop_last();
        assert(init.last() == inputs[inputs.len() - 2]);
        lemma_accumulated_is_joined(init);
        assert(accumulated(init) == next_text(accumulated(init.drop_last()), init.last()));
        assert(accumulated(init).len() > 0);
        assert(accumulated(inputs) == next_text(accumulated(init), inputs.last()));
    }
}

/// In a session ready for its next step, where every input so far was not
/// empty, the text sent next is the inputs joined by `*`.
pub proof fn lemma_session_text_is_joined(s: SessionView)
    requires
        s.wf(),
        s.phase == SessionPhase::Ready,
        forall|i: int|
            #![trigger s.log.steps[i]]
            0 <= i < s.log.steps.len() ==> s.log.steps[i].user_input->0.len() > 0,
    ensures
        s.text == joined(inputs_of(s.log.steps)),
{
    let ins = inputs_of(s.log.steps);
    assert forall|i: int| #![trigger ins[i]] 0 <= i < ins.len() implies ins[i].len() > 0 by {
        assert(ins[i] == s.log.steps[i].user_input->0);
    }
    lemma_accumulated_is_joined(ins);
}

/// A session never exchanges more steps with the application than its
/// limit allows; one stopped by the limit exchanged exactly that many; and
/// the steps exchanged so far are those logged.
pub proof fn lemma_steps_within_limit(s: SessionView)
    requires
        s.wf(),
    ensures
        s.log.steps.len() <= s.config.max_steps,
        s.phase == SessionPhase::Failed ==> s.log.steps.len() == s.config.max_steps,
        s.phase == SessionPhase::AwaitingReply ==> s.log.steps.len() < s.config.max_steps,
{
}

/// The log of a finished session holds what was exchanged, step by step:
/// step `i` is numbered `i`, carries the text of the request the session
/// sent at that step, and records the reply received there, as `CON m` for
/// each step but the last, which continued the session with an input, and as
/// `END m` for the last, which ended it without one.
pub proof fn lemma_finished_session_log(s: SessionView)
    requires
        s.wf(),
        s.phase == SessionPhase::Ended,
    ensures
        s.log.steps.len() >= 1,
        s.log.steps.len() == s.replies.len(),
        s.log.steps.len() <= s.config.max_steps,
        forall|i: int|
            #![trigger s.log.steps[i]]
            0 <= i < s.log.steps.len() ==> {
                &&& s.log.steps[i].step == i + 1
                &&& s.log.steps[i].text_sent == s.request_at_step(i + 1).text
            },
        forall|i: int|
            #![trigger s.log.steps[i]]
            0 <= i < s.log.steps.len() - 1 ==> {
                &&& s.replies[i].action == UssdAction::Continue
                &&& s.log.steps[i].response == con_prefix() + s.replies[i].message
                &&& s.log.steps[i].user_input is Some
            },
        s.replies.last().action == UssdAction::End,
        s.log.steps.last().response == end_prefix() + s.replies.last().message,
        s.log.steps.last().user_input is None,
{
    let steps = s.log.steps;
    let k = steps.len() as int;
    assert forall|i: int| #![trigger steps[i]] 0 <= i < k - 1 implies {
        &&& s.replies[i].action == UssdAction::Continue
        &&& steps[i].response == con_prefix() + s.replies[i].message
        &&& steps[i].user_input is Some
    } by {
        assert(steps[i].user_input is Some);
        assert(s.replies[i].action == UssdAction::Continue);
    }
    assert(steps[k - 1].user_input is None);
    assert(s.replies[k - 1].action == UssdAction::End);
}

/// Every random session id leaves room for the eight-byte prefix that names
/// the session's log file.
pub proof fn lemma_uuid_has_id_prefix(id: Seq<char>)
    requires
        is_uuid_v4_text(id),
    ensures
        has_id_prefix(id),
{
    broadcast use vstd::utf8::encode_utf8_valid_utf8;

    assert(is_ascii_chars(id)) by {
        assert forall|i: int| 0 <= i < id.len() implies '\0' <= #[trigger] id[i] <= '\u{7f}' by {
            assert(id[i] == '-' || is_lower_hex(id[i]));
        }
    }
    is_ascii_chars_encode_utf8(id);
    let bytes = encode_utf8(id);
    assert(bytes[8] == id[8] as u8);
    assert(id[8] == '-');
    assert(bytes[8] == 45u8);
    assert(!is_continuation_byte(45u8)) by (bit_vector);
    is_char_boundary_iff_not_is_continuation_byte(bytes, 8);
}

impl Session {
    /// A new session: a fresh random id and a log that starts now.
    pub fn new(service_code: String, phone_number: String, app_url: String, config: SessionConfig) -> (s:
        Session)
        ensures
            s@.wf(),
            s@.phase == SessionPhase::Ready,
            s@.step == 0,
            s@.text.len() == 0,
            is_uuid_v4_text(s@.session_id),
            has_id_prefix(s@.session_id),
            s@.service_code == service_code@,
            s@.phone_number == phone_number@,
            s@.config == config@,
            s@.log.app_url == app_url@,
            s@.log.ended_at is None,
            is_rfc3339_text(s@.log.started_at),
            s@.replies.len() == 0,
            !s@.log.completed,
    {
        let session_id = new_session_id();
        let started_at = local_now_rfc3339();
        proof {
            lemma_uuid_has_id_prefix(session_id@);
        }
        Session::start(session_id, service_code, phone_number, app_url, config, started_at)
    }

    /// A session with the given id, whose log started at `started_at`.
    pub fn start(
        session_id: String,
        service_code: String,
        phone_number: String,
        app_url: String,
        config: SessionConfig,
        started_at: String,
    ) -> (s: Session)
        ensures
            s@.wf(),
            s@.phase == SessionPhase::Ready,
            s@.step == 0,
            s@.text.len() == 0,
            s@.session_id == session_id@,
            s@.service_code == service_code@,
            s@.phone_number == phone_number@,
            s@.config == config@,
            s@.replies.len() == 0,
            s@.log == (SessionLogView {
                session_id: session_id@,
                service_code: service_code@,
                phone_number: phone_number@,
                app_url: app_url@,
                started_at: started_at@,
                ended_at: None,
                completed: false,
                steps: Seq::empty(),
            }),
    {
        let log = SessionLog::started(
            session_id.clone(),
            service_code.clone(),
            phone_number.clone(),
            app_url,
            started_at,
        );
        let s = Session {
            session_id,
            service_code,
            phone_number,
            text: String::new(),
            step: 0,
            config,
            log,
            phase: SessionPhase::Ready,
            replies: Ghost(Seq::empty()),
        };
        assert(accumulated(inputs_of(s.log@.steps)) =~= Seq::<char>::empty());
        s
    }

    /// Opens the next step: counts it and yields the request to send, or
    /// fails with [`SimError::MaxStepsReached`] once the count passes the
    /// limit.
    pub fn begin_step(&mut self) -> (r: Result<UssdRequest, SimError>)
        requires
            old(self)@.wf(),
            old(self)@.phase == SessionPhase::Ready,
            old(self)@.step < u32::MAX,
        ensures
            final(self)@.wf(),
            final(self)@.step == old(self)@.step + 1,
            final(self)@ == (SessionView {
                step: final(self)@.step,
                phase: final(self)@.phase,
                ..old(self)@
            }),
            final(self)@.step > old(self)@.config.max_steps <==> r is Err,
            r matches Err(e) ==> e matches SimError::MaxStepsReached(n) && n
                == old(self)@.config.max_steps && final(self)@.phase == SessionPhase::Failed,
            r matches Ok(req) ==> req@ == final(self)@.request_at_step(final(self)@.step as int)
                && req@.text == old(self)@.text && final(self)@.phase
                == SessionPhase::AwaitingReply,
    {
        self.step = self.step + 1;
        if self.step > self.config.max_steps {
            self.phase = SessionPhase::Failed;
            return Err(SimError::MaxStepsReached(self.config.max_steps));
        }
        self.phase = SessionPhase::AwaitingReply;
        assert(self.log@.steps.take(self.step - 1) =~= self.log@.steps);
        Ok(
            UssdRequest {
                session_id: self.session_id.clone(),
                service_code: self.service_code.clone(),
                phone_number: self.phone_number.clone(),
                text: self.text.clone(),
            },
        )
    }

    /// Records the application's reply to the open step. A reply that
    /// continues the session comes with the user's input, which is logged
    /// and joined to the text; a reply that ends it comes without.
    pub fn record_reply(&mut self, response: &UssdResponse, input: Option<String>)
        requires
            old(self)@.wf(),
            old(self)@.phase == SessionPhase::AwaitingReply,
            (response.action == UssdAction::Continue) == (input is Some),
        ensures
            final(self)@.wf(),
            final(self)@.log == (SessionLogView {
                steps: old(self)@.log.steps.push(
                    SessionStepView {
                        step: old(self)@.step,
                        text_sent: old(self)@.text,
                        response: log_line(response@),
                        user_input: opt_chars(input),
                    },
                ),
                ..old(self)@.log
            }),
            final(self)@.text == match input {
                Some(i) => next_text(old(self)@.text, i@),
                None => old(self)@.text,
            },
            final(self)@.phase == match input {
                Some(_) => SessionPhase::Ready,
                None => SessionPhase::Ended,
            },
            final(self)@.replies == old(self)@.replies.push(response@),
            final(self)@ == (SessionView {
                text: final(self)@.text,
                log: final(self)@.log,
                phase: final(self)@.phase,
                replies: final(self)@.replies,
                ..old(self)@
            }),
    {
        let ghost old_steps = self.log@.steps;
        self.replies = Ghost(self.replies@.push(response@));
        let line = response.log_line();
        proof {
            reveal_strlit("CON ");
            reveal_strlit("END ");
            assert(log_line(response@).subrange(0, 4) =~= crate::http::action_prefix(
                response.action,
            ));
        }
        match input {
            Some(inp) => {
                let new_text = join_input(self.text.as_str(), inp.as_str());
                let entry = SessionStep {
                    step: self.step,
                    text_sent: self.text.clone(),
                    response: line,
                    user_input: Some(inp),
                };
                let ghost e = entry@;
                self.log.add_step(entry);
                self.text = new_text;
                self.phase = SessionPhase::Ready;
                proof {
                    let steps = self.log@.steps;
                    assert forall|i: int| 0 <= i < old_steps.len() implies steps.take(i)
                        == old_steps.take(i) by {
                        lemma_take_push(old_steps, e, i);
                    }
                    assert(steps.take(old_steps.len() as int) =~= old_steps);
                    lemma_inputs_push(old_steps, e);
                }
            },
            None => {
                let entry = SessionStep {
                    step: self.step,
                    text_sent: self.text.clone(),
                    response: line,
                    user_input: None,
                };
                let ghost e = entry@;
                self.log.add_step(entry);
                self.phase = SessionPhase::Ended;
                proof {
                    let steps = self.log@.steps;
                    assert forall|i: int| 0 <= i < old_steps.len() implies steps.take(i)
                        == old_steps.take(i) by {
                        lemma_take_push(old_steps, e, i);
                    }
                    assert(steps.take(old_steps.len() as int) =~= old_steps);
                }
            },
        }
    }

    /// Closes the session's log now, marking it completed or not. Which
    /// reading of the local clock the log's end time holds is left open: the
    /// contract says only that it is RFC 3339 text.
    pub fn finish(&mut self, completed: bool)
        requires
            old(self)@.wf(),
        ensures
            final(self)@.wf(),
            final(self)@.log.completed == completed,
            final(self)@.log.ended_at matches Some(t) && is_rfc3339_text(t),
            final(self)@ == (SessionView {
                log: SessionLogView {
                    completed,
                    ended_at: final(self)@.log.ended_at,
                    ..old(self)@.log
                },
                ..old(self)@
            }),
    {
        self.log.finish(completed);
    }

    /// The step counter: the number of steps begun.
    pub fn step(&self) -> (n: u32)
        ensures
            n == self@.step,
    {
        self.step
    }

    /// The text sent with the next request: the inputs so far joined by `*`.
    pub fn text(&self) -> (t: &str)
        ensures
            t@ == self@.text,
    {
        self.text.as_str()
    }

    /// The session's id.
    pub fn session_id(&self) -> (t: &str)
        ensures
            t@ == self@.session_id,
    {
        self.session_id.as_str()
    }

    /// Where the session stands.
    pub fn phase(&self) -> (p: SessionPhase)
        ensures
            p == self@.phase,
    {
        self.phase
    }

    /// The session's settings.
    pub fn config(&self) -> (c: &SessionConfig)
        ensures
            c@ == self@.config,
    {
        &self.config
    }

    /// The session's log.
    pub fn log(&self) -> (l: &SessionLog)
        ensures
            l@ == self@.log,
    {
        &self.log
    }
}

} // verus!
