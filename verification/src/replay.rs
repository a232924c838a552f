//! Replaying a saved session: the requests of a logged session are sent
//! again, in order, to the same or another application.

use vstd::prelude::*;

use crate::http::{UssdRequest, UssdRequestView};
use crate::logger::{SessionLog, SessionLogView};
use crate::session::{inputs_of, SessionView};

verus! {

/// The request that replays step `i` (counted from 0) of `log`.
pub open spec fn replay_request(log: SessionLogView, i: int) -> UssdRequestView {
    UssdRequestView {
        session_id: log.session_id,
        service_code: log.service_code,
        phone_number: log.phone_number,
        text: log.steps[i].text_sent,
    }
}

/// A saved session, ready to be sent again.
pub struct Replay {
    log: SessionLog,
    app_url: String,
    delay_ms: u64,
}

/// The mathematical content of a [`Replay`].
pub struct ReplayView {
    pub log: SessionLogView,
    pub app_url: Seq<char>,
    pub delay_ms: u64,
}

impl View for Replay {
    type V = ReplayView;

    closed spec fn view(&self) -> ReplayView {
        ReplayView { log: self.log@, app_url: self.app_url@, delay_ms: self.delay_ms }
    }
}

impl Replay {
    /// A replay of `log`, sent to `app_url_override` where it is given and to
    /// the application the session was run against otherwise.
    pub fn from_log(log: SessionLog, app_url_override: Option<String>, delay_ms: u64) -> (r: Replay)
        ensures
            r@.log == log@,
            r@.delay_ms == delay_ms,
            r@.app_url == match app_url_override {
                Some(u) => u@,
                None => log@.app_url,
            },
    {
        let app_url = match app_url_override {
            Some(u) => u,
            None => log.app_url.clone(),
        };
        Replay { log, app_url, delay_ms }
    }

    /// The request that replays step `i` (counted from 0).
    pub fn request_at(&self, i: usize) -> (req: UssdRequest)
        requires
            i < self@.log.steps.len(),
        ensures
            req@ == replay_request(self@.log, i as int),
    {
        UssdRequest {
            session_id: self.log.session_id.clone(),
            service_code: self.log.service_code.clone(),
            phone_number: self.log.phone_number.clone(),
            text: self.log.steps[i].text_sent.clone(),
        }
    }

    /// The requests of the whole replay, in order.
    pub fn requests(&self) -> (reqs: Vec<UssdRequest>)
        ensures
            reqs@.len() == self@.log.steps.len(),
            forall|i: int|
                0 <= i < reqs@.len() ==> #[trigger] reqs@[i]@ == replay_request(self@.log, i),
    {
        let n = self.log.steps.len();
        let mut reqs: Vec<UssdRequest> = Vec::new();
        for i in 0..n
            invariant
                n == self@.log.steps.len(),
                reqs@.len() == i,
                forall|j: int|
                    0 <= j < i ==> #[trigger] reqs@[j]@ == replay_request(self@.log, j),
        {
            reqs.push(self.request_at(i));
        }
        reqs
    }

    /// Whether the replay pauses before step `i` (counted from 0): every
    /// step but the first waits for the configured delay.
    pub fn pauses_before(&self, i: usize) -> (b: bool)
        requires
            i < self@.log.steps.len(),
        ensures
            b == (self@.log.steps[i as int].step > 1),
    {
        self.log.steps[i].step > 1
    }

    /// The number of steps to replay.
    pub fn total_steps(&self) -> (n: usize)
        ensures
            n == self@.log.steps.len(),
    {
        self.log.steps.len()
    }

    /// The replayed log.
    pub fn log(&self) -> (l: &SessionLog)
        ensures
            l@ == self@.log,
    {
        &self.log
    }

    /// The application the replay is sent to.
    pub fn app_url(&self) -> (u: &str)
        ensures
            u@ == self@.app_url,
    {
        self.app_url.as_str()
    }

    /// The pause between steps, in milliseconds.
    pub fn delay_ms(&self) -> (d: u64)
        ensures
            d == self@.delay_ms,
    {
        self.delay_ms
    }
}

/// Replaying a session's log sends the requests the session sent: step `i`
/// of the replay carries the session's id, code, phone number and the text
/// the session sent at that step.
pub proof fn lemma_replay_reproduces_session(s: SessionView, i: int)
    requires
        s.wf(),
        0 <= i < s.log.steps.len(),
    ensures
        replay_request(s.log, i) == s.request_at_step(i + 1),
{
    assert(s.log.steps[i].step == i + 1);
}

/// The request a session sends at a step stays what it was as the session
/// goes on: recording later steps does not change it.
pub proof fn lemma_request_at_step_stable(s: SessionView, t: SessionView, k: int)
    requires
        s.session_id == t.session_id,
        s.service_code == t.service_code,
        s.phone_number == t.phone_number,
        s.log.steps.is_prefix_of(t.log.steps),
        1 <= k <= s.log.steps.len() + 1,
    ensures
        s.request_at_step(k) == t.request_at_step(k),
{
    assert(s.log.steps.take(k - 1) =~= t.log.steps.take(k - 1));
    assert(inputs_of(s.log.steps.take(k - 1)) == inputs_of(t.log.steps.take(k - 1)));
}

} // verus!
