//! The record of a USSD session: one entry per step, and the header that
//! names the session.

use vstd::prelude::*;
use vstd::string::StringSliceAdditionalSpecFns;
use vstd::utf8::{decode_utf8, encode_utf8, is_ascii_chars, is_ascii_chars_encode_utf8, is_char_boundary};

use crate::text::{
    digits_value, is_digit, law_padded, lemma_decimal_len, padded, push_char, push_padded,
};

verus! {

/// The characters of an optional string.
pub open spec fn opt_chars(o: Option<String>) -> Option<Seq<char>> {
    match o {
        Some(s) => Some(s@),
        None => None,
    }
}

/// A single step in a USSD session.
#[derive(Debug)]
pub struct SessionStep {
    pub step: u32,
    pub text_sent: String,
    pub response: String,
    pub user_input: Option<String>,
}

/// The mathematical content of a [`SessionStep`].
pub struct SessionStepView {
    pub step: u32,
    pub text_sent: Seq<char>,
    pub response: Seq<char>,
    pub user_input: Option<Seq<char>>,
}

impl View for SessionStep {
    type V = SessionStepView;

    open spec fn view(&self) -> SessionStepView {
        SessionStepView {
            step: self.step,
            text_sent: self.text_sent@,
            response: self.response@,
            user_input: opt_chars(self.user_input),
        }
    }
}

/// Full session log, saved to disk as JSON.
#[derive(Debug)]
pub struct SessionLog {
    pub session_id: String,
    pub service_code: String,
    pub phone_number: String,
    pub app_url: String,
    pub started_at: String,
    pub ended_at: Option<String>,
    pub completed: bool,
    pub steps: Vec<SessionStep>,
}

/// The mathematical content of a [`SessionLog`].
pub struct SessionLogView {
    pub session_id: Seq<char>,
    pub service_code: Seq<char>,
    pub phone_number: Seq<char>,
    pub app_url: Seq<char>,
    pub started_at: Seq<char>,
    pub ended_at: Option<Seq<char>>,
    pub completed: bool,
    pub steps: Seq<SessionStepView>,
}

/// The views of a sequence of steps.
pub open spec fn steps_view(steps: Seq<SessionStep>) -> Seq<SessionStepView> {
    steps.map_values(|s: SessionStep| s@)
}

impl View for SessionLog {
    type V = SessionLogView;

    open spec fn view(&self) -> SessionLogView {
        SessionLogView {
            session_id: self.session_id@,
            service_code: self.service_code@,
            phone_number: self.phone_number@,
            app_url: self.app_url@,
            started_at: self.started_at@,
            ended_at: opt_chars(self.ended_at),
            completed: self.completed,
            steps: steps_view(self.steps@),
        }
    }
}

/// The characters that the first eight bytes of `id`'s UTF-8 encoding stand for.
pub open spec fn id_prefix(id: Seq<char>) -> Seq<char> {
    decode_utf8(encode_utf8(id).subrange(0, 8))
}

/// Whether the first eight bytes of `id`'s UTF-8 encoding end on a character:
/// the condition on which a log file can be named after the session.
pub open spec fn has_id_prefix(id: Seq<char>) -> bool {
    is_char_boundary(encode_utf8(id), 8)
}

/// The name of the file a log is saved in: `session_<timestamp>_<id prefix>.json`.
pub open spec fn log_file_name(timestamp: Seq<char>, session_id: Seq<char>) -> Seq<char> {
    "session_"@ + timestamp + "_"@ + id_prefix(session_id) + ".json"@
}

proof fn lemma_encode_concat(a: Seq<char>, b: Seq<char>)
    ensures
        encode_utf8(a + b) == encode_utf8(a) + encode_utf8(b),
    decreases a.len(),
{
    if a.len() == 0 {
        assert(a + b =~= b);
    } else {
        assert((a + b).drop_first() =~= a.drop_first() + b);
        assert((a + b)[0] == a[0]);
        lemma_encode_concat(a.drop_first(), b);
    }
}

/// Where the first eight characters of the session id are ASCII (as in every
/// UUID), the log is saved as `session_`, the timestamp, `_`, those eight
/// characters and `.json`.
pub proof fn law_log_file_name(timestamp: Seq<char>, id: Seq<char>)
    requires
        id.len() >= 8,
        forall|i: int| 0 <= i < 8 ==> '\0' <= #[trigger] id[i] <= '\u{7f}',
    ensures
        ({
            let n = log_file_name(timestamp, id);
            let k = timestamp.len() as int;
            &&& n.len() == k + 22
            &&& n.take(8) == seq!['s', 'e', 's', 's', 'i', 'o', 'n', '_']
            &&& n.subrange(8, 8 + k) == timestamp
            &&& n[8 + k] == '_'
            &&& n.subrange(9 + k, 17 + k) == id.take(8)
            &&& n.skip(17 + k) == seq!['.', 'j', 's', 'o', 'n']
        }),
{
    broadcast use vstd::utf8::encode_utf8_decode_utf8, vstd::utf8::encode_utf8_valid_utf8;

    let head = id.take(8);
    let rest = id.skip(8);
    assert(head + rest =~= id);
    assert(is_ascii_chars(head)) by {
        assert forall|i: int| 0 <= i < head.len() implies '\0' <= #[trigger] head[i] <= '\u{7f}' by {
            assert(head[i] == id[i]);
        }
    }
    is_ascii_chars_encode_utf8(head);
    lemma_encode_concat(head, rest);
    let bytes = encode_utf8(id);
    assert(bytes.subrange(0, 8) =~= encode_utf8(head));
    assert(id_prefix(id) == head);
    reveal_strlit("session_");
    reveal_strlit("_");
    reveal_strlit(".json");
    let n = log_file_name(timestamp, id);
    let k = timestamp.len() as int;
    assert(n.take(8) =~= seq!['s', 'e', 's', 's', 'i', 'o', 'n', '_']);
    assert(n.subrange(8, 8 + k) =~= timestamp);
    assert(n.subrange(9 + k, 17 + k) =~= id.take(8));
    assert(n.skip(17 + k) =~= seq!['.', 'j', 's', 'o', 'n']);
}

/// Whether every character of `s` is a decimal digit.
pub open spec fn all_digits(s: Seq<char>) -> bool {
    forall|i: int| 0 <= i < s.len() ==> #[trigger] is_digit(s[i])
}

/// Whether `y` is a year as RFC 3339 text renders it: four digits, or a sign
/// and at least four digits.
pub open spec fn is_year_text(y: Seq<char>) -> bool {
    ||| y.len() == 4 && all_digits(y)
    ||| y.len() >= 5 && (y[0] == '+' || y[0] == '-') && all_digits(y.skip(1))
}

/// Whether `r` is what follows the year in an RFC 3339 date-time:
/// `-MM-DDTHH:MM:SS`, an optional fraction of 3, 6 or 9 digits, and an
/// offset `+HH:MM` or `-HH:MM`.
pub open spec fn is_rfc3339_rest(r: Seq<char>) -> bool {
    exists|f: int|
        #![trigger r.skip(15 + f)]
        (f == 0 || f == 4 || f == 7 || f == 10) && r.len() == 21 + f && {
            let off = r.skip(15 + f);
            &&& r[0] == '-' && is_digit(r[1]) && is_digit(r[2])
            &&& r[3] == '-' && is_digit(r[4]) && is_digit(r[5])
            &&& r[6] == 'T' && is_digit(r[7]) && is_digit(r[8])
            &&& r[9] == ':' && is_digit(r[10]) && is_digit(r[11])
            &&& r[12] == ':' && is_digit(r[13]) && is_digit(r[14])
            &&& f > 0 ==> r[15] == '.' && all_digits(r.subrange(16, 15 + f))
            &&& (off[0] == '+' || off[0] == '-') && is_digit(off[1]) && is_digit(off[2])
            &&& off[3] == ':' && is_digit(off[4]) && is_digit(off[5])
        }
}

/// Whether `s` is an RFC 3339 date-time such as `2024-01-01T12:00:00+01:00`,
/// in the form chrono writes it.
pub open spec fn is_rfc3339_text(s: Seq<char>) -> bool {
    exists|k: int| #![trigger s.take(k)] 0 <= k <= s.len() && is_year_text(s.take(k)) && is_rfc3339_rest(s.skip(k))
}

/// `chrono::Local::now()` rendered by `DateTime::to_rfc3339`: the current
/// local date and time. Its value depends on the clock and the time zone;
/// the contract states only its form, which is what `write_rfc3339` in
/// chrono writes for every date-time: the year (four digits, or sign and
/// digits outside 0..=9999), `-MM-DDTHH:MM:SS`, a fraction of 3, 6 or 9
/// digits where the nanoseconds are not zero, and the offset `+HH:MM`.
#[verifier::external_body]
pub(crate) fn local_now_rfc3339() -> (t: String)
    ensures
        is_rfc3339_text(t@),
{
    chrono::Local::now().to_rfc3339()
}

/// A local date and time as plain numbers.
#[derive(Debug, Clone, Copy, PartialEq, Eq, Structural)]
pub struct LocalTime {
    pub year: i32,
    pub month: u32,
    pub day: u32,
    pub hour: u32,
    pub minute: u32,
    pub second: u32,
    /// Nanoseconds since the whole second; 1_000_000_000 and above stand
    /// for a leap second.
    pub nanosecond: u32,
}

impl LocalTime {
    /// Whether each field lies in the range a chrono date-time gives it.
    pub open spec fn in_range(self) -> bool {
        &&& -262144 <= self.year <= 262143
        &&& 1 <= self.month <= 12
        &&& 1 <= self.day <= 31
        &&& self.hour < 24
        &&& self.minute < 60
        &&& self.second < 60
        &&& self.nanosecond < 2_000_000_000
    }
}

/// `chrono::Local::now()`, read through `Datelike` and `Timelike`: the
/// current local date and time as numbers. Its value depends on the clock and
/// the time zone; the contract states the ranges that chrono documents for
/// each field (months 1 to 12, days 1 to 31, hours 0 to 23, minutes and
/// seconds 0 to 59, nanoseconds below 2_000_000_000) and the years that
/// chrono's packed date can hold (`i32::MIN >> 13` to `i32::MAX >> 13`, which
/// takes in the one-year margin its local-time arithmetic may use).
#[verifier::external_body]
pub(crate) fn local_now() -> (t: LocalTime)
    ensures
        t.in_range(),
{
    let now = chrono::Local::now();
    LocalTime {
        year: chrono::Datelike::year(&now),
        month: chrono::Datelike::month(&now),
        day: chrono::Datelike::day(&now),
        hour: chrono::Timelike::hour(&now),
        minute: chrono::Timelike::minute(&now),
        second: chrono::Timelike::second(&now),
        nanosecond: chrono::Timelike::nanosecond(&now),
    }
}

/// The year as log file names show it: four digits from 0 to 9999, else a
/// sign and at least four digits.
pub open spec fn year_text(year: int) -> Seq<char> {
    if 0 <= year <= 9999 {
        padded(year as nat, 4)
    } else if year > 9999 {
        seq!['+'] + padded(year as nat, 4)
    } else {
        seq!['-'] + padded((-year) as nat, 4)
    }
}

/// The timestamp in log file names, `YYYYMMDD_HHMMSS`, such as
/// `20240101_120000`. A leap second shows as second 60.
pub open spec fn compact_text(t: LocalTime) -> Seq<char> {
    year_text(t.year as int) + padded(t.month as nat, 2) + padded(t.day as nat, 2) + seq!['_']
        + padded(t.hour as nat, 2) + padded(t.minute as nat, 2) + padded(
        (t.second + t.nanosecond / 1_000_000_000) as nat,
        2,
    )
}

/// The timestamp of a date-time in log file names, for a year of four
/// digits, is fifteen characters: the year, month and day as 4, 2 and 2
/// digits, an underscore, then the hour, minute and second as 2 digits each,
/// every group standing for the field's value (a leap second counts as 60).
pub proof fn law_compact_text(t: LocalTime)
    requires
        t.in_range(),
        0 <= t.year <= 9999,
    ensures
        compact_text(t).len() == 15,
        compact_text(t)[8] == '_',
        forall|i: int| 0 <= i < 15 && i != 8 ==> #[trigger] is_digit(compact_text(t)[i]),
        digits_value(compact_text(t).subrange(0, 4)) == t.year,
        digits_value(compact_text(t).subrange(4, 6)) == t.month,
        digits_value(compact_text(t).subrange(6, 8)) == t.day,
        digits_value(compact_text(t).subrange(9, 11)) == t.hour,
        digits_value(compact_text(t).subrange(11, 13)) == t.minute,
        digits_value(compact_text(t).subrange(13, 15)) == t.second + t.nanosecond / 1_000_000_000,
{
    let sec = (t.second + t.nanosecond / 1_000_000_000) as nat;
    let y = padded(t.year as nat, 4);
    let mo = padded(t.month as nat, 2);
    let d = padded(t.day as nat, 2);
    let h = padded(t.hour as nat, 2);
    let mi = padded(t.minute as nat, 2);
    let se = padded(sec, 2);
    lemma_decimal_len(t.year as nat);
    lemma_decimal_len(t.month as nat);
    lemma_decimal_len(t.day as nat);
    lemma_decimal_len(t.hour as nat);
    lemma_decimal_len(t.minute as nat);
    lemma_decimal_len(sec);
    law_padded(t.year as nat, 4);
    law_padded(t.month as nat, 2);
    law_padded(t.day as nat, 2);
    law_padded(t.hour as nat, 2);
    law_padded(t.minute as nat, 2);
    law_padded(sec, 2);
    let s = compact_text(t);
    assert(s =~= y + mo + d + seq!['_'] + h + mi + se);
    assert(s.subrange(0, 4) =~= y);
    assert(s.subrange(4, 6) =~= mo);
    assert(s.subrange(6, 8) =~= d);
    assert(s.subrange(9, 11) =~= h);
    assert(s.subrange(11, 13) =~= mi);
    assert(s.subrange(13, 15) =~= se);
    assert forall|i: int| 0 <= i < 15 && i != 8 implies #[trigger] is_digit(s[i]) by {
        if i < 4 {
            assert(s[i] == y[i]);
        } else if i < 6 {
            assert(s[i] == mo[i - 4]);
        } else if i < 8 {
            assert(s[i] == d[i - 6]);
        } else if i < 11 {
            assert(s[i] == h[i - 9]);
        } else if i < 13 {
            assert(s[i] == mi[i - 11]);
        } else {
            assert(s[i] == se[i - 13]);
        }
    }
}

/// The timestamp of `t` as log file names show it: `YYYYMMDD_HHMMSS`.
pub fn compact_timestamp(t: &LocalTime) -> (s: String)
    ensures
        s@ == compact_text(*t),
{
    let mut s = String::new();
    let year = t.year as i64;
    if 0 <= year && year <= 9999 {
        push_padded(&mut s, year as u64, 4);
    } else if year > 9999 {
        push_char(&mut s, '+');
        push_padded(&mut s, year as u64, 4);
    } else {
        push_char(&mut s, '-');
        push_padded(&mut s, (-year) as u64, 4);
    }
    push_padded(&mut s, t.month as u64, 2);
    push_padded(&mut s, t.day as u64, 2);
    push_char(&mut s, '_');
    push_padded(&mut s, t.hour as u64, 2);
    push_padded(&mut s, t.minute as u64, 2);
    let second = t.second as u64 + t.nanosecond as u64 / 1_000_000_000;
    push_padded(&mut s, second, 2);
    assert(s@ =~= compact_text(*t));
    s
}

impl SessionLog {
    /// A log for a session that starts now: no steps, not ended, not completed.
    pub fn new(session_id: String, service_code: String, phone_number: String, app_url: String) -> (log:
        SessionLog)
        ensures
            log@.session_id == session_id@,
            log@.service_code == service_code@,
            log@.phone_number == phone_number@,
            log@.app_url == app_url@,
            is_rfc3339_text(log@.started_at),
            log@.ended_at is None,
            !log@.completed,
            log@.steps.len() == 0,
    {
        let started_at = local_now_rfc3339();
        SessionLog::started(session_id, service_code, phone_number, app_url, started_at)
    }

    /// A log for a session that started at `started_at`.
    pub fn started(
        session_id: String,
        service_code: String,
        phone_number: String,
        app_url: String,
        started_at: String,
    ) -> (log: SessionLog)
        ensures
            log@ == (SessionLogView {
                session_id: session_id@,
                service_code: service_code@,
                phone_number: phone_number@,
                app_url: app_url@,
                started_at: started_at@,
                ended_at: None,
                completed: false,
                steps: Seq::empty(),
            }),
    {
        let log = SessionLog {
            session_id,
            service_code,
            phone_number,
            app_url,
            started_at,
            ended_at: None,
            completed: false,
            steps: Vec::new(),
        };
        assert(log@.steps =~= Seq::<SessionStepView>::empty());
        log
    }

    /// Appends `step` to the log.
    pub fn add_step(&mut self, step: SessionStep)
        ensures
            final(self)@ == (SessionLogView { steps: old(self)@.steps.push(step@), ..old(self)@ }),
    {
        let ghost before = self.steps@;
        self.steps.push(step);
        assert(steps_view(self.steps@) =~= steps_view(before).push(step@));
    }

    /// Marks the log as ended now, completed or not. The contract leaves open
    /// which reading of the local clock `ended_at` holds: it says only that it
    /// is RFC 3339 text, since the clock is not a function of any argument.
    pub fn finish(&mut self, completed: bool)
        ensures
            final(self)@.completed == completed,
            final(self)@.ended_at matches Some(t) && is_rfc3339_text(t),
            final(self)@ == (SessionLogView {
                completed,
                ended_at: final(self)@.ended_at,
                ..old(self)@
            }),
    {
        let ended_at = local_now_rfc3339();
        self.finish_at(completed, ended_at);
    }

    /// Marks the log as ended at `ended_at`, completed or not.
    pub fn finish_at(&mut self, completed: bool, ended_at: String)
        ensures
            final(self)@ == (SessionLogView {
                completed,
                ended_at: Some(ended_at@),
                ..old(self)@
            }),
    {
        self.ended_at = Some(ended_at);
        self.completed = completed;
    }

    /// Whether the first eight bytes of the session id end on a character, so
    /// that the log's file can be named after it.
    pub fn has_file_prefix(&self) -> (b: bool)
        ensures
            b == has_id_prefix(self@.session_id),
    {
        self.session_id.as_str().is_char_boundary(8)
    }

    /// The name of the file this log is saved in when saved now: the
    /// timestamp is the current local time as `YYYYMMDD_HHMMSS`. The contract
    /// leaves open which reading of the clock that is: it says only that the
    /// name is built from some in-range local time, see `file_name`.
    pub fn new_file_name(&self) -> (name: String)
        requires
            has_id_prefix(self@.session_id),
        ensures
            exists|t: LocalTime|
                t.in_range() && name@ == log_file_name(compact_text(t), self@.session_id),
    {
        let now = local_now();
        let timestamp = compact_timestamp(&now);
        self.file_name(timestamp.as_str())
    }

    /// The name of the file this log is saved in when saved at `timestamp`:
    /// `session_<timestamp>_<first eight bytes of the session id>.json`.
    pub fn file_name(&self, timestamp: &str) -> (name: String)
        requires
            has_id_prefix(self@.session_id),
        ensures
            name@ == log_file_name(timestamp@, self@.session_id),
    {
        broadcast use vstd::utf8::encode_utf8_decode_utf8;

        let id = self.session_id.as_str();
        let (head, _tail) = id.split_at(8);
        assert(head@ == decode_utf8(head.spec_bytes()));
        let mut name = "session_".to_owned();
        name.append(timestamp);
        name.append("_");
        name.append(head);
        name.append(".json");
        name
    }
}

} // verus!
