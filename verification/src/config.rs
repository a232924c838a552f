//! The user's saved defaults and how they combine with the options given on
//! the command line.

use vstd::prelude::*;

use crate::logger::opt_chars;
use crate::session::{SessionConfig, SessionConfigView};
use crate::text::{decimal, decimal_string, push_char};

verus! {

/// The saved defaults, stored as `config.toml`.
#[derive(Debug)]
pub struct Config {
    /// Default app URL (so you don't type it every time)
    pub app_url: Option<String>,
    /// Default phone number
    pub phone: Option<String>,
    /// Max steps before assuming infinite loop
    pub max_steps: Option<u32>,
    /// Request timeout in seconds
    pub timeout_secs: Option<u64>,
    /// Directory to save session logs
    pub log_dir: Option<String>,
}

/// The mathematical content of a [`Config`].
pub struct ConfigView {
    pub app_url: Option<Seq<char>>,
    pub phone: Option<Seq<char>>,
    pub max_steps: Option<u32>,
    pub timeout_secs: Option<u64>,
    pub log_dir: Option<Seq<char>>,
}

impl View for Config {
    type V = ConfigView;

    open spec fn view(&self) -> ConfigView {
        ConfigView {
            app_url: opt_chars(self.app_url),
            phone: opt_chars(self.phone),
            max_steps: self.max_steps,
            timeout_secs: self.timeout_secs,
            log_dir: opt_chars(self.log_dir),
        }
    }
}

impl Default for Config {
    /// Nothing set.
    fn default() -> (c: Self)
        ensures
            c@ == (ConfigView {
                app_url: None,
                phone: None,
                max_steps: None,
                timeout_secs: None,
                log_dir: None,
            }),
    {
        Config { app_url: None, phone: None, max_steps: None, timeout_secs: None, log_dir: None }
    }
}

/// The phone number simulated when none is given or saved.
pub open spec fn default_phone() -> Seq<char> {
    "+2348000000000"@
}

/// The step limit used when none is given or saved.
pub open spec fn default_max_steps() -> u32 {
    20
}

/// The request timeout, in seconds, used when none is given or saved.
pub open spec fn default_timeout_secs() -> u64 {
    30
}

/// `given` where it is set, else `saved`.
pub open spec fn prefer<T>(given: Option<T>, saved: Option<T>) -> Option<T> {
    match given {
        Some(x) => Some(x),
        None => saved,
    }
}

/// The value of an option, or `d` where it is not set.
pub open spec fn or_default<T>(o: Option<T>, d: T) -> T {
    match o {
        Some(x) => x,
        None => d,
    }
}

/// A copy of an optional string.
fn clone_opt(o: &Option<String>) -> (r: Option<String>)
    ensures
        opt_chars(r) == opt_chars(*o),
{
    match o {
        Some(s) => Some(s.clone()),
        None => None,
    }
}

/// The horizontal rule printed under headings: 41 box-drawing dashes.
pub open spec fn rule() -> Seq<char> {
    Seq::new(41, |_i: int| '\u{2500}')
}

/// The horizontal rule printed under headings.
pub fn rule_string() -> (r: String)
    ensures
        r@ == rule(),
{
    let mut r = String::new();
    for i in 0..41usize
        invariant
            r@ == Seq::new(i as nat, |_i: int| '\u{2500}'),
    {
        push_char(&mut r, '\u{2500}');
        assert(r@ =~= Seq::new((i + 1) as nat, |_i: int| '\u{2500}'));
    }
    r
}

/// The text of an optional setting, or `not set`.
pub open spec fn shown(o: Option<Seq<char>>) -> Seq<char> {
    or_default(o, "not set"@)
}

/// The summary of `c` printed by `config --show`, where `path` is the file
/// it is stored in.
pub open spec fn config_summary(c: ConfigView, path: Seq<char>) -> Seq<char> {
    "\n\u{1f4c4} Config file: "@ + path + "\n"@ + rule() + "\n"@ + "  app_url     : "@ + shown(
        c.app_url,
    ) + "\n"@ + "  phone       : "@ + shown(c.phone) + "\n"@ + "  max_steps   : "@ + decimal(
        or_default(c.max_steps, default_max_steps()) as nat,
    ) + "\n"@ + "  timeout_secs: "@ + decimal(
        or_default(c.timeout_secs, default_timeout_secs()) as nat,
    ) + "\n"@ + "  log_dir     : "@ + shown(c.log_dir) + "\n"@ + rule() + "\n"@
}

fn append_opt(s: &mut String, o: &Option<String>)
    ensures
        final(s)@ == old(s)@ + shown(opt_chars(*o)),
{
    match o {
        Some(v) => s.append(v.as_str()),
        None => s.append("not set"),
    }
}

/// Whether `piece` occurs somewhere in `text`.
pub open spec fn occurs_in(piece: Seq<char>, text: Seq<char>) -> bool {
    exists|i: int|
        0 <= i && i + piece.len() <= text.len() && #[trigger] text.subrange(i, i + piece.len())
            == piece
}

/// A line of the summary: a line break, the label, the value and a line break.
pub open spec fn summary_line(label: Seq<char>, value: Seq<char>) -> Seq<char> {
    "\n"@ + label + value + "\n"@
}

pub(crate) proof fn lemma_occurs_between(a: Seq<char>, p: Seq<char>, b: Seq<char>, text: Seq<char>)
    requires
        text == a + p + b,
    ensures
        occurs_in(p, text),
{
    assert(text.subrange(a.len() as int, (a.len() + p.len()) as int) =~= p);
}

proof fn lemma_occurs_extend(p: Seq<char>, x: Seq<char>, y: Seq<char>)
    requires
        occurs_in(p, x),
    ensures
        occurs_in(p, x + y),
{
    let i = choose|i: int|
        0 <= i && i + p.len() <= x.len() && #[trigger] x.subrange(i, i + p.len()) == p;
    assert((x + y).subrange(i, i + p.len()) =~= x.subrange(i, i + p.len()));
}

/// A line ending the text `a + nl + label + value + nl` occurs in it.
proof fn lemma_line_at_end(a: Seq<char>, nl: Seq<char>, label: Seq<char>, value: Seq<char>)
    requires
        nl == "\n"@,
    ensures
        occurs_in(summary_line(label, value), a + nl + label + value + nl),
{
    assert(a + nl + label + value + nl =~= a + summary_line(label, value) + Seq::<char>::empty());
    lemma_occurs_between(a, summary_line(label, value), Seq::empty(), a + nl + label + value + nl);
}

/// What occurs in `x + nl` occurs in the text that another line extends it to.
proof fn lemma_occurs_next_line(
    p: Seq<char>,
    x: Seq<char>,
    nl: Seq<char>,
    label: Seq<char>,
    value: Seq<char>,
)
    requires
        occurs_in(p, x + nl),
    ensures
        occurs_in(p, x + nl + label + value + nl),
{
    lemma_occurs_extend(p, x + nl, label);
    lemma_occurs_extend(p, x + nl + label, value);
    lemma_occurs_extend(p, x + nl + label + value, nl);
}

/// What `config --show` prints: the file the configuration is stored in,
/// then one line per setting, showing the saved value where one is saved and
/// otherwise `not set`, or the built-in 20 steps and 30 seconds.
pub proof fn law_print(c: ConfigView, path: Seq<char>, text: Seq<char>)
    requires
        text == config_summary(c, path),
    ensures
        ("\n\u{1f4c4} Config file: "@ + path + "\n"@).is_prefix_of(text),
        occurs_in(
            summary_line(
                "  app_url     : "@,
                if c.app_url is Some {
                    c.app_url->0
                } else {
                    "not set"@
                },
            ),
            text,
        ),
        occurs_in(
            summary_line(
                "  phone       : "@,
                if c.phone is Some {
                    c.phone->0
                } else {
                    "not set"@
                },
            ),
            text,
        ),
        occurs_in(
            summary_line(
                "  max_steps   : "@,
                decimal(
                    if c.max_steps is Some {
                        c.max_steps->0 as nat
                    } else {
                        20
                    },
                ),
            ),
            text,
        ),
        occurs_in(
            summary_line(
                "  timeout_secs: "@,
                decimal(
                    if c.timeout_secs is Some {
                        c.timeout_secs->0 as nat
                    } else {
                        30
                    },
                ),
            ),
            text,
        ),
        occurs_in(
            summary_line(
                "  log_dir     : "@,
                if c.log_dir is Some {
                    c.log_dir->0
                } else {
                    "not set"@
                },
            ),
            text,
        ),
{
    let head = "\n\u{1f4c4} Config file: "@ + path + "\n"@;
    let nl = "\n"@;
    let v_app = shown(c.app_url);
    let v_phone = shown(c.phone);
    let v_steps = decimal(or_default(c.max_steps, default_max_steps()) as nat);
    let v_time = decimal(or_default(c.timeout_secs, default_timeout_secs()) as nat);
    let v_dir = shown(c.log_dir);
    let l_app = "  app_url     : "@;
    let l_phone = "  phone       : "@;
    let l_steps = "  max_steps   : "@;
    let l_time = "  timeout_secs: "@;
    let l_dir = "  log_dir     : "@;
    let q0 = head + rule();
    let q1 = q0 + nl + l_app + v_app;
    let q2 = q1 + nl + l_phone + v_phone;
    let q3 = q2 + nl + l_steps + v_steps;
    let q4 = q3 + nl + l_time + v_time;
    let q5 = q4 + nl + l_dir + v_dir;
    assert(text == q5 + nl + rule() + nl);
    assert(head.is_prefix_of(text)) by {
        assert(text.subrange(0, head.len() as int) =~= head);
    }
    // Each setting's line ends a prefix of the summary, which the later
    // lines and the closing rule extend.
    let s_app = summary_line(l_app, v_app);
    lemma_line_at_end(q0, nl, l_app, v_app);
    lemma_occurs_next_line(s_app, q1, nl, l_phone, v_phone);
    lemma_occurs_next_line(s_app, q2, nl, l_steps, v_steps);
    lemma_occurs_next_line(s_app, q3, nl, l_time, v_time);
    lemma_occurs_next_line(s_app, q4, nl, l_dir, v_dir);
    lemma_occurs_next_line(s_app, q5, nl, rule(), Seq::empty());
    assert(q5 + nl + rule() + Seq::<char>::empty() + nl =~= text);
    let s_phone = summary_line(l_phone, v_phone);
    lemma_line_at_end(q1, nl, l_phone, v_phone);
    lemma_occurs_next_line(s_phone, q2, nl, l_steps, v_steps);
    lemma_occurs_next_line(s_phone, q3, nl, l_time, v_time);
    lemma_occurs_next_line(s_phone, q4, nl, l_dir, v_dir);
    lemma_occurs_next_line(s_phone, q5, nl, rule(), Seq::empty());
    let s_steps = summary_line(l_steps, v_steps);
    lemma_line_at_end(q2, nl, l_steps, v_steps);
    lemma_occurs_next_line(s_steps, q3, nl, l_time, v_time);
    lemma_occurs_next_line(s_steps, q4, nl, l_dir, v_dir);
    lemma_occurs_next_line(s_steps, q5, nl, rule(), Seq::empty());
    let s_time = summary_line(l_time, v_time);
    lemma_line_at_end(q3, nl, l_time, v_time);
    lemma_occurs_next_line(s_time, q4, nl, l_dir, v_dir);
    lemma_occurs_next_line(s_time, q5, nl, rule(), Seq::empty());
    let s_dir = summary_line(l_dir, v_dir);
    lemma_line_at_end(q4, nl, l_dir, v_dir);
    lemma_occurs_next_line(s_dir, q5, nl, rule(), Seq::empty());
}

/// What [`Config::resolve_phone`] promises of the phone number `p`.
pub open spec fn resolve_phone_post(saved: ConfigView, phone: Option<Seq<char>>, p: Seq<char>) -> bool {
    p == or_default(prefer(phone, saved.phone), default_phone())
}

/// What [`Config::resolve_session`] promises of the settings `r`.
pub open spec fn resolve_session_post(
    saved: ConfigView,
    max_steps: Option<u32>,
    timeout: Option<u64>,
    save_log: bool,
    r: SessionConfigView,
) -> bool {
    r == (SessionConfigView {
        max_steps: or_default(prefer(max_steps, saved.max_steps), default_max_steps()),
        timeout_secs: or_default(prefer(timeout, saved.timeout_secs), default_timeout_secs()),
        save_log,
        log_dir: saved.log_dir,
    })
}

/// What [`Config::apply_updates`] promises of the configuration `after` and
/// of its answer `changed`.
pub open spec fn apply_updates_post(
    before: ConfigView,
    set_url: Option<Seq<char>>,
    set_phone: Option<Seq<char>>,
    set_max_steps: Option<u32>,
    set_timeout: Option<u64>,
    set_log_dir: Option<Seq<char>>,
    after: ConfigView,
    changed: bool,
) -> bool {
    &&& changed == (set_url is Some || set_phone is Some || set_max_steps is Some
        || set_timeout is Some || set_log_dir is Some)
    &&& after == (ConfigView {
        app_url: prefer(set_url, before.app_url),
        phone: prefer(set_phone, before.phone),
        max_steps: prefer(set_max_steps, before.max_steps),
        timeout_secs: prefer(set_timeout, before.timeout_secs),
        log_dir: prefer(set_log_dir, before.log_dir),
    })
}

/// The phone number of a dial is the one given, else the saved one, else
/// `+2348000000000`.
pub proof fn law_resolve_phone(saved: ConfigView, phone: Option<Seq<char>>, p: Seq<char>)
    requires
        resolve_phone_post(saved, phone, p),
    ensures
        phone is Some ==> p == phone->0,
        phone is None && saved.phone is Some ==> p == saved.phone->0,
        phone is None && saved.phone is None ==> p == "+2348000000000"@,
{
}

/// Each setting of a dialed session is the option given, else the saved
/// default, else the built-in one (20 steps, 30 seconds); the log is saved
/// as asked, in the saved log directory.
pub proof fn law_resolve_session(
    saved: ConfigView,
    max_steps: Option<u32>,
    timeout: Option<u64>,
    save_log: bool,
    r: SessionConfigView,
)
    requires
        resolve_session_post(saved, max_steps, timeout, save_log, r),
    ensures
        max_steps is Some ==> r.max_steps == max_steps->0,
        max_steps is None && saved.max_steps is Some ==> r.max_steps == saved.max_steps->0,
        max_steps is None && saved.max_steps is None ==> r.max_steps == 20,
        timeout is Some ==> r.timeout_secs == timeout->0,
        timeout is None && saved.timeout_secs is Some ==> r.timeout_secs == saved.timeout_secs->0,
        timeout is None && saved.timeout_secs is None ==> r.timeout_secs == 30,
        r.save_log == save_log,
        r.log_dir == saved.log_dir,
{
}

/// Updating the configuration sets exactly the values given and keeps the
/// others; it reports a change exactly when some value was given, and giving
/// none leaves the configuration as it was.
pub proof fn law_apply_updates(
    before: ConfigView,
    set_url: Option<Seq<char>>,
    set_phone: Option<Seq<char>>,
    set_max_steps: Option<u32>,
    set_timeout: Option<u64>,
    set_log_dir: Option<Seq<char>>,
    after: ConfigView,
    changed: bool,
)
    requires
        apply_updates_post(
            before,
            set_url,
            set_phone,
            set_max_steps,
            set_timeout,
            set_log_dir,
            after,
            changed,
        ),
    ensures
        after.app_url == if set_url is Some {
            set_url
        } else {
            before.app_url
        },
        after.phone == if set_phone is Some {
            set_phone
        } else {
            before.phone
        },
        after.max_steps == if set_max_steps is Some {
            set_max_steps
        } else {
            before.max_steps
        },
        after.timeout_secs == if set_timeout is Some {
            set_timeout
        } else {
            before.timeout_secs
        },
        after.log_dir == if set_log_dir is Some {
            set_log_dir
        } else {
            before.log_dir
        },
        !changed <==> (set_url is None && set_phone is None && set_max_steps is None
            && set_timeout is None && set_log_dir is None),
        !changed ==> after == before,
{
}

impl Config {
    /// The phone number to simulate: the one given, else the saved one,
    /// else `+2348000000000`.
    pub fn resolve_phone(&self, phone: Option<String>) -> (p: String)
        ensures
            resolve_phone_post(self@, opt_chars(phone), p@),
    {
        match phone {
            Some(p) => p,
            None => match &self.phone {
                Some(q) => q.clone(),
                None => "+2348000000000".to_owned(),
            },
        }
    }

    /// The settings of a session dialed with the given options: each given
    /// option wins over the saved default, which wins over the built-in one
    /// (20 steps, 30 seconds); logs go to the saved log directory.
    pub fn resolve_session(&self, max_steps: Option<u32>, timeout: Option<u64>, save_log: bool) -> (c:
        SessionConfig)
        ensures
            resolve_session_post(self@, max_steps, timeout, save_log, c@),
    {
        let max_steps = match max_steps {
            Some(n) => n,
            None => match self.max_steps {
                Some(n) => n,
                None => 20,
            },
        };
        let timeout_secs = match timeout {
            Some(n) => n,
            None => match self.timeout_secs {
                Some(n) => n,
                None => 30,
            },
        };
        SessionConfig { max_steps, timeout_secs, save_log, log_dir: clone_opt(&self.log_dir) }
    }

    /// Applies the `config --set-...` options: each given value replaces the
    /// saved one. Returns whether anything was given, in which case the
    /// configuration is to be saved.
    pub fn apply_updates(
        &mut self,
        set_url: Option<String>,
        set_phone: Option<String>,
        set_max_steps: Option<u32>,
        set_timeout: Option<u64>,
        set_log_dir: Option<String>,
    ) -> (changed: bool)
        ensures
            apply_updates_post(
                old(self)@,
                opt_chars(set_url),
                opt_chars(set_phone),
                set_max_steps,
                set_timeout,
                opt_chars(set_log_dir),
                final(self)@,
                changed,
            ),
    {
        let changed = set_url.is_some() || set_phone.is_some() || set_max_steps.is_some()
            || set_timeout.is_some() || set_log_dir.is_some();
        if let Some(url) = set_url {
            self.app_url = Some(url);
        }
        if let Some(phone) = set_phone {
            self.phone = Some(phone);
        }
        if let Some(steps) = set_max_steps {
            self.max_steps = Some(steps);
        }
        if let Some(timeout) = set_timeout {
            self.timeout_secs = Some(timeout);
        }
        if let Some(log_dir) = set_log_dir {
            self.log_dir = Some(log_dir);
        }
        changed
    }

    /// Whether `config` prints the configuration: when asked to, or when it
    /// was given nothing to change.
    pub fn should_print(show: bool, changed: bool) -> (b: bool)
        ensures
            b == (show || !changed),
    {
        show || !changed
    }

    /// The summary that `config --show` prints, where `path` is the file the
    /// configuration is stored in.
    pub fn print(&self, path: &str) -> (text: String)
        ensures
            text@ == config_summary(self@, path@),
    {
        let rule = rule_string();
        let mut t = "\n\u{1f4c4} Config file: ".to_owned();
        t.append(path);
        t.append("\n");
        t.append(rule.as_str());
        t.append("\n");
        t.append("  app_url     : ");
        append_opt(&mut t, &self.app_url);
        t.append("\n");
        t.append("  phone       : ");
        append_opt(&mut t, &self.phone);
        t.append("\n");
        t.append("  max_steps   : ");
        let steps = match self.max_steps {
            Some(n) => n,
            None => 20,
        };
        let steps_text = decimal_string(steps as u64);
        t.append(steps_text.as_str());
        t.append("\n");
        t.append("  timeout_secs: ");
        let timeout = match self.timeout_secs {
            Some(n) => n,
            None => 30,
        };
        let timeout_text = decimal_string(timeout);
        t.append(timeout_text.as_str());
        t.append("\n");
        t.append("  log_dir     : ");
        append_opt(&mut t, &self.log_dir);
        t.append("\n");
        t.append(rule.as_str());
        t.append("\n");
        t
    }
}

} // verus!
