//! The command line: the three commands and the checks on what `dial` is given.

use vstd::prelude::*;

use crate::error::SimError;
use crate::logger::opt_chars;
use crate::text::{ends_with_char, starts_with, starts_with_char};

verus! {

/// The parsed command line.
#[derive(Debug)]
pub struct Cli {
    pub command: Command,
    /// Enable verbose debug output
    pub verbose: bool,
}

/// The subcommands.
#[derive(Debug)]
pub enum Command {
    /// Dial a USSD code and start an interactive session
    Dial {
        code: String,
        app: Option<String>,
        phone: Option<String>,
        max_steps: Option<u32>,
        timeout: Option<u64>,
        save_log: bool,
    },
    /// Replay a previously saved session automatically
    Replay { file: String, app: Option<String>, delay_ms: u64 },
    /// Manage configuration
    Config {
        show: bool,
        set_url: Option<String>,
        set_phone: Option<String>,
        set_max_steps: Option<u32>,
        set_timeout: Option<u64>,
        set_log_dir: Option<String>,
    },
}

/// Whether `code` has the form of a USSD code: it starts with `*` and ends with `#`.
pub open spec fn is_ussd_code(code: Seq<char>) -> bool {
    code.len() > 0 && code[0] == '*' && code.last() == '#'
}

/// Whether `url` is an HTTP or HTTPS URL: it starts with `http://` or `https://`.
pub open spec fn is_web_url(url: Seq<char>) -> bool {
    "http://"@.is_prefix_of(url) || "https://"@.is_prefix_of(url)
}

/// The message given when no application URL is known.
pub open spec fn missing_url_message() -> Seq<char> {
    "No app URL provided. Use --app or set it with: ussd-sim config --set-url <URL>"@
}

/// The application URL a dial goes to: the one given, else the saved one.
pub open spec fn dial_url(app: Option<Seq<char>>, config_app: Option<Seq<char>>) -> Option<
    Seq<char>,
> {
    match app {
        Some(u) => Some(u),
        None => config_app,
    }
}

/// What [`Cli::validate_dial`] promises of its result `r` for the code, the
/// given URL and the saved URL.
pub open spec fn validate_dial_post(
    code: Seq<char>,
    app: Option<Seq<char>>,
    config_app: Option<Seq<char>>,
    r: Result<String, SimError>,
) -> bool {
    &&& r is Ok <==> (is_ussd_code(code) && (dial_url(app, config_app) matches Some(u)
        && is_web_url(u)))
    &&& r matches Ok(u) ==> Some(u@) == dial_url(app, config_app)
    &&& r matches Err(e) ==> if !is_ussd_code(code) {
        e matches SimError::InvalidUssdCode(s) && s@ == code
    } else if dial_url(app, config_app) is None {
        e matches SimError::InvalidAppUrl(s) && s@ == missing_url_message()
    } else {
        e matches SimError::InvalidAppUrl(s) && Some(s@) == dial_url(app, config_app)
    }
}

/// What `dial` accepts and refuses: a code is accepted exactly when its
/// first character is `*` and its last is `#`, whatever stands between; the
/// URL given on the command line, else the saved one, is used and must start
/// with `http://` or `https://`; each refusal names what was wrong.
pub proof fn law_validate_dial(
    code: Seq<char>,
    app: Option<Seq<char>>,
    config_app: Option<Seq<char>>,
    r: Result<String, SimError>,
)
    requires
        validate_dial_post(code, app, config_app, r),
    ensures
        !(code.len() > 0 && code[0] == '*' && code[code.len() - 1] == '#') ==> (r matches Err(
            SimError::InvalidUssdCode(s),
        ) && s@ == code),
        forall|u: Seq<char>|
            #![trigger "http://"@.is_prefix_of(u)]
            code.len() > 0 && code[0] == '*' && code[code.len() - 1] == '#' && (app == Some(u) || (
            app is None && config_app == Some(u))) ==> if "http://"@.is_prefix_of(u)
                || "https://"@.is_prefix_of(u) {
                r matches Ok(v) && v@ == u
            } else {
                r matches Err(SimError::InvalidAppUrl(s)) && s@ == u
            },
        code.len() > 0 && code[0] == '*' && code[code.len() - 1] == '#' && app is None
            && config_app is None ==> (r matches Err(SimError::InvalidAppUrl(s)) && s@
            == "No app URL provided. Use --app or set it with: ussd-sim config --set-url <URL>"@),
{
}

impl Cli {
    /// Checks the `dial` arguments and picks the application URL: the code
    /// must start with `*` and end with `#`; the URL is the one given, else
    /// the saved one, and must start with `http://` or `https://`.
    pub fn validate_dial(code: &str, app: &Option<String>, config_app: &Option<String>) -> (r:
        Result<String, SimError>)
        ensures
            validate_dial_post(code@, opt_chars(*app), opt_chars(*config_app), r),
    {
        if !starts_with_char(code, '*') || !ends_with_char(code, '#') {
            return Err(SimError::InvalidUssdCode(code.to_owned()));
        }
        let app_url = match app {
            Some(u) => u.clone(),
            None => match config_app {
                Some(u) => u.clone(),
                None => {
                    return Err(
                        SimError::InvalidAppUrl(
                            "No app URL provided. Use --app or set it with: ussd-sim config --set-url <URL>".to_owned(),
                        ),
                    );
                },
            },
        };
        if !starts_with(app_url.as_str(), "http://") && !starts_with(app_url.as_str(), "https://") {
            return Err(SimError::InvalidAppUrl(app_url));
        }
        Ok(app_url)
    }
}

} // verus!
