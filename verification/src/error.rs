//! The simulator's errors and the messages shown for them.

use vstd::prelude::*;

use crate::config::{lemma_occurs_between, occurs_in};
use crate::text::{decimal, decimal_string};

verus! {

/// Everything that can go wrong while simulating, replaying or configuring.
///
/// Errors that come from the transport or the terminal (`HttpError`,
/// `InputError`) carry the text of the underlying error.
#[derive(Debug)]
pub enum SimError {
    HttpError(String),
    InputError(String),
    InvalidResponse(String),
    AppUnreachable { url: String, reason: String },
    InvalidUssdCode(String),
    InvalidAppUrl(String),
    MaxStepsReached(u32),
    Timeout(u64),
    LogError(String),
    ConfigError(String),
    ReplayFileNotFound(String),
    InvalidReplayFile(String),
    SessionTerminated,
}

/// The message shown to the user for `e`.
pub open spec fn message_of(e: SimError) -> Seq<char> {
    match e {
        SimError::HttpError(s) => "HTTP request failed: "@ + s@,
        SimError::InputError(s) => "Failed to read user input: "@ + s@,
        SimError::InvalidResponse(s) => "Invalid response from app: expected 'CON' or 'END' prefix, got: '"@
            + s@ + "'"@,
        SimError::AppUnreachable { url, reason } => "App is unreachable at '"@ + url@ + "': "@
            + reason@,
        SimError::InvalidUssdCode(s) => "Invalid USSD code '"@ + s@
            + "': must start with * and end with #"@,
        SimError::InvalidAppUrl(s) => "Invalid app URL '"@ + s@
            + "': must be a valid HTTP/HTTPS URL"@,
        SimError::MaxStepsReached(n) => "Session reached maximum steps ("@ + decimal(n as nat)
            + ") \u{2014} possible infinite loop detected"@,
        SimError::Timeout(n) => "Request timed out after "@ + decimal(n as nat) + " seconds"@,
        SimError::LogError(s) => "Failed to write session log: "@ + s@,
        SimError::ConfigError(s) => "Failed to read config file: "@ + s@,
        SimError::ReplayFileNotFound(s) => "Replay file not found: '"@ + s@ + "'"@,
        SimError::InvalidReplayFile(s) => "Invalid replay file: "@ + s@,
        SimError::SessionTerminated => "Session ended unexpectedly"@,
    }
}

/// The message of an error shows what the error carries: the text of each
/// string field, and the number of steps or seconds in decimal.
pub proof fn law_message_shows_fields(e: SimError)
    ensures
        match e {
            SimError::HttpError(s) => occurs_in(s@, message_of(e)),
            SimError::InputError(s) => occurs_in(s@, message_of(e)),
            SimError::InvalidResponse(s) => occurs_in(s@, message_of(e)),
            SimError::AppUnreachable { url, reason } => occurs_in(url@, message_of(e))
                && occurs_in(reason@, message_of(e)),
            SimError::InvalidUssdCode(s) => occurs_in(s@, message_of(e)),
            SimError::InvalidAppUrl(s) => occurs_in(s@, message_of(e)),
            SimError::MaxStepsReached(n) => occurs_in(decimal(n as nat), message_of(e)),
            SimError::Timeout(n) => occurs_in(decimal(n as nat), message_of(e)),
            SimError::LogError(s) => occurs_in(s@, message_of(e)),
            SimError::ConfigError(s) => occurs_in(s@, message_of(e)),
            SimError::ReplayFileNotFound(s) => occurs_in(s@, message_of(e)),
            SimError::InvalidReplayFile(s) => occurs_in(s@, message_of(e)),
            SimError::SessionTerminated => true,
        },
{
    let m = message_of(e);
    let z = Seq::<char>::empty();
    match e {
        SimError::HttpError(s) => {
            assert(m =~= "HTTP request failed: "@ + s@ + z);
            lemma_occurs_between("HTTP request failed: "@, s@, z, m);
        },
        SimError::InputError(s) => {
            assert(m =~= "Failed to read user input: "@ + s@ + z);
            lemma_occurs_between("Failed to read user input: "@, s@, z, m);
        },
        SimError::InvalidResponse(s) => {
            let a = "Invalid response from app: expected 'CON' or 'END' prefix, got: '"@;
            lemma_occurs_between(a, s@, "'"@, m);
        },
        SimError::AppUnreachable { url, reason } => {
            let a = "App is unreachable at '"@;
            let b = "': "@;
            assert(m =~= a + url@ + (b + reason@));
            lemma_occurs_between(a, url@, b + reason@, m);
            assert(m =~= (a + url@ + b) + reason@ + z);
            lemma_occurs_between(a + url@ + b, reason@, z, m);
        },
        SimError::InvalidUssdCode(s) => {
            lemma_occurs_between("Invalid USSD code '"@, s@, "': must start with * and end with #"@, m);
        },
        SimError::InvalidAppUrl(s) => {
            lemma_occurs_between("Invalid app URL '"@, s@, "': must be a valid HTTP/HTTPS URL"@, m);
        },
        SimError::MaxStepsReached(n) => {
            lemma_occurs_between(
                "Session reached maximum steps ("@,
                decimal(n as nat),
                ") \u{2014} possible infinite loop detected"@,
                m,
            );
        },
        SimError::Timeout(n) => {
            lemma_occurs_between("Request timed out after "@, decimal(n as nat), " seconds"@, m);
        },
        SimError::LogError(s) => {
            assert(m =~= "Failed to write session log: "@ + s@ + z);
            lemma_occurs_between("Failed to write session log: "@, s@, z, m);
        },
        SimError::ConfigError(s) => {
            assert(m =~= "Failed to read config file: "@ + s@ + z);
            lemma_occurs_between("Failed to read config file: "@, s@, z, m);
        },
        SimError::ReplayFileNotFound(s) => {
            lemma_occurs_between("Replay file not found: '"@, s@, "'"@, m);
        },
        SimError::InvalidReplayFile(s) => {
            assert(m =~= "Invalid replay file: "@ + s@ + z);
            lemma_occurs_between("Invalid replay file: "@, s@, z, m);
        },
        SimError::SessionTerminated => {},
    }
}

fn concat2(a: &str, b: &str) -> (r: String)
    ensures
        r@ == a@ + b@,
{
    let mut r = String::new();
    r.append(a);
    r.append(b);
    r
}

fn concat3(a: &str, b: &str, c: &str) -> (r: String)
    ensures
        r@ == a@ + b@ + c@,
{
    let mut r = String::new();
    r.append(a);
    r.append(b);
    r.append(c);
    r
}

impl SimError {
    /// The message shown to the user for this error.
    pub fn message(&self) -> (m: String)
        ensures
            m@ == message_of(*self),
    {
        match self {
            SimError::HttpError(s) => concat2("HTTP request failed: ", s.as_str()),
            SimError::InputError(s) => concat2("Failed to read user input: ", s.as_str()),
            SimError::InvalidResponse(s) => concat3(
                "Invalid response from app: expected 'CON' or 'END' prefix, got: '",
                s.as_str(),
                "'",
            ),
            SimError::AppUnreachable { url, reason } => {
                let mut m = concat3("App is unreachable at '", url.as_str(), "': ");
                m.append(reason.as_str());
                m
            },
            SimError::InvalidUssdCode(s) => concat3(
                "Invalid USSD code '",
                s.as_str(),
                "': must start with * and end with #",
            ),
            SimError::InvalidAppUrl(s) => concat3(
                "Invalid app URL '",
                s.as_str(),
                "': must be a valid HTTP/HTTPS URL",
            ),
            SimError::MaxStepsReached(n) => {
                let d = decimal_string(*n as u64);
                concat3(
                    "Session reached maximum steps (",
                    d.as_str(),
                    ") \u{2014} possible infinite loop detected",
                )
            },
            SimError::Timeout(n) => {
                let d = decimal_string(*n);
                concat3("Request timed out after ", d.as_str(), " seconds")
            },
            SimError::LogError(s) => concat2("Failed to write session log: ", s.as_str()),
            SimError::ConfigError(s) => concat2("Failed to read config file: ", s.as_str()),
            SimError::ReplayFileNotFound(s) => concat3("Replay file not found: '", s.as_str(), "'"),
            SimError::InvalidReplayFile(s) => concat2("Invalid replay file: ", s.as_str()),
            SimError::SessionTerminated => "Session ended unexpectedly".to_owned(),
        }
    }
}

} // verus!
