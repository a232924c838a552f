//! A USSD session simulator: the logic of a telecom gateway that dials a
//! USSD code against an application, joins the user's input into the text
//! it sends, logs every step, and replays logged sessions.
//!
//! - [`text`]: whitespace, trimming, prefixes and decimal numbers.
//! - [`error`]: the simulator's errors and their messages.
//! - [`http`]: the request sent to the application and its `CON`/`END` reply.
//! - [`logger`]: the session log and the name of its file.
//! - [`session`]: the session's state machine and its invariant.
//! - [`replay`]: sending a logged session again.
//! - [`config`]: saved defaults and how options override them.
//! - [`cli`]: the commands and the checks on `dial`.
//! - [`display`]: the text of every screen.

pub mod cli;
pub mod config;
pub mod display;
pub mod error;
pub mod http;
pub mod logger;
pub mod replay;
pub mod session;
pub mod text;
