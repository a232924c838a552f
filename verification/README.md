# ussd_sim

A USSD session simulator: it plays the telecom gateway between a phone and a
USSD application, so that an application can be tested from a terminal.

- `src/` is the library, verified with Verus: the session state machine
  (steps, the step limit, how inputs are joined with `*`, the log it keeps),
  parsing of the application's `CON`/`END` replies, the checks on `dial`'s
  arguments, how command-line options override saved defaults, replaying a
  logged session, error messages and the text of every screen.
- `app/` is the `ussd-sim` program around it: command-line parsing (clap),
  the configuration file (TOML), session logs (JSON), HTTP (reqwest), timers
  (tokio) and the terminal.
- `tests/` exercises the library on concrete values.
