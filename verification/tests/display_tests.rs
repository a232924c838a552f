use ussd_sim::display::Display;

fn rule() -> String {
    "\u{2500}".repeat(41)
}

#[test]
fn banner_text() {
    let expected = format!(
        "\n\u{250c}{}\u{2510}\n\u{2502}         USSD Session Simulator       \u{2502}\n\u{2514}{}\u{2518}\n  \u{1f4de} Code  : {}\n  \u{1f310} App   : {}\n  \u{1f4f1} Phone : {}\n{}\n",
        "\u{2500}".repeat(37),
        "\u{2500}".repeat(37),
        "*737#",
        "http://localhost:3000",
        "+2348000000000",
        rule()
    );
    assert_eq!(Display::banner("*737#", "http://localhost:3000", "+2348000000000"), expected);
}

#[test]
fn menu_and_end_text() {
    assert_eq!(Display::menu("Welcome\n1. Balance"), format!("\nWelcome\n1. Balance\n{}\n", rule()));
    assert_eq!(
        Display::end("Transfer successful!"),
        format!("\nTransfer successful!\n{}\n\u{2705} Session ended.\n\n", rule())
    );
}

#[test]
fn error_text() {
    assert_eq!(Display::error("boom"), "\n\u{274c} Error: boom\n\n");
}

#[test]
fn step_text() {
    assert_eq!(Display::step(3, "2*0123456789"), "  [Step 3] Input so far: \"2*0123456789\"\n");
    assert_eq!(Display::step(1, ""), "  [Step 1] Input so far: \"\"\n");
}

#[test]
fn log_saved_text() {
    assert_eq!(Display::log_saved("/tmp/a.json"), "  \u{1f4be} Session log saved: /tmp/a.json\n");
}

#[test]
fn replay_texts() {
    let expected = format!(
        "\n\u{250c}{}\u{2510}\n\u{2502}         USSD Session Replay          \u{2502}\n\u{2514}{}\u{2518}\n  \u{1f4de} Code        : {}\n  \u{1f310} App         : {}\n  \u{1f4f1} Phone       : {}\n  \u{1f522} Total Steps : {}\n{}\n",
        "\u{2500}".repeat(37),
        "\u{2500}".repeat(37),
        "*737#",
        "http://a",
        "+1",
        12,
        rule()
    );
    assert_eq!(Display::replay_banner("*737#", "http://a", "+1", 12), expected);
    assert_eq!(
        Display::replay_step(2, "2", Some("0123"), "Enter amount:"),
        format!(
            "\n  [Step 2]\n  \u{1f4e4} Sent  : \"2\"\n  \u{1f4e5} Got   : Enter amount:\n  \u{2328}\u{fe0f}  Input : \"0123\"\n{}\n",
            rule()
        )
    );
    assert_eq!(
        Display::replay_step(3, "2*0123", None, "Done"),
        format!("\n  [Step 3]\n  \u{1f4e4} Sent  : \"2*0123\"\n  \u{1f4e5} Got   : Done\n{}\n", rule())
    );
    assert_eq!(Display::replay_done(), "\n\u{2705} Replay complete.\n\n");
    assert_eq!(Display::config_saved(), "\n\u{2705} Config saved.\n\n");
}
