use ussd_sim::text::{
    decimal_string, ends_with_char, is_whitespace, starts_with, starts_with_char, strip_prefix,
    trim,
};

#[test]
fn trim_removes_surrounding_whitespace() {
    assert_eq!(trim("  Welcome to MyApp \n"), "Welcome to MyApp");
    assert_eq!(trim("Welcome\n1. Balance\n2. Transfer"), "Welcome\n1. Balance\n2. Transfer");
    assert_eq!(trim(""), "");
    assert_eq!(trim(" \t\r\n "), "");
    assert_eq!(trim("x"), "x");
}

#[test]
fn trim_agrees_with_std_on_unicode_whitespace() {
    let samples = [
        "\u{3000}menu\u{2028}",
        "\u{a0}\u{85} a b \u{202f}",
        "\u{1680}\u{2000}\u{200a}x\u{205f}\u{2029}",
        "\u{200b}zero width is not whitespace\u{200b}",
        "\u{feff}bom\u{feff}",
        "  \u{1f4de} call  ",
    ];
    for s in samples.iter() {
        assert_eq!(trim(s), s.trim(), "input {:?}", s);
    }
}

#[test]
fn is_whitespace_agrees_with_std_on_every_char() {
    for u in 0u32..=0x10ffff {
        if let Some(c) = char::from_u32(u) {
            assert_eq!(is_whitespace(c), c.is_whitespace(), "char {:x}", u);
        }
    }
}

#[test]
fn prefix_tests() {
    assert!(starts_with("CON Welcome", "CON "));
    assert!(!starts_with("CONWelcome", "CON "));
    assert!(!starts_with("CO", "CON "));
    assert!(starts_with("anything", ""));
    assert!(starts_with_char("*737#", '*'));
    assert!(!starts_with_char("", '*'));
    assert!(ends_with_char("*737#", '#'));
    assert!(!ends_with_char("*737", '#'));
    assert_eq!(strip_prefix("END Bye", "END "), Some("Bye".to_string()));
    assert_eq!(strip_prefix("end Bye", "END "), None);
    assert_eq!(strip_prefix("héllo wörld", "héllo "), Some("wörld".to_string()));
}

#[test]
fn decimal_rendering_matches_to_string() {
    for n in [0u64, 7, 10, 20, 30, 99, 100, 120, 4294967295, u64::MAX] {
        assert_eq!(decimal_string(n), n.to_string());
    }
}

#[test]
fn trimming_twice_is_trimming_once() {
    for s in ["  a b  ", "\n\u{3000}x\u{3000}\n", "", "   ", "abc"] {
        let once = trim(s);
        assert_eq!(trim(&once), once);
    }
}
