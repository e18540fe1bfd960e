use shell_gateway::text::{at_most_one_word, decimal_text, has_prefix, joined, same_text, space, trimmed};

#[test]
fn trimming_removes_unicode_space() {
    assert_eq!(trimmed("\u{3000} cd x\t\n"), "cd x");
    assert_eq!(trimmed("   "), "");
    assert_eq!(trimmed(""), "");
}

#[test]
fn space_matches_std() {
    for c in ['\t', '\n', ' ', '\u{85}', '\u{a0}', '\u{2009}', '\u{3000}', 'a', '\u{200b}', '_'] {
        assert_eq!(space(c), c.is_whitespace());
    }
}

#[test]
fn prefixes_and_equality() {
    assert!(has_prefix("cd x", "cd "));
    assert!(!has_prefix("cd", "cd "));
    assert!(same_text("exit", "exit"));
    assert!(!same_text("exit", "exi"));
    assert_eq!(joined("ab", "cd"), "abcd");
}

#[test]
fn word_counting() {
    assert!(at_most_one_word("  git  "));
    assert!(at_most_one_word(""));
    assert!(!at_most_one_word("git st"));
}

#[test]
fn decimal_numbers() {
    assert_eq!(decimal_text(0), "0");
    assert_eq!(decimal_text(7), "7");
    assert_eq!(decimal_text(255), "255");
    assert_eq!(decimal_text(-40), "-40");
    assert_eq!(decimal_text(i32::MAX), "2147483647");
    assert_eq!(decimal_text(i32::MIN), "-2147483648");
}
