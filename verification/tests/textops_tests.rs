use installer_sim::term::is_interrupt_chord;
use installer_sim::textops::{is_blank, line_contains, trimmed_starts_with};

#[test]
fn blank_lines_are_exactly_the_whitespace_only_lines() {
    assert!(is_blank(""));
    assert!(is_blank("   \t  "));
    assert!(is_blank("\u{a0}\u{3000}"));
    assert!(!is_blank("  x  "));
}

#[test]
fn line_contains_finds_substrings_anywhere() {
    assert!(line_contains("mounting the filesystem", "mount"));
    assert!(line_contains("abc", ""));
    assert!(line_contains("abc", "abc"));
    assert!(!line_contains("abc", "abcd"));
    assert!(!line_contains("Loading", "loading"));
}

#[test]
fn trimmed_starts_with_ignores_leading_whitespace_only() {
    assert!(trimmed_starts_with("   CC file.o", "CC"));
    assert!(trimmed_starts_with("CC file.o", "CC"));
    assert!(!trimmed_starts_with("  aCC file.o", "CC"));
    assert!(!trimmed_starts_with("   ", "CC"));
}

#[test]
fn only_control_c_is_the_interrupt_chord() {
    assert!(is_interrupt_chord(true, 'c'));
    assert!(!is_interrupt_chord(false, 'c'));
    assert!(!is_interrupt_chord(true, 'x'));
    assert!(!is_interrupt_chord(false, 'q'));
}
