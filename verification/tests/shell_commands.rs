//! The `echo` argument re-joining and the `clear` command.

use eclipse_input::commands::{clear, echo};
use eclipse_input::dispatch::TerminalOp;

fn chars(s: &str) -> Vec<char> {
    s.chars().collect()
}

fn text(v: Vec<char>) -> String {
    v.into_iter().collect()
}

#[test]
fn echo_collapses_runs_of_spaces_to_single_spaces() {
    assert_eq!(text(echo(&chars("a  b   c"))), "a b c");
}

#[test]
fn echo_trims_leading_and_trailing_whitespace() {
    assert_eq!(text(echo(&chars("  hello   world  "))), "hello world");
    assert_eq!(text(echo(&chars("word   "))), "word");
    assert_eq!(text(echo(&chars("   word"))), "word");
}

#[test]
fn echo_treats_tabs_and_newlines_as_separators() {
    assert_eq!(text(echo(&chars("a\t\tb\nc"))), "a b c");
}

#[test]
fn echo_of_empty_and_all_whitespace_input_is_empty() {
    assert_eq!(text(echo(&chars(""))), "");
    assert_eq!(text(echo(&chars("    "))), "");
    assert_eq!(text(echo(&chars("\t \n"))), "");
}

#[test]
fn echo_treats_non_breaking_space_as_a_separator() {
    assert_eq!(text(echo(&chars("a\u{00A0}\u{00A0}b"))), "a b");
}

#[test]
fn echo_keeps_a_single_word_untouched() {
    assert_eq!(text(echo(&chars("hello"))), "hello");
}

#[test]
fn clear_asks_for_exactly_one_clear_screen_action() {
    assert_eq!(clear(), vec![TerminalOp::ClearScreen]);
}
