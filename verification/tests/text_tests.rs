use aloha::text::{chat_line, prompt_answer};

#[test]
fn prompt_answer_trims_both_ends() {
    assert_eq!(prompt_answer("  alice \n"), "alice");
    assert_eq!(prompt_answer("\t bob\r\n"), "bob");
    assert_eq!(prompt_answer("   "), "");
    assert_eq!(prompt_answer("a b"), "a b");
}

#[test]
fn prompt_answer_trims_unicode_space() {
    assert_eq!(prompt_answer("\u{3000}carol\u{a0}"), "carol");
}

#[test]
fn chat_line_joins_name_and_message() {
    assert_eq!(chat_line("alice", "hi there"), "alice: hi there");
    assert_eq!(chat_line("", ""), ": ");
}
