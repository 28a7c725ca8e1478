use chatbot_core::text::remove_occurrences;
use chatbot_core::text::trim_text;
use chatbot_core::text::u64_to_string;

#[test]
fn trim_removes_leading_and_trailing_whitespace() {
    assert_eq!(trim_text("  Hello there \n"), "Hello there");
    assert_eq!(trim_text("\t\n x \t"), "x");
}

#[test]
fn trim_of_empty_and_all_whitespace_is_empty() {
    assert_eq!(trim_text(""), "");
    assert_eq!(trim_text(" \n\t  "), "");
}

#[test]
fn trim_keeps_inner_whitespace() {
    assert_eq!(trim_text("a b  c"), "a b  c");
}

#[test]
fn remove_occurrences_removes_every_match() {
    assert_eq!(remove_occurrences("abcabcabc", "b"), "acacac");
    assert_eq!(remove_occurrences("hello <@1> world <@1>", "<@1>"), "hello  world ");
}

#[test]
fn remove_occurrences_scans_left_to_right_without_rescanning() {
    // Removing "aa" from "aaa" consumes the first two characters and
    // leaves the third, exactly like str::replace("aa", "").
    assert_eq!(remove_occurrences("aaa", "aa"), "a");
    assert_eq!("aaa".replace("aa", ""), "a");
}

#[test]
fn remove_occurrences_with_empty_pattern_changes_nothing() {
    assert_eq!(remove_occurrences("abc", ""), "abc");
}

#[test]
fn remove_occurrences_of_absent_pattern_changes_nothing() {
    assert_eq!(remove_occurrences("abc", "xyz"), "abc");
}

#[test]
fn u64_formatting_matches_std() {
    assert_eq!(u64_to_string(0), "0");
    assert_eq!(u64_to_string(7), "7");
    assert_eq!(u64_to_string(10), "10");
    assert_eq!(u64_to_string(1234567890123456789), 1234567890123456789u64.to_string());
    assert_eq!(u64_to_string(u64::MAX), u64::MAX.to_string());
}
