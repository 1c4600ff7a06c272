use live_reload::text::{decimal, digit, push_decimal, starts_at, substitute, to_chars};

#[test]
fn substitute_replaces_every_occurrence() {
    assert_eq!(substitute("a{x}b{x}c", "{x}", "1"), "a1b1c");
}

#[test]
fn substitute_without_an_occurrence_copies_the_text() {
    assert_eq!(substitute("plain text", "{x}", "1"), "plain text");
}

#[test]
fn substitute_at_both_ends() {
    assert_eq!(substitute("{x}mid{x}", "{x}", "<>"), "<>mid<>");
}

#[test]
fn substitute_takes_occurrences_from_the_left_without_overlap() {
    assert_eq!(substitute("aaa", "aa", "b"), "ba");
    assert_eq!(substitute("aaaa", "aa", "b"), "bb");
}

#[test]
fn substitute_does_not_search_what_it_put_in() {
    assert_eq!(substitute("x", "x", "xx"), "xx");
    assert_eq!(substitute("ab", "a", "ab"), "abb");
}

#[test]
fn substitute_with_an_empty_value_removes_the_token() {
    assert_eq!(substitute("{a{x}b}", "{x}", ""), "{ab}");
}

#[test]
fn substitute_with_an_empty_token_changes_nothing() {
    assert_eq!(substitute("abc", "", "-"), "abc");
}

#[test]
fn substitute_in_empty_text_gives_empty_text() {
    assert_eq!(substitute("", "x", "y"), "");
}

#[test]
fn substitute_with_a_token_longer_than_the_text() {
    assert_eq!(substitute("ab", "abc", "y"), "ab");
}

#[test]
fn substitute_keeps_characters_outside_ascii() {
    assert_eq!(substitute("gr\u{fc}\u{df} {x} \u{1f600}", "{x}", "\u{e9}"), "gr\u{fc}\u{df} \u{e9} \u{1f600}");
}

#[test]
fn substitute_agrees_with_str_replace() {
    let cases = [
        ("{addr}:{port}", "{addr}", "host"),
        ("{{addr}}", "{addr}", "{addr}"),
        ("abcabcab", "abcab", "-"),
        ("mississippi", "ss", "SS"),
        ("mississippi", "issi", "_"),
    ];
    for (text, token, value) in cases {
        assert_eq!(substitute(text, token, value), text.replace(token, value));
    }
}

#[test]
fn to_chars_gives_the_characters_in_order() {
    assert_eq!(to_chars("a\u{e9}z"), vec!['a', '\u{e9}', 'z']);
    assert_eq!(to_chars(""), Vec::<char>::new());
}

#[test]
fn starts_at_finds_a_token_where_it_stands() {
    let text = to_chars("hello world");
    let token = to_chars("world");
    assert!(starts_at(&text, 6, &token));
    assert!(!starts_at(&text, 5, &token));
    assert!(!starts_at(&text, 7, &token));
    assert!(!starts_at(&text, 11, &token));
    assert!(starts_at(&text, 11, &Vec::new()));
}

#[test]
fn digit_gives_each_decimal_digit() {
    let digits: Vec<char> = (0u8..10).map(digit).collect();
    assert_eq!(digits, vec!['0', '1', '2', '3', '4', '5', '6', '7', '8', '9']);
}

#[test]
fn decimal_writes_numbers_without_leading_zeros() {
    assert_eq!(decimal(0), "0");
    assert_eq!(decimal(7), "7");
    assert_eq!(decimal(10), "10");
    assert_eq!(decimal(8080), "8080");
    assert_eq!(decimal(65535), "65535");
    assert_eq!(decimal(u64::MAX), "18446744073709551615");
}

#[test]
fn push_decimal_appends_to_what_is_there() {
    let mut out = String::from("port ");
    push_decimal(&mut out, 443);
    assert_eq!(out, "port 443");
}
