use bob::name::{
    blank_disallowed, hyphenate, sanitize_channel_name, to_ascii_lowercase, trim_spaces,
    truncate_to_bytes, NAME_LIMIT, NOT_A_NAME_CHAR,
};

fn is_room_name(name: &str) -> bool {
    name.len() <= 100
        && name.chars().all(|c| c.is_ascii_lowercase() || c.is_ascii_digit() || c == '-')
        && !name.starts_with('-')
        && !name.ends_with('-')
}

#[test]
fn sanitize_my_room() {
    assert_eq!(sanitize_channel_name("My Room!!"), "my-room");
}

#[test]
fn sanitize_only_spaces_is_empty() {
    assert_eq!(sanitize_channel_name("   "), "");
}

#[test]
fn sanitize_empty_is_empty() {
    assert_eq!(sanitize_channel_name(""), "");
}

#[test]
fn sanitize_without_letters_or_digits_is_empty() {
    assert_eq!(sanitize_channel_name("!?#*()"), "");
}

#[test]
fn sanitize_keeps_first_hundred_of_150() {
    let long = "a".repeat(150);
    assert_eq!(sanitize_channel_name(&long), "a".repeat(100));
}

#[test]
fn sanitize_cuts_before_it_cleans() {
    // The hundredth character is a space: it is kept by the cut and dropped by the trim.
    let mut text = "a".repeat(99);
    text.push_str(" bcd");
    assert_eq!(sanitize_channel_name(&text), "a".repeat(99));
    // What follows the first hundred characters never shows.
    let mut text = "x".repeat(98);
    text.push_str("!!yz");
    assert_eq!(sanitize_channel_name(&text), "x".repeat(98));
}

#[test]
fn sanitize_exactly_one_hundred_is_kept() {
    let text = "b7".repeat(50);
    assert_eq!(sanitize_channel_name(&text), text);
}

#[test]
fn sanitize_lowers_capitals_and_keeps_digits() {
    assert_eq!(sanitize_channel_name("ROOM 42"), "room-42");
    assert_eq!(sanitize_channel_name("AZaz09"), "azaz09");
}

#[test]
fn sanitize_does_not_collapse_spaces() {
    assert_eq!(sanitize_channel_name("a  b"), "a--b");
    assert_eq!(sanitize_channel_name("a!?b"), "a--b");
    assert_eq!(sanitize_channel_name("my - room"), "my---room");
}

#[test]
fn sanitize_drops_hyphens_at_the_ends() {
    assert_eq!(sanitize_channel_name("--a--"), "a");
    assert_eq!(sanitize_channel_name("  room  "), "room");
    assert_eq!(sanitize_channel_name("!room one!"), "room-one");
}

#[test]
fn sanitize_blanks_line_breaks_and_tabs() {
    assert_eq!(sanitize_channel_name("a\nb\tc\r\nd"), "a-b-c--d");
    assert_eq!(sanitize_channel_name("\nroom\n"), "room");
}

#[test]
fn sanitize_blanks_characters_outside_ascii() {
    assert_eq!(sanitize_channel_name("café au lait"), "caf--au-lait");
    assert_eq!(sanitize_channel_name("Ünïcödé"), "n-c-d");
    assert_eq!(sanitize_channel_name("日本語"), "");
    assert_eq!(sanitize_channel_name("É"), "");
}

#[test]
fn sanitize_cuts_between_characters() {
    // 99 bytes, then a character of two bytes: it does not fit, and what follows it is dropped too.
    let mut text = "a".repeat(99);
    text.push_str("éb");
    assert_eq!(sanitize_channel_name(&text), "a".repeat(99));
    // 50 characters of two bytes fill the hundred bytes.
    let mut text = "é".repeat(50);
    text.push_str("abc");
    assert_eq!(sanitize_channel_name(&text), "");
    // 49 of them leave room for two more bytes.
    let mut text = "é".repeat(49);
    text.push_str("abc");
    assert_eq!(sanitize_channel_name(&text), "ab");
}

#[test]
fn sanitize_is_idempotent_on_examples() {
    let long = "Long Name ".repeat(20);
    let inputs = [
        "My Room!!",
        "   ",
        "",
        "a  b",
        "--a--b--",
        "already-clean-name",
        "MiXeD 123 !!! ___ end",
        "café au lait",
        "tab\tand\nline",
        long.as_str(),
    ];
    for input in inputs.iter() {
        let once = sanitize_channel_name(input);
        let twice = sanitize_channel_name(&once);
        assert_eq!(twice, once);
    }
}

#[test]
fn sanitize_gives_room_names() {
    let long = "Émile's Room, 2nd floor! ".repeat(12);
    let inputs = [
        "My Room!!",
        "   ",
        "-",
        "-a-",
        "a  b",
        "UPPER lower 0123456789",
        "日本語 room",
        long.as_str(),
    ];
    for input in inputs.iter() {
        let name = sanitize_channel_name(input);
        assert!(is_room_name(&name));
    }
}

#[test]
fn name_limit_is_one_hundred() {
    assert_eq!(NAME_LIMIT, 100);
}

#[test]
fn truncate_to_bytes_keeps_whole_characters() {
    assert_eq!(truncate_to_bytes("hello", 3), "hel");
    assert_eq!(truncate_to_bytes("hello", 5), "hello");
    assert_eq!(truncate_to_bytes("hello", 9), "hello");
    assert_eq!(truncate_to_bytes("hello", 0), "");
    assert_eq!(truncate_to_bytes("", 4), "");
    assert_eq!(truncate_to_bytes("aé", 2), "a");
    assert_eq!(truncate_to_bytes("aé", 3), "aé");
    assert_eq!(truncate_to_bytes("€a", 2), "");
    assert_eq!(truncate_to_bytes("€a", 3), "€");
    assert_eq!(truncate_to_bytes("😀a", 3), "");
    assert_eq!(truncate_to_bytes("😀a", 4), "😀");
    assert_eq!(truncate_to_bytes("😀a", 5), "😀a");
}

#[test]
fn truncate_to_bytes_stops_at_the_first_that_does_not_fit() {
    // The "b" would fit in the budget, but it stands behind a character that does not.
    assert_eq!(truncate_to_bytes("a€b", 2), "a");
}

#[test]
fn to_ascii_lowercase_leaves_other_characters() {
    assert_eq!(to_ascii_lowercase("Hello, World!"), "hello, world!");
    assert_eq!(to_ascii_lowercase("ABCXYZ@[`{"), "abcxyz@[`{");
    assert_eq!(to_ascii_lowercase("ÉCOLE"), "École");
    assert_eq!(to_ascii_lowercase(""), "");
}

#[test]
fn blank_disallowed_puts_spaces() {
    assert_eq!(blank_disallowed("ab-C d_9"), "ab   d 9");
    assert_eq!(blank_disallowed("abc012xyz789"), "abc012xyz789");
    assert_eq!(blank_disallowed("a\nb"), "a b");
    assert_eq!(blank_disallowed("é€😀"), "   ");
    assert_eq!(blank_disallowed("$1 $name"), " 1  name");
    assert_eq!(blank_disallowed(""), "");
}

#[test]
fn pattern_is_the_negated_class() {
    assert_eq!(NOT_A_NAME_CHAR, "[^a-z0-9]");
}

#[test]
fn trim_spaces_drops_both_ends() {
    assert_eq!(trim_spaces("  a b  "), "a b");
    assert_eq!(trim_spaces("a b"), "a b");
    assert_eq!(trim_spaces(" a"), "a");
    assert_eq!(trim_spaces("a "), "a");
    assert_eq!(trim_spaces("   "), "");
    assert_eq!(trim_spaces(" "), "");
    assert_eq!(trim_spaces(""), "");
    assert_eq!(trim_spaces(" x "), "x");
}

#[test]
fn hyphenate_writes_each_space_as_a_hyphen() {
    assert_eq!(hyphenate("a b  c"), "a-b--c");
    assert_eq!(hyphenate("abc"), "abc");
    assert_eq!(hyphenate(" "), "-");
    assert_eq!(hyphenate(""), "");
}
