use xivtools::talan::lists::{item_list_fits, list_line_fits, parse_item_list, parse_list_line, ListError, ListItem};
use xivtools::text::{
    char_is_alphanumeric, chars_of, lines_of, parse_unsigned_chars, push_digits, push_i32, str_to_lowercase,
    string_from_utf8_lossy, trim_chars,
};

#[test]
fn lowercase_and_alphanumeric_follow_unicode() {
    assert_eq!(str_to_lowercase("Byregot's BLESSING"), "byregot's blessing");
    assert_eq!(str_to_lowercase("ÉCLAIR"), "éclair");
    assert!(char_is_alphanumeric('é'));
    assert!(char_is_alphanumeric('7'));
    assert!(!char_is_alphanumeric('\''));
}

#[test]
fn lossy_decoding() {
    assert_eq!(string_from_utf8_lossy(b"plain"), "plain");
    assert_eq!(string_from_utf8_lossy(&[0x61, 0x80, 0x62]), "a\u{fffd}b");
}

#[test]
fn numbers_as_text() {
    let mut s = String::new();
    push_digits(&mut s, 255, 16);
    push_digits(&mut s, 0, 10);
    push_i32(&mut s, -42);
    assert_eq!(s, "ff0-42");
    assert_eq!(parse_unsigned_chars(&chars_of("+17"), 100), Some(17));
    assert_eq!(parse_unsigned_chars(&chars_of("101"), 100), None);
    assert_eq!(parse_unsigned_chars(&chars_of(""), 100), None);
    assert_eq!(parse_unsigned_chars(&chars_of("1a"), 100), None);
}

#[test]
fn trimming_and_lines() {
    let t: String = trim_chars(&chars_of("  a b\t\n")).into_iter().collect();
    assert_eq!(t, "a b");
    let ls: Vec<String> = lines_of(&chars_of("one\r\ntwo\n\nthree\n")).into_iter().map(|l| l.into_iter().collect()).collect();
    assert_eq!(ls, vec!["one", "two", "", "three"]);
}

#[test]
fn list_lines() {
    assert_eq!(parse_list_line("12x Iron Ingot"), Ok(ListItem { item: "Iron Ingot".to_string(), count: 12 }));
    assert_eq!(parse_list_line("0x Iron Ingot"), Ok(ListItem { item: "Iron Ingot".to_string(), count: 1 }));
    assert_eq!(parse_list_line("Iron Ingot"), Err(ListError::EmptyListItem));
    let items = parse_item_list("2x A\n\nnot an item\n 3x B ").unwrap();
    assert_eq!(items, vec![ListItem { item: "A".to_string(), count: 2 }, ListItem { item: "B".to_string(), count: 3 }]);
}

#[test]
fn list_error_message() {
    assert_eq!(ListError::EmptyListItem.message(), "Empty list item!");
}

#[test]
fn list_counts_that_fit() {
    assert!(list_line_fits("4294967295x Big"));
    assert!(!list_line_fits("4294967296x Too Big"));
    assert!(list_line_fits("no count"));
    assert!(item_list_fits("1x A\n2x B"));
    assert!(!item_list_fits("1x A\n99999999999x B"));
}
