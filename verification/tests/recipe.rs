use xivtools::cli::recipe::{parse_macro_line, try_parse_macro_line};

#[test]
fn test_macro_single_unqoted_no_wait() {
    // single word, unquoted, with no wait
    let (action, wait) = parse_macro_line(r#"/ac Innovation"#).unwrap();
    assert_eq!(action, "Innovation");
    assert_eq!(wait, 3);
}

#[test]
fn test_macro_single_qoted_no_wait() {
    // single word, quoted, with no wait
    let (action, wait) = parse_macro_line(r#"/ac "Innovation""#).unwrap();
    assert_eq!(action, "Innovation");
    assert_eq!(wait, 3);
}

#[test]
fn test_macro_single_unqoted_with_wait() {
    // single word, unquoted, with a wait
    let (action, wait) = parse_macro_line(r#"/ac Innovation <wait.2>"#).unwrap();
    assert_eq!(action, "Innovation");
    assert_eq!(wait, 2);
}

#[test]
fn test_macro_single_quoted_with_wait() {
    // single word, quoted, with a wait
    let (action, wait) = parse_macro_line(r#"/ac "Innovation" <wait.2>"#).unwrap();
    assert_eq!(action, "Innovation");
    assert_eq!(wait, 2);
}

#[test]
fn test_macro_double_quoted_no_wait() {
    // two words, quoted, with no wait
    let (action, wait) = parse_macro_line(r#"/ac "Byregot's Blessing""#).unwrap();
    assert_eq!(action, "Byregot's Blessing");
    assert_eq!(wait, 3);
}

#[test]
fn test_macro_double_quoted_with_wait() {
    // two words, quoted, with a wait
    let (action, wait) = parse_macro_line(r#"/ac "Byregot's Blessing" <wait.3>"#).unwrap();
    assert_eq!(action, "Byregot's Blessing");
    assert_eq!(wait, 3);
}

#[test]
fn test_macro_whitespace() {
    let result = parse_macro_line(r#"                     "#);
    assert_eq!(result.is_err(), true);
}

#[test]
fn test_macro_empty() {
    let result = parse_macro_line(r#""#);
    assert_eq!(result.is_err(), true);
}

#[test]
fn macro_line_error_names_the_line() {
    let result = parse_macro_line("no action here");
    assert_eq!(result, Err("Unable to parse line: no action here".to_string()));
}

#[test]
fn macro_line_found_inside_other_text() {
    // The pattern is searched for, so text before the command is passed over.
    let (action, wait) = parse_macro_line("say hi then /ac Observe <wait.9>").unwrap();
    assert_eq!(action, "Observe");
    assert_eq!(wait, 9);
}

#[test]
fn macro_line_checked_form() {
    assert_eq!(try_parse_macro_line("/ac Veneration <wait.2>"), Some(Ok(("Veneration", 2))));
    assert_eq!(
        try_parse_macro_line("nothing"),
        Some(Err("Unable to parse line: nothing".to_string()))
    );
}
