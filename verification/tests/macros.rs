use xivtools::cli::macros as cli_macros;
use xivtools::talan::action::Action;
use xivtools::talan::macros::{parse_buffer, parse_line};

fn talan_action(key: &str) -> Action {
    xivtools::talan::action::lookup_action(&key.chars().collect()).unwrap()
}

#[test]
fn macros_macros_single_unqoted_no_wait() {
    // single word, unquoted, with no wait
    let entry = cli_macros::parse_line(r#"/ac Innovation"#).unwrap();
    assert_eq!(entry.name, "Innovation");
    assert_eq!(entry.wait, 3);
    let entry = parse_line(r#"/ac Innovation"#).unwrap();
    assert_eq!(entry.name, "Innovation");
    assert_eq!(entry.wait_ms, 1500);
}

#[test]
fn macros_macros_single_qoted_no_wait() {
    // single word, quoted, with no wait
    let entry = cli_macros::parse_line(r#"/ac "Innovation""#).unwrap();
    assert_eq!(entry.name, "Innovation");
    assert_eq!(entry.wait, 3);
    let entry = parse_line(r#"/ac "Innovation""#).unwrap();
    assert_eq!(entry.name, "Innovation");
    assert_eq!(entry.wait_ms, 1500);
}

#[test]
fn macros_macros_single_unqoted_with_wait() {
    // single word, unquoted, with a wait
    let entry = cli_macros::parse_line(r#"/ac Innovation <wait.2>"#).unwrap();
    assert_eq!(entry.name, "Innovation");
    assert_eq!(entry.wait, 2);
    let entry = parse_line(r#"/ac Innovation <wait.2>"#).unwrap();
    assert_eq!(entry.name, "Innovation");
    assert_eq!(entry.wait_ms, 1500);
}

#[test]
fn macros_macros_single_quoted_with_wait() {
    // single word, quoted, with a wait
    let entry = cli_macros::parse_line(r#"/ac "Innovation" <wait.2>"#).unwrap();
    assert_eq!(entry.name, "Innovation");
    assert_eq!(entry.wait, 2);
    let entry = parse_line(r#"/ac "Innovation" <wait.2>"#).unwrap();
    assert_eq!(entry.name, "Innovation");
    assert_eq!(entry.wait_ms, 1500);
}

#[test]
fn macros_macros_double_quoted_no_wait() {
    // two words, quoted, with no wait
    let entry = cli_macros::parse_line(r#"/ac "Byregot's Blessing""#).unwrap();
    assert_eq!(entry.name, "Byregot's Blessing");
    assert_eq!(entry.wait, 3);
    let entry = parse_line(r#"/ac "Byregot's Blessing""#).unwrap();
    assert_eq!(entry.name, "Byregot's Blessing");
    assert_eq!(entry.wait_ms, 2500);
}

#[test]
fn macros_macros_double_quoted_with_wait() {
    // two words, quoted, with a wait
    let entry = cli_macros::parse_line(r#"/ac "Byregot's Blessing" <wait.3>"#).unwrap();
    assert_eq!(entry.name, "Byregot's Blessing");
    assert_eq!(entry.wait, 3);
    let entry = parse_line(r#"/ac "Byregot's Blessing" <wait.3>"#).unwrap();
    assert_eq!(entry.name, "Byregot's Blessing");
    assert_eq!(entry.wait_ms, 2500);
}

#[test]
fn macros_macros_empty() {
    let result = cli_macros::parse_line(r#""#);
    assert_eq!(result.is_err(), true);
    let result = parse_line(r#""#);
    assert_eq!(result.is_err(), true);
}

fn validate_test_entries(actual: Vec<cli_macros::Action>) -> bool {
    let expected = [
        cli_macros::Action { name: "Comfort Zone".to_string(), wait: 3 },
        cli_macros::Action { name: "Inner Quiet".to_string(), wait: 2 },
        cli_macros::Action { name: "Great Strides".to_string(), wait: 2 },
        cli_macros::Action { name: "Manipulation II".to_string(), wait: 3 },
        cli_macros::Action { name: "Byregot's Blessing".to_string(), wait: 3 },
        cli_macros::Action { name: "Careful Synthesis III".to_string(), wait: 3 },
    ];
    actual == expected
}

const TEST_MACRO_BUFFER: &str = r#"
        /ac "Inner Quiet" <wait.2>
        /ac "Great Strides" <wait.2>
        /ac "Manipulation" <wait.3>
        /ac "Byregot's Blessing" <wait.3>
        #/ac "Commented Action" <wait.1>
        /ac "Careful Synthesis" <wait.3>"#;

#[test]
fn macros_macros_buffer() {
    let test_macros = r#"
        /ac "Comfort Zone" <wait.3>
        /ac "Inner Quiet" <wait.2>
        /ac "Great Strides" <wait.2>
        /ac "Manipulation II" <wait.3>
        /ac "Byregot's Blessing" <wait.3>
        /ac "Careful Synthesis III" <wait.3>"#;

    let actual = cli_macros::parse_buffer(test_macros);
    assert_eq!(validate_test_entries(actual), true);

    let expected = [
        talan_action("inner quiet"),
        talan_action("great strides"),
        talan_action("manipulation"),
        talan_action("byregot's blessing"),
        talan_action("careful synthesis"),
    ];
    let actual = parse_buffer(TEST_MACRO_BUFFER).unwrap();
    for (left, right) in expected.iter().zip(actual.iter()) {
        assert_eq!(left, right);
    }
}
