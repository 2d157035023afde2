use xivtools::talan::lists::{parse_item_list, parse_list_line, ListItem};

const TEST_DATA: &str = "3x ItemName
    0x Item Name
    1000x Item Name";

const TEST_DATA_RESULTS: [(&'static str, u32); 3] =
    [("ItemName", 3), ("Item Name", 1), ("Item Name", 1000)];

#[test]
fn buffer_parse_test() {
    for (actual, expected) in parse_item_list(TEST_DATA).unwrap().iter().zip(TEST_DATA_RESULTS.iter()) {
        assert_eq!(*actual, ListItem { item: expected.0.to_string(), count: expected.1 });
    }
}

#[test]
fn line_parse_test() {
    for (i, line) in TEST_DATA.lines().enumerate() {
        let r = parse_list_line(line.trim()).unwrap();
        assert_eq!(r.item, TEST_DATA_RESULTS[i].0);
        assert_eq!(r.count, TEST_DATA_RESULTS[i].1);
    }
}

#[test]
fn line_parse_invalid_test() {
    assert!(parse_list_line("").is_err());
    assert!(parse_list_line("x name").is_err());
    assert!(parse_list_line("xname").is_err());
}

#[test]
fn list_name_keeps_every_word() {
    assert_eq!(
        parse_item_list("2x Wax Candle").unwrap(),
        vec![ListItem { item: "Wax Candle".to_string(), count: 2 }]
    );
    assert_eq!(parse_list_line("3x Box of Wax Candles").unwrap().item, "Box of Wax Candles");
}
