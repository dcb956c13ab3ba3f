use redux_light::text::parse_id;
use redux_light::text::same_text;

#[test]
fn same_text_compares_characters() {
    assert!(same_text("", ""));
    assert!(same_text("add", "add"));
    assert!(!same_text("add", "adds"));
    assert!(!same_text("add", "ade"));
    assert!(!same_text("add", ""));
    assert!(same_text("caf\u{e9} \u{1f600}", "caf\u{e9} \u{1f600}"));
    assert!(!same_text("caf\u{e9}", "cafe"));
}

#[test]
fn parse_id_agrees_with_the_standard_parser() {
    let cases = [
        "", "0", "7", "42", "007", "+5", "-5", "+", "-", "+-5", "--5", "5-", " 5", "5 ", "1.5",
        "32767", "32768", "-32768", "-32769", "+32767", "+32768", "99999", "100000000000000000000",
        "-0", "+0", "0000032767", "-0000032768", "12a", "a12", "\u{661}\u{662}", "1\u{e9}", "\u{e9}",
        "-\u{e9}",
    ];
    for text in cases {
        assert_eq!(parse_id(text), text.parse::<i16>().ok());
    }
}

#[test]
fn parse_id_exact_values() {
    assert_eq!(parse_id("0"), Some(0));
    assert_eq!(parse_id("12"), Some(12));
    assert_eq!(parse_id("+12"), Some(12));
    assert_eq!(parse_id("-12"), Some(-12));
    assert_eq!(parse_id("32767"), Some(32767));
    assert_eq!(parse_id("-32768"), Some(-32768));
    assert_eq!(parse_id("32768"), None);
    assert_eq!(parse_id("-32769"), None);
    assert_eq!(parse_id(""), None);
    assert_eq!(parse_id("-"), None);
    assert_eq!(parse_id("twelve"), None);
}

#[test]
fn parse_id_on_every_i16() {
    for id in i16::MIN..=i16::MAX {
        assert_eq!(parse_id(&id.to_string()), Some(id));
    }
}

#[test]
fn decimal_writes_numbers_as_to_string_does() {
    let cases = [0usize, 1, 9, 10, 11, 99, 100, 101, 12345, 32767, 1_000_000, usize::MAX];
    for n in cases {
        assert_eq!(redux_light::text::decimal(n), n.to_string());
    }
    assert_eq!(redux_light::text::decimal(0), "0");
    assert_eq!(redux_light::text::decimal(407), "407");
}

#[test]
fn parse_id_reads_back_what_decimal_writes() {
    for id in 0..=i16::MAX {
        assert_eq!(parse_id(&redux_light::text::decimal(id as usize)), Some(id));
    }
}
