use stomper::settings::{find_setting, parse_int, SType};

#[test]
fn finds_value_after_equals() {
    let text = b"# display\nscale = 3  # window size\nname = stomper\n";
    assert_eq!(find_setting(text, b"scale"), Some(b"3".to_vec()));
    assert_eq!(find_setting(text, b"name"), Some(b"stomper".to_vec()));
}

#[test]
fn missing_setting_is_none() {
    let text = b"scale = 3\n";
    assert_eq!(find_setting(text, b"volume"), None);
    assert_eq!(find_setting(b"", b"scale"), None);
}

#[test]
fn comment_hides_value() {
    assert_eq!(find_setting(b"scale # = 3\n", b"scale"), None);
    assert_eq!(find_setting(b"scale = # 3\n", b"scale"), None);
}

#[test]
fn whitespace_is_removed_from_value() {
    assert_eq!(find_setting(b"title = big  game\r\n", b"title"), Some(b"biggame".to_vec()));
}

#[test]
fn first_line_with_a_value_wins() {
    let text = b"scale =\nscale = 2\nscale = 4";
    assert_eq!(find_setting(text, b"scale"), Some(b"2".to_vec()));
}

#[test]
fn value_after_first_equals_only() {
    assert_eq!(find_setting(b"a = b = c", b"a"), Some(b"b=c".to_vec()));
}

#[test]
fn parses_decimal_integers() {
    assert_eq!(parse_int(b"3"), Some(3));
    assert_eq!(parse_int(b"-12"), Some(-12));
    assert_eq!(parse_int(b"+7"), Some(7));
    assert_eq!(parse_int(b"007"), Some(7));
    assert_eq!(parse_int(b"2147483647"), Some(i32::MAX));
    assert_eq!(parse_int(b"-2147483648"), Some(i32::MIN));
}

#[test]
fn rejects_other_text() {
    assert_eq!(parse_int(b""), None);
    assert_eq!(parse_int(b"-"), None);
    assert_eq!(parse_int(b"+"), None);
    assert_eq!(parse_int(b"12a"), None);
    assert_eq!(parse_int(b" 1"), None);
    assert_eq!(parse_int(b"2147483648"), None);
    assert_eq!(parse_int(b"-2147483649"), None);
    assert_eq!(parse_int(b"99999999999999999999"), None);
}

#[test]
fn setting_types_compare() {
    let a: SType<f32, i32, String> = SType::Int(2);
    assert_eq!(a, SType::Int(2));
    assert_ne!(a, SType::String(String::from("2")));
}

#[test]
fn unicode_whitespace_is_removed_from_value() {
    // k=2 followed by a no-break space
    let text = "k=2\u{a0}\n".as_bytes();
    assert_eq!(find_setting(text, b"k"), Some(b"2".to_vec()));
    assert_eq!(parse_int(&find_setting(text, b"k").unwrap()), Some(2));
    let wide = "scale =\u{3000}4\u{2003}\u{85}\u{2028}".as_bytes();
    assert_eq!(find_setting(wide, b"scale"), Some(b"4".to_vec()));
    let other = "name = caf\u{e9}\u{202f}x".as_bytes();
    assert_eq!(find_setting(other, b"name"), Some("caf\u{e9}x".as_bytes().to_vec()));
}

#[test]
fn value_of_only_whitespace_is_skipped() {
    let text = "k = \u{a0}\u{1680}\nk = 5".as_bytes();
    assert_eq!(find_setting(text, b"k"), Some(b"5".to_vec()));
}
