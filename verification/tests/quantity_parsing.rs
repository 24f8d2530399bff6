use elis_gtk::quantity::parse_usize;

#[test]
fn parse_usize_reads_plain_and_signed_digits() {
    assert_eq!(parse_usize("12"), Some(12));
    assert_eq!(parse_usize("+7"), Some(7));
    assert_eq!(parse_usize("007"), Some(7));
    assert_eq!(parse_usize("0"), Some(0));
}

#[test]
fn parse_usize_refuses_what_std_refuses() {
    for text in ["", "+", "-", "-3", " 4", "4 ", "4a", "1.5", "++1", "\u{663}"] {
        assert_eq!(parse_usize(text), None, "{:?}", text);
        assert_eq!(text.parse::<usize>().ok(), None, "{:?}", text);
    }
}

#[test]
fn parse_usize_handles_the_largest_value_and_overflow() {
    let max = usize::MAX.to_string();
    assert_eq!(parse_usize(&max), Some(usize::MAX));
    let over = format!("{}0", usize::MAX);
    assert_eq!(parse_usize(&over), None);
    let over_by_one = (usize::MAX as u128 + 1).to_string();
    assert_eq!(parse_usize(&over_by_one), None);
}

#[test]
fn parse_usize_reads_back_decimal_text() {
    for n in [0usize, 1, 9, 10, 99, 100, 4096, 123_456_789, usize::MAX / 3, usize::MAX] {
        assert_eq!(parse_usize(&n.to_string()), Some(n));
    }
}

#[test]
fn parse_usize_agrees_with_std() {
    for text in ["1", "+0", "00", "42", "+", "", "x", "9999999999", "-0", "+-1", "12345678901234567890"] {
        assert_eq!(parse_usize(text), text.parse::<usize>().ok(), "{:?}", text);
    }
}
