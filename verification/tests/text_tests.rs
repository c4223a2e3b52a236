use agriculture_drone::text::{concat2, concat3, int_to_text, parse_int, text_eq};

#[test]
fn int_to_text_writes_decimal() {
    assert_eq!(int_to_text(0), "0");
    assert_eq!(int_to_text(7), "7");
    assert_eq!(int_to_text(130), "130");
    assert_eq!(int_to_text(-42), "-42");
    assert_eq!(int_to_text(i32::MAX), "2147483647");
    assert_eq!(int_to_text(i32::MIN), "-2147483648");
}

#[test]
fn int_to_text_matches_to_string() {
    for x in [-1000, -101, -10, -9, -1, 0, 1, 9, 10, 99, 100, 105, 65536, 1_000_000_007] {
        assert_eq!(int_to_text(x), x.to_string());
    }
}

#[test]
fn parse_int_accepts_what_str_parse_accepts() {
    assert_eq!(parse_int("35"), Some(35));
    assert_eq!(parse_int("+7"), Some(7));
    assert_eq!(parse_int("-0"), Some(0));
    assert_eq!(parse_int("007"), Some(7));
    assert_eq!(parse_int("-2147483648"), Some(i32::MIN));
    assert_eq!(parse_int("2147483647"), Some(i32::MAX));
}

#[test]
fn parse_int_refuses_what_str_parse_refuses() {
    for s in ["", "-", "+", "12a", " 1", "1 ", "2147483648", "-2147483649", "99999999999999", "1_000", "--1", "+-1", "٣"] {
        assert_eq!(parse_int(s), None, "{:?}", s);
        assert!(s.parse::<i32>().is_err());
    }
}

#[test]
fn parse_int_agrees_with_str_parse() {
    for s in ["0", "-5", "+0", "00000000000000000001", "-00", "2147483646", "-2147483647", "x", "5-", "1e3"] {
        assert_eq!(parse_int(s), s.parse::<i32>().ok(), "{:?}", s);
    }
}

#[test]
fn law_text_round_trip() {
    for x in [i32::MIN, i32::MIN + 1, -123456, -1, 0, 1, 42, 300, i32::MAX - 1, i32::MAX] {
        assert_eq!(parse_int(&int_to_text(x)), Some(x));
    }
}

#[test]
fn text_helpers() {
    assert!(text_eq("Maintain", "Maintain"));
    assert!(!text_eq("Maintain", "Maintai"));
    assert!(!text_eq("Maintain", "maintain"));
    assert!(text_eq("", ""));
    assert_eq!(concat2("Propellers: ", "Remain"), "Propellers: Remain");
    assert_eq!(concat3("a", "", "c"), "ac");
}
