use platformer::text::{chars_of, parse_csv_u32, parse_i32, parse_u32, same_text};

fn chars(s: &str) -> Vec<char> {
    s.chars().collect()
}

#[test]
fn parse_u32_accepts_decimal_numbers() {
    assert_eq!(parse_u32(&chars("0")), Some(0));
    assert_eq!(parse_u32(&chars("123")), Some(123));
    assert_eq!(parse_u32(&chars("+7")), Some(7));
    assert_eq!(parse_u32(&chars("007")), Some(7));
    assert_eq!(parse_u32(&chars("4294967295")), Some(u32::MAX));
}

#[test]
fn parse_u32_rejects_what_std_rejects() {
    for s in ["", "+", "-1", "4294967296", "12a", " 1", "1 ", "++1", "99999999999999999999"] {
        assert_eq!(parse_u32(&chars(s)), None, "{:?}", s);
        assert_eq!(s.parse::<u32>().ok(), None, "{:?}", s);
    }
}

#[test]
fn parse_i32_handles_signs_and_range() {
    assert_eq!(parse_i32(&chars("-2147483648")), Some(i32::MIN));
    assert_eq!(parse_i32(&chars("2147483647")), Some(i32::MAX));
    assert_eq!(parse_i32(&chars("-17")), Some(-17));
    assert_eq!(parse_i32(&chars("+17")), Some(17));
    assert_eq!(parse_i32(&chars("2147483648")), None);
    assert_eq!(parse_i32(&chars("-2147483649")), None);
    assert_eq!(parse_i32(&chars("-")), None);
    assert_eq!(parse_i32(&chars("")), None);
}

#[test]
fn parse_csv_reads_every_token() {
    assert_eq!(parse_csv_u32(&chars("1,2,3,\n4, 5,6\n")), Some(vec![1, 2, 3, 4, 5, 6]));
    assert_eq!(parse_csv_u32(&chars("")), Some(vec![]));
    assert_eq!(parse_csv_u32(&chars(" \n ,, ")), Some(vec![]));
    assert_eq!(parse_csv_u32(&chars("10,,20")), Some(vec![10, 20]));
    assert_eq!(parse_csv_u32(&chars("1\u{a0}2")), Some(vec![1, 2]));
    assert_eq!(parse_csv_u32(&chars("2147483650")), Some(vec![2147483650]));
}

#[test]
fn parse_csv_fails_on_a_bad_token() {
    assert_eq!(parse_csv_u32(&chars("1,x,3")), None);
    assert_eq!(parse_csv_u32(&chars("1,2,-3")), None);
    assert_eq!(parse_csv_u32(&chars("4294967296")), None);
}

#[test]
fn chars_and_text_compare() {
    assert_eq!(chars_of("héllo"), vec!['h', 'é', 'l', 'l', 'o']);
    assert!(same_text("layer", "layer"));
    assert!(!same_text("layer", "layers"));
    assert!(!same_text("Layer", "layer"));
}
