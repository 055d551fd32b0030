use adda::numerals::{dec_padded, hex_padded, parse_hex_i32, parse_hex_u32};

fn chars(s: &str) -> Vec<char> {
    s.chars().collect()
}

fn text(v: Vec<char>) -> String {
    v.into_iter().collect()
}

#[test]
fn hex_padded_pads_short_ids() {
    assert_eq!(text(hex_padded(0x1a, 3)), "01a");
    assert_eq!(text(hex_padded(0, 3)), "000");
    assert_eq!(text(hex_padded(0x12345, 3)), "12345");
    assert_eq!(text(hex_padded(u32::MAX, 3)), "ffffffff");
}

#[test]
fn hex_padded_matches_format() {
    for n in [0u32, 1, 15, 16, 255, 256, 4095, 4096, 0xdead_beef, u32::MAX] {
        assert_eq!(text(hex_padded(n, 3)), format!("{:03x}", n));
    }
}

#[test]
fn dec_padded_matches_format() {
    assert_eq!(text(dec_padded(42, 5)), "00042");
    assert_eq!(text(dec_padded(65535, 5)), "65535");
    assert_eq!(text(dec_padded(123456, 5)), "123456");
    assert_eq!(text(dec_padded(0, 0)), "0");
    for n in [0u64, 9, 10, 99, 100, 65535, 99999] {
        assert_eq!(text(dec_padded(n, 5)), format!("{:05}", n));
    }
}

#[test]
fn parse_hex_u32_accepts_what_from_str_radix_accepts() {
    let cases = ["ff", "FF", "+ff", "", "+", "-1", "0", "00000001", "ffffffff", "100000000", "1g", "+-1", "aBc"];
    for s in cases {
        assert_eq!(parse_hex_u32(&chars(s)), u32::from_str_radix(s, 16).ok(), "case {:?}", s);
    }
}

#[test]
fn parse_hex_u32_errors() {
    assert_eq!(parse_hex_u32(&chars("")), None);
    assert_eq!(parse_hex_u32(&chars("+")), None);
    assert_eq!(parse_hex_u32(&chars("100000000")), None);
    assert_eq!(parse_hex_u32(&chars("xyz")), None);
    assert_eq!(parse_hex_u32(&chars("+1f")), Some(31));
}

#[test]
fn parse_hex_i32_accepts_what_from_str_radix_accepts() {
    let cases = ["7fffffff", "80000000", "-80000000", "-80000001", "-", "+", "+7f", "-7f", "", "ff", "1F"];
    for s in cases {
        assert_eq!(parse_hex_i32(&chars(s)), i32::from_str_radix(s, 16).ok(), "case {:?}", s);
    }
}

#[test]
fn parse_hex_i32_bounds() {
    assert_eq!(parse_hex_i32(&chars("7fffffff")), Some(i32::MAX));
    assert_eq!(parse_hex_i32(&chars("-80000000")), Some(i32::MIN));
    assert_eq!(parse_hex_i32(&chars("80000000")), None);
}
