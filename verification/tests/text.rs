use adda::text::{chars_of, trim};

fn string_from_chars(v: &[char]) -> String {
    v.iter().collect()
}

fn trimmed(s: &str) -> String {
    string_from_chars(&trim(&chars_of(s)))
}

#[test]
fn trim_matches_str_trim() {
    let cases = ["", "   ", "  a b \n", "\u{3000}বাংলা\u{a0}", "\t\r\nx", "x\u{2028}", "no-space", "\u{200b}zero width\u{200b}"];
    for s in cases {
        assert_eq!(trimmed(s), s.trim(), "case {:?}", s);
    }
}

#[test]
fn chars_round_trip() {
    let s = "প্রকাশনা >>1f";
    assert_eq!(string_from_chars(&chars_of(s)), s);
}
