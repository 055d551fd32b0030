//! Hexadecimal and decimal numerals, as the board writes post ids and
//! user tags, and the parsing of hexadecimal ids back out of URLs.

use vstd::prelude::*;

verus! {

/// The lowercase hexadecimal digit with value `d` (below sixteen).
pub open spec fn hex_char(d: nat) -> char {
    if d < 10 {
        (48 + d) as char
    } else {
        (87 + d) as char
    }
}

/// The decimal digit with value `d` (below ten).
pub open spec fn dec_char(d: nat) -> char {
    (48 + d) as char
}

/// The hexadecimal digits of `n`, most significant first, without
/// leading zeros (`0` is written as a single digit).
pub open spec fn hex_digits(n: nat) -> Seq<char>
    decreases n,
{
    if n < 16 {
        seq![hex_char(n)]
    } else {
        hex_digits(n / 16).push(hex_char(n % 16))
    }
}

/// The decimal digits of `n`, most significant first, without leading
/// zeros.
pub open spec fn dec_digits(n: nat) -> Seq<char>
    decreases n,
{
    if n < 10 {
        seq![dec_char(n)]
    } else {
        dec_digits(n / 10).push(dec_char(n % 10))
    }
}

/// `s` padded on the left with `'0'` up to `width` characters.
pub open spec fn zero_pad(s: Seq<char>, width: nat) -> Seq<char> {
    if s.len() >= width {
        s
    } else {
        Seq::new((width - s.len()) as nat, |i: int| '0') + s
    }
}

fn hex_char_exec(d: u32) -> (c: char)
    requires
        d < 16,
    ensures
        c == hex_char(d as nat),
{
    if d < 10 {
        let b: u8 = 48u8 + (d as u8);
        b as char
    } else {
        let b: u8 = 87u8 + (d as u8);
        b as char
    }
}

fn push_hex_digits(n: u32, out: &mut Vec<char>)
    ensures
        final(out)@ == old(out)@ + hex_digits(n as nat),
    decreases n,
{
    if n >= 16 {
        push_hex_digits(n / 16, out);
    }
    let c = hex_char_exec(n % 16);
    out.push(c);
}


/// `n` in lowercase hexadecimal, zero-padded on the left to at least
/// `width` digits, as `format!("{:0width$x}", n)` writes it.
pub fn hex_padded(n: u32, width: usize) -> (s: Vec<char>)
    ensures
        s@ == zero_pad(hex_digits(n as nat), width as nat),
{
    let mut digits: Vec<char> = Vec::new();
    push_hex_digits(n, &mut digits);
    pad_with_zeros(digits, width)
}

/// `digits` padded on the left with `'0'` up to `width` characters.
pub fn pad_with_zeros(digits: Vec<char>, width: usize) -> (s: Vec<char>)
    ensures
        s@ == zero_pad(digits@, width as nat),
{
    if digits.len() >= width {
        return digits;
    }
    let missing = width - digits.len();
    let mut out: Vec<char> = Vec::new();
    let mut i: usize = 0;
    while i < missing
        invariant
            i <= missing,
            out@ == Seq::new(i as nat, |k: int| '0'),
        decreases missing - i,
    {
        out.push('0');
        i = i + 1;
    }
    let mut j: usize = 0;
    while j < digits.len()
        invariant
            j <= digits.len(),
            out@ == Seq::new(missing as nat, |k: int| '0') + digits@.take(j as int),
        decreases digits.len() - j,
    {
        out.push(digits[j]);
        j = j + 1;
        assert(digits@.take(j as int) =~= digits@.take(j - 1).push(digits@[j - 1]));
    }
    assert(digits@.take(digits.len() as int) =~= digits@);
    out
}

fn dec_char_exec(d: u64) -> (c: char)
    requires
        d < 10,
    ensures
        c == dec_char(d as nat),
{
    let b: u8 = 48u8 + (d as u8);
    b as char
}

fn push_dec_digits(n: u64, out: &mut Vec<char>)
    ensures
        final(out)@ == old(out)@ + dec_digits(n as nat),
    decreases n,
{
    if n >= 10 {
        push_dec_digits(n / 10, out);
    }
    let c = dec_char_exec(n % 10);
    out.push(c);
}

/// `n` in decimal, zero-padded on the left to at least `width` digits,
/// as `format!("{:0width$}", n)` writes it.
pub fn dec_padded(n: u64, width: usize) -> (s: Vec<char>)
    ensures
        s@ == zero_pad(dec_digits(n as nat), width as nat),
{
    let mut digits: Vec<char> = Vec::new();
    push_dec_digits(n, &mut digits);
    pad_with_zeros(digits, width)
}

/// Whether `c` is a hexadecimal digit (either case).
pub open spec fn is_hex_char(c: char) -> bool {
    ('0' <= c && c <= '9') || ('a' <= c && c <= 'f') || ('A' <= c && c <= 'F')
}

/// The value of the hexadecimal digit `c`.
pub open spec fn hex_char_value(c: char) -> nat {
    if '0' <= c && c <= '9' {
        (c as int - 48) as nat
    } else if 'a' <= c && c <= 'f' {
        (c as int - 87) as nat
    } else {
        (c as int - 55) as nat
    }
}

/// Whether every character of `s` is a hexadecimal digit.
pub open spec fn all_hex(s: Seq<char>) -> bool {
    forall|i: int| 0 <= i < s.len() ==> #[trigger] is_hex_char(s[i])
}

/// The value of the hexadecimal numeral `s` (most significant digit
/// first).
pub open spec fn hex_value(s: Seq<char>) -> nat
    decreases s.len(),
{
    if s.len() == 0 {
        0
    } else {
        hex_value(s.drop_last()) * 16 + hex_char_value(s.last())
    }
}

/// What `u32::from_str_radix(s, 16)` gives: an optional `+`, then one or
/// more hexadecimal digits of either case whose value fits in a `u32`.
pub open spec fn parse_hex_u32_spec(s: Seq<char>) -> Option<u32> {
    let digits = if s.len() > 0 && s[0] == '+' {
        s.drop_first()
    } else {
        s
    };
    if digits.len() == 0 || !all_hex(digits) || hex_value(digits) > u32::MAX {
        None
    } else {
        Some(hex_value(digits) as u32)
    }
}

/// What `i32::from_str_radix(s, 16)` gives: an optional sign, then one
/// or more hexadecimal digits of either case whose signed value fits in
/// an `i32`.
pub open spec fn parse_hex_i32_spec(s: Seq<char>) -> Option<i32> {
    let negative = s.len() > 0 && s[0] == '-';
    let digits = if s.len() > 0 && (s[0] == '+' || s[0] == '-') {
        s.drop_first()
    } else {
        s
    };
    if digits.len() == 0 || !all_hex(digits) {
        None
    } else if negative {
        if hex_value(digits) <= 0x8000_0000 {
            Some((0 - hex_value(digits)) as i32)
        } else {
            None
        }
    } else if hex_value(digits) <= 0x7fff_ffff {
        Some(hex_value(digits) as i32)
    } else {
        None
    }
}

fn hex_char_value_exec(c: char) -> (v: u64)
    requires
        is_hex_char(c),
    ensures
        v == hex_char_value(c),
{
    let code: u32 = c as u32;
    if '0' <= c && c <= '9' {
        (code - 48) as u64
    } else if 'a' <= c && c <= 'f' {
        (code - 87) as u64
    } else {
        (code - 55) as u64
    }
}

fn is_hex_char_exec(c: char) -> (b: bool)
    ensures
        b == is_hex_char(c),
{
    ('0' <= c && c <= '9') || ('a' <= c && c <= 'f') || ('A' <= c && c <= 'F')
}

proof fn lemma_hex_value_prefix_monotone(s: Seq<char>, i: int)
    requires
        0 <= i <= s.len(),
    ensures
        hex_value(s.take(i)) <= hex_value(s),
    decreases s.len() - i,
{
    if i < s.len() {
        lemma_hex_value_prefix_monotone(s, i + 1);
        assert(s.take(i + 1).drop_last() =~= s.take(i));
    } else {
        assert(s.take(i) =~= s);
    }
}

/// Scans hexadecimal digits `s[start..]`, giving their value when all are
/// digits and the value does not exceed `bound`.
fn scan_hex(s: &Vec<char>, start: usize, bound: u64) -> (r: Option<u64>)
    requires
        start <= s.len(),
        bound <= u32::MAX,
    ensures
        match r {
            Some(v) => all_hex(s@.skip(start as int)) && v == hex_value(s@.skip(start as int))
                && v <= bound,
            None => !all_hex(s@.skip(start as int)) || hex_value(s@.skip(start as int)) > bound,
        },
{
    let ghost d = s@.skip(start as int);
    let mut acc: u64 = 0;
    let mut i: usize = start;
    while i < s.len()
        invariant
            start <= i <= s.len(),
            d == s@.skip(start as int),
            bound <= u32::MAX,
            all_hex(d.take(i - start)),
            acc == hex_value(d.take(i - start)),
            acc <= bound,
        decreases s.len() - i,
    {
        let c = s[i];
        if !is_hex_char_exec(c) {
            assert(!is_hex_char(d[i - start]));
            return None;
        }
        let v = hex_char_value_exec(c);
        let next = acc * 16 + v;
        proof {
            assert(d.take(i + 1 - start).drop_last() =~= d.take(i - start));
            assert(d.take(i + 1 - start).last() == c);
            assert(all_hex(d.take(i + 1 - start))) by {
                assert forall|k: int| 0 <= k < d.take(i + 1 - start).len() implies #[trigger] is_hex_char(d.take(i + 1 - start)[k]) by {
                    if k < i - start {
                        assert(d.take(i + 1 - start)[k] == d.take(i - start)[k]);
                    }
                }
            }
        }
        if next > bound {
            proof {
                lemma_hex_value_prefix_monotone(d, i + 1 - start);
            }
            return None;
        }
        acc = next;
        i = i + 1;
    }
    assert(d.take(i - start) =~= d);
    Some(acc)
}

/// `u32::from_str_radix(s, 16)`, written out.
pub fn parse_hex_u32(s: &Vec<char>) -> (r: Option<u32>)
    ensures
        r == parse_hex_u32_spec(s@),
{
    let start: usize = if s.len() > 0 && s[0] == '+' { 1 } else { 0 };
    if start >= s.len() {
        return None;
    }
    proof {
        if start == 1 {
            assert(s@.skip(1) =~= s@.drop_first());
        } else {
            assert(s@.skip(0) =~= s@);
        }
    }
    match scan_hex(s, start, 0xffff_ffff) {
        Some(v) => Some(v as u32),
        None => None,
    }
}

/// `i32::from_str_radix(s, 16)`, written out.
pub fn parse_hex_i32(s: &Vec<char>) -> (r: Option<i32>)
    ensures
        r == parse_hex_i32_spec(s@),
{
    let negative = s.len() > 0 && s[0] == '-';
    let start: usize = if s.len() > 0 && (s[0] == '+' || s[0] == '-') { 1 } else { 0 };
    if start >= s.len() {
        return None;
    }
    proof {
        if start == 1 {
            assert(s@.skip(1) =~= s@.drop_first());
        } else {
            assert(s@.skip(0) =~= s@);
        }
    }
    if negative {
        match scan_hex(s, start, 0x8000_0000) {
            Some(v) => {
                let r: i64 = 0i64 - (v as i64);
                Some(r as i32)
            },
            None => None,
        }
    } else {
        match scan_hex(s, start, 0x7fff_ffff) {
            Some(v) => Some(v as i32),
            None => None,
        }
    }
}


proof fn lemma_hex_char_value(d: nat)
    requires
        d < 16,
    ensures
        is_hex_char(hex_char(d)),
        hex_char_value(hex_char(d)) == d,
{
    if d < 10 {
        assert(hex_char(d) as int == 48 + d);
    } else {
        assert(hex_char(d) as int == 87 + d);
    }
}

proof fn lemma_hex_digits_value(n: nat)
    ensures
        hex_digits(n).len() > 0,
        all_hex(hex_digits(n)),
        hex_value(hex_digits(n)) == n,
    decreases n,
{
    if n < 16 {
        lemma_hex_char_value(n);
        assert(hex_digits(n).drop_last() =~= Seq::<char>::empty());
        assert(hex_value(hex_digits(n)) == hex_value(Seq::<char>::empty()) * 16 + hex_char_value(hex_char(n)));
    } else {
        lemma_hex_char_value(n % 16);
        lemma_hex_digits_value(n / 16);
        let d = hex_digits(n);
        assert(d.drop_last() =~= hex_digits(n / 16));
        assert(d.last() == hex_char(n % 16));
        assert(hex_value(d) == hex_value(hex_digits(n / 16)) * 16 + hex_char_value(hex_char(n % 16)));
        assert((n / 16) * 16 + n % 16 == n);
        assert forall|i: int| 0 <= i < d.len() implies #[trigger] is_hex_char(d[i]) by {
            if i < d.len() - 1 {
                assert(d[i] == hex_digits(n / 16)[i]);
            }
        }
    }
}

proof fn lemma_zeros_value(k: nat)
    ensures
        all_hex(Seq::new(k, |i: int| '0')),
        hex_value(Seq::new(k, |i: int| '0')) == 0,
    decreases k,
{
    if k > 0 {
        lemma_zeros_value((k - 1) as nat);
        assert(Seq::new(k, |i: int| '0').drop_last() =~= Seq::new((k - 1) as nat, |i: int| '0'));
    }
}

proof fn lemma_leading_zeros_value(k: nat, s: Seq<char>)
    requires
        all_hex(s),
    ensures
        all_hex(Seq::new(k, |i: int| '0') + s),
        hex_value(Seq::new(k, |i: int| '0') + s) == hex_value(s),
    decreases s.len(),
{
    let z = Seq::new(k, |i: int| '0');
    lemma_zeros_value(k);
    if s.len() == 0 {
        assert(z + s =~= z);
    } else {
        assert(all_hex(s.drop_last()));
        lemma_leading_zeros_value(k, s.drop_last());
        assert((z + s).drop_last() =~= z + s.drop_last());
    }
    assert forall|i: int| 0 <= i < (z + s).len() implies #[trigger] is_hex_char((z + s)[i]) by {
        if i >= k {
            assert((z + s)[i] == s[i - k]);
        }
    }
}

/// Reading back a padded hexadecimal numeral gives the number that was
/// written: `u32::from_str_radix(&format!("{:0w$x}", n), 16) == Ok(n)`.
pub proof fn lemma_hex_round_trip(n: u32, width: nat)
    ensures
        parse_hex_u32_spec(zero_pad(hex_digits(n as nat), width)) == Some(n),
{
    lemma_hex_digits_value(n as nat);
    let d = hex_digits(n as nat);
    let p = zero_pad(d, width);
    if d.len() < width {
        lemma_leading_zeros_value((width - d.len()) as nat, d);
    }
    assert(all_hex(p));
    assert(is_hex_char(p[0]));
}

} // verus!
