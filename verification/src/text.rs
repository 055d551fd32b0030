//! Conversions between strings and character vectors, and whitespace
//! trimming.

use vstd::prelude::*;

verus! {

broadcast use vstd::string::group_string_axioms;

/// The characters of `s`, in order.
pub fn chars_of(s: &str) -> (v: Vec<char>)
    ensures
        v@ == s@,
{
    let mut v: Vec<char> = Vec::new();
    for c in it: s.chars()
        invariant
            v@ == it.seq().take(it.index() as int),
            it.seq() == s@,
    {
        v.push(c);
    }
    v
}


/// `String`'s `FromIterator<char>`: the string made of the characters of
/// `v`, in order (`v.iter().collect()`).
#[verifier::external_body]
pub(crate) fn string_from_chars(v: &Vec<char>) -> (s: String)
    ensures
        s@ == v@,
{
    v.iter().collect()
}

/// Whether `c` has the Unicode `White_Space` property, the test that
/// `char::is_whitespace` makes.
pub open spec fn is_whitespace(c: char) -> bool {
    let u = c as u32;
    (0x09 <= u && u <= 0x0d) || u == 0x20 || u == 0x85 || u == 0xa0 || u == 0x1680 || (0x2000
        <= u && u <= 0x200a) || u == 0x2028 || u == 0x2029 || u == 0x202f || u == 0x205f || u
        == 0x3000
}

fn is_whitespace_exec(c: char) -> (b: bool)
    ensures
        b == is_whitespace(c),
{
    let u: u32 = c as u32;
    (0x09 <= u && u <= 0x0d) || u == 0x20 || u == 0x85 || u == 0xa0 || u == 0x1680 || (0x2000
        <= u && u <= 0x200a) || u == 0x2028 || u == 0x2029 || u == 0x202f || u == 0x205f || u
        == 0x3000
}

/// `s` without its leading whitespace.
pub open spec fn trim_start(s: Seq<char>) -> Seq<char>
    decreases s.len(),
{
    if s.len() > 0 && is_whitespace(s[0]) {
        trim_start(s.drop_first())
    } else {
        s
    }
}

/// `s` without its trailing whitespace.
pub open spec fn trim_end(s: Seq<char>) -> Seq<char>
    decreases s.len(),
{
    if s.len() > 0 && is_whitespace(s.last()) {
        trim_end(s.drop_last())
    } else {
        s
    }
}

/// `s` without leading and trailing whitespace, as `str::trim` leaves it.
pub open spec fn trim_spec(s: Seq<char>) -> Seq<char> {
    trim_end(trim_start(s))
}

/// `str::trim` on a character vector.
pub fn trim(s: &Vec<char>) -> (t: Vec<char>)
    ensures
        t@ == trim_spec(s@),
{
    let mut i: usize = 0;
    assert(s@.skip(0) =~= s@);
    while i < s.len() && is_whitespace_exec(s[i])
        invariant
            i <= s.len(),
            trim_start(s@) == trim_start(s@.skip(i as int)),
        decreases s.len() - i,
    {
        assert(s@.skip(i as int).drop_first() =~= s@.skip(i + 1));
        i = i + 1;
    }
    let mut j: usize = s.len();
    let ghost head = s@.skip(i as int);
    assert(trim_start(head) == head) by {
        if head.len() > 0 {
            assert(head[0] == s@[i as int]);
        }
    }
    while j > i && is_whitespace_exec(s[j - 1])
        invariant
            i <= j <= s.len(),
            head == s@.skip(i as int),
            trim_end(head) == trim_end(s@.subrange(i as int, j as int)),
        decreases j,
    {
        assert(s@.subrange(i as int, j as int).drop_last() =~= s@.subrange(i as int, j - 1));
        j = j - 1;
    }
    assert(s@.skip(i as int) =~= s@.subrange(i as int, s.len() as int));
    let mut t: Vec<char> = Vec::new();
    let mut k: usize = i;
    while k < j
        invariant
            i <= k <= j,
            j <= s.len(),
            t@ == s@.subrange(i as int, k as int),
        decreases j - k,
    {
        t.push(s[k]);
        k = k + 1;
        assert(t@ =~= s@.subrange(i as int, k as int));
    }
    proof {
        let r = s@.subrange(i as int, j as int);
        if r.len() > 0 {
            assert(r.last() == s@[j - 1]);
        }
        assert(trim_end(r) == r);
    }
    t
}


proof fn lemma_trim_start_shape(s: Seq<char>)
    ensures
        trim_start(s).len() == 0 || !is_whitespace(trim_start(s)[0]),
    decreases s.len(),
{
    if s.len() > 0 && is_whitespace(s[0]) {
        lemma_trim_start_shape(s.drop_first());
    }
}

proof fn lemma_trim_end_shape(s: Seq<char>)
    ensures
        trim_end(s).len() <= s.len(),
        trim_end(s) == s.take(trim_end(s).len() as int),
        trim_end(s).len() == 0 || !is_whitespace(trim_end(s).last()),
    decreases s.len(),
{
    if s.len() > 0 && is_whitespace(s.last()) {
        lemma_trim_end_shape(s.drop_last());
        let e = trim_end(s.drop_last());
        assert(s.drop_last().take(e.len() as int) =~= s.take(e.len() as int));
    } else {
        assert(s.take(s.len() as int) =~= s);
    }
}

/// Trimming twice is trimming once.
pub proof fn lemma_trim_idempotent(s: Seq<char>)
    ensures
        trim_spec(trim_spec(s)) == trim_spec(s),
{
    let t = trim_start(s);
    lemma_trim_start_shape(s);
    lemma_trim_end_shape(t);
    let e = trim_end(t);
    if e.len() > 0 {
        assert(e[0] == t[0]);
    }
    assert(trim_start(e) == e);
    assert(trim_end(e) == e);
}

} // verus!
