//! Posts as the board shows them: post ids in hexadecimal, user tags in
//! Bengali digits, timestamps, redaction, and the pagination of thread
//! lists.

use vstd::prelude::*;
use vstd::string::StringExecFns;
use std::hash::BuildHasher;

use crate::formatting::{format_spec, markup_patterns_compile, sanitizable, try_format};
use crate::numerals::{dec_char, dec_digits, dec_padded, hex_digits, hex_padded, zero_pad};
use crate::text::{chars_of, string_from_chars};

verus! {

/// A moment as a post records it: its calendar fields in UTC and the
/// number of seconds since the Unix epoch.
pub struct PostTime {
    pub year: i32,
    pub month: u32,
    pub day: u32,
    pub hour: u32,
    pub minute: u32,
    pub unix_seconds: i64,
}

impl PostTime {
    /// The calendar fields lie in their ranges.
    pub open spec fn wf(&self) -> bool {
        &&& 1 <= self.month <= 12
        &&& 1 <= self.day <= 31
        &&& self.hour < 24
        &&& self.minute < 60
    }
}

/// A thread as stored.
pub struct Thread {
    pub id: i32,
    pub uid: i32,
    pub subject: String,
    pub comment: String,
    pub board: String,
    pub ctime: PostTime,
    pub mtime: PostTime,
    pub redacted: bool,
    pub reply_count: i32,
}

/// A thread without its board, modification time and reply count.
pub struct ThreadLight {
    pub id: i32,
    pub uid: i32,
    pub subject: String,
    pub comment: String,
    pub ctime: PostTime,
    pub redacted: bool,
}

/// A reply as stored.
pub struct Reply {
    pub id: i32,
    pub uid: i32,
    pub tid: i32,
    pub comment: String,
    pub ctime: PostTime,
    pub redacted: bool,
}

/// A reply as fetched for moderation.
pub struct ReplyLight {
    pub id: i32,
    pub uid: i32,
    pub tid: i32,
    pub comment: String,
    pub ctime: PostTime,
    pub redacted: bool,
}

/// A thread as the templates show it.
pub struct ThreadSerializable {
    pub id: String,
    pub utid: String,
    pub subject: String,
    pub comment: String,
    pub board: String,
    pub ctime: String,
    pub mtime: String,
    pub reply_count: i32,
    pub redacted: bool,
}

/// A reply as the templates show it.
pub struct ReplySerializable {
    pub id: String,
    pub tid: String,
    pub utid: String,
    pub comment: String,
    pub ctime: String,
}

/// A thread or a reply as the moderation page shows it.
pub struct ThreadOrReplySerializable {
    pub id: String,
    pub tid: Option<String>,
    pub utid: String,
    pub subject: String,
    pub comment: String,
    pub ctime: String,
    pub redacted: bool,
}

/// A board: its URL path and its label.
pub struct Board {
    pub url: String,
    pub label: String,
}

/// The subject shown in place of a redacted thread's subject.
pub const REDACTED_SUBJECT: &'static str = "স#ম্পা#দি#ত";

/// The comment shown in place of a redacted post's comment.
pub const REDACTED_COMMENT: &'static str = "<del>###সম্পাদিত###</del>";

/// The Bengali counterpart of an ASCII hexadecimal digit: the digits
/// `0`-`9` become `০`-`৯` and `a`-`f` become `ক`-`চ`; any other character
/// stays.
pub open spec fn bengali_char(c: char) -> char {
    if c == '0' {
        '০'
    } else if c == '1' {
        '১'
    } else if c == '2' {
        '২'
    } else if c == '3' {
        '৩'
    } else if c == '4' {
        '৪'
    } else if c == '5' {
        '৫'
    } else if c == '6' {
        '৬'
    } else if c == '7' {
        '৭'
    } else if c == '8' {
        '৮'
    } else if c == '9' {
        '৯'
    } else if c == 'a' {
        'ক'
    } else if c == 'b' {
        'খ'
    } else if c == 'c' {
        'গ'
    } else if c == 'd' {
        'ঘ'
    } else if c == 'e' {
        'ঙ'
    } else if c == 'f' {
        'চ'
    } else {
        c
    }
}

/// `s` with each character replaced by its Bengali counterpart.
pub open spec fn bengali_digits_spec(s: Seq<char>) -> Seq<char> {
    s.map_values(|c: char| bengali_char(c))
}

fn bengali_char_exec(c: char) -> (r: char)
    ensures
        r == bengali_char(c),
{
    match c {
        '0' => '০',
        '1' => '১',
        '2' => '২',
        '3' => '৩',
        '4' => '৪',
        '5' => '৫',
        '6' => '৬',
        '7' => '৭',
        '8' => '৮',
        '9' => '৯',
        'a' => 'ক',
        'b' => 'খ',
        'c' => 'গ',
        'd' => 'ঘ',
        'e' => 'ঙ',
        'f' => 'চ',
        _ => c,
    }
}

fn bengali_chars(s: &Vec<char>) -> (r: Vec<char>)
    ensures
        r@ == bengali_digits_spec(s@),
{
    let mut out: Vec<char> = Vec::new();
    let mut i: usize = 0;
    while i < s.len()
        invariant
            i <= s.len(),
            out@ == bengali_digits_spec(s@.take(i as int)),
        decreases s.len() - i,
    {
        let c = bengali_char_exec(s[i]);
        out.push(c);
        i = i + 1;
        assert(out@ =~= bengali_digits_spec(s@.take(i as int)));
    }
    assert(s@.take(s.len() as int) =~= s@);
    out
}

/// Writes the digits `0`-`9` and `a`-`f` of `s` as Bengali letters and
/// digits.
pub fn bengali_digits(s: &str) -> (r: String)
    ensures
        r@ == bengali_digits_spec(s@),
{
    let cs = chars_of(s);
    let b = bengali_chars(&cs);
    string_from_chars(&b)
}

/// Turning digits into Bengali a second time changes nothing: no
/// Bengali digit or letter is itself an ASCII hexadecimal digit.
pub proof fn lemma_bengali_digits_idempotent(s: Seq<char>)
    ensures
        bengali_digits_spec(bengali_digits_spec(s)) == bengali_digits_spec(s),
        bengali_digits_spec(s).len() == s.len(),
{
    assert(bengali_digits_spec(bengali_digits_spec(s)) =~= bengali_digits_spec(s));
}

/// What `std::hash::DefaultHasher` gives, started with `new()`, after
/// hashing `uid`, `tid` and `secret` in that order.
pub uninterp spec fn default_hash_of(uid: i32, tid: i32, secret: u32) -> u64;

/// Hashes the tuple `(uid, tid, secret)` with the hasher that
/// `BuildHasherDefault::<DefaultHasher>` builds (`DefaultHasher::new()`);
/// hashing a tuple hashes its fields in order. The result is named by
/// `default_hash_of`.
#[verifier::external_body]
fn hash_user_in_thread(uid: i32, tid: i32, secret: u32) -> (h: u64)
    ensures
        h == default_hash_of(uid, tid, secret),
{
    std::hash::BuildHasherDefault::<std::hash::DefaultHasher>::default().hash_one((uid, tid, secret))
}

/// The tag of the user `uid` in the thread `tid`: the low sixteen bits of
/// the hash, in five decimal digits, written in Bengali.
pub open spec fn utid_spec(uid: i32, tid: i32, secret: u32) -> Seq<char> {
    bengali_digits_spec(zero_pad(dec_digits((default_hash_of(uid, tid, secret) % 65536) as nat), 5))
}

/// The tag that shows which posts of a thread come from the same user,
/// without revealing the user across threads.
pub fn utid(uid: i32, tid: i32, secret: u32) -> (r: String)
    ensures
        r@ == utid_spec(uid, tid, secret),
{
    let h = hash_user_in_thread(uid, tid, secret);
    let digits = dec_padded(h % 65536, 5);
    let b = bengali_chars(&digits);
    string_from_chars(&b)
}

/// A post id as the board writes it in URLs: `format!("{:03x}", id as u32)`.
pub open spec fn post_id_hex(id: i32) -> Seq<char> {
    zero_pad(hex_digits((id as u32) as nat), 3)
}

/// Writes a post id as the board does in URLs.
pub fn post_id_string(id: i32) -> (r: String)
    ensures
        r@ == post_id_hex(id),
{
    let cs = hex_padded(id as u32, 3);
    string_from_chars(&cs)
}

/// `y` as `%Y` writes it: four digits at least, with a sign outside
/// `0..=9999`.
pub open spec fn year_text(y: i32) -> Seq<char> {
    if 0 <= y <= 9999 {
        zero_pad(dec_digits(y as nat), 4)
    } else if y > 9999 {
        seq!['+'] + dec_digits(y as nat)
    } else {
        seq!['-'] + zero_pad(dec_digits((0 - y) as nat), 4)
    }
}

/// `t` as `%Y-%m-%d %H:%MZ` writes it.
pub open spec fn post_time_text(t: PostTime) -> Seq<char> {
    year_text(t.year) + seq!['-'] + zero_pad(dec_digits(t.month as nat), 2) + seq!['-']
        + zero_pad(dec_digits(t.day as nat), 2) + seq![' '] + zero_pad(dec_digits(t.hour as nat), 2)
        + seq![':'] + zero_pad(dec_digits(t.minute as nat), 2) + seq!['Z']
}

fn append_chars(out: &mut Vec<char>, more: Vec<char>)
    ensures
        final(out)@ == old(out)@ + more@,
{
    let mut i: usize = 0;
    let ghost start = out@;
    while i < more.len()
        invariant
            i <= more.len(),
            out@ == start + more@.take(i as int),
        decreases more.len() - i,
    {
        out.push(more[i]);
        i = i + 1;
        assert(out@ =~= start + more@.take(i as int));
    }
    assert(more@.take(more.len() as int) =~= more@);
}

fn year_chars(y: i32) -> (r: Vec<char>)
    ensures
        r@ == year_text(y),
{
    if 0 <= y && y <= 9999 {
        dec_padded(y as u64, 4)
    } else if y > 9999 {
        let mut out: Vec<char> = Vec::new();
        out.push('+');
        append_chars(&mut out, dec_padded(y as u64, 0));
        assert(zero_pad(dec_digits(y as nat), 0) == dec_digits(y as nat));
        out
    } else {
        let magnitude: i64 = 0i64 - (y as i64);
        let mut out: Vec<char> = Vec::new();
        out.push('-');
        append_chars(&mut out, dec_padded(magnitude as u64, 4));
        out
    }
}

/// Writes `t` as `%Y-%m-%d %H:%MZ`.
pub fn post_time_string(t: &PostTime) -> (r: String)
    ensures
        r@ == post_time_text(*t),
{
    let mut out = year_chars(t.year);
    out.push('-');
    append_chars(&mut out, dec_padded(t.month as u64, 2));
    out.push('-');
    append_chars(&mut out, dec_padded(t.day as u64, 2));
    out.push(' ');
    append_chars(&mut out, dec_padded(t.hour as u64, 2));
    out.push(':');
    append_chars(&mut out, dec_padded(t.minute as u64, 2));
    out.push('Z');
    string_from_chars(&out)
}


/// Whether `s` shows the thread `t`: its id in hexadecimal, its author's
/// tag, its subject and comment (or the redaction placeholders), its
/// board, times and reply count.
pub open spec fn shows_thread(s: ThreadSerializable, t: Thread, secret: u32) -> bool {
    &&& s.id@ == post_id_hex(t.id)
    &&& s.utid@ == utid_spec(t.uid, t.id, secret)
    &&& s.subject@ == (if t.redacted { REDACTED_SUBJECT@ } else { t.subject@ })
    &&& s.comment@ == (if t.redacted { REDACTED_COMMENT@ } else { t.comment@ })
    &&& s.board@ == t.board@
    &&& s.ctime@ == post_time_text(t.ctime)
    &&& s.mtime@ == post_time_text(t.mtime)
    &&& s.reply_count == t.reply_count
    &&& s.redacted == t.redacted
}

/// Whether `s` shows the reply `r`: the tag is that of its author in its
/// thread.
pub open spec fn shows_reply(s: ReplySerializable, r: Reply, secret: u32) -> bool {
    &&& s.id@ == post_id_hex(r.id)
    &&& s.tid@ == post_id_hex(r.tid)
    &&& s.utid@ == utid_spec(r.uid, r.tid, secret)
    &&& s.comment@ == (if r.redacted { REDACTED_COMMENT@ } else { r.comment@ })
    &&& s.ctime@ == post_time_text(r.ctime)
}

/// Whether `s` shows the thread `t` for moderation.
pub open spec fn shows_thread_light(s: ThreadOrReplySerializable, t: ThreadLight, secret: u32) -> bool {
    &&& s.id@ == post_id_hex(t.id)
    &&& s.tid is None
    &&& s.utid@ == utid_spec(t.uid, t.id, secret)
    &&& s.subject@ == (if t.redacted { REDACTED_SUBJECT@ } else { t.subject@ })
    &&& s.comment@ == (if t.redacted { REDACTED_COMMENT@ } else { t.comment@ })
    &&& s.ctime@ == post_time_text(t.ctime)
    &&& s.redacted == t.redacted
}

/// The subject shown for a reply to the thread `tid`.
pub open spec fn reply_subject(tid: i32) -> Seq<char> {
    "Reply to "@ + post_id_hex(tid)
}

/// Whether `s` shows the reply `r` for moderation.
pub open spec fn shows_reply_light(s: ThreadOrReplySerializable, r: ReplyLight, secret: u32) -> bool {
    &&& s.id@ == post_id_hex(r.id)
    &&& s.tid matches Some(tid) && tid@ == post_id_hex(r.tid)
    &&& s.utid@ == utid_spec(r.uid, r.tid, secret)
    &&& s.subject@ == reply_subject(r.tid)
    &&& s.comment@ == (if r.redacted { REDACTED_COMMENT@ } else { r.comment@ })
    &&& s.ctime@ == post_time_text(r.ctime)
    &&& s.redacted == r.redacted
}

fn shown_subject(subject: String, redacted: bool) -> (r: String)
    ensures
        r@ == (if redacted { REDACTED_SUBJECT@ } else { subject@ }),
{
    if redacted {
        REDACTED_SUBJECT.to_owned()
    } else {
        subject
    }
}

fn shown_comment(comment: String, redacted: bool) -> (r: String)
    ensures
        r@ == (if redacted { REDACTED_COMMENT@ } else { comment@ }),
{
    if redacted {
        REDACTED_COMMENT.to_owned()
    } else {
        comment
    }
}

impl Thread {
    /// The thread as the templates show it; `secret` keys the user tags.
    pub fn into_serializable(self, secret: u32) -> (r: ThreadSerializable)
        ensures
            shows_thread(r, self, secret),
    {
        let id = post_id_string(self.id);
        let utid = utid(self.uid, self.id, secret);
        let ctime = post_time_string(&self.ctime);
        let mtime = post_time_string(&self.mtime);
        ThreadSerializable {
            id,
            utid,
            subject: shown_subject(self.subject, self.redacted),
            comment: shown_comment(self.comment, self.redacted),
            board: self.board,
            ctime,
            mtime,
            reply_count: self.reply_count,
            redacted: self.redacted,
        }
    }
}

impl ThreadLight {
    /// The thread as the moderation page shows it.
    pub fn into_serializable(self, secret: u32) -> (r: ThreadOrReplySerializable)
        ensures
            shows_thread_light(r, self, secret),
    {
        let id = post_id_string(self.id);
        let utid = utid(self.uid, self.id, secret);
        let ctime = post_time_string(&self.ctime);
        ThreadOrReplySerializable {
            id,
            tid: None,
            utid,
            subject: shown_subject(self.subject, self.redacted),
            comment: shown_comment(self.comment, self.redacted),
            ctime,
            redacted: self.redacted,
        }
    }
}

impl Reply {
    /// The reply as the templates show it.
    pub fn into_serializable(self, secret: u32) -> (r: ReplySerializable)
        ensures
            shows_reply(r, self, secret),
    {
        let id = post_id_string(self.id);
        let tid = post_id_string(self.tid);
        let utid = utid(self.uid, self.tid, secret);
        let ctime = post_time_string(&self.ctime);
        ReplySerializable {
            id,
            tid,
            utid,
            comment: shown_comment(self.comment, self.redacted),
            ctime,
        }
    }
}

impl ReplyLight {
    /// The reply as the moderation page shows it.
    pub fn into_serializable(self, secret: u32) -> (r: ThreadOrReplySerializable)
        ensures
            shows_reply_light(r, self, secret),
    {
        let id = post_id_string(self.id);
        let tid = post_id_string(self.tid);
        let utid = utid(self.uid, self.tid, secret);
        let mut subject = String::new();
        subject.append("Reply to ");
        subject.append(tid.as_str());
        let ctime = post_time_string(&self.ctime);
        ThreadOrReplySerializable {
            id,
            tid: Some(tid),
            utid,
            subject,
            comment: shown_comment(self.comment, self.redacted),
            ctime,
            redacted: self.redacted,
        }
    }
}


/// Whether `shown` shows the threads `rows`, one for one, in order.
pub open spec fn shows_threads(shown: Seq<ThreadSerializable>, rows: Seq<Thread>, secret: u32) -> bool {
    &&& shown.len() == rows.len()
    &&& forall|i: int| 0 <= i < rows.len() ==> shows_thread(#[trigger] shown[i], rows[i], secret)
}

/// Whether `shown` shows the replies `rows`, one for one, in order.
pub open spec fn shows_replies(shown: Seq<ReplySerializable>, rows: Seq<Reply>, secret: u32) -> bool {
    &&& shown.len() == rows.len()
    &&& forall|i: int| 0 <= i < rows.len() ==> shows_reply(#[trigger] shown[i], rows[i], secret)
}

/// The threads `rows` as the templates show them, in order.
pub fn serialize_threads(rows: Vec<Thread>, secret: u32) -> (r: Vec<ThreadSerializable>)
    ensures
        shows_threads(r@, rows@, secret),
{
    let ghost all = rows@;
    let mut rows = rows;
    let mut out: Vec<ThreadSerializable> = Vec::new();
    while rows.len() > 0
        invariant
            all.len() == out.len() + rows.len(),
            rows@ == all.skip(out.len() as int),
            forall|i: int| 0 <= i < out.len() ==> shows_thread(#[trigger] out@[i], all[i], secret),
        decreases rows.len(),
    {
        let t = rows.remove(0);
        assert(t == all[out.len() as int]);
        let shown = t.into_serializable(secret);
        out.push(shown);
        assert(rows@ =~= all.skip(out.len() as int));
    }
    out
}

/// The replies `rows` as the templates show them, in order.
pub fn serialize_replies(rows: Vec<Reply>, secret: u32) -> (r: Vec<ReplySerializable>)
    ensures
        shows_replies(r@, rows@, secret),
{
    let ghost all = rows@;
    let mut rows = rows;
    let mut out: Vec<ReplySerializable> = Vec::new();
    while rows.len() > 0
        invariant
            all.len() == out.len() + rows.len(),
            rows@ == all.skip(out.len() as int),
            forall|i: int| 0 <= i < out.len() ==> shows_reply(#[trigger] out@[i], all[i], secret),
        decreases rows.len(),
    {
        let t = rows.remove(0);
        assert(t == all[out.len() as int]);
        let shown = t.into_serializable(secret);
        out.push(shown);
        assert(rows@ =~= all.skip(out.len() as int));
    }
    out
}

/// The page size used when a request names none.
pub const DEFAULT_PAGE_SIZE: i32 = 20;

/// The page size of a request: the one it names, or twenty.
pub fn page_limit(limit: Option<i32>) -> (r: i32)
    ensures
        r == match limit {
            Some(l) => l,
            None => DEFAULT_PAGE_SIZE,
        },
{
    match limit {
        Some(l) => l,
        None => DEFAULT_PAGE_SIZE,
    }
}

/// How many rows to fetch for a page of `limit` threads: one more, which
/// tells whether another page follows.
pub fn rows_to_fetch(limit: i32) -> (r: i32)
    requires
        limit < i32::MAX,
    ensures
        r == limit + 1,
{
    limit + 1
}

/// Whether fetched rows go beyond a page of `limit` threads, as
/// `rows > limit as usize` decides it (a negative limit, seen as a huge
/// `usize`, is never exceeded).
pub open spec fn has_more_rows(rows: nat, limit: i32) -> bool {
    limit >= 0 && rows > limit
}

/// The rows of a page: the fetched rows without the extra one, when
/// there is one.
pub open spec fn page_rows<T>(rows: Seq<T>, limit: i32) -> Seq<T> {
    if has_more_rows(rows.len(), limit) {
        rows.drop_last()
    } else {
        rows
    }
}

fn exceeds_limit(rows: usize, limit: i32) -> (r: bool)
    ensures
        r == has_more_rows(rows as nat, limit),
{
    limit >= 0 && rows > limit as usize
}

/// A page of the latest threads, from rows fetched newest first with one
/// row beyond the page: the threads shown, whether more follow, and the
/// page size.
pub fn paginated_threads(rows: Vec<Thread>, limit: i32, secret: u32) -> (r: (
    Vec<ThreadSerializable>,
    bool,
    i32,
))
    ensures
        r.1 == has_more_rows(rows@.len(), limit),
        r.2 == limit,
        shows_threads(r.0@, page_rows(rows@, limit), secret),
{
    let mut shown = serialize_threads(rows, secret);
    let has_more = exceeds_limit(shown.len(), limit);
    if has_more {
        shown.pop();
    }
    (shown, has_more, limit)
}

/// The modification time, in Unix seconds, of the last thread of a page;
/// `0` for an empty page.
pub open spec fn last_mtime_of(rows: Seq<Thread>) -> i64 {
    if rows.len() > 0 {
        rows.last().mtime.unix_seconds
    } else {
        0
    }
}

/// A page of a board's threads, from rows fetched by latest activity with
/// one row beyond the page: the threads shown, whether more follow, the
/// page size, and the modification time of the last thread shown, from
/// which the next page starts.
pub fn paginated_board_threads(rows: Vec<Thread>, limit: i32, secret: u32) -> (r: (
    Vec<ThreadSerializable>,
    bool,
    i32,
    i64,
))
    ensures
        r.1 == has_more_rows(rows@.len(), limit),
        r.2 == limit,
        r.3 == last_mtime_of(page_rows(rows@, limit)),
        shows_threads(r.0@, page_rows(rows@, limit), secret),
{
    let mut rows = rows;
    let has_more = exceeds_limit(rows.len(), limit);
    if has_more {
        rows.pop();
    }
    let last_mtime = last_mtime(&rows);
    let shown = serialize_threads(rows, secret);
    (shown, has_more, limit, last_mtime)
}


/// A page never holds more than its size when at most one row beyond it
/// was fetched, and it holds exactly its size when another page follows.
pub proof fn lemma_page_size<T>(rows: Seq<T>, limit: i32)
    requires
        0 <= limit,
        rows.len() <= limit + 1,
    ensures
        page_rows(rows, limit).len() <= limit,
        has_more_rows(rows.len(), limit) ==> page_rows(rows, limit).len() == limit,
        !has_more_rows(rows.len(), limit) ==> page_rows(rows, limit) == rows,
{
}

proof fn lemma_dec_digits_short(n: nat)
    requires
        n < 100000,
    ensures
        1 <= dec_digits(n).len() <= 5,
        forall|i: int| 0 <= i < dec_digits(n).len() ==> '0' <= #[trigger] dec_digits(n)[i] <= '9',
    decreases n,
{
    if n >= 10 {
        lemma_dec_digits_short(n / 10);
        let d = dec_digits(n);
        assert forall|i: int| 0 <= i < d.len() implies '0' <= #[trigger] d[i] <= '9' by {
            if i < d.len() - 1 {
                assert(d[i] == dec_digits(n / 10)[i]);
            } else {
                assert(d[i] == crate::numerals::dec_char(n % 10));
                assert(d[i] as int == 48 + n % 10);
            }
        }
        assert(pow10(5) == 100000) by {
            reveal_with_fuel(pow10, 6);
        }
        lemma_dec_digits_len(n, 5);
    } else {
        assert(dec_digits(n)[0] as int == 48 + n);
    }
}

spec fn pow10(k: nat) -> nat
    decreases k,
{
    if k == 0 {
        1
    } else {
        10 * pow10((k - 1) as nat)
    }
}

proof fn lemma_dec_digits_len(n: nat, k: nat)
    requires
        k >= 1,
        n < pow10(k),
    ensures
        dec_digits(n).len() <= k,
    decreases k,
{
    if n >= 10 {
        if k == 1 {
            assert(pow10(1) == 10 * pow10(0));
        } else {
            lemma_dec_digits_len(n / 10, (k - 1) as nat);
        }
    }
}

/// A user's tag in a thread is always five Bengali digits.
pub proof fn lemma_utid_is_five_bengali_digits(uid: i32, tid: i32, secret: u32)
    ensures
        utid_spec(uid, tid, secret).len() == 5,
        forall|i: int|
            0 <= i < 5 ==> '০' <= #[trigger] utid_spec(uid, tid, secret)[i] <= '৯',
{
    let n = (default_hash_of(uid, tid, secret) % 65536) as nat;
    lemma_dec_digits_short(n);
    let d = dec_digits(n);
    let p = zero_pad(d, 5);
    assert(p.len() == 5);
    assert forall|i: int| 0 <= i < 5 implies '0' <= #[trigger] p[i] <= '9' by {
        if d.len() < 5 {
            if i >= 5 - d.len() {
                assert(p[i] == d[i - (5 - d.len())]);
            }
        }
    }
    assert forall|i: int| 0 <= i < 5 implies '০' <= #[trigger] utid_spec(uid, tid, secret)[i] <= '৯' by {
        assert(utid_spec(uid, tid, secret)[i] == bengali_char(p[i]));
    }
}


/// The value of a numeral written in Bengali decimal digits (`০`-`৯`),
/// most significant first.
pub open spec fn bengali_numeral_value(s: Seq<char>) -> int
    decreases s.len(),
{
    if s.len() == 0 {
        0
    } else {
        bengali_numeral_value(s.drop_last()) * 10 + (s.last() as int - '০' as int)
    }
}

proof fn lemma_bengali_of_dec_char(d: nat)
    requires
        d < 10,
    ensures
        bengali_char(dec_char(d)) as int - '০' as int == d,
{
    if d == 0 {
        assert(dec_char(d) == '0');
    } else if d == 1 {
        assert(dec_char(d) == '1');
    } else if d == 2 {
        assert(dec_char(d) == '2');
    } else if d == 3 {
        assert(dec_char(d) == '3');
    } else if d == 4 {
        assert(dec_char(d) == '4');
    } else if d == 5 {
        assert(dec_char(d) == '5');
    } else if d == 6 {
        assert(dec_char(d) == '6');
    } else if d == 7 {
        assert(dec_char(d) == '7');
    } else if d == 8 {
        assert(dec_char(d) == '8');
    } else {
        assert(dec_char(d) == '9');
    }
}

proof fn lemma_bengali_dec_value(n: nat)
    ensures
        bengali_numeral_value(bengali_digits_spec(dec_digits(n))) == n,
    decreases n,
{
    if n < 10 {
        let b = bengali_digits_spec(dec_digits(n));
        assert(b.drop_last() =~= Seq::<char>::empty());
        assert(b.last() == bengali_char(dec_char(n)));
        lemma_bengali_of_dec_char(n);
        assert(bengali_numeral_value(b) == bengali_numeral_value(b.drop_last()) * 10 + (b.last() as int
            - '০' as int));
        assert(bengali_numeral_value(Seq::<char>::empty()) == 0);
    } else {
        lemma_bengali_dec_value(n / 10);
        let p = dec_digits(n / 10);
        let c = dec_char(n % 10);
        assert(dec_digits(n) == p.push(c));
        let b = bengali_digits_spec(p.push(c));
        assert(b.drop_last() =~= bengali_digits_spec(p));
        assert(b.last() == bengali_char(c));
        lemma_bengali_of_dec_char(n % 10);
        assert(bengali_numeral_value(b) == bengali_numeral_value(b.drop_last()) * 10 + (b.last() as int
            - '০' as int));
        assert((n / 10) * 10 + n % 10 == n);
    }
}

proof fn lemma_bengali_zeros_value(k: nat)
    ensures
        bengali_numeral_value(Seq::new(k, |i: int| '০')) == 0,
    decreases k,
{
    if k > 0 {
        lemma_bengali_zeros_value((k - 1) as nat);
        assert(Seq::new(k, |i: int| '০').drop_last() =~= Seq::new((k - 1) as nat, |i: int| '০'));
    }
}

proof fn lemma_bengali_leading_zeros(k: nat, s: Seq<char>)
    ensures
        bengali_numeral_value(Seq::new(k, |i: int| '০') + s) == bengali_numeral_value(s),
    decreases s.len(),
{
    let z = Seq::new(k, |i: int| '০');
    if s.len() == 0 {
        assert(z + s =~= z);
        lemma_bengali_zeros_value(k);
    } else {
        lemma_bengali_leading_zeros(k, s.drop_last());
        assert((z + s).drop_last() =~= z + s.drop_last());
        assert((z + s).last() == s.last());
    }
}

/// A user's tag in a thread, read as a number, is the low sixteen bits of
/// the hash of the user, the thread and the secret: the tag names exactly
/// that number.
pub proof fn lemma_utid_encodes_user_thread_hash(uid: i32, tid: i32, secret: u32)
    ensures
        bengali_numeral_value(utid_spec(uid, tid, secret)) == default_hash_of(uid, tid, secret) % 65536,
{
    let n = (default_hash_of(uid, tid, secret) % 65536) as nat;
    let d = dec_digits(n);
    lemma_bengali_dec_value(n);
    if d.len() < 5 {
        let k = (5 - d.len()) as nat;
        let zeros = Seq::new(k, |i: int| '0');
        assert(zero_pad(d, 5) == zeros + d);
        assert(bengali_digits_spec(zeros + d) =~= Seq::new(k, |i: int| '০') + bengali_digits_spec(d));
        lemma_bengali_leading_zeros(k, bengali_digits_spec(d));
    }
}

/// Two tags are the same exactly when the hashes of their user, thread
/// and secret agree in their low sixteen bits; so a user's tag changes
/// with the thread as the hash does.
pub proof fn lemma_utid_same_iff_hash_agrees(
    uid: i32,
    tid: i32,
    secret: u32,
    uid2: i32,
    tid2: i32,
    secret2: u32,
)
    ensures
        utid_spec(uid, tid, secret) == utid_spec(uid2, tid2, secret2) <==> default_hash_of(uid, tid, secret)
            % 65536 == default_hash_of(uid2, tid2, secret2) % 65536,
{
    lemma_utid_encodes_user_thread_hash(uid, tid, secret);
    lemma_utid_encodes_user_thread_hash(uid2, tid2, secret2);
}

/// A post stored to wait for its author's confirmation: a thread (with
/// its subject and board) or a reply (with its thread), by the user
/// `uid`, with its comment already formatted.
pub struct NewPendingPost {
    pub is_thread: bool,
    pub uid: i32,
    pub subject: Option<String>,
    pub comment: String,
    pub board: Option<String>,
    pub tid: Option<i32>,
}

/// Whether `p` is the pending thread of `uid` on `board` with `subject`
/// and the formatted `comment`.
pub open spec fn is_pending_thread(
    p: NewPendingPost,
    uid: i32,
    subject: Seq<char>,
    comment: Seq<char>,
    board: Seq<char>,
) -> bool {
    &&& p.is_thread
    &&& p.uid == uid
    &&& p.subject matches Some(s) && s@ == subject
    &&& p.comment@ == format_spec(comment)
    &&& p.board matches Some(b) && b@ == board
    &&& p.tid is None
}

/// Whether `p` is the pending reply of `uid` to the thread `tid` with the
/// formatted `comment`.
pub open spec fn is_pending_reply(p: NewPendingPost, uid: i32, tid: i32, comment: Seq<char>) -> bool {
    &&& !p.is_thread
    &&& p.uid == uid
    &&& p.subject is None
    &&& p.comment@ == format_spec(comment)
    &&& p.board is None
    &&& p.tid == Some(tid)
}

/// The pending thread that `uid` posts on `board`.
pub fn pending_thread(uid: i32, subject: &str, comment: &str, board: &str) -> (r: NewPendingPost)
    requires
        markup_patterns_compile(),
        sanitizable(comment@),
    ensures
        is_pending_thread(r, uid, subject@, comment@, board@),
{
    let formatted = crate::formatting::format(comment);
    NewPendingPost {
        is_thread: true,
        uid,
        subject: Some(subject.to_owned()),
        comment: formatted,
        board: Some(board.to_owned()),
        tid: None,
    }
}

/// `pending_thread`, where the comment can be formatted; `None` otherwise.
pub fn try_pending_thread(uid: i32, subject: &str, comment: &str, board: &str) -> (r: Option<NewPendingPost>)
    ensures
        r is Some <==> (markup_patterns_compile() && sanitizable(comment@)),
        r matches Some(p) ==> is_pending_thread(p, uid, subject@, comment@, board@),
{
    match try_format(comment) {
        Some(_) => Some(pending_thread(uid, subject, comment, board)),
        None => None,
    }
}

/// The pending reply that `uid` posts to the thread `tid`.
pub fn pending_reply(uid: i32, tid: i32, comment: &str) -> (r: NewPendingPost)
    requires
        markup_patterns_compile(),
        sanitizable(comment@),
    ensures
        is_pending_reply(r, uid, tid, comment@),
{
    let formatted = crate::formatting::format(comment);
    NewPendingPost { is_thread: false, uid, subject: None, comment: formatted, board: None, tid: Some(tid) }
}

/// `pending_reply`, where the comment can be formatted; `None` otherwise.
pub fn try_pending_reply(uid: i32, tid: i32, comment: &str) -> (r: Option<NewPendingPost>)
    ensures
        r is Some <==> (markup_patterns_compile() && sanitizable(comment@)),
        r matches Some(p) ==> is_pending_reply(p, uid, tid, comment@),
{
    match try_format(comment) {
        Some(_) => Some(pending_reply(uid, tid, comment)),
        None => None,
    }
}

/// The modification time of the last of `rows`, in Unix seconds; `0`
/// where there are none.
pub fn last_mtime(rows: &Vec<Thread>) -> (r: i64)
    ensures
        r == last_mtime_of(rows@),
{
    if rows.len() > 0 {
        rows[rows.len() - 1].mtime.unix_seconds
    } else {
        0
    }
}

} // verus!
