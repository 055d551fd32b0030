//! Comment formatting: HTML escaping and sanitizing, then the board's
//! markup (bold, italics, spoilers, quotes, post references, links and
//! embedded images), and the extraction of the post ids a comment refers
//! to.

use vstd::prelude::*;
use vstd::string::StringExecFns;
use std::collections::HashSet;

use crate::numerals::{parse_hex_i32, parse_hex_i32_spec};
use crate::text::{chars_of, lemma_trim_idempotent, string_from_chars, trim, trim_spec};

pub mod engine;

use engine::{
    default_sanitized,
    regex_capture_groups,
    regex_captures,
    regex_compiles,
    regex_count_matches,
    regex_links_replaced,
    regex_match_count,
    regex_replace_all,
    regex_replace_links,
    regex_replaced,
    sanitize_default,
};

verus! {

broadcast use vstd::std_specs::hash::group_hash_axioms;

// The markup: each pattern, and the template that its matches become
// (`$n` is the text of group `n`).
pub const BOLD_PATTERN: &'static str = r#"(^|\s|,|\.|")'''(\S+?(?: +\S+?)*?)'''(\s|,|\.|"|$)"#;
pub const BOLD_TEMPLATE: &'static str = "$1<b>$2</b>$3";
pub const ITALIC_PATTERN: &'static str = r#"(^|\s|,|\.|")''(\S+?(?: +\S+?)*?)''(\s|,|\.|"|$)"#;
pub const ITALIC_TEMPLATE: &'static str = "$1<i>$2</i>$3";
pub const UNDERLINE_PATTERN: &'static str = r#"(^|\s|,|\.|")__(\S+?(?: +\S+?)*?)__(\s|,|\.|"|$)"#;
pub const UNDERLINE_TEMPLATE: &'static str = "$1<u>$2</u>$3";
pub const STRIKE_PATTERN: &'static str = r#"(^|\s|,|\.|")~~(\S+?(?: +\S+?)*?)~~(\s|,|\.|"|$)"#;
pub const STRIKE_TEMPLATE: &'static str = "$1<s>$2</s>$3";
pub const SPOILER_TAG_PATTERN: &'static str = r#"(^|\s|,|\.|")\[spoiler\](\S+?(?: +\S+?)*?)\[/spoiler\](\s|,|\.|"|$)"#;
pub const SPOILER_STARS_PATTERN: &'static str = r#"(^|\s|,|\.|")\*\*(\S+?(?: +\S+?)*?)\*\*(\s|,|\.|"|$)"#;
pub const SPOILER_TEMPLATE: &'static str = "$1<span class=\"spoiler\">$2</span>$3";
pub const REDTEXT_PATTERN: &'static str = r#"(^|\s|,|\.|")==(\S+?(?: +\S+?)*?)==(\s|,|\.|"|$)"#;
pub const REDTEXT_TEMPLATE: &'static str = "$1<span class=\"redText\">$2</span>$3";
pub const QUOTE_PATTERN: &'static str = r"(?m)^(>|&gt;).*$";
pub const QUOTE_TEMPLATE: &'static str = r#"<span class="quote">$0</span>"#;
pub const REF_ARROW_PATTERN: &'static str = r"(>|&gt;)(>|&gt;) *([0-9a-fA-F]{1,8})";
pub const REF_ARROW_TEMPLATE: &'static str = r#"<a class="ref" href="/k/$3">$0</a>"#;
pub const REF_BRACKET_PATTERN: &'static str = r"\[\[((?:প|প্রকাশনা|[Pp]ost|)[.: \-] *([0-9a-fA-F]{1,8}))\]\]";
pub const REF_BRACKET_TEMPLATE: &'static str = r#"<a class="ref" href="/k/$2">$1</a>"#;
pub const BOARD_REF_PATTERN: &'static str = r#"((?:>|&gt;){3}/([a-z]{1,12})/)(\s|,|\.|"|$)"#;
pub const BOARD_REF_TEMPLATE: &'static str = r#"<a class="boardRef" href="/$2/">$1</a>$3"#;
pub const EMBED_PATTERN: &'static str = r"\[\[((?:http|https|ftp)://.+?(?i:(?:jpeg|jpg|png|webp|gif)))\](?:\[([^\n]+)?\])?\]";
pub const EMBED_TEMPLATE: &'static str = r#"<figure class="fig-comment"><img src="$1" alt="$1" class="img-comment"><figcaption>$2</figcaption></figure>"#;
pub const LINK_PATTERN: &'static str = r"\[\[((?:http|https|ftp)://.+?)\](?:\[(.+?)?\])?\]";
pub const SUP_PATTERN: &'static str = r"\^\{(.+?)\}";
pub const SUP_TEMPLATE: &'static str = r#"<sup>$1</sup>"#;
pub const SUB_PATTERN: &'static str = r"_\{(.+?)\}";
pub const SUB_TEMPLATE: &'static str = r#"<sub>$1</sub>"#;

/// The most embedded images a comment may have for them to be rendered.
pub const MAX_EMBEDS: usize = 10;

/// Whether every markup pattern compiles.
pub open spec fn markup_patterns_compile() -> bool {
    &&& regex_compiles(BOLD_PATTERN@)
    &&& regex_compiles(ITALIC_PATTERN@)
    &&& regex_compiles(UNDERLINE_PATTERN@)
    &&& regex_compiles(STRIKE_PATTERN@)
    &&& regex_compiles(SPOILER_TAG_PATTERN@)
    &&& regex_compiles(SPOILER_STARS_PATTERN@)
    &&& regex_compiles(REDTEXT_PATTERN@)
    &&& regex_compiles(QUOTE_PATTERN@)
    &&& regex_compiles(REF_ARROW_PATTERN@)
    &&& regex_compiles(REF_BRACKET_PATTERN@)
    &&& regex_compiles(BOARD_REF_PATTERN@)
    &&& regex_compiles(EMBED_PATTERN@)
    &&& regex_compiles(LINK_PATTERN@)
    &&& regex_compiles(SUP_PATTERN@)
    &&& regex_compiles(SUB_PATTERN@)
}

/// Replaces every match of `pattern` in `input` by `template`.
fn rewrite(pattern: &str, template: &str, input: &str) -> (r: String)
    requires
        regex_compiles(pattern@),
    ensures
        r@ == regex_replaced(pattern@, input@, template@),
{
    match regex_replace_all(pattern, input, template) {
        Some(r) => r,
        None => {
            proof {
                assert(false);
            }
            String::new()
        },
    }
}

/// `'''text'''` in bold.
fn embold(input: &str) -> (r: String)
    requires
        regex_compiles(BOLD_PATTERN@),
    ensures
        r@ == regex_replaced(BOLD_PATTERN@, input@, BOLD_TEMPLATE@),
{
    rewrite(BOLD_PATTERN, BOLD_TEMPLATE, input)
}

/// `''text''` in italics.
fn italicize(input: &str) -> (r: String)
    requires
        regex_compiles(ITALIC_PATTERN@),
    ensures
        r@ == regex_replaced(ITALIC_PATTERN@, input@, ITALIC_TEMPLATE@),
{
    rewrite(ITALIC_PATTERN, ITALIC_TEMPLATE, input)
}

/// `__text__` underlined.
fn underline(input: &str) -> (r: String)
    requires
        regex_compiles(UNDERLINE_PATTERN@),
    ensures
        r@ == regex_replaced(UNDERLINE_PATTERN@, input@, UNDERLINE_TEMPLATE@),
{
    rewrite(UNDERLINE_PATTERN, UNDERLINE_TEMPLATE, input)
}

/// `~~text~~` struck through.
fn strikethrough(input: &str) -> (r: String)
    requires
        regex_compiles(STRIKE_PATTERN@),
    ensures
        r@ == regex_replaced(STRIKE_PATTERN@, input@, STRIKE_TEMPLATE@),
{
    rewrite(STRIKE_PATTERN, STRIKE_TEMPLATE, input)
}

/// What `spoiler` makes of `input`.
pub open spec fn spoiler_spec(input: Seq<char>) -> Seq<char> {
    regex_replaced(
        SPOILER_STARS_PATTERN@,
        regex_replaced(SPOILER_TAG_PATTERN@, input, SPOILER_TEMPLATE@),
        SPOILER_TEMPLATE@,
    )
}

/// `[spoiler]text[/spoiler]`, then `**text**`, hidden as spoilers.
fn spoiler(input: &str) -> (r: String)
    requires
        regex_compiles(SPOILER_TAG_PATTERN@),
        regex_compiles(SPOILER_STARS_PATTERN@),
    ensures
        r@ == spoiler_spec(input@),
{
    let tagged = rewrite(SPOILER_TAG_PATTERN, SPOILER_TEMPLATE, input);
    rewrite(SPOILER_STARS_PATTERN, SPOILER_TEMPLATE, tagged.as_str())
}

/// `==text==` in red.
fn redtext(input: &str) -> (r: String)
    requires
        regex_compiles(REDTEXT_PATTERN@),
    ensures
        r@ == regex_replaced(REDTEXT_PATTERN@, input@, REDTEXT_TEMPLATE@),
{
    rewrite(REDTEXT_PATTERN, REDTEXT_TEMPLATE, input)
}

/// Lines that start with `>` as quotes.
fn enquote(input: &str) -> (r: String)
    requires
        regex_compiles(QUOTE_PATTERN@),
    ensures
        r@ == regex_replaced(QUOTE_PATTERN@, input@, QUOTE_TEMPLATE@),
{
    rewrite(QUOTE_PATTERN, QUOTE_TEMPLATE, input)
}

/// What `enref` makes of `input`.
pub open spec fn enref_spec(input: Seq<char>) -> Seq<char> {
    regex_replaced(
        REF_BRACKET_PATTERN@,
        regex_replaced(REF_ARROW_PATTERN@, input, REF_ARROW_TEMPLATE@),
        REF_BRACKET_TEMPLATE@,
    )
}

/// Post references become links in both of their forms: `>>id` first,
/// then `[[post: id]]` (with `post`, `Post`, `প`, `প্রকাশনা` or nothing
/// before the separator), each linking to `/k/{id}`.
pub proof fn lemma_post_references_both_forms(input: Seq<char>)
    ensures
        enref_spec(input) == regex_replaced(
            REF_BRACKET_PATTERN@,
            regex_replaced(REF_ARROW_PATTERN@, input, REF_ARROW_TEMPLATE@),
            REF_BRACKET_TEMPLATE@,
        ),
{
}

/// `>>id` and `[[post: id]]` as links to the post.
fn enref(input: &str) -> (r: String)
    requires
        regex_compiles(REF_ARROW_PATTERN@),
        regex_compiles(REF_BRACKET_PATTERN@),
    ensures
        r@ == enref_spec(input@),
        r@ == regex_replaced(
            REF_BRACKET_PATTERN@,
            regex_replaced(REF_ARROW_PATTERN@, input@, REF_ARROW_TEMPLATE@),
            REF_BRACKET_TEMPLATE@,
        ),
{
    let arrows = rewrite(REF_ARROW_PATTERN, REF_ARROW_TEMPLATE, input);
    rewrite(REF_BRACKET_PATTERN, REF_BRACKET_TEMPLATE, arrows.as_str())
}

/// `>>>/board/` as a link to the board.
fn ref_board(input: &str) -> (r: String)
    requires
        regex_compiles(BOARD_REF_PATTERN@),
    ensures
        r@ == regex_replaced(BOARD_REF_PATTERN@, input@, BOARD_REF_TEMPLATE@),
{
    rewrite(BOARD_REF_PATTERN, BOARD_REF_TEMPLATE, input)
}

/// What `embed` makes of `input`: nothing changes when it holds more
/// than `MAX_EMBEDS` images.
pub open spec fn embed_spec(input: Seq<char>) -> Seq<char> {
    if regex_match_count(EMBED_PATTERN@, input) > MAX_EMBEDS {
        input
    } else {
        regex_replaced(EMBED_PATTERN@, input, EMBED_TEMPLATE@)
    }
}

/// `[[url-of-image][caption]]` as an embedded figure, unless the comment
/// holds more than `MAX_EMBEDS` of them.
fn embed(input: &str) -> (r: String)
    requires
        regex_compiles(EMBED_PATTERN@),
    ensures
        r@ == embed_spec(input@),
{
    match regex_count_matches(EMBED_PATTERN, input) {
        Some(n) => {
            if n > MAX_EMBEDS {
                return input.to_owned();
            }
        },
        None => {
            proof {
                assert(false);
            }
        },
    }
    rewrite(EMBED_PATTERN, EMBED_TEMPLATE, input)
}

/// The anchor that a `[[url][text]]` link becomes.
pub open spec fn link_anchor_spec(href: Seq<char>, text: Option<Seq<char>>) -> Seq<char> {
    let shown = match text {
        Some(t) => t,
        None => href,
    };
    "<a href=\""@ + href + "\" target=\"_blank\" onClick=\"return confirm('Enter "@ + href
        + "?')\">"@ + shown + "</a>"@
}

/// The anchor for a link to `href` showing `text`, or `href` itself when
/// there is no text; following it asks for confirmation.
pub fn link_anchor(href: &str, text: Option<&str>) -> (r: String)
    ensures
        r@ == link_anchor_spec(href@, match text {
            Some(t) => Some(t@),
            None => None,
        }),
{
    let mut s = String::new();
    s.append("<a href=\"");
    s.append(href);
    s.append("\" target=\"_blank\" onClick=\"return confirm('Enter ");
    s.append(href);
    s.append("?')\">");
    match text {
        Some(t) => s.append(t),
        None => s.append(href),
    }
    s.append("</a>");
    s
}

/// `[[url][text]]` as a link.
fn enlink(input: &str) -> (r: String)
    requires
        regex_compiles(LINK_PATTERN@),
    ensures
        r@ == regex_links_replaced(input@),
{
    match regex_replace_links(input) {
        Some(r) => r,
        None => {
            proof {
                assert(false);
            }
            String::new()
        },
    }
}

/// `^{text}` as superscript.
fn sup(input: &str) -> (r: String)
    requires
        regex_compiles(SUP_PATTERN@),
    ensures
        r@ == regex_replaced(SUP_PATTERN@, input@, SUP_TEMPLATE@),
{
    rewrite(SUP_PATTERN, SUP_TEMPLATE, input)
}

/// `_{text}` as subscript.
fn sub(input: &str) -> (r: String)
    requires
        regex_compiles(SUB_PATTERN@),
    ensures
        r@ == regex_replaced(SUB_PATTERN@, input@, SUB_TEMPLATE@),
{
    rewrite(SUB_PATTERN, SUB_TEMPLATE, input)
}


/// What a character becomes when escaped for HTML.
pub open spec fn escape_char(c: char) -> Seq<char> {
    if c == '&' {
        seq!['&', 'a', 'm', 'p', ';']
    } else if c == '<' {
        seq!['&', 'l', 't', ';']
    } else if c == '>' {
        seq!['&', 'g', 't', ';']
    } else if c == '"' {
        seq!['&', 'q', 'u', 'o', 't', ';']
    } else if c == '\'' {
        seq!['&', '#', '3', '9', ';']
    } else {
        seq![c]
    }
}

/// `s` with `&`, `<`, `>`, `"` and `'` written as character references:
/// what the chain `.replace("&", "&amp;").replace("<", "&lt;")
/// .replace(">", "&gt;").replace("\"", "&quot;").replace("'", "&#39;")`
/// gives.
pub open spec fn escape_html_spec(s: Seq<char>) -> Seq<char>
    decreases s.len(),
{
    if s.len() == 0 {
        Seq::empty()
    } else {
        escape_html_spec(s.drop_last()) + escape_char(s.last())
    }
}

/// Escapes `&`, `<`, `>`, `"` and `'` in `s`.
pub fn escape_html(s: &Vec<char>) -> (r: Vec<char>)
    ensures
        r@ == escape_html_spec(s@),
{
    let mut out: Vec<char> = Vec::new();
    let mut i: usize = 0;
    while i < s.len()
        invariant
            i <= s.len(),
            out@ == escape_html_spec(s@.take(i as int)),
        decreases s.len() - i,
    {
        let c = s[i];
        let ghost before = out@;
        if c == '&' {
            out.push('&');
            out.push('a');
            out.push('m');
            out.push('p');
            out.push(';');
        } else if c == '<' {
            out.push('&');
            out.push('l');
            out.push('t');
            out.push(';');
        } else if c == '>' {
            out.push('&');
            out.push('g');
            out.push('t');
            out.push(';');
        } else if c == '"' {
            out.push('&');
            out.push('q');
            out.push('u');
            out.push('o');
            out.push('t');
            out.push(';');
        } else if c == '\'' {
            out.push('&');
            out.push('#');
            out.push('3');
            out.push('9');
            out.push(';');
        } else {
            out.push(c);
        }
        assert(out@ =~= before + escape_char(c));
        assert(s@.take(i + 1).drop_last() =~= s@.take(i as int));
        i = i + 1;
    }
    assert(s@.take(s.len() as int) =~= s@);
    out
}

/// Escaped text holds none of the characters that open or close markup
/// or attribute values: `<`, `>`, `"` and `'`.
pub proof fn lemma_escaped_has_no_markup(s: Seq<char>)
    ensures
        forall|i: int|
            0 <= i < escape_html_spec(s).len() ==> {
                let c = #[trigger] escape_html_spec(s)[i];
                c != '<' && c != '>' && c != '"' && c != '\''
            },
    decreases s.len(),
{
    if s.len() > 0 {
        lemma_escaped_has_no_markup(s.drop_last());
        let p = escape_html_spec(s.drop_last());
        let e = escape_char(s.last());
        assert forall|i: int| 0 <= i < (p + e).len() implies {
            let c = #[trigger] (p + e)[i];
            c != '<' && c != '>' && c != '"' && c != '\''
        } by {
            if i >= p.len() {
                assert((p + e)[i] == e[i - p.len()]);
            } else {
                assert((p + e)[i] == p[i]);
            }
        }
    }
}

/// Whether the sanitizer accepts the trimmed, escaped form of `input`.
pub open spec fn sanitizable(input: Seq<char>) -> bool {
    default_sanitized(escape_html_spec(trim_spec(input))) is Some
}

/// What `sanitize` makes of `input`.
pub open spec fn sanitize_spec(input: Seq<char>) -> Seq<char> {
    default_sanitized(escape_html_spec(trim_spec(input)))->0
}

/// Trims `input`, escapes it for HTML, and passes it through the
/// sanitizer's default rules; what comes out holds no `<`, so no tag.
pub fn sanitize(input: &str) -> (r: String)
    requires
        sanitizable(input@),
    ensures
        r@ == sanitize_spec(input@),
        !r@.contains('<'),
{
    let chars = chars_of(input);
    let trimmed = trim(&chars);
    let escaped = escape_html(&trimmed);
    let text = string_from_chars(&escaped);
    match sanitize_default(text.as_str()) {
        Some(r) => r,
        None => {
            proof {
                assert(false);
            }
            String::new()
        },
    }
}

/// `sanitize`, where the sanitizer accepts the input; `None` where it
/// reports an error.
pub fn try_sanitize(input: &str) -> (r: Option<String>)
    ensures
        r is Some <==> sanitizable(input@),
        r matches Some(t) ==> t@ == sanitize_spec(input@),
        r matches Some(t) ==> !t@.contains('<'),
{
    let chars = chars_of(input);
    let trimmed = trim(&chars);
    let escaped = escape_html(&trimmed);
    let text = string_from_chars(&escaped);
    match sanitize_default(text.as_str()) {
        Some(_) => Some(sanitize(input)),
        None => None,
    }
}

/// What `format` makes of `input`.
pub open spec fn format_spec(input: Seq<char>) -> Seq<char> {
    let s = sanitize_spec(input);
    let linked = regex_replaced(
        BOARD_REF_PATTERN@,
        regex_links_replaced(embed_spec(s)),
        BOARD_REF_TEMPLATE@,
    );
    let b = regex_replaced(BOLD_PATTERN@, linked, BOLD_TEMPLATE@);
    let i = regex_replaced(ITALIC_PATTERN@, b, ITALIC_TEMPLATE@);
    let u = regex_replaced(UNDERLINE_PATTERN@, i, UNDERLINE_TEMPLATE@);
    let st = regex_replaced(STRIKE_PATTERN@, u, STRIKE_TEMPLATE@);
    let sp = spoiler_spec(st);
    let red = regex_replaced(REDTEXT_PATTERN@, sp, REDTEXT_TEMPLATE@);
    let quoted = regex_replaced(QUOTE_PATTERN@, red, QUOTE_TEMPLATE@);
    let refs = enref_spec(quoted);
    let sup = regex_replaced(SUP_PATTERN@, refs, SUP_TEMPLATE@);
    regex_replaced(SUB_PATTERN@, sup, SUB_TEMPLATE@)
}

/// Renders a comment: sanitizes it, then turns embedded images, links,
/// board references, bold, italics, underline, strikethrough, spoilers,
/// red text, quotes, post references, superscript and subscript into
/// HTML, in that order.
pub fn format(input: &str) -> (r: String)
    requires
        markup_patterns_compile(),
        sanitizable(input@),
    ensures
        r@ == format_spec(input@),
{
    let input = sanitize(input);
    let formatted = ref_board(enlink(embed(input.as_str()).as_str()).as_str());
    let formatted = enref(
        enquote(
            redtext(
                spoiler(
                    strikethrough(
                        underline(italicize(embold(formatted.as_str()).as_str()).as_str()).as_str(),
                    ).as_str(),
                ).as_str(),
            ).as_str(),
        ).as_str(),
    );
    self::sub(sup(formatted.as_str()).as_str())
}

/// Whether every markup pattern compiles.
pub fn markup_patterns_ready() -> (r: bool)
    ensures
        r == markup_patterns_compile(),
{
    let patterns: [&str; 15] = [
        BOLD_PATTERN,
        ITALIC_PATTERN,
        UNDERLINE_PATTERN,
        STRIKE_PATTERN,
        SPOILER_TAG_PATTERN,
        SPOILER_STARS_PATTERN,
        REDTEXT_PATTERN,
        QUOTE_PATTERN,
        REF_ARROW_PATTERN,
        REF_BRACKET_PATTERN,
        BOARD_REF_PATTERN,
        EMBED_PATTERN,
        LINK_PATTERN,
        SUP_PATTERN,
        SUB_PATTERN,
    ];
    let mut i: usize = 0;
    while i < 15
        invariant
            i <= 15,
            patterns@ == seq![
                BOLD_PATTERN,
                ITALIC_PATTERN,
                UNDERLINE_PATTERN,
                STRIKE_PATTERN,
                SPOILER_TAG_PATTERN,
                SPOILER_STARS_PATTERN,
                REDTEXT_PATTERN,
                QUOTE_PATTERN,
                REF_ARROW_PATTERN,
                REF_BRACKET_PATTERN,
                BOARD_REF_PATTERN,
                EMBED_PATTERN,
                LINK_PATTERN,
                SUP_PATTERN,
                SUB_PATTERN,
            ],
            forall|k: int| 0 <= k < i ==> regex_compiles(#[trigger] patterns@[k]@),
        decreases 15 - i,
    {
        if regex_count_matches(patterns[i], "").is_none() {
            return false;
        }
        i = i + 1;
    }
    assert(regex_compiles(patterns@[0]@));
    assert(regex_compiles(patterns@[1]@));
    assert(regex_compiles(patterns@[2]@));
    assert(regex_compiles(patterns@[3]@));
    assert(regex_compiles(patterns@[4]@));
    assert(regex_compiles(patterns@[5]@));
    assert(regex_compiles(patterns@[6]@));
    assert(regex_compiles(patterns@[7]@));
    assert(regex_compiles(patterns@[8]@));
    assert(regex_compiles(patterns@[9]@));
    assert(regex_compiles(patterns@[10]@));
    assert(regex_compiles(patterns@[11]@));
    assert(regex_compiles(patterns@[12]@));
    assert(regex_compiles(patterns@[13]@));
    assert(regex_compiles(patterns@[14]@));
    true
}

/// `format`, where every markup pattern compiles and the sanitizer
/// accepts the input; `None` otherwise.
pub fn try_format(input: &str) -> (r: Option<String>)
    ensures
        r is Some <==> (markup_patterns_compile() && sanitizable(input@)),
        r matches Some(t) ==> t@ == format_spec(input@),
{
    if !markup_patterns_ready() {
        return None;
    }
    match try_sanitize(input) {
        Some(_) => Some(format(input)),
        None => None,
    }
}

/// The post id that one match of the reference pattern names: its third
/// group read as a hexadecimal `i32`, where that succeeds.
pub open spec fn reference_of(groups: Seq<Option<Seq<char>>>) -> Option<i32> {
    if groups.len() > 3 && groups[3] is Some {
        parse_hex_i32_spec(groups[3]->0)
    } else {
        None
    }
}

/// The post ids that `>>id` references in `input` name.
pub open spec fn references_spec(input: Seq<char>) -> Set<i32> {
    let caps = regex_capture_groups(REF_ARROW_PATTERN@, input);
    Set::new(|n: i32| exists|i: int| 0 <= i < caps.len() && reference_of(#[trigger] caps[i]) == Some(n))
}

/// The post ids that the `>>id` references of `input` name, read as
/// hexadecimal; a reference whose id does not fit in an `i32` names none.
pub fn references(input: &str) -> (r: HashSet<i32>)
    requires
        regex_compiles(REF_ARROW_PATTERN@),
    ensures
        r@ == references_spec(input@),
{
    let caps = match regex_captures(REF_ARROW_PATTERN, input) {
        Some(c) => c,
        None => {
            proof {
                assert(false);
            }
            Vec::new()
        },
    };
    let ghost dv = caps.deep_view();
    let mut found: HashSet<i32> = HashSet::new();
    let mut k: usize = 0;
    while k < caps.len()
        invariant
            k <= caps.len(),
            dv == caps.deep_view(),
            dv == regex_capture_groups(REF_ARROW_PATTERN@, input@),
            found@ =~= Set::new(
                |n: i32| exists|i: int| 0 <= i < k && reference_of(#[trigger] dv[i]) == Some(n),
            ),
        decreases caps.len() - k,
    {
        let groups = &caps[k];
        assert(dv[k as int] == groups.deep_view());
        let ghost before = found@;
        let mut named: Option<i32> = None;
        if groups.len() > 3 {
            match &groups[3] {
                Some(g) => {
                    assert(groups.deep_view()[3] == Some(g@));
                    let cs = chars_of(g.as_str());
                    named = parse_hex_i32(&cs);
                },
                None => {
                    assert(groups.deep_view()[3] is None);
                },
            }
        }
        assert(named == reference_of(dv[k as int]));
        match named {
            Some(n) => {
                found.insert(n);
            },
            None => {},
        }
        assert(found@ =~= Set::new(
            |n: i32| exists|i: int| 0 <= i < k + 1 && reference_of(#[trigger] dv[i]) == Some(n),
        )) by {
            assert forall|n: i32| #[trigger] found@.contains(n) implies exists|i: int|
                0 <= i < k + 1 && reference_of(#[trigger] dv[i]) == Some(n) by {
                if before.contains(n) {
                    let i = choose|i: int| 0 <= i < k && reference_of(#[trigger] dv[i]) == Some(n);
                    assert(0 <= i < k + 1 && reference_of(dv[i]) == Some(n));
                } else {
                    assert(reference_of(dv[k as int]) == Some(n));
                }
            }
            assert forall|n: i32|
                (exists|i: int| 0 <= i < k + 1 && reference_of(#[trigger] dv[i]) == Some(n))
                implies #[trigger] found@.contains(n) by {
                let i = choose|i: int| 0 <= i < k + 1 && reference_of(#[trigger] dv[i]) == Some(n);
                if i < k {
                    assert(before.contains(n));
                }
            }
        }
        k = k + 1;
    }
    found
}


/// `references`, where the reference pattern compiles; `None` otherwise.
pub fn try_references(input: &str) -> (r: Option<HashSet<i32>>)
    ensures
        r is Some <==> regex_compiles(REF_ARROW_PATTERN@),
        r matches Some(found) ==> found@ == references_spec(input@),
{
    match regex_count_matches(REF_ARROW_PATTERN, "") {
        Some(_) => Some(references(input)),
        None => None,
    }
}


/// Whitespace around a comment makes no difference: formatting the
/// trimmed comment gives what formatting the comment gives, and the
/// sanitizer accepts the one exactly when it accepts the other.
pub proof fn lemma_format_ignores_surrounding_whitespace(input: Seq<char>)
    ensures
        sanitizable(trim_spec(input)) == sanitizable(input),
        format_spec(trim_spec(input)) == format_spec(input),
{
    lemma_trim_idempotent(input);
}

/// Rendering a comment applies every rewrite of the markup, each to the
/// output of the one before: the sanitized text has its images embedded
/// (unless there are more than `MAX_EMBEDS`), then its links, board
/// references, bold, italics, underline, strikethrough, both spoiler
/// forms, red text, quotes, both post reference forms, superscript and
/// subscript turned into HTML.
pub proof fn lemma_format_applies_every_rewrite(input: Seq<char>)
    ensures
        ({
            let s = default_sanitized(escape_html_spec(trim_spec(input)))->0;
            let e = if regex_match_count(EMBED_PATTERN@, s) > 10 {
                s
            } else {
                regex_replaced(EMBED_PATTERN@, s, EMBED_TEMPLATE@)
            };
            let br = regex_replaced(BOARD_REF_PATTERN@, regex_links_replaced(e), BOARD_REF_TEMPLATE@);
            let b = regex_replaced(BOLD_PATTERN@, br, BOLD_TEMPLATE@);
            let i = regex_replaced(ITALIC_PATTERN@, b, ITALIC_TEMPLATE@);
            let u = regex_replaced(UNDERLINE_PATTERN@, i, UNDERLINE_TEMPLATE@);
            let st = regex_replaced(STRIKE_PATTERN@, u, STRIKE_TEMPLATE@);
            let sp = regex_replaced(
                SPOILER_STARS_PATTERN@,
                regex_replaced(SPOILER_TAG_PATTERN@, st, SPOILER_TEMPLATE@),
                SPOILER_TEMPLATE@,
            );
            let red = regex_replaced(REDTEXT_PATTERN@, sp, REDTEXT_TEMPLATE@);
            let q = regex_replaced(QUOTE_PATTERN@, red, QUOTE_TEMPLATE@);
            let refs = regex_replaced(
                REF_BRACKET_PATTERN@,
                regex_replaced(REF_ARROW_PATTERN@, q, REF_ARROW_TEMPLATE@),
                REF_BRACKET_TEMPLATE@,
            );
            let sup = regex_replaced(SUP_PATTERN@, refs, SUP_TEMPLATE@);
            format_spec(input) == regex_replaced(SUB_PATTERN@, sup, SUB_TEMPLATE@)
        }),
{
}

} // verus!
