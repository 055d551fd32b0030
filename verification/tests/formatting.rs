use adda::formatting::{
    escape_html, link_anchor, markup_patterns_ready, references, sanitize, try_format,
    try_sanitize,
};
use adda::text::chars_of;

fn string_from_chars(v: &[char]) -> String {
    v.iter().collect()
}

#[test]
fn escape_html_escapes_the_five_characters() {
    let escaped = string_from_chars(&escape_html(&chars_of("<a href='x'>&\"")));
    assert_eq!(escaped, "&lt;a href=&#39;x&#39;&gt;&amp;&quot;");
}

#[test]
fn escape_html_matches_replace_chain() {
    let s = "a & b < c > d \" e ' f &amp;";
    let chain = s
        .replace("&", "&amp;")
        .replace("<", "&lt;")
        .replace(">", "&gt;")
        .replace("\"", "&quot;")
        .replace("'", "&#39;");
    assert_eq!(string_from_chars(&escape_html(&chars_of(s))), chain);
}

#[test]
fn sanitize_keeps_text_and_escapes_markup() {
    assert_eq!(sanitize("  a < b  "), "a &lt; b");
    assert_eq!(sanitize("<script>alert(1)</script>"), "&lt;script&gt;alert(1)&lt;/script&gt;");
    assert_eq!(try_sanitize("it's \"quoted\""), Some("it's \"quoted\"".to_string()));
}

#[test]
fn patterns_compile() {
    assert!(markup_patterns_ready());
}

#[test]
fn format_bold() {
    assert_eq!(adda::formatting::format("'''bold'''"), "<b>bold</b>");
}

#[test]
fn format_italic_underline_strike() {
    assert_eq!(adda::formatting::format("''it''"), "<i>it</i>");
    assert_eq!(adda::formatting::format("__under__"), "<u>under</u>");
    assert_eq!(adda::formatting::format("~~gone~~"), "<s>gone</s>");
}

#[test]
fn format_spoilers_and_red() {
    assert_eq!(adda::formatting::format("[spoiler]secret[/spoiler]"), "<span class=\"spoiler\">secret</span>");
    assert_eq!(adda::formatting::format("**secret**"), "<span class=\"spoiler\">secret</span>");
    assert_eq!(adda::formatting::format("==red=="), "<span class=\"redText\">red</span>");
}

#[test]
fn format_sup_sub() {
    assert_eq!(adda::formatting::format("x^{2}"), "x<sup>2</sup>");
    assert_eq!(adda::formatting::format("H_{2}O"), "H<sub>2</sub>O");
}

#[test]
fn format_quote_and_reference() {
    assert_eq!(
        adda::formatting::format(">>1f"),
        "<span class=\"quote\"><a class=\"ref\" href=\"/k/1f\">&gt;&gt;1f</a></span>"
    );
}

#[test]
fn format_board_reference() {
    assert_eq!(
        adda::formatting::format("see >>>/b/ now"),
        "see <a class=\"boardRef\" href=\"/b/\">&gt;&gt;&gt;/b/</a> now"
    );
}

#[test]
fn format_link() {
    assert_eq!(
        adda::formatting::format("[[https://example.com][site]]"),
        "<a href=\"https://example.com\" target=\"_blank\" onClick=\"return confirm('Enter https://example.com?')\">site</a>"
    );
}

#[test]
fn format_image() {
    assert_eq!(
        adda::formatting::format("[[https://x.org/a.png][cap]]"),
        "<figure class=\"fig-comment\"><img src=\"https://x.org/a.png\" alt=\"https://x.org/a.png\" class=\"img-comment\"><figcaption>cap</figcaption></figure>"
    );
}

#[test]
fn format_plain_text_unchanged() {
    assert_eq!(adda::formatting::format("  hello world  "), "hello world");
    assert_eq!(try_format("hello"), Some("hello".to_string()));
}

#[test]
fn link_anchor_defaults_to_href() {
    assert_eq!(
        link_anchor("http://a.b", None),
        "<a href=\"http://a.b\" target=\"_blank\" onClick=\"return confirm('Enter http://a.b?')\">http://a.b</a>"
    );
}

#[test]
fn references_reads_hex_ids() {
    let refs = references(">>1f and >>a0, >>ffffffff and &gt;&gt; 7");
    let mut v: Vec<i32> = refs.into_iter().collect();
    v.sort();
    assert_eq!(v, vec![7, 0x1f, 0xa0]);
}

#[test]
fn references_none() {
    assert!(references("no refs here > 1").is_empty());
}

#[test]
fn format_embeds_at_most_ten_images() {
    let image = "[[http://a.b/c.png]]";
    let ten = vec![image; 10].join(" ");
    let figure = "<figure class=\"fig-comment\"><img src=\"http://a.b/c.png\" alt=\"http://a.b/c.png\" class=\"img-comment\"><figcaption></figcaption></figure>";
    assert_eq!(adda::formatting::format(&ten), vec![figure; 10].join(" "));
    let eleven = vec![image; 11].join(" ");
    let anchor = link_anchor("http://a.b/c.png", None);
    assert_eq!(adda::formatting::format(&eleven), vec![anchor.as_str(); 11].join(" "));
}

#[test]
fn format_ignores_surrounding_whitespace() {
    assert_eq!(adda::formatting::format("  ==red==\n\t"), adda::formatting::format("==red=="));
    assert_eq!(adda::formatting::format("  ==red==\n\t"), "<span class=\"redText\">red</span>");
}

#[test]
fn sanitized_text_carries_no_tag() {
    let out = sanitize("  <script>alert(1)</script><b>bold</b> a < b <!-- c --> ");
    assert!(!out.contains('<'));
    assert_eq!(try_sanitize("x <i>y</i>").map(|s| s.contains('<')), Some(false));
}
