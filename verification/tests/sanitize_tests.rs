use hn_core::sanitize::sanitize_comment_text;
use hn_core::sanitize::strip_tags;

#[test]
fn sanitize_decodes_entities_inside_paragraph() {
    assert_eq!(sanitize_comment_text("<p>A &gt; B &amp; C</p>"), "A > B & C");
}

#[test]
fn sanitize_strips_inline_tags() {
    assert_eq!(
        sanitize_comment_text("<p>Hello <b>world</b> &amp; friends.</p>"),
        "Hello world & friends."
    );
}

#[test]
fn sanitize_is_idempotent_on_plain_text() {
    let once = sanitize_comment_text("<p>A &gt; B &amp; C</p>");
    let twice = sanitize_comment_text(&once);
    assert_eq!(once, twice);
}

#[test]
fn sanitize_converts_code_and_breaks() {
    assert_eq!(sanitize_comment_text("<code>x</code><br>y"), "`x`\ny");
}

#[test]
fn sanitize_paragraphs_become_blank_lines() {
    assert_eq!(sanitize_comment_text("<p>one</p><p>two</p>"), "one\n\ntwo");
}

#[test]
fn sanitize_trims_surrounding_whitespace() {
    assert_eq!(sanitize_comment_text("  \n x y \t "), "x y");
}

#[test]
fn sanitize_empty_input() {
    assert_eq!(sanitize_comment_text(""), "");
}

#[test]
fn sanitize_drops_unclosed_tag_tail() {
    assert_eq!(sanitize_comment_text("a<b"), "a");
}

#[test]
fn sanitize_decodes_quotes_and_slashes() {
    assert_eq!(
        sanitize_comment_text("&quot;a&quot; &#x27;b&#x27; c&#x2F;d&nbsp;e"),
        "\"a\" 'b' c/d e"
    );
}

#[test]
fn strip_tags_removes_unknown_spans() {
    assert_eq!(strip_tags("a<div class=\"x\">b</div>c"), "abc");
}

#[test]
fn strip_tags_keeps_gt_outside_tags() {
    assert_eq!(strip_tags("a > b"), "a > b");
}
