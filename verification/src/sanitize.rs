//! Pure text sanitization: turns the markup subset used in comment bodies
//! into plain text by a fixed table of literal substitutions, a generic
//! tag-span scanner, and whitespace trimming.

use vstd::prelude::*;
use vstd::std_specs::iter::IteratorSpec;

verus! {

broadcast use vstd::string::group_string_axioms;

/// Whitespace for the purpose of trimming sanitized text.
pub open spec fn is_space(c: char) -> bool {
    c == ' ' || c == '\n' || c == '\t' || c == '\r'
}

/// All non-overlapping occurrences of `pat` in `s` replaced by `rep`,
/// scanning left to right. An empty pattern replaces nothing.
pub open spec fn replaced(s: Seq<char>, pat: Seq<char>, rep: Seq<char>) -> Seq<char>
    decreases s.len(),
{
    if pat.len() == 0 {
        s
    } else if s.len() < pat.len() {
        s
    } else if s.take(pat.len() as int) == pat {
        rep + replaced(s.skip(pat.len() as int), pat, rep)
    } else {
        seq![s[0]] + replaced(s.skip(1), pat, rep)
    }
}

fn match_at(s: &Vec<char>, i: usize, pat: &Vec<char>) -> (r: bool)
    requires
        i + pat@.len() <= s@.len(),
    ensures
        r == (s@.subrange(i as int, i + pat@.len()) == pat@),
{
    let mut j: usize = 0;
    assert(s@.len() == s.len());
    while j < pat.len()
        invariant
            i + pat@.len() <= s@.len(),
            s@.len() <= usize::MAX,
            j <= pat@.len(),
            forall|k: int| 0 <= k < j ==> s@[i + k] == pat@[k],
        decreases pat@.len() - j,
    {
        if s[i + j] != pat[j] {
            assert(s@.subrange(i as int, i + pat@.len())[j as int] == s@[i + j]);
            return false;
        }
        j += 1;
    }
    assert(s@.subrange(i as int, i + pat@.len()) =~= pat@);
    true
}

/// Replaces every non-overlapping occurrence of `pat` in `s` by `rep`,
/// scanning left to right.
pub fn replace_all(s: &Vec<char>, pat: &Vec<char>, rep: &Vec<char>) -> (r: Vec<char>)
    requires
        pat@.len() > 0,
    ensures
        r@ == replaced(s@, pat@, rep@),
{
    let mut out: Vec<char> = Vec::new();
    let mut i: usize = 0;
    assert(s@.skip(0) =~= s@);
    assert(Seq::<char>::empty() + replaced(s@, pat@, rep@) =~= replaced(s@, pat@, rep@));
    while i < s.len()
        invariant
            i <= s@.len(),
            pat@.len() > 0,
            replaced(s@, pat@, rep@) == out@ + replaced(s@.skip(i as int), pat@, rep@),
        decreases s@.len() - i,
    {
        let ghost pre = out@;
        if pat.len() <= s.len() - i && match_at(s, i, pat) {
            assert(s@.skip(i as int).take(pat@.len() as int) =~= s@.subrange(
                i as int,
                i + pat@.len(),
            ));
            assert(s@.skip(i as int).skip(pat@.len() as int) =~= s@.skip(i + pat@.len()));
            let mut j: usize = 0;
            while j < rep.len()
                invariant
                    j <= rep@.len(),
                    out@ == pre + rep@.take(j as int),
                decreases rep@.len() - j,
            {
                out.push(rep[j]);
                assert(pre + rep@.take(j + 1) =~= (pre + rep@.take(j as int)).push(rep@[j as int]));
                j += 1;
            }
            assert(rep@.take(rep@.len() as int) =~= rep@);
            i += pat.len();
            assert((pre + rep@) + replaced(s@.skip(i as int), pat@, rep@) =~= pre + (rep@ + replaced(
                s@.skip(i as int),
                pat@,
                rep@,
            )));
        } else {
            if pat.len() <= s.len() - i {
                assert(s@.skip(i as int).take(pat@.len() as int) =~= s@.subrange(
                    i as int,
                    i + pat@.len(),
                ));
            }
            out.push(s[i]);
            assert(s@.skip(i as int).skip(1) =~= s@.skip(i + 1));
            i += 1;
            assert((pre + seq![s@[i - 1]]) + replaced(s@.skip(i as int), pat@, rep@) =~= pre + (seq![
                s@[i - 1],
            ] + replaced(s@.skip(i as int), pat@, rep@)));
            assert(out@ =~= pre + seq![s@[i - 1]]);
        }
    }
    assert(s@.skip(s@.len() as int) =~= Seq::<char>::empty());
    assert(out@ + replaced(s@.skip(s@.len() as int), pat@, rep@) =~= out@);
    out
}

/// One pass of the tag scanner over `s`, starting outside any tag:
/// returns the characters kept and whether the scan ends inside a tag.
/// `<` enters a tag; while inside, every character is dropped and `>`
/// exits; outside a tag every character other than `<` is kept.
pub open spec fn tag_scan(s: Seq<char>) -> (Seq<char>, bool)
    decreases s.len(),
{
    if s.len() == 0 {
        (Seq::<char>::empty(), false)
    } else {
        let (out, in_tag) = tag_scan(s.drop_last());
        let c = s.last();
        if c == '<' {
            (out, true)
        } else if in_tag {
            (out, c != '>')
        } else {
            (out.push(c), false)
        }
    }
}

/// `s` with every `<`...`>` span removed.
pub open spec fn stripped(s: Seq<char>) -> Seq<char> {
    tag_scan(s).0
}

fn strip_tags_chars(s: &Vec<char>) -> (r: Vec<char>)
    ensures
        r@ == stripped(s@),
{
    let mut out: Vec<char> = Vec::new();
    let mut in_tag = false;
    let mut i: usize = 0;
    assert(s@.take(0) =~= Seq::<char>::empty());
    while i < s.len()
        invariant
            i <= s@.len(),
            (out@, in_tag) == tag_scan(s@.take(i as int)),
        decreases s@.len() - i,
    {
        assert(s@.take(i + 1).drop_last() =~= s@.take(i as int));
        assert(s@.take(i + 1).last() == s@[i as int]);
        let c = s[i];
        if c == '<' {
            in_tag = true;
        } else if in_tag {
            in_tag = c != '>';
        } else {
            out.push(c);
        }
        i += 1;
    }
    assert(s@.take(s@.len() as int) =~= s@);
    out
}

/// `s` with leading whitespace removed.
pub open spec fn trimmed_start(s: Seq<char>) -> Seq<char>
    decreases s.len(),
{
    if s.len() > 0 && is_space(s[0]) {
        trimmed_start(s.skip(1))
    } else {
        s
    }
}

/// `s` with trailing whitespace removed.
pub open spec fn trimmed_end(s: Seq<char>) -> Seq<char>
    decreases s.len(),
{
    if s.len() > 0 && is_space(s.last()) {
        trimmed_end(s.drop_last())
    } else {
        s
    }
}

/// `s` with leading and trailing whitespace removed.
pub open spec fn trimmed(s: Seq<char>) -> Seq<char> {
    trimmed_end(trimmed_start(s))
}

fn is_space_char(c: char) -> (r: bool)
    ensures
        r == is_space(c),
{
    c == ' ' || c == '\n' || c == '\t' || c == '\r'
}

fn trim_chars(s: &Vec<char>) -> (r: Vec<char>)
    ensures
        r@ == trimmed(s@),
{
    let mut a: usize = 0;
    assert(s@.skip(0) =~= s@);
    while a < s.len() && is_space_char(s[a])
        invariant
            a <= s@.len(),
            trimmed_start(s@) == trimmed_start(s@.skip(a as int)),
        decreases s@.len() - a,
    {
        assert(s@.skip(a as int)[0] == s@[a as int]);
        assert(s@.skip(a as int).skip(1) =~= s@.skip(a + 1));
        a += 1;
    }
    if a == s.len() {
        assert(s@.skip(a as int) =~= Seq::<char>::empty());
    }
    assert(trimmed_start(s@) == s@.skip(a as int));
    let mut b: usize = s.len();
    assert(s@.subrange(a as int, b as int) =~= s@.skip(a as int));
    while b > a && is_space_char(s[b - 1])
        invariant
            a <= b <= s@.len(),
            trimmed_end(s@.skip(a as int)) == trimmed_end(s@.subrange(a as int, b as int)),
        decreases b,
    {
        assert(s@.subrange(a as int, b as int).last() == s@[b - 1]);
        assert(s@.subrange(a as int, b as int).drop_last() =~= s@.subrange(a as int, b - 1));
        b -= 1;
    }
    assert(trimmed_end(s@.subrange(a as int, b as int)) == s@.subrange(a as int, b as int));
    let mut out: Vec<char> = Vec::new();
    let mut i: usize = a;
    while i < b
        invariant
            a <= i <= b <= s@.len(),
            out@ == s@.subrange(a as int, i as int),
        decreases b - i,
    {
        out.push(s[i]);
        assert(s@.subrange(a as int, i + 1) =~= s@.subrange(a as int, i as int).push(s@[i as int]));
        i += 1;
    }
    out
}

/// Relies on std's `String::push`: appends exactly one character at the end.
#[verifier::external_body]
fn push_char(s: &mut String, c: char)
    ensures
        final(s)@ == old(s)@.push(c),
{
    s.push(c);
}

fn string_of(cs: &Vec<char>) -> (r: String)
    ensures
        r@ == cs@,
{
    let mut out = String::new();
    let mut i: usize = 0;
    assert(cs@.take(0) =~= Seq::<char>::empty());
    while i < cs.len()
        invariant
            i <= cs@.len(),
            out@ == cs@.take(i as int),
        decreases cs@.len() - i,
    {
        push_char(&mut out, cs[i]);
        assert(cs@.take(i + 1) =~= cs@.take(i as int).push(cs@[i as int]));
        i += 1;
    }
    assert(cs@.take(cs@.len() as int) =~= cs@);
    out
}

/// The fixed ordered substitution table applied to comment markup:
/// paragraph breaks become blank lines, emphasis and strong markers are
/// stripped, code markers become backticks, line breaks become newlines,
/// and the known character entities are decoded.
pub open spec fn substitutions_applied(s: Seq<char>) -> Seq<char> {
    let s = replaced(s, "<p>"@, "\n\n"@);
    let s = replaced(s, "</p>"@, ""@);
    let s = replaced(s, "<i>"@, ""@);
    let s = replaced(s, "</i>"@, ""@);
    let s = replaced(s, "<em>"@, ""@);
    let s = replaced(s, "</em>"@, ""@);
    let s = replaced(s, "<strong>"@, ""@);
    let s = replaced(s, "</strong>"@, ""@);
    let s = replaced(s, "<code>"@, "`"@);
    let s = replaced(s, "</code>"@, "`"@);
    let s = replaced(s, "<pre>"@, "\n"@);
    let s = replaced(s, "</pre>"@, "\n"@);
    let s = replaced(s, "<br>"@, "\n"@);
    let s = replaced(s, "<br/>"@, "\n"@);
    let s = replaced(s, "<br />"@, "\n"@);
    let s = replaced(s, "&gt;"@, ">"@);
    let s = replaced(s, "&lt;"@, "<"@);
    let s = replaced(s, "&amp;"@, "&"@);
    let s = replaced(s, "&quot;"@, "\""@);
    let s = replaced(s, "&#x27;"@, "'"@);
    let s = replaced(s, "&#x2F;"@, "/"@);
    let s = replaced(s, "&nbsp;"@, " "@);
    s
}

/// The full sanitizer pipeline: apply the substitution table, remove the
/// remaining tag spans, and trim surrounding whitespace.
pub open spec fn sanitized(s: Seq<char>) -> Seq<char> {
    trimmed(stripped(substitutions_applied(s)))
}

fn apply_one(s: &Vec<char>, pat: &str, rep: &str) -> (r: Vec<char>)
    requires
        pat@.len() > 0,
    ensures
        r@ == replaced(s@, pat@, rep@),
{
    let p = chars_of(pat);
    let q = chars_of(rep);
    replace_all(s, &p, &q)
}

/// Decodes the markup subset used in comment bodies into plain text:
/// the fixed substitution table, then generic tag-span removal, then
/// whitespace trimming.
pub fn sanitize_comment_text(input: &str) -> (r: String)
    ensures
        r@ == sanitized(input@),
{
    proof {
        reveal_strlit("<p>");
        reveal_strlit("</p>");
        reveal_strlit("<i>");
        reveal_strlit("</i>");
        reveal_strlit("<em>");
        reveal_strlit("</em>");
        reveal_strlit("<strong>");
        reveal_strlit("</strong>");
        reveal_strlit("<code>");
        reveal_strlit("</code>");
        reveal_strlit("<pre>");
        reveal_strlit("</pre>");
        reveal_strlit("<br>");
        reveal_strlit("<br/>");
        reveal_strlit("<br />");
        reveal_strlit("&gt;");
        reveal_strlit("&lt;");
        reveal_strlit("&amp;");
        reveal_strlit("&quot;");
        reveal_strlit("&#x27;");
        reveal_strlit("&#x2F;");
        reveal_strlit("&nbsp;");
    }
    let s = chars_of(input);
    let s = apply_one(&s, "<p>", "\n\n");
    let s = apply_one(&s, "</p>", "");
    let s = apply_one(&s, "<i>", "");
    let s = apply_one(&s, "</i>", "");
    let s = apply_one(&s, "<em>", "");
    let s = apply_one(&s, "</em>", "");
    let s = apply_one(&s, "<strong>", "");
    let s = apply_one(&s, "</strong>", "");
    let s = apply_one(&s, "<code>", "`");
    let s = apply_one(&s, "</code>", "`");
    let s = apply_one(&s, "<pre>", "\n");
    let s = apply_one(&s, "</pre>", "\n");
    let s = apply_one(&s, "<br>", "\n");
    let s = apply_one(&s, "<br/>", "\n");
    let s = apply_one(&s, "<br />", "\n");
    let s = apply_one(&s, "&gt;", ">");
    let s = apply_one(&s, "&lt;", "<");
    let s = apply_one(&s, "&amp;", "&");
    let s = apply_one(&s, "&quot;", "\"");
    let s = apply_one(&s, "&#x27;", "'");
    let s = apply_one(&s, "&#x2F;", "/");
    let s = apply_one(&s, "&nbsp;", " ");
    let s = strip_tags_chars(&s);
    let s = trim_chars(&s);
    string_of(&s)
}

/// Removes every `<`...`>` span from the input, keeping a `>` that stands
/// outside any span.
pub fn strip_tags(input: &str) -> (r: String)
    ensures
        r@ == stripped(input@),
{
    let s = chars_of(input);
    let s = strip_tags_chars(&s);
    string_of(&s)
}

fn chars_of(s: &str) -> (r: Vec<char>)
    ensures
        r@ == s@,
{
    let mut it = s.chars();
    let mut out: Vec<char> = Vec::new();
    assert(Seq::<char>::empty() + s@ =~= s@);
    loop
        invariant
            it.obeys_prophetic_iter_laws(),
            it.decrease() is Some,
            out@ + it.remaining() == s@,
        decreases it.decrease()->0,
    {
        match it.next() {
            Some(c) => {
                assert(out@.push(c) + it.remaining() =~= out@ + seq![c] + it.remaining());
                out.push(c);
            },
            None => {
                assert(out@ + it.remaining() =~= out@);
                return out;
            },
        }
    }
}

} // verus!
