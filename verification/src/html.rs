//! Plain-text rendering of the HTML that Azure DevOps stores in work
//! item descriptions.
use vstd::prelude::*;

use crate::text::{
    chars_of, free_of, has_substring, is_whitespace, lemma_replace_absent, lemma_replace_at_start,
    lemma_replace_free_prefix, lemma_replace_mismatch, occurs_at, replace, replace_all, string_from,
    trim, trim_chars, trim_end, trim_start,
};

verus! {

/// Whether the text before a position is inside an HTML tag: the last
/// angle bracket seen is `<`.
pub open spec fn in_tag(p: Seq<char>) -> bool
    decreases p.len(),
{
    if p.len() == 0 {
        false
    } else if p.last() == '<' {
        true
    } else if p.last() == '>' {
        false
    } else {
        in_tag(p.drop_last())
    }
}

/// `s` without angle brackets and without what stands between a `<` and
/// the next `>`.
pub open spec fn strip_tags(s: Seq<char>) -> Seq<char>
    decreases s.len(),
{
    if s.len() == 0 {
        s
    } else {
        let init = strip_tags(s.drop_last());
        let c = s.last();
        if c == '<' || c == '>' || in_tag(s.drop_last()) {
            init
        } else {
            init.push(c)
        }
    }
}

/// Position `i` of `s` is a newline preceded by two newlines.
pub open spec fn third_newline(s: Seq<char>, i: int) -> bool {
    2 <= i < s.len() && s[i] == '\n' && s[i - 1] == '\n' && s[i - 2] == '\n'
}

/// `s` with every run of three or more newlines shortened to two.
pub open spec fn squeeze_newlines(s: Seq<char>) -> Seq<char>
    decreases s.len(),
{
    if s.len() == 0 {
        s
    } else {
        let init = squeeze_newlines(s.drop_last());
        if third_newline(s, s.len() - 1) {
            init
        } else {
            init.push(s.last())
        }
    }
}

/// Block-level tags turned into line breaks, list items into dashes.
pub open spec fn html_blocks_to_lines(s: Seq<char>) -> Seq<char> {
    let s1 = replace_all(s, "<br>"@, "\n"@);
    let s2 = replace_all(s1, "<br/>"@, "\n"@);
    let s3 = replace_all(s2, "<br />"@, "\n"@);
    let s4 = replace_all(s3, "</p>"@, "\n"@);
    let s5 = replace_all(s4, "</div>"@, "\n"@);
    let s6 = replace_all(s5, "</li>"@, "\n"@);
    let s7 = replace_all(s6, "</tr>"@, "\n"@);
    replace_all(s7, "<li>"@, "- "@)
}

/// The common HTML entities decoded, each once: `&amp;` comes last, so
/// the `&` it leaves never starts another entity (`&amp;lt;` reads
/// `&lt;`), and no other entity's replacement holds a character of any
/// entity, so none is made anew.
pub open spec fn decode_entities(s: Seq<char>) -> Seq<char> {
    let s1 = replace_all(s, "&lt;"@, "<"@);
    let s2 = replace_all(s1, "&gt;"@, ">"@);
    let s3 = replace_all(s2, "&quot;"@, "\""@);
    let s4 = replace_all(s3, "&#39;"@, "'"@);
    let s5 = replace_all(s4, "&nbsp;"@, " "@);
    replace_all(s5, "&amp;"@, "&"@)
}

/// The plain text of an HTML fragment.
pub open spec fn plain_text(html: Seq<char>) -> Seq<char> {
    trim(squeeze_newlines(decode_entities(strip_tags(html_blocks_to_lines(html)))))
}

/// The number of newlines that `s` ends with.
pub open spec fn trailing_newlines(s: Seq<char>) -> nat
    decreases s.len(),
{
    if s.len() > 0 && s.last() == '\n' {
        1 + trailing_newlines(s.drop_last())
    } else {
        0
    }
}

/// `s` has no three newlines in a row.
pub open spec fn no_triple_newline(s: Seq<char>) -> bool {
    forall|i: int| 2 <= i < s.len() ==> !third_newline(s, i)
}

proof fn lemma_squeeze_shape(s: Seq<char>)
    ensures
        no_triple_newline(squeeze_newlines(s)),
        trailing_newlines(squeeze_newlines(s)) == if trailing_newlines(s) < 2 {
            trailing_newlines(s)
        } else {
            2
        },
    decreases s.len(),
{
    if s.len() > 0 {
        let init = s.drop_last();
        lemma_squeeze_shape(init);
        let q = squeeze_newlines(init);
        let c = s.last();
        if third_newline(s, s.len() - 1) {
            assert(init.last() == '\n');
            assert(init.drop_last().last() == '\n');
            assert(trailing_newlines(init) >= 2) by {
                assert(trailing_newlines(init) == 1 + trailing_newlines(init.drop_last()));
            }
        } else {
            let r = q.push(c);
            assert(r.drop_last() =~= q);
            if c == '\n' {
                assert(trailing_newlines(s) == 1 + trailing_newlines(init));
                assert(trailing_newlines(init) < 2) by {
                    if trailing_newlines(init) >= 2 {
                        assert(init.last() == '\n');
                        assert(trailing_newlines(init.drop_last()) >= 1);
                        assert(init.drop_last().last() == '\n');
                        assert(s[s.len() - 2] == init.last());
                        assert(s[s.len() - 3] == init.drop_last().last());
                    }
                }
                assert forall|i: int| 2 <= i < r.len() implies !third_newline(r, i) by {
                    if i == r.len() - 1 {
                        if third_newline(r, i) {
                            assert(q.last() == '\n');
                            assert(q.drop_last().last() == '\n');
                            assert(trailing_newlines(q) == 1 + trailing_newlines(q.drop_last()));
                            assert(trailing_newlines(q.drop_last()) == 1 + trailing_newlines(
                                q.drop_last().drop_last(),
                            ));
                        }
                    } else {
                        assert(r[i] == q[i] && r[i - 1] == q[i - 1] && r[i - 2] == q[i - 2]);
                        assert(!third_newline(q, i));
                    }
                }
            } else {
                assert forall|i: int| 2 <= i < r.len() implies !third_newline(r, i) by {
                    if i < r.len() - 1 {
                        assert(r[i] == q[i] && r[i - 1] == q[i - 1] && r[i - 2] == q[i - 2]);
                        assert(!third_newline(q, i));
                    }
                }
            }
        }
    }
}

proof fn lemma_trim_start_suffix(s: Seq<char>) -> (k: int)
    ensures
        0 <= k <= s.len(),
        trim_start(s) == s.skip(k),
    decreases s.len(),
{
    if s.len() > 0 && crate::text::is_whitespace(s[0]) {
        let k = lemma_trim_start_suffix(s.skip(1));
        assert(s.skip(1).skip(k) =~= s.skip(k + 1));
        k + 1
    } else {
        assert(s.skip(0) =~= s);
        0
    }
}

proof fn lemma_trim_end_prefix(s: Seq<char>) -> (k: int)
    ensures
        0 <= k <= s.len(),
        trim_end(s) == s.take(k),
    decreases s.len(),
{
    if s.len() > 0 && crate::text::is_whitespace(s.last()) {
        let k = lemma_trim_end_prefix(s.drop_last());
        assert(s.drop_last().take(k) =~= s.take(k));
        k
    } else {
        assert(s.take(s.len() as int) =~= s);
        s.len() as int
    }
}

/// Trimming keeps a contiguous piece, so no three newlines appear in a row.
proof fn lemma_trim_no_triple(s: Seq<char>)
    requires
        no_triple_newline(s),
    ensures
        no_triple_newline(trim(s)),
{
    let a = lemma_trim_start_suffix(s);
    let t = s.skip(a);
    let b = lemma_trim_end_prefix(t);
    let r = t.take(b);
    assert forall|i: int| 2 <= i < r.len() implies !third_newline(r, i) by {
        assert(r[i] == s[a + i] && r[i - 1] == s[a + i - 1] && r[i - 2] == s[a + i - 2]);
        assert(!third_newline(s, a + i));
    }
}

/// `no_triple_newline` says that "\n\n\n" does not occur.
proof fn lemma_no_triple_substring(s: Seq<char>)
    requires
        no_triple_newline(s),
    ensures
        !has_substring(s, "\n\n\n"@),
{
    reveal_strlit("\n\n\n");
    assert forall|i: int| !occurs_at(s, "\n\n\n"@, i) by {
        if occurs_at(s, "\n\n\n"@, i) {
            let w = s.subrange(i, i + 3);
            assert(w[0] == s[i] && w[1] == s[i + 1] && w[2] == s[i + 2]);
            assert(third_newline(s, i + 2));
        }
    }
}

// ─── Executable ──────────────────────────────────────────────────

fn replace_lit(s: &Vec<char>, pat: &str, rep: &str) -> (r: Vec<char>)
    requires
        pat@.len() > 0,
    ensures
        r@ == replace_all(s@, pat@, rep@),
{
    let p = chars_of(pat);
    let q = chars_of(rep);
    replace(s, &p, &q)
}

fn strip_tag_chars(s: &Vec<char>) -> (r: Vec<char>)
    ensures
        r@ == strip_tags(s@),
{
    let mut out: Vec<char> = Vec::new();
    let mut inside = false;
    let mut i: usize = 0;
    assert(s@.take(0) =~= seq![]);
    while i < s.len()
        invariant
            i <= s.len(),
            out@ == strip_tags(s@.take(i as int)),
            inside == in_tag(s@.take(i as int)),
        decreases s.len() - i,
    {
        let c = s[i];
        assert(s@.take(i + 1).drop_last() =~= s@.take(i as int));
        if c == '<' {
            inside = true;
        } else if c == '>' {
            inside = false;
        } else if !inside {
            out.push(c);
        }
        i = i + 1;
    }
    assert(s@.take(s.len() as int) =~= s@);
    out
}

fn squeeze(s: &Vec<char>) -> (r: Vec<char>)
    ensures
        r@ == squeeze_newlines(s@),
{
    let mut out: Vec<char> = Vec::new();
    let mut i: usize = 0;
    assert(s@.take(0) =~= seq![]);
    while i < s.len()
        invariant
            i <= s.len(),
            out@ == squeeze_newlines(s@.take(i as int)),
        decreases s.len() - i,
    {
        let ghost t = s@.take(i + 1);
        assert(t.drop_last() =~= s@.take(i as int));
        let third = i >= 2 && s[i] == '\n' && s[i - 1] == '\n' && s[i - 2] == '\n';
        assert(third == third_newline(t, t.len() - 1));
        if !third {
            out.push(s[i]);
        }
        i = i + 1;
    }
    assert(s@.take(s.len() as int) =~= s@);
    out
}

/// Strip HTML tags and decode common entities (each once), giving plain text for
/// copilot context: block tags become line breaks, list items get a dash,
/// runs of blank lines collapse, and the result is trimmed.
pub fn strip_html(html: &str) -> (r: String)
    ensures
        r@ == plain_text(html@),
        !has_substring(r@, "\n\n\n"@),
{
    proof {
        reveal_strlit("<br>");
        reveal_strlit("<br/>");
        reveal_strlit("<br />");
        reveal_strlit("</p>");
        reveal_strlit("</div>");
        reveal_strlit("</li>");
        reveal_strlit("</tr>");
        reveal_strlit("<li>");
        reveal_strlit("&amp;");
        reveal_strlit("&lt;");
        reveal_strlit("&gt;");
        reveal_strlit("&quot;");
        reveal_strlit("&#39;");
        reveal_strlit("&nbsp;");
    }
    let mut s = chars_of(html);
    s = replace_lit(&s, "<br>", "\n");
    s = replace_lit(&s, "<br/>", "\n");
    s = replace_lit(&s, "<br />", "\n");
    s = replace_lit(&s, "</p>", "\n");
    s = replace_lit(&s, "</div>", "\n");
    s = replace_lit(&s, "</li>", "\n");
    s = replace_lit(&s, "</tr>", "\n");
    s = replace_lit(&s, "<li>", "- ");
    let mut out = strip_tag_chars(&s);
    out = replace_lit(&out, "&lt;", "<");
    out = replace_lit(&out, "&gt;", ">");
    out = replace_lit(&out, "&quot;", "\"");
    out = replace_lit(&out, "&#39;", "'");
    out = replace_lit(&out, "&nbsp;", " ");
    out = replace_lit(&out, "&amp;", "&");
    let squeezed = squeeze(&out);
    let trimmed = trim_chars(&squeezed);
    proof {
        lemma_squeeze_shape(out@);
        lemma_trim_no_triple(squeezed@);
        lemma_no_triple_substring(trimmed@);
    }
    string_from(&trimmed)
}

// ─── Laws ────────────────────────────────────────────────────────

proof fn lemma_free_drop_last(s: Seq<char>, c: char)
    requires
        s.len() > 0,
        free_of(s, c),
    ensures
        free_of(s.drop_last(), c),
{
    assert forall|i: int| 0 <= i < s.drop_last().len() implies s.drop_last()[i] != c by {
        assert(s.drop_last()[i] == s[i]);
    }
}

proof fn lemma_not_in_tag(p: Seq<char>)
    requires
        free_of(p, '<'),
    ensures
        !in_tag(p),
    decreases p.len(),
{
    if p.len() > 0 {
        lemma_free_drop_last(p, '<');
        lemma_not_in_tag(p.drop_last());
    }
}

/// Text without angle brackets has no tag to strip.
proof fn lemma_strip_tags_plain(s: Seq<char>)
    requires
        free_of(s, '<'),
        free_of(s, '>'),
    ensures
        strip_tags(s) == s,
    decreases s.len(),
{
    if s.len() > 0 {
        lemma_free_drop_last(s, '<');
        lemma_free_drop_last(s, '>');
        lemma_strip_tags_plain(s.drop_last());
        lemma_not_in_tag(s.drop_last());
        assert(s.drop_last().push(s.last()) =~= s);
    }
}

/// Text without `&` has no entity to decode.
proof fn lemma_decode_plain(s: Seq<char>)
    requires
        free_of(s, '&'),
    ensures
        decode_entities(s) == s,
{
    reveal_strlit("&amp;");
    reveal_strlit("&lt;");
    reveal_strlit("&gt;");
    reveal_strlit("&quot;");
    reveal_strlit("&#39;");
    reveal_strlit("&nbsp;");
    lemma_replace_absent(s, "&lt;"@, "<"@);
    lemma_replace_absent(s, "&gt;"@, ">"@);
    lemma_replace_absent(s, "&quot;"@, "\""@);
    lemma_replace_absent(s, "&#39;"@, "'"@);
    lemma_replace_absent(s, "&nbsp;"@, " "@);
    lemma_replace_absent(s, "&amp;"@, "&"@);
}

/// Positions `i - 1` and `i` of `s` are both newlines.
spec fn double_newline(s: Seq<char>, i: int) -> bool {
    s[i] == '\n' && s[i - 1] == '\n'
}

/// Text without two newlines in a row has no run to squeeze.
proof fn lemma_squeeze_plain(s: Seq<char>)
    requires
        forall|i: int| 1 <= i < s.len() ==> !#[trigger] double_newline(s, i),
    ensures
        squeeze_newlines(s) == s,
    decreases s.len(),
{
    if s.len() > 0 {
        let init = s.drop_last();
        assert forall|i: int| 1 <= i < init.len() implies !#[trigger] double_newline(init, i) by {
            assert(init[i] == s[i] && init[i - 1] == s[i - 1]);
            assert(!double_newline(s, i));
        }
        lemma_squeeze_plain(init);
        if s.len() >= 3 {
            assert(!double_newline(s, s.len() - 1));
        }
        assert(!third_newline(s, s.len() - 1));
        assert(init.push(s.last()) =~= s);
    }
}

/// Text that starts and ends with a non-blank character is its own trim.
proof fn lemma_trim_plain(s: Seq<char>)
    requires
        s.len() > 0,
        !is_whitespace(s[0]),
        !is_whitespace(s.last()),
    ensures
        trim(s) == s,
{
    assert(trim_start(s) == s);
    assert(trim_end(s) == s);
}

/// A block-tag replacement that does not match the tag `t` standing
/// between tag-free texts leaves the text as it is.
proof fn lemma_block_miss(a: Seq<char>, t: Seq<char>, b: Seq<char>, p: Seq<char>, r: Seq<char>, k: int)
    requires
        free_of(a, '<'),
        free_of(b, '<'),
        t.len() > 0,
        free_of(t.skip(1), '<'),
        p.len() > 0,
        p[0] == '<',
        0 <= k < t.len(),
        k < p.len(),
        t[k] != p[k],
    ensures
        replace_all(a + t + b, p, r) == a + t + b,
{
    assert(a + t + b =~= a + (t + b));
    lemma_replace_free_prefix(a, t + b, p, r);
    lemma_replace_mismatch(t, b, p, r, k);
}

/// The block-tag replacement that matches the tag between tag-free texts
/// puts its replacement there.
proof fn lemma_block_hit(a: Seq<char>, p: Seq<char>, b: Seq<char>, r: Seq<char>)
    requires
        free_of(a, '<'),
        free_of(b, '<'),
        p.len() > 0,
        p[0] == '<',
    ensures
        replace_all(a + p + b, p, r) == a + r + b,
{
    assert(a + p + b =~= a + (p + b));
    lemma_replace_free_prefix(a, p + b, p, r);
    lemma_replace_at_start(b, p, r);
    lemma_replace_absent(b, p, r);
    assert(a + (r + b) =~= a + r + b);
}

proof fn lemma_line_free(a: Seq<char>, b: Seq<char>, c: char)
    requires
        free_of(a, c),
        free_of(b, c),
        c != '\n',
    ensures
        free_of(a + "\n"@ + b, c),
{
    reveal_strlit("\n");
    let s = a + "\n"@ + b;
    assert forall|i: int| 0 <= i < s.len() implies s[i] != c by {
        if i < a.len() {
            assert(s[i] == a[i]);
        } else if i > a.len() {
            assert(s[i] == b[i - a.len() - 1]);
        }
    }
}

/// The replacements after the one that made the line break find nothing.
proof fn lemma_blocks_rest(y: Seq<char>)
    requires
        free_of(y, '<'),
    ensures
        replace_all(y, "<br>"@, "\n"@) == y,
        replace_all(y, "<br/>"@, "\n"@) == y,
        replace_all(y, "<br />"@, "\n"@) == y,
        replace_all(y, "</p>"@, "\n"@) == y,
        replace_all(y, "</div>"@, "\n"@) == y,
        replace_all(y, "</li>"@, "\n"@) == y,
        replace_all(y, "</tr>"@, "\n"@) == y,
        replace_all(y, "<li>"@, "- "@) == y,
{
    reveal_strlit("<br>");
    reveal_strlit("<br/>");
    reveal_strlit("<br />");
    reveal_strlit("</p>");
    reveal_strlit("</div>");
    reveal_strlit("</li>");
    reveal_strlit("</tr>");
    reveal_strlit("<li>");
    lemma_replace_absent(y, "<br>"@, "\n"@);
    lemma_replace_absent(y, "<br/>"@, "\n"@);
    lemma_replace_absent(y, "<br />"@, "\n"@);
    lemma_replace_absent(y, "</p>"@, "\n"@);
    lemma_replace_absent(y, "</div>"@, "\n"@);
    lemma_replace_absent(y, "</li>"@, "\n"@);
    lemma_replace_absent(y, "</tr>"@, "\n"@);
    lemma_replace_absent(y, "<li>"@, "- "@);
}

proof fn lemma_blocks_br(a: Seq<char>, t: Seq<char>, b: Seq<char>)
    requires
        free_of(a, '<'),
        free_of(b, '<'),
        t == "<br>"@ || t == "<br/>"@ || t == "<br />"@,
    ensures
        html_blocks_to_lines(a + t + b) == a + "\n"@ + b,
{
    reveal_strlit("<br>");
    reveal_strlit("<br/>");
    reveal_strlit("<br />");
    reveal_strlit("\n");
    let y = a + "\n"@ + b;
    lemma_line_free(a, b, '<');
    lemma_blocks_rest(y);
    if t == "<br>"@ {
        lemma_block_hit(a, t, b, "\n"@);
    } else if t == "<br/>"@ {
        assert(t.skip(1) =~= seq!['b', 'r', '/', '>']);
        lemma_block_miss(a, t, b, "<br>"@, "\n"@, 3);
        lemma_block_hit(a, t, b, "\n"@);
    } else {
        assert(t.skip(1) =~= seq!['b', 'r', ' ', '/', '>']);
        lemma_block_miss(a, t, b, "<br>"@, "\n"@, 3);
        lemma_block_miss(a, t, b, "<br/>"@, "\n"@, 3);
        lemma_block_hit(a, t, b, "\n"@);
    }
}

/// A line break tag between two lines of plain text becomes a newline:
/// for non-empty texts `a` and `b` without `<`, `>`, `&` or newlines,
/// starting and ending with non-blank characters, each of `<br>`,
/// `<br/>` and `<br />` between them gives `a`, a newline, then `b`.
pub proof fn lemma_line_break_tags(a: Seq<char>, b: Seq<char>)
    requires
        a.len() > 0,
        b.len() > 0,
        free_of(a, '<') && free_of(a, '>') && free_of(a, '&') && free_of(a, '\n'),
        free_of(b, '<') && free_of(b, '>') && free_of(b, '&') && free_of(b, '\n'),
        !is_whitespace(a[0]),
        !is_whitespace(b.last()),
    ensures
        plain_text(a + "<br>"@ + b) == a + "\n"@ + b,
        plain_text(a + "<br/>"@ + b) == a + "\n"@ + b,
        plain_text(a + "<br />"@ + b) == a + "\n"@ + b,
{
    reveal_strlit("\n");
    let y = a + "\n"@ + b;
    lemma_blocks_br(a, "<br>"@, b);
    lemma_blocks_br(a, "<br/>"@, b);
    lemma_blocks_br(a, "<br />"@, b);
    lemma_line_free(a, b, '<');
    lemma_line_free(a, b, '>');
    lemma_line_free(a, b, '&');
    lemma_strip_tags_plain(y);
    lemma_decode_plain(y);
    assert forall|i: int| 1 <= i < y.len() implies !#[trigger] double_newline(y, i) by {
        if i <= a.len() {
            if i < a.len() {
                assert(y[i] == a[i]);
            } else {
                assert(y[i - 1] == a[i - 1]);
            }
        } else {
            assert(y[i] == b[i - a.len() - 1]);
        }
    }
    lemma_squeeze_plain(y);
    assert(y[0] == a[0]);
    assert(y.last() == b.last());
    lemma_trim_plain(y);
}

proof fn lemma_join_free(a: Seq<char>, r: Seq<char>, b: Seq<char>, c: char)
    requires
        free_of(a, c),
        free_of(r, c),
        free_of(b, c),
    ensures
        free_of(a + r + b, c),
{
    let s = a + r + b;
    assert forall|i: int| 0 <= i < s.len() implies s[i] != c by {
        if i < a.len() {
            assert(s[i] == a[i]);
        } else if i < a.len() + r.len() {
            assert(s[i] == r[i - a.len()]);
        } else {
            assert(s[i] == b[i - a.len() - r.len()]);
        }
    }
}

proof fn lemma_blocks_other(a: Seq<char>, t: Seq<char>, b: Seq<char>)
    requires
        free_of(a, '<'),
        free_of(b, '<'),
        t == "</p>"@ || t == "</div>"@ || t == "</li>"@ || t == "</tr>"@ || t == "<li>"@,
    ensures
        html_blocks_to_lines(a + t + b) == a + (if t == "<li>"@ { "- "@ } else { "\n"@ }) + b,
{
    reveal_strlit("<br>");
    reveal_strlit("<br/>");
    reveal_strlit("<br />");
    reveal_strlit("</p>");
    reveal_strlit("</div>");
    reveal_strlit("</li>");
    reveal_strlit("</tr>");
    reveal_strlit("<li>");
    reveal_strlit("\n");
    reveal_strlit("- ");
    let r = if t == "<li>"@ { "- "@ } else { "\n"@ };
    let y = a + r + b;
    assert(free_of(r, '<'));
    lemma_join_free(a, r, b, '<');
    lemma_blocks_rest(y);
    let nl = "\n"@;
    // every other tag differs from the three line breaks at position 1
    lemma_block_miss_all_br(a, t, b);
    if t == "</p>"@ {
        assert(t.skip(1) =~= seq!['/', 'p', '>']);
        lemma_block_hit(a, t, b, nl);
    } else if t == "</div>"@ {
        assert(t.skip(1) =~= seq!['/', 'd', 'i', 'v', '>']);
        lemma_block_miss(a, t, b, "</p>"@, nl, 2);
        lemma_block_hit(a, t, b, nl);
    } else if t == "</li>"@ {
        assert(t.skip(1) =~= seq!['/', 'l', 'i', '>']);
        lemma_block_miss(a, t, b, "</p>"@, nl, 2);
        lemma_block_miss(a, t, b, "</div>"@, nl, 2);
        lemma_block_hit(a, t, b, nl);
    } else if t == "</tr>"@ {
        assert(t.skip(1) =~= seq!['/', 't', 'r', '>']);
        lemma_block_miss(a, t, b, "</p>"@, nl, 2);
        lemma_block_miss(a, t, b, "</div>"@, nl, 2);
        lemma_block_miss(a, t, b, "</li>"@, nl, 2);
        lemma_block_hit(a, t, b, nl);
    } else {
        assert(t.skip(1) =~= seq!['l', 'i', '>']);
        lemma_block_miss(a, t, b, "</p>"@, nl, 1);
        lemma_block_miss(a, t, b, "</div>"@, nl, 1);
        lemma_block_miss(a, t, b, "</li>"@, nl, 1);
        lemma_block_miss(a, t, b, "</tr>"@, nl, 1);
        lemma_block_hit(a, t, b, "- "@);
    }
}

proof fn lemma_block_miss_all_br(a: Seq<char>, t: Seq<char>, b: Seq<char>)
    requires
        free_of(a, '<'),
        free_of(b, '<'),
        t == "</p>"@ || t == "</div>"@ || t == "</li>"@ || t == "</tr>"@ || t == "<li>"@,
    ensures
        replace_all(a + t + b, "<br>"@, "\n"@) == a + t + b,
        replace_all(a + t + b, "<br/>"@, "\n"@) == a + t + b,
        replace_all(a + t + b, "<br />"@, "\n"@) == a + t + b,
{
    reveal_strlit("<br>");
    reveal_strlit("<br/>");
    reveal_strlit("<br />");
    reveal_strlit("</p>");
    reveal_strlit("</div>");
    reveal_strlit("</li>");
    reveal_strlit("</tr>");
    reveal_strlit("<li>");
    if t == "</p>"@ {
        assert(t.skip(1) =~= seq!['/', 'p', '>']);
    } else if t == "</div>"@ {
        assert(t.skip(1) =~= seq!['/', 'd', 'i', 'v', '>']);
    } else if t == "</li>"@ {
        assert(t.skip(1) =~= seq!['/', 'l', 'i', '>']);
    } else if t == "</tr>"@ {
        assert(t.skip(1) =~= seq!['/', 't', 'r', '>']);
    } else {
        assert(t.skip(1) =~= seq!['l', 'i', '>']);
    }
    lemma_block_miss(a, t, b, "<br>"@, "\n"@, 1);
    lemma_block_miss(a, t, b, "<br/>"@, "\n"@, 1);
    lemma_block_miss(a, t, b, "<br />"@, "\n"@, 1);
}

/// The rest of a plain text after the block tags have become line
/// breaks or dashes: nothing changes a plain line that starts and ends
/// with a non-blank character and has at most one newline.
proof fn lemma_plain_line(a: Seq<char>, r: Seq<char>, b: Seq<char>)
    requires
        a.len() > 0,
        b.len() > 0,
        free_of(a, '<') && free_of(a, '>') && free_of(a, '&') && free_of(a, '\n'),
        free_of(b, '<') && free_of(b, '>') && free_of(b, '&') && free_of(b, '\n'),
        free_of(r, '<') && free_of(r, '>') && free_of(r, '&'),
        r == "\n"@ || free_of(r, '\n'),
        !is_whitespace(a[0]),
        !is_whitespace(b.last()),
    ensures
        trim(squeeze_newlines(decode_entities(strip_tags(a + r + b)))) == a + r + b,
{
    reveal_strlit("\n");
    let y = a + r + b;
    lemma_join_free(a, r, b, '<');
    lemma_join_free(a, r, b, '>');
    lemma_join_free(a, r, b, '&');
    lemma_strip_tags_plain(y);
    lemma_decode_plain(y);
    assert forall|i: int| 1 <= i < y.len() implies !#[trigger] double_newline(y, i) by {
        if i < a.len() {
            assert(y[i] == a[i]);
        } else if i < a.len() + r.len() {
            assert(y[i - 1] == a[i - 1] || y[i - 1] == r[i - 1 - a.len()]);
            if i - 1 >= a.len() {
                assert(r.len() >= 2);
                assert(y[i] == r[i - a.len()]);
            } else {
                assert(y[i - 1] == a[i - 1]);
            }
        } else {
            assert(y[i] == b[i - a.len() - r.len()]);
        }
    }
    lemma_squeeze_plain(y);
    assert(y[0] == a[0]);
    assert(y.last() == b.last());
    lemma_trim_plain(y);
}

/// The other block tags between two lines of plain text: `</p>`,
/// `</div>`, `</li>` and `</tr>` become a newline, `<li>` a dash and a
/// space (for non-empty texts `a` and `b` without `<`, `>`, `&` or
/// newlines, starting and ending with non-blank characters).
pub proof fn lemma_block_tags(a: Seq<char>, b: Seq<char>)
    requires
        a.len() > 0,
        b.len() > 0,
        free_of(a, '<') && free_of(a, '>') && free_of(a, '&') && free_of(a, '\n'),
        free_of(b, '<') && free_of(b, '>') && free_of(b, '&') && free_of(b, '\n'),
        !is_whitespace(a[0]),
        !is_whitespace(b.last()),
    ensures
        plain_text(a + "</p>"@ + b) == a + "\n"@ + b,
        plain_text(a + "</div>"@ + b) == a + "\n"@ + b,
        plain_text(a + "</li>"@ + b) == a + "\n"@ + b,
        plain_text(a + "</tr>"@ + b) == a + "\n"@ + b,
        plain_text(a + "<li>"@ + b) == a + "- "@ + b,
{
    reveal_strlit("</p>");
    reveal_strlit("</div>");
    reveal_strlit("</li>");
    reveal_strlit("</tr>");
    reveal_strlit("<li>");
    reveal_strlit("\n");
    reveal_strlit("- ");
    assert("</p>"@ != "<li>"@ && "</div>"@ != "<li>"@ && "</li>"@ != "<li>"@ && "</tr>"@ != "<li>"@) by {
        assert("</p>"@[1] != "<li>"@[1]);
        assert("</div>"@[1] != "<li>"@[1]);
        assert("</li>"@[1] != "<li>"@[1]);
        assert("</tr>"@[1] != "<li>"@[1]);
    }
    lemma_blocks_other(a, "</p>"@, b);
    lemma_blocks_other(a, "</div>"@, b);
    lemma_blocks_other(a, "</li>"@, b);
    lemma_blocks_other(a, "</tr>"@, b);
    lemma_blocks_other(a, "<li>"@, b);
    lemma_plain_line(a, "\n"@, b);
    lemma_plain_line(a, "- "@, b);
}

} // verus!
