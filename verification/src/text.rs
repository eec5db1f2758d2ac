//! Character-level text utilities used throughout the library.
//!
//! Text is handled as sequences of `char`s. Each executable helper is
//! proved against a spec function that states what the corresponding
//! standard-library operation computes.
use vstd::prelude::*;

verus! {

// ─── Specifications ──────────────────────────────────────────────

/// `pat` occurs in `s` at position `i`.
pub open spec fn occurs_at(s: Seq<char>, pat: Seq<char>, i: int) -> bool {
    0 <= i && i + pat.len() <= s.len() && s.subrange(i, i + pat.len()) == pat
}

/// `pat` occurs somewhere in `s`.
pub open spec fn has_substring(s: Seq<char>, pat: Seq<char>) -> bool {
    exists|i: int| occurs_at(s, pat, i)
}

/// Replace every non-overlapping occurrence of `pat` in `s`, scanning
/// from the left, by `rep` (the behaviour of `str::replace` for a
/// non-empty pattern).
pub open spec fn replace_all(s: Seq<char>, pat: Seq<char>, rep: Seq<char>) -> Seq<char>
    decreases s.len(),
{
    if pat.len() == 0 || s.len() < pat.len() {
        s
    } else if s.take(pat.len() as int) == pat {
        rep + replace_all(s.skip(pat.len() as int), pat, rep)
    } else {
        seq![s[0]] + replace_all(s.skip(1), pat, rep)
    }
}

/// The Unicode `White_Space` property (what `char::is_whitespace` tests).
pub open spec fn is_whitespace(c: char) -> bool {
    ||| c == ' '
    ||| ('\x09' <= c && c <= '\x0d')
    ||| c == '\u{85}'
    ||| c == '\u{a0}'
    ||| c == '\u{1680}'
    ||| ('\u{2000}' <= c && c <= '\u{200a}')
    ||| c == '\u{2028}'
    ||| c == '\u{2029}'
    ||| c == '\u{202f}'
    ||| c == '\u{205f}'
    ||| c == '\u{3000}'
}

/// `s` without its leading whitespace.
pub open spec fn trim_start(s: Seq<char>) -> Seq<char>
    decreases s.len(),
{
    if s.len() > 0 && is_whitespace(s[0]) {
        trim_start(s.skip(1))
    } else {
        s
    }
}

/// `s` without its trailing whitespace.
pub open spec fn trim_end(s: Seq<char>) -> Seq<char>
    decreases s.len(),
{
    if s.len() > 0 && is_whitespace(s.last()) {
        trim_end(s.drop_last())
    } else {
        s
    }
}

/// `s` without leading and trailing whitespace (`str::trim`).
pub open spec fn trim(s: Seq<char>) -> Seq<char> {
    trim_end(trim_start(s))
}

/// The decimal digit for `d < 10`.
pub open spec fn digit_char(d: nat) -> char {
    if d == 0 { '0' }
    else if d == 1 { '1' }
    else if d == 2 { '2' }
    else if d == 3 { '3' }
    else if d == 4 { '4' }
    else if d == 5 { '5' }
    else if d == 6 { '6' }
    else if d == 7 { '7' }
    else if d == 8 { '8' }
    else { '9' }
}

/// The decimal representation of `n`, without leading zeros.
pub open spec fn decimal(n: nat) -> Seq<char>
    decreases n,
{
    if n < 10 {
        seq![digit_char(n)]
    } else {
        decimal(n / 10).push(digit_char(n % 10))
    }
}

/// `c` is an ASCII decimal digit.
pub open spec fn is_digit(c: char) -> bool {
    '0' <= c && c <= '9'
}

/// The value of a sequence of decimal digits.
pub open spec fn digits_value(s: Seq<char>) -> nat
    decreases s.len(),
{
    if s.len() == 0 {
        0
    } else {
        digits_value(s.drop_last()) * 10 + ((s.last() as nat) - ('0' as nat)) as nat
    }
}

/// Every character of `s` is a decimal digit.
pub open spec fn all_digits(s: Seq<char>) -> bool {
    forall|i: int| 0 <= i < s.len() ==> is_digit(#[trigger] s[i])
}

/// The digits that an unsigned integer parse (`str::parse`) reads:
/// an optional leading `+` followed by at least one digit.
pub open spec fn unsigned_digits(s: Seq<char>) -> Option<Seq<char>> {
    let d = if s.len() > 0 && s[0] == '+' { s.skip(1) } else { s };
    if d.len() > 0 && all_digits(d) { Some(d) } else { None }
}

/// What parsing `s` as an unsigned integer with upper bound `max` gives.
pub open spec fn parse_unsigned(s: Seq<char>, max: nat) -> Option<nat> {
    match unsigned_digits(s) {
        Some(d) => if digits_value(d) <= max { Some(digits_value(d)) } else { None },
        None => None,
    }
}

/// The pieces of `s` between occurrences of `sep` (`str::split` on a
/// char); there is always at least one piece.
pub open spec fn split_on(s: Seq<char>, sep: char) -> Seq<Seq<char>>
    decreases s.len(),
{
    if s.len() == 0 {
        seq![seq![]]
    } else {
        let init = split_on(s.drop_last(), sep);
        if s.last() == sep {
            init.push(seq![])
        } else {
            init.update(init.len() - 1, init.last().push(s.last()))
        }
    }
}

/// A line with one trailing carriage return removed.
pub open spec fn strip_cr(line: Seq<char>) -> Seq<char> {
    if line.len() > 0 && line.last() == '\r' { line.drop_last() } else { line }
}

/// The lines of `s` (`str::lines`): split at `\n`, a `\r` right before
/// the `\n` is dropped, and a final line ending adds no empty line.
pub open spec fn lines_of(s: Seq<char>) -> Seq<Seq<char>> {
    let pieces = split_on(s, '\n');
    let ended = pieces.drop_last().map_values(|p: Seq<char>| strip_cr(p));
    if pieces.last().len() == 0 { ended } else { ended.push(pieces.last()) }
}

/// The concatenation of `parts` with `sep` between neighbours.
pub open spec fn join(parts: Seq<Seq<char>>, sep: Seq<char>) -> Seq<char>
    decreases parts.len(),
{
    if parts.len() == 0 {
        seq![]
    } else if parts.len() == 1 {
        parts[0]
    } else {
        join(parts.drop_last(), sep) + sep + parts.last()
    }
}

/// The character views of a list of character vectors.
pub open spec fn views(v: Seq<Vec<char>>) -> Seq<Seq<char>> {
    v.map_values(|p: Vec<char>| p@)
}

// ─── Proofs ──────────────────────────────────────────────────────

/// No character of `s` is `c`.
pub open spec fn free_of(s: Seq<char>, c: char) -> bool {
    forall|i: int| 0 <= i < s.len() ==> s[i] != c
}

/// A text in which the pattern's first character never occurs is left as
/// it is by a replacement.
pub proof fn lemma_replace_absent(s: Seq<char>, pat: Seq<char>, rep: Seq<char>)
    requires
        pat.len() > 0,
        free_of(s, pat[0]),
    ensures
        replace_all(s, pat, rep) == s,
    decreases s.len(),
{
    if s.len() >= pat.len() {
        assert(s.take(pat.len() as int)[0] != pat[0]);
        lemma_replace_absent(s.skip(1), pat, rep);
        assert(seq![s[0]] + s.skip(1) =~= s);
    }
}

/// A replacement passes over a leading part in which the pattern's first
/// character never occurs.
pub proof fn lemma_replace_free_prefix(a: Seq<char>, b: Seq<char>, pat: Seq<char>, rep: Seq<char>)
    requires
        pat.len() > 0,
        free_of(a, pat[0]),
    ensures
        replace_all(a + b, pat, rep) == a + replace_all(b, pat, rep),
    decreases a.len(),
{
    let s = a + b;
    if a.len() == 0 {
        assert(s =~= b);
        assert(a + replace_all(b, pat, rep) =~= replace_all(b, pat, rep));
    } else if s.len() < pat.len() {
        assert(replace_all(b, pat, rep) == b);
    } else {
        assert(s.take(pat.len() as int)[0] == a[0]);
        assert(s.take(pat.len() as int)[0] != pat[0]);
        assert(s.skip(1) =~= a.skip(1) + b);
        lemma_replace_free_prefix(a.skip(1), b, pat, rep);
        assert(seq![s[0]] + (a.skip(1) + replace_all(b, pat, rep)) =~= a + replace_all(b, pat, rep));
    }
}

/// A text that starts with the pattern has it replaced there.
pub proof fn lemma_replace_at_start(b: Seq<char>, pat: Seq<char>, rep: Seq<char>)
    requires
        pat.len() > 0,
    ensures
        replace_all(pat + b, pat, rep) == rep + replace_all(b, pat, rep),
{
    assert((pat + b).take(pat.len() as int) =~= pat);
    assert((pat + b).skip(pat.len() as int) =~= b);
}

/// A text that starts like the pattern but departs from it within `t`,
/// with the pattern's first character nowhere else, is left as it is.
pub proof fn lemma_replace_mismatch(t: Seq<char>, b: Seq<char>, pat: Seq<char>, rep: Seq<char>, k: int)
    requires
        pat.len() > 0,
        t.len() > 0,
        free_of(t.skip(1), pat[0]),
        free_of(b, pat[0]),
        0 <= k < t.len(),
        k < pat.len(),
        t[k] != pat[k],
    ensures
        replace_all(t + b, pat, rep) == t + b,
{
    let s = t + b;
    if s.len() >= pat.len() {
        assert(s.take(pat.len() as int)[k] != pat[k]);
        assert(s.skip(1) =~= t.skip(1) + b);
        assert forall|i: int| 0 <= i < s.skip(1).len() implies s.skip(1)[i] != pat[0] by {
            if i < t.len() - 1 {
                assert(s.skip(1)[i] == t.skip(1)[i]);
            } else {
                assert(s.skip(1)[i] == b[i - (t.len() - 1)]);
            }
        }
        lemma_replace_absent(s.skip(1), pat, rep);
        assert(seq![s[0]] + s.skip(1) =~= s);
    }
}

/// `split_on` never yields an empty list of pieces.
pub proof fn lemma_split_nonempty(s: Seq<char>, sep: char)
    ensures
        split_on(s, sep).len() >= 1,
    decreases s.len(),
{
    if s.len() > 0 {
        lemma_split_nonempty(s.drop_last(), sep);
    }
}

/// Splitting `a + b`, where `b` holds no separator, extends the last
/// piece of `a` by `b`.
pub proof fn lemma_split_append(a: Seq<char>, b: Seq<char>, sep: char)
    requires
        !b.contains(sep),
    ensures
        split_on(a + b, sep) == split_on(a, sep).update(
            split_on(a, sep).len() - 1,
            split_on(a, sep).last() + b,
        ),
    decreases b.len(),
{
    lemma_split_nonempty(a, sep);
    let sa = split_on(a, sep);
    if b.len() == 0 {
        assert(a + b =~= a);
        assert(sa.last() + b =~= sa.last());
        assert(sa.update(sa.len() - 1, sa.last()) =~= sa);
    } else {
        let b0 = b.drop_last();
        let c = b.last();
        assert(!b0.contains(sep)) by {
            if b0.contains(sep) {
                let i = choose|i: int| 0 <= i < b0.len() && b0[i] == sep;
                assert(b[i] == sep);
            }
        }
        assert(c != sep) by {
            assert(b[b.len() - 1] == c);
        }
        lemma_split_append(a, b0, sep);
        assert((a + b).drop_last() =~= a + b0);
        assert((a + b).last() == c);
        let s0 = split_on(a + b0, sep);
        assert(s0.last() == sa.last() + b0);
        assert((sa.last() + b0).push(c) =~= sa.last() + b);
        assert(s0.update(s0.len() - 1, s0.last().push(c)) =~= sa.update(
            sa.len() - 1,
            sa.last() + b,
        ));
    }
}

/// Splitting a join at its one-character separator gives back the parts,
/// when no part holds the separator.
pub proof fn lemma_split_join(parts: Seq<Seq<char>>, sep: char)
    requires
        parts.len() >= 1,
        forall|i: int| 0 <= i < parts.len() ==> !(#[trigger] parts[i]).contains(sep),
    ensures
        split_on(join(parts, seq![sep]), sep) == parts,
    decreases parts.len(),
{
    if parts.len() == 1 {
        lemma_split_append(seq![], parts[0], sep);
        assert(Seq::<char>::empty() + parts[0] =~= parts[0]);
        assert(split_on(Seq::<char>::empty(), sep).last() + parts[0] =~= parts[0]);
        assert(split_on(join(parts, seq![sep]), sep) =~= parts);
    } else {
        let init = parts.drop_last();
        assert forall|i: int| 0 <= i < init.len() implies !(#[trigger] init[i]).contains(sep) by {
            assert(init[i] == parts[i]);
        }
        lemma_split_join(init, sep);
        let j = join(init, seq![sep]);
        assert(j + seq![sep] =~= j.push(sep));
        assert((j + seq![sep]).drop_last() =~= j);
        let with_sep = split_on(j + seq![sep], sep);
        assert(with_sep == init.push(seq![]));
        assert(!parts.last().contains(sep)) by {
            assert(parts[parts.len() - 1] == parts.last());
        }
        lemma_split_append(j + seq![sep], parts.last(), sep);
        assert(Seq::<char>::empty() + parts.last() =~= parts.last());
        assert(init.push(seq![]).update(init.len() as int, parts.last()) =~= parts);
    }
}

/// Joining one more part.
pub proof fn lemma_join_push(parts: Seq<Seq<char>>, sep: Seq<char>, p: Seq<char>)
    ensures
        join(parts.push(p), sep) == if parts.len() == 0 { p } else { join(parts, sep) + sep + p },
{
    assert(parts.push(p).drop_last() == parts);
}

// ─── Executable helpers ──────────────────────────────────────────

/// Collects the characters of a string slice.
pub fn chars_of(s: &str) -> (v: Vec<char>)
    ensures
        v@ == s@,
{
    let mut v: Vec<char> = Vec::new();
    for c in it: s.chars()
        invariant
            v@ == it.seq().take(it.index() as int),
            it.seq() == s@,
    {
        v.push(c);
    }
    v
}

/// Builds a `String` from characters (std's `FromIterator<&char>`).
#[verifier::external_body]
pub(crate) fn string_from(v: &Vec<char>) -> (s: String)
    ensures
        s@ == v@,
{
    v.iter().collect::<String>()
}

/// Appends the characters of `s` to `out`.
pub fn push_str(out: &mut Vec<char>, s: &str)
    ensures
        final(out)@ == old(out)@ + s@,
{
    let cs = chars_of(s);
    let mut i: usize = 0;
    while i < cs.len()
        invariant
            i <= cs.len(),
            cs@ == s@,
            out@ == old(out)@ + cs@.take(i as int),
        decreases cs.len() - i,
    {
        out.push(cs[i]);
        i = i + 1;
        assert(cs@.take(i as int) == cs@.take(i - 1) + seq![cs@[i - 1]]);
    }
    assert(cs@.take(cs.len() as int) == cs@);
}

/// Appends the characters `v` to `out`.
pub fn push_chars(out: &mut Vec<char>, v: &Vec<char>)
    ensures
        final(out)@ == old(out)@ + v@,
{
    let mut i: usize = 0;
    while i < v.len()
        invariant
            i <= v.len(),
            out@ == old(out)@ + v@.take(i as int),
        decreases v.len() - i,
    {
        out.push(v[i]);
        i = i + 1;
        assert(v@.take(i as int) == v@.take(i - 1) + seq![v@[i - 1]]);
    }
    assert(v@.take(v.len() as int) == v@);
}

/// The character for a decimal digit.
pub fn digit_to_char(d: u64) -> (c: char)
    requires
        d < 10,
    ensures
        c == digit_char(d as nat),
{
    if d == 0 { '0' }
    else if d == 1 { '1' }
    else if d == 2 { '2' }
    else if d == 3 { '3' }
    else if d == 4 { '4' }
    else if d == 5 { '5' }
    else if d == 6 { '6' }
    else if d == 7 { '7' }
    else if d == 8 { '8' }
    else { '9' }
}

/// Appends the decimal representation of `n` to `out`.
pub fn push_decimal(out: &mut Vec<char>, n: u64)
    ensures
        final(out)@ == old(out)@ + decimal(n as nat),
    decreases n,
{
    if n < 10 {
        out.push(digit_to_char(n));
    } else {
        push_decimal(out, n / 10);
        out.push(digit_to_char(n % 10));
    }
}

/// The decimal representation of `n` as a `String`.
pub fn u64_to_string(n: u64) -> (s: String)
    ensures
        s@ == decimal(n as nat),
{
    let mut v: Vec<char> = Vec::new();
    push_decimal(&mut v, n);
    string_from(&v)
}

/// Whether `pat` occurs in `s` at position `i`.
pub fn matches_at(s: &Vec<char>, pat: &Vec<char>, i: usize) -> (b: bool)
    requires
        i <= s.len(),
    ensures
        b == occurs_at(s@, pat@, i as int),
{
    if pat.len() > s.len() - i {
        return false;
    }
    let mut j: usize = 0;
    while j < pat.len()
        invariant
            j <= pat.len(),
            i + pat.len() <= s.len(),
            forall|k: int| 0 <= k < j ==> s@[i + k] == pat@[k],
        decreases pat.len() - j,
    {
        if s[i + j] != pat[j] {
            assert(s@.subrange(i as int, i + pat.len())[j as int] != pat@[j as int]);
            return false;
        }
        j = j + 1;
    }
    assert(s@.subrange(i as int, i + pat.len()) =~= pat@);
    true
}

/// Whether `a` and `b` hold the same characters.
pub fn chars_eq(a: &Vec<char>, b: &Vec<char>) -> (r: bool)
    ensures
        r == (a@ == b@),
{
    if a.len() != b.len() {
        return false;
    }
    let r = matches_at(a, b, 0);
    proof {
        if r {
            assert(a@.subrange(0, b@.len() as int) == a@);
        } else {
            if a@ == b@ {
                assert(a@.subrange(0, b@.len() as int) =~= b@);
            }
        }
    }
    r
}

/// Whether the characters of `a` are those of `b`.
pub fn str_eq(a: &str, b: &str) -> (r: bool)
    ensures
        r == (a@ == b@),
{
    let x = chars_of(a);
    let y = chars_of(b);
    chars_eq(&x, &y)
}

/// Whether `s` begins with `pat`.
pub fn starts_with(s: &Vec<char>, pat: &Vec<char>) -> (r: bool)
    ensures
        r == pat@.is_prefix_of(s@),
{
    let r = matches_at(s, pat, 0);
    proof {
        if r {
            assert forall|k: int| 0 <= k < pat@.len() implies pat@[k] == s@[k] by {
                assert(s@.subrange(0, pat@.len() as int)[k] == s@[k]);
            }
        } else if pat@.is_prefix_of(s@) {
            assert(s@.subrange(0, pat@.len() as int) =~= pat@);
        }
    }
    r
}

/// Whether `pat` occurs somewhere in `s`.
pub fn contains(s: &Vec<char>, pat: &Vec<char>) -> (r: bool)
    ensures
        r == has_substring(s@, pat@),
{
    let mut i: usize = 0;
    while i < s.len()
        invariant
            i <= s.len(),
            forall|k: int| 0 <= k < i ==> !occurs_at(s@, pat@, k),
        decreases s.len() - i,
    {
        if matches_at(s, pat, i) {
            return true;
        }
        i = i + 1;
    }
    if matches_at(s, pat, i) {
        return true;
    }
    assert forall|k: int| !occurs_at(s@, pat@, k) by {
        if 0 <= k && k <= i {
        }
    }
    false
}

/// Replaces every non-overlapping occurrence of `pat` by `rep`
/// (`str::replace`).
pub fn replace(s: &Vec<char>, pat: &Vec<char>, rep: &Vec<char>) -> (r: Vec<char>)
    requires
        pat.len() > 0,
    ensures
        r@ == replace_all(s@, pat@, rep@),
{
    let mut out: Vec<char> = Vec::new();
    let mut i: usize = 0;
    assert(out@ + replace_all(s@.skip(0), pat@, rep@) =~= replace_all(s@, pat@, rep@)) by {
        assert(s@.skip(0) =~= s@);
    }
    while i < s.len()
        invariant
            i <= s.len(),
            pat@.len() > 0,
            out@ + replace_all(s@.skip(i as int), pat@, rep@) == replace_all(s@, pat@, rep@),
        decreases s.len() - i,
    {
        let ghost rest = s@.skip(i as int);
        if matches_at(s, pat, i) {
            proof {
                assert(rest.take(pat@.len() as int) =~= s@.subrange(i as int, i + pat@.len()));
                assert(rest.skip(pat@.len() as int) =~= s@.skip(i + pat@.len()));
            }
            let ghost out0 = out@;
            push_chars(&mut out, rep);
            i = i + pat.len();
            proof {
                assert(out@ + replace_all(s@.skip(i as int), pat@, rep@) =~= out0 + (rep@
                    + replace_all(rest.skip(pat@.len() as int), pat@, rep@)));
            }
        } else {
            proof {
                if rest.len() >= pat@.len() {
                    assert(rest.take(pat@.len() as int) =~= s@.subrange(i as int, i + pat@.len()));
                }
                assert(rest.skip(1) =~= s@.skip(i + 1));
                assert(rest[0] == s@[i as int]);
            }
            let ghost out0 = out@;
            out.push(s[i]);
            i = i + 1;
            proof {
                assert(out@ + replace_all(s@.skip(i as int), pat@, rep@) =~= out0 + (seq![rest[0]]
                    + replace_all(rest.skip(1), pat@, rep@)));
            }
        }
    }
    proof {
        assert(s@.skip(i as int).len() == 0);
        assert(replace_all(s@.skip(i as int), pat@, rep@) =~= s@.skip(i as int));
        assert(out@ + seq![] =~= out@);
    }
    out
}

/// Whether `c` is whitespace (`char::is_whitespace`).
pub fn is_ws(c: char) -> (b: bool)
    ensures
        b == is_whitespace(c),
{
    c == ' ' || ('\x09' <= c && c <= '\x0d') || c == '\u{85}' || c == '\u{a0}' || c == '\u{1680}'
        || ('\u{2000}' <= c && c <= '\u{200a}') || c == '\u{2028}' || c == '\u{2029}'
        || c == '\u{202f}' || c == '\u{205f}' || c == '\u{3000}'
}

/// `s` without leading and trailing whitespace (`str::trim`).
pub fn trim_chars(s: &Vec<char>) -> (r: Vec<char>)
    ensures
        r@ == trim(s@),
{
    let mut a: usize = 0;
    assert(s@.skip(0) =~= s@);
    while a < s.len() && is_ws(s[a])
        invariant
            a <= s.len(),
            trim_start(s@) == trim_start(s@.skip(a as int)),
        decreases s.len() - a,
    {
        assert(s@.skip(a as int).skip(1) =~= s@.skip(a + 1));
        a = a + 1;
    }
    let mut b: usize = s.len();
    assert(trim_start(s@) == s@.subrange(a as int, b as int)) by {
        assert(s@.skip(a as int) =~= s@.subrange(a as int, s.len() as int));
    }
    while b > a && is_ws(s[b - 1])
        invariant
            a <= b <= s.len(),
            trim(s@) == trim_end(s@.subrange(a as int, b as int)),
        decreases b,
    {
        assert(s@.subrange(a as int, b as int).drop_last() =~= s@.subrange(a as int, b - 1));
        b = b - 1;
    }
    let mut r: Vec<char> = Vec::new();
    let mut i: usize = a;
    while i < b
        invariant
            a <= i <= b <= s.len(),
            r@ == s@.subrange(a as int, i as int),
        decreases b - i,
    {
        r.push(s[i]);
        i = i + 1;
        assert(r@ =~= s@.subrange(a as int, i as int));
    }
    r
}

/// Splits `s` at every `sep` (`str::split` on a char).
pub fn split_chars(s: &Vec<char>, sep: char) -> (r: Vec<Vec<char>>)
    ensures
        views(r@) == split_on(s@, sep),
{
    let mut pieces: Vec<Vec<char>> = Vec::new();
    let mut cur: Vec<char> = Vec::new();
    let mut i: usize = 0;
    assert(views(pieces@).push(cur@) =~= split_on(s@.take(0), sep));
    while i < s.len()
        invariant
            i <= s.len(),
            views(pieces@).push(cur@) == split_on(s@.take(i as int), sep),
        decreases s.len() - i,
    {
        let c = s[i];
        let ghost before = views(pieces@).push(cur@);
        assert(s@.take(i + 1).drop_last() =~= s@.take(i as int));
        if c == sep {
            let done = cur;
            pieces.push(done);
            cur = Vec::new();
            assert(views(pieces@).push(cur@) =~= before.push(seq![]));
        } else {
            cur.push(c);
            assert(views(pieces@).push(cur@) =~= before.update(before.len() - 1, before.last().push(c)));
        }
        i = i + 1;
    }
    assert(s@.take(s.len() as int) =~= s@);
    pieces.push(cur);
    assert(views(pieces@) =~= split_on(s@, sep));
    pieces
}

/// The lines of `s` (`str::lines`).
pub fn lines(s: &Vec<char>) -> (r: Vec<Vec<char>>)
    ensures
        views(r@) == lines_of(s@),
{
    let pieces = split_chars(s, '\n');
    proof { lemma_split_nonempty(s@, '\n'); }
    let n = pieces.len();
    let mut r: Vec<Vec<char>> = Vec::new();
    let mut i: usize = 0;
    let ghost ps = views(pieces@);
    while i + 1 < n
        invariant
            n == pieces.len(),
            n >= 1,
            ps == views(pieces@),
            i + 1 <= n,
            views(r@) == ps.take(i as int).map_values(|p: Seq<char>| strip_cr(p)),
        decreases n - i,
    {
        let p = &pieces[i];
        let mut line: Vec<char> = p.clone();
        if line.len() > 0 && line[line.len() - 1] == '\r' {
            line.pop();
        }
        assert(line@ == strip_cr(ps[i as int])) by {
            assert(ps[i as int] == pieces@[i as int]@);
            if p@.len() > 0 && p@.last() == '\r' {
                assert(line@ =~= p@.drop_last());
            }
        }
        let ghost r0 = views(r@);
        r.push(line);
        i = i + 1;
        proof {
            let m = ps.take(i as int).map_values(|p: Seq<char>| strip_cr(p));
            let m0 = ps.take(i - 1).map_values(|p: Seq<char>| strip_cr(p));
            assert(views(r@) =~= r0.push(strip_cr(ps[i - 1])));
            assert(m =~= m0.push(strip_cr(ps[i - 1])));
        }
    }
    assert(ps.take(i as int) =~= ps.drop_last());
    let last = &pieces[n - 1];
    if last.len() > 0 {
        r.push(last.clone());
        assert(views(r@) =~= lines_of(s@));
    } else {
        assert(views(r@) =~= lines_of(s@));
    }
    r
}

/// Joins `parts` with `sep` between neighbours (`[T]::join`).
pub fn join_chars(parts: &Vec<Vec<char>>, sep: &Vec<char>) -> (r: Vec<char>)
    ensures
        r@ == join(views(parts@), sep@),
{
    let mut out: Vec<char> = Vec::new();
    let mut i: usize = 0;
    let ghost ps = views(parts@);
    assert(ps.take(0) =~= seq![]);
    while i < parts.len()
        invariant
            i <= parts.len(),
            ps == views(parts@),
            out@ == join(ps.take(i as int), sep@),
        decreases parts.len() - i,
    {
        if i > 0 {
            push_chars(&mut out, sep);
        }
        push_chars(&mut out, &parts[i]);
        proof {
            lemma_join_push(ps.take(i as int), sep@, ps[i as int]);
            assert(ps.take(i + 1) =~= ps.take(i as int).push(ps[i as int]));
        }
        i = i + 1;
    }
    assert(ps.take(parts.len() as int) =~= ps);
    out
}

/// Prefixes of a digit string have no larger value.
pub proof fn lemma_digits_prefix(d: Seq<char>, j: int)
    requires
        0 <= j <= d.len(),
    ensures
        digits_value(d.take(j)) <= digits_value(d),
    decreases d.len(),
{
    if j < d.len() {
        lemma_digits_prefix(d.drop_last(), j);
        assert(d.drop_last().take(j) =~= d.take(j));
    } else {
        assert(d.take(j) =~= d);
    }
}

/// Parses `s` as a `u64` (`str::parse::<u64>`).
pub fn parse_u64(s: &Vec<char>) -> (r: Option<u64>)
    ensures
        r == match parse_unsigned(s@, u64::MAX as nat) {
            Some(v) => Some(v as u64),
            None => None::<u64>,
        },
{
    let start: usize = if s.len() > 0 && s[0] == '+' { 1 } else { 0 };
    let ghost d = if s@.len() > 0 && s@[0] == '+' { s@.skip(1) } else { s@ };
    assert(d =~= s@.skip(start as int));
    if start >= s.len() {
        assert(d.len() == 0);
        return None;
    }
    let mut k: usize = start;
    while k < s.len()
        invariant
            start <= k <= s.len(),
            d =~= s@.skip(start as int),
            d == (if s@.len() > 0 && s@[0] == '+' { s@.skip(1) } else { s@ }),
            forall|j: int| start <= j < k ==> is_digit(s@[j]),
        decreases s.len() - k,
    {
        if !('0' <= s[k] && s[k] <= '9') {
            assert(!is_digit(d[k - start]));
            assert(!all_digits(d));
            return None;
        }
        k = k + 1;
    }
    assert(all_digits(d)) by {
        assert forall|j: int| 0 <= j < d.len() implies is_digit(#[trigger] d[j]) by {
            assert(d[j] == s@[j + start]);
        }
    }
    let mut value: u64 = 0;
    let mut k: usize = start;
    assert(d.take(0) =~= seq![]);
    while k < s.len()
        invariant
            start <= k <= s.len(),
            d =~= s@.skip(start as int),
            d == (if s@.len() > 0 && s@[0] == '+' { s@.skip(1) } else { s@ }),
            d.len() > 0,
            all_digits(d),
            value as nat == digits_value(d.take(k - start)),
        decreases s.len() - k,
    {
        assert(s@[k as int] == d[k - start]);
        assert(is_digit(d[k - start]));
        let c = s[k];
        let dg: u64 = ((c as u32) - ('0' as u32)) as u64;
        assert(d.take(k - start + 1).drop_last() =~= d.take(k - start));
        assert(d.take(k - start + 1).last() == s@[k as int]);
        assert(is_digit(d[k - start]));
        if value > (u64::MAX - dg) / 10 {
            proof {
                assert(digits_value(d.take(k - start + 1)) > u64::MAX) by (nonlinear_arith)
                    requires
                        value > (u64::MAX - dg) / 10,
                        digits_value(d.take(k - start + 1)) == value * 10 + dg,
                        dg <= 9,
                ;
                lemma_digits_prefix(d, k - start + 1);
                assert(unsigned_digits(s@) == Some(d));
            }
            return None;
        }
        value = value * 10 + dg;
        k = k + 1;
    }
    assert(d.take(k - start) =~= d);
    Some(value)
}

/// Parses `s` as a `usize` (`str::parse::<usize>`).
pub fn parse_usize(s: &Vec<char>) -> (r: Option<usize>)
    ensures
        r == match parse_unsigned(s@, usize::MAX as nat) {
            Some(v) => Some(v as usize),
            None => None::<usize>,
        },
{
    match parse_u64(s) {
        Some(v) => if v <= usize::MAX as u64 { Some(v as usize) } else { None },
        None => None,
    }
}

/// Parses `s` as a `u32` (`str::parse::<u32>`).
pub fn parse_u32(s: &Vec<char>) -> (r: Option<u32>)
    ensures
        r == match parse_unsigned(s@, u32::MAX as nat) {
            Some(v) => Some(v as u32),
            None => None::<u32>,
        },
{
    match parse_u64(s) {
        Some(v) => if v <= u32::MAX as u64 { Some(v as u32) } else { None },
        None => None,
    }
}

} // verus!
