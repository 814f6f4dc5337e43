//! Text primitives over character sequences: search, replacement, line
//! splitting and joining, trimming.  Each executable function is proved
//! against a spec function that states the behaviour of the corresponding
//! operation of `str`.
use vstd::prelude::*;

verus! {

/// The characters of a string slice: `str::chars` collected into a vector.
/// Trusted: the vector holds the slice's characters in order, which is
/// what std documents `chars` to yield.
#[verifier::external_body]
pub(crate) fn chars_of(s: &str) -> (v: Vec<char>)
    ensures
        v@ == s@,
{
    s.chars().collect()
}

/// The string made of the given characters: the characters collected into
/// a `String` (`FromIterator<&char>`).  Trusted: the string holds exactly
/// these characters, in order.
#[verifier::external_body]
pub(crate) fn string_of(v: &[char]) -> (s: String)
    ensures
        s@ == v@,
{
    v.iter().collect()
}

/// `pat` occurs in `s` starting at index `i`.
pub open spec fn occurs_at(s: Seq<char>, i: int, pat: Seq<char>) -> bool {
    0 <= i && i + pat.len() <= s.len() && s.subrange(i, i + pat.len()) =~= pat
}

/// `pat` occurs somewhere in `s` (the empty pattern occurs in every string).
pub open spec fn seq_contains(s: Seq<char>, pat: Seq<char>) -> bool {
    exists|i: int| occurs_at(s, i, pat)
}

pub open spec fn seq_starts_with(s: Seq<char>, pat: Seq<char>) -> bool {
    occurs_at(s, 0, pat)
}

pub open spec fn seq_ends_with(s: Seq<char>, pat: Seq<char>) -> bool {
    pat.len() <= s.len() && occurs_at(s, s.len() - pat.len(), pat)
}

/// `str::replace` with a non-empty pattern: every non-overlapping
/// occurrence of `from`, found from left to right, is replaced by `to`.
pub open spec fn replace_seq(s: Seq<char>, from: Seq<char>, to: Seq<char>) -> Seq<char>
    decreases s.len(),
{
    if from.len() == 0 || s.len() == 0 {
        s
    } else if occurs_at(s, 0, from) {
        to + replace_seq(s.subrange(from.len() as int, s.len() as int), from, to)
    } else {
        seq![s[0]] + replace_seq(s.subrange(1, s.len() as int), from, to)
    }
}

/// Index of the first `c` at or after `i`, or `s.len()` when there is none.
pub open spec fn find_char_from(s: Seq<char>, c: char, i: int) -> int
    decreases s.len() - i,
{
    if i < 0 || i >= s.len() {
        s.len() as int
    } else if s[i] == c {
        i
    } else {
        find_char_from(s, c, i + 1)
    }
}

pub proof fn lemma_find_char_bounds(s: Seq<char>, c: char, i: int)
    requires
        0 <= i,
    ensures
        i <= find_char_from(s, c, i) <= s.len() || (i > s.len() && find_char_from(s, c, i) == s.len()),
        find_char_from(s, c, i) < s.len() ==> s[find_char_from(s, c, i)] == c,
        forall|k: int| i <= k < find_char_from(s, c, i) ==> s[k] != c,
    decreases s.len() - i,
{
    if i < s.len() && s[i] != c {
        lemma_find_char_bounds(s, c, i + 1);
    }
}

/// A line with one trailing carriage return removed.
pub open spec fn strip_cr(line: Seq<char>) -> Seq<char> {
    if line.len() > 0 && line.last() == '\r' {
        line.drop_last()
    } else {
        line
    }
}

/// The lines of `s[i..]`, as `str::lines` yields them: split at `\n`,
/// one `\r` before each `\n` removed, no empty line after a final `\n`.
pub open spec fn lines_from(s: Seq<char>, i: int) -> Seq<Seq<char>>
    decreases s.len() - i,
{
    if i < 0 || i >= s.len() {
        seq![]
    } else {
        let e = find_char_from(s, '\n', i);
        proof {
            lemma_find_char_bounds(s, '\n', i);
        }
        if e >= s.len() {
            seq![s.subrange(i, s.len() as int)]
        } else {
            seq![strip_cr(s.subrange(i, e))] + lines_from(s, e + 1)
        }
    }
}

pub open spec fn seq_lines(s: Seq<char>) -> Seq<Seq<char>> {
    lines_from(s, 0)
}

/// Searching a text behind a prefix finds what searching the text finds,
/// moved by the prefix.
proof fn lemma_find_char_shift(pre: Seq<char>, t: Seq<char>, c: char, i: int)
    requires
        0 <= i,
    ensures
        find_char_from(pre + t, c, pre.len() + i) == pre.len() + find_char_from(t, c, i),
    decreases t.len() - i,
{
    if i < t.len() {
        assert((pre + t)[pre.len() + i] == t[i]);
        if t[i] != c {
            lemma_find_char_shift(pre, t, c, i + 1);
        }
    }
}

/// The lines of a text behind a prefix, from a point past the prefix, are
/// the lines of the text from there.
proof fn lemma_lines_shift(pre: Seq<char>, t: Seq<char>, i: int)
    requires
        0 <= i,
    ensures
        lines_from(pre + t, pre.len() + i) == lines_from(t, i),
    decreases t.len() - i,
{
    let s = pre + t;
    if i < t.len() {
        lemma_find_char_shift(pre, t, '\n', i);
        lemma_find_char_bounds(t, '\n', i);
        let e = find_char_from(t, '\n', i);
        if e >= t.len() {
            assert(s.subrange(pre.len() + i, s.len() as int) =~= t.subrange(i, t.len() as int));
        } else {
            assert(s.subrange(pre.len() + i, pre.len() + e) =~= t.subrange(i, e));
            lemma_lines_shift(pre, t, e + 1);
        }
    }
}

/// A text that begins with a line free of line breaks, then `\n`, has
/// that line first, one carriage return at its end removed, then the lines
/// of the rest.
proof fn lemma_lines_first(p: Seq<char>, t: Seq<char>)
    requires
        !p.contains('\n'),
    ensures
        seq_lines(p + seq!['\n'] + t) == seq![strip_cr(p)] + seq_lines(t),
{
    let s = p + seq!['\n'] + t;
    lemma_find_char_bounds(s, '\n', 0);
    let f = find_char_from(s, '\n', 0);
    assert(s[p.len() as int] == '\n');
    if f < p.len() {
        assert(s[f] == p[f]);
        assert(p.contains('\n'));
    }
    assert(f == p.len());
    assert(s.subrange(0, f) =~= p);
    lemma_lines_shift(p + seq!['\n'], t, 0);
    assert(s == (p + seq!['\n']) + t);
}


/// The parts joined with `sep` between each two neighbours (`[T]::join`).
pub open spec fn join_seq(parts: Seq<Seq<char>>, sep: Seq<char>) -> Seq<char>
    decreases parts.len(),
{
    if parts.len() == 0 {
        seq![]
    } else if parts.len() == 1 {
        parts[0]
    } else {
        join_seq(parts.drop_last(), sep) + sep + parts.last()
    }
}

/// Joining takes the first part, the separator, then the rest joined.
pub proof fn lemma_join_first(parts: Seq<Seq<char>>, sep: Seq<char>)
    requires
        parts.len() >= 2,
    ensures
        join_seq(parts, sep) == parts[0] + sep + join_seq(parts.drop_first(), sep),
    decreases parts.len(),
{
    let dl = parts.drop_last();
    let df = parts.drop_first();
    if parts.len() > 2 {
        lemma_join_first(dl, sep);
        assert(dl.drop_first() =~= df.drop_last());
        assert(df.last() == parts.last());
        assert(join_seq(df, sep) == join_seq(df.drop_last(), sep) + sep + df.last());
        assert(join_seq(parts, sep) == join_seq(dl, sep) + sep + parts.last());
        assert(dl[0] == parts[0]);
        assert(join_seq(parts, sep) =~= parts[0] + sep + join_seq(df, sep));
    } else {
        assert(df =~= seq![parts[1]]);
        assert(dl =~= seq![parts[0]]);
        assert(join_seq(dl, sep) == parts[0]);
        assert(join_seq(df, sep) == parts[1]);
    }
}

/// Whether each part is free of line breaks and ends in no carriage return.
pub open spec fn plain_lines(parts: Seq<Seq<char>>) -> bool {
    forall|j: int|
        0 <= j < parts.len() ==> !(#[trigger] parts[j]).contains('\n') && (parts[j].len() == 0
            || parts[j].last() != '\r')
}

/// Lines that hold no line break, joined with `\n` and ended by one,
/// split back into themselves, each with one carriage return at its end
/// removed.
pub proof fn lemma_lines_of_joined_any(parts: Seq<Seq<char>>)
    requires
        parts.len() > 0,
        forall|j: int| 0 <= j < parts.len() ==> !(#[trigger] parts[j]).contains('\n'),
    ensures
        seq_lines(join_seq(parts, seq!['\n']) + seq!['\n']) == parts.map_values(|p: Seq<char>| strip_cr(p)),
    decreases parts.len(),
{
    let nl = seq!['\n'];
    if parts.len() == 1 {
        lemma_lines_first(parts[0], Seq::empty());
        assert(parts[0] + nl + Seq::<char>::empty() =~= parts[0] + nl);
        assert(seq_lines(Seq::<char>::empty()) =~= Seq::<Seq<char>>::empty());
        assert(seq![strip_cr(parts[0])] + Seq::<Seq<char>>::empty() =~= parts.map_values(
            |p: Seq<char>| strip_cr(p),
        ));
    } else {
        let rest = parts.drop_first();
        lemma_join_first(parts, nl);
        assert forall|j: int| 0 <= j < rest.len() implies !(#[trigger] rest[j]).contains('\n') by {
            assert(rest[j] == parts[j + 1]);
        }
        lemma_lines_of_joined_any(rest);
        lemma_lines_first(parts[0], join_seq(rest, nl) + nl);
        assert(join_seq(parts, nl) + nl =~= parts[0] + nl + (join_seq(rest, nl) + nl));
        assert(seq![strip_cr(parts[0])] + rest.map_values(|p: Seq<char>| strip_cr(p)) =~= parts.map_values(
            |p: Seq<char>| strip_cr(p),
        ));
    }
}

/// Lines that hold no line break and end in no carriage return, joined
/// with `\n` and ended by one, split back into themselves.
pub proof fn lemma_lines_of_joined(parts: Seq<Seq<char>>)
    requires
        parts.len() > 0,
        plain_lines(parts),
    ensures
        seq_lines(join_seq(parts, seq!['\n']) + seq!['\n']) == parts,
{
    lemma_lines_of_joined_any(parts);
    assert(parts.map_values(|p: Seq<char>| strip_cr(p)) =~= parts);
}

/// The lines of a text hold no line break.
pub proof fn lemma_lines_hold_no_break(s: Seq<char>, i: int)
    requires
        0 <= i,
    ensures
        forall|j: int| 0 <= j < lines_from(s, i).len() ==> !(#[trigger] lines_from(s, i)[j]).contains('\n'),
    decreases s.len() - i,
{
    if i < s.len() {
        lemma_find_char_bounds(s, '\n', i);
        let e = find_char_from(s, '\n', i);
        if e >= s.len() {
            let l = s.subrange(i, s.len() as int);
            assert(!l.contains('\n')) by {
                if l.contains('\n') {
                    let k = choose|k: int| 0 <= k < l.len() && l[k] == '\n';
                    assert(s[i + k] == '\n');
                }
            }
            assert(lines_from(s, i) =~= seq![l]);
        } else {
            let l = strip_cr(s.subrange(i, e));
            assert(!l.contains('\n')) by {
                if l.contains('\n') {
                    let k = choose|k: int| 0 <= k < l.len() && l[k] == '\n';
                    assert(s[i + k] == '\n');
                }
            }
            lemma_lines_hold_no_break(s, e + 1);
            let rest = lines_from(s, e + 1);
            assert(lines_from(s, i) == seq![l] + rest);
            assert forall|j: int| 0 <= j < lines_from(s, i).len() implies !(#[trigger] lines_from(
                s,
                i,
            )[j]).contains('\n') by {
                if j > 0 {
                    assert(lines_from(s, i)[j] == rest[j - 1]);
                }
            }
        }
    }
}

/// The lines of a text without `c` hold no `c`.
pub proof fn lemma_lines_lack_char(s: Seq<char>, i: int, c: char)
    requires
        0 <= i,
        !s.contains(c),
    ensures
        forall|j: int| 0 <= j < lines_from(s, i).len() ==> !(#[trigger] lines_from(s, i)[j]).contains(c),
    decreases s.len() - i,
{
    if i < s.len() {
        lemma_find_char_bounds(s, '\n', i);
        let e = find_char_from(s, '\n', i);
        if e >= s.len() {
            let l = s.subrange(i, s.len() as int);
            assert(!l.contains(c)) by {
                if l.contains(c) {
                    let k = choose|k: int| 0 <= k < l.len() && l[k] == c;
                    assert(s[i + k] == c);
                }
            }
            assert(lines_from(s, i) =~= seq![l]);
        } else {
            let l = strip_cr(s.subrange(i, e));
            assert(!l.contains(c)) by {
                if l.contains(c) {
                    let k = choose|k: int| 0 <= k < l.len() && l[k] == c;
                    assert(s[i + k] == c);
                }
            }
            lemma_lines_lack_char(s, e + 1, c);
            let rest = lines_from(s, e + 1);
            assert(lines_from(s, i) == seq![l] + rest);
            assert forall|j: int| 0 <= j < lines_from(s, i).len() implies !(#[trigger] lines_from(
                s,
                i,
            )[j]).contains(c) by {
                if j > 0 {
                    assert(lines_from(s, i)[j] == rest[j - 1]);
                }
            }
        }
    }
}

/// A text without carriage returns whose last two lines are empty ends in
/// two line breaks.
pub proof fn lemma_two_empty_last_lines(s: Seq<char>, i: int)
    requires
        0 <= i,
        !s.contains('\r'),
        lines_from(s, i).len() >= 2,
        lines_from(s, i).last().len() == 0,
        lines_from(s, i)[lines_from(s, i).len() - 2].len() == 0,
    ensures
        seq_ends_with(s, seq!['\n', '\n']),
    decreases s.len() - i,
{
    let ls = lines_from(s, i);
    lemma_find_char_bounds(s, '\n', i);
    let e = find_char_from(s, '\n', i);
    assert(i < s.len());
    assert(e < s.len());
    let rest = lines_from(s, e + 1);
    assert(ls == seq![strip_cr(s.subrange(i, e))] + rest);
    if rest.len() >= 2 {
        assert(rest.last() == ls.last());
        assert(rest[rest.len() - 2] == ls[ls.len() - 2]);
        lemma_two_empty_last_lines(s, e + 1);
    } else {
        assert(rest.len() == 1);
        let l = s.subrange(i, e);
        assert(strip_cr(l).len() == 0);
        if l.len() > 0 {
            assert(l.last() == '\r' && l.len() == 1);
            assert(s[i] == '\r');
        }
        assert(e == i);
        lemma_find_char_bounds(s, '\n', e + 1);
        let e2 = find_char_from(s, '\n', e + 1);
        assert(e + 1 < s.len());
        if e2 >= s.len() {
            assert(rest == seq![s.subrange(e + 1, s.len() as int)]);
        } else {
            let m = s.subrange(e + 1, e2);
            assert(rest == seq![strip_cr(m)] + lines_from(s, e2 + 1));
            if m.len() > 0 {
                assert(m.last() == '\r' && m.len() == 1);
                assert(s[e + 1] == '\r');
            }
            assert(e2 == e + 1);
            assert(lines_from(s, e2 + 1).len() == 0);
            assert(e2 + 1 >= s.len());
            assert(s.subrange(s.len() - 2, s.len() as int) =~= seq!['\n', '\n']);
        }
    }
}

/// Parts free of line breaks, joined with `\n`, end in `\n` exactly when
/// there are two or more and the last is empty.
pub proof fn lemma_join_ends_with_break(parts: Seq<Seq<char>>)
    requires
        parts.len() > 0,
        forall|j: int| 0 <= j < parts.len() ==> !(#[trigger] parts[j]).contains('\n'),
    ensures
        seq_ends_with(join_seq(parts, seq!['\n']), seq!['\n']) <==> (parts.len() >= 2 && parts.last().len()
            == 0),
{
    let nl = seq!['\n'];
    let j = join_seq(parts, nl);
    let last = parts[parts.len() - 1];
    if parts.len() >= 2 {
        let d = join_seq(parts.drop_last(), nl);
        assert(j == d + nl + last);
    }
    if last.len() > 0 {
        assert(j[j.len() - 1] == last[last.len() - 1]);
        if seq_ends_with(j, nl) {
            assert(j.subrange(j.len() - 1, j.len() as int)[0] == nl[0]);
            assert(last.contains('\n'));
        }
    } else if parts.len() >= 2 {
        let d = join_seq(parts.drop_last(), nl);
        assert(j =~= d + nl);
        assert(j.subrange(j.len() - 1, j.len() as int) =~= nl);
        assert(occurs_at(j, j.len() - 1, nl));
    } else {
        assert(j == last);
    }
}

/// The Unicode `White_Space` characters, which `str::trim` removes.
pub open spec fn is_unicode_whitespace(c: char) -> bool {
    ||| ('\u{9}' <= c && c <= '\u{d}')
    ||| c == ' '
    ||| c == '\u{85}'
    ||| c == '\u{a0}'
    ||| c == '\u{1680}'
    ||| ('\u{2000}' <= c && c <= '\u{200a}')
    ||| c == '\u{2028}'
    ||| c == '\u{2029}'
    ||| c == '\u{202f}'
    ||| c == '\u{205f}'
    ||| c == '\u{3000}'
}

/// Number of leading white-space characters of `s`.
pub open spec fn leading_ws(s: Seq<char>) -> nat
    decreases s.len(),
{
    if s.len() > 0 && is_unicode_whitespace(s[0]) {
        1 + leading_ws(s.subrange(1, s.len() as int))
    } else {
        0
    }
}

/// Number of trailing white-space characters of `s`.
pub open spec fn trailing_ws(s: Seq<char>) -> nat
    decreases s.len(),
{
    if s.len() > 0 && is_unicode_whitespace(s.last()) {
        1 + trailing_ws(s.drop_last())
    } else {
        0
    }
}

/// `str::trim`: leading and trailing white space removed.
pub open spec fn trim_seq(s: Seq<char>) -> Seq<char> {
    let t = s.subrange(leading_ws(s) as int, s.len() as int);
    t.subrange(0, t.len() - trailing_ws(t))
}

proof fn lemma_leading_ws_bound(s: Seq<char>)
    ensures
        leading_ws(s) <= s.len(),
        forall|k: int| 0 <= k < leading_ws(s) ==> is_unicode_whitespace(#[trigger] s[k]),
        leading_ws(s) < s.len() ==> !is_unicode_whitespace(s[leading_ws(s) as int]),
    decreases s.len(),
{
    if s.len() > 0 && is_unicode_whitespace(s[0]) {
        let r = s.subrange(1, s.len() as int);
        lemma_leading_ws_bound(r);
        assert forall|k: int| 0 <= k < leading_ws(s) implies is_unicode_whitespace(#[trigger] s[k]) by {
            if k > 0 {
                assert(s[k] == r[k - 1]);
            }
        }
        if leading_ws(s) < s.len() {
            assert(s[leading_ws(s) as int] == r[leading_ws(r) as int]);
        }
    }
}

proof fn lemma_trailing_ws_bound(s: Seq<char>)
    ensures
        trailing_ws(s) <= s.len(),
        forall|k: int| s.len() - trailing_ws(s) <= k < s.len() ==> is_unicode_whitespace(#[trigger] s[k]),
        trailing_ws(s) < s.len() ==> !is_unicode_whitespace(s[s.len() - trailing_ws(s) - 1]),
    decreases s.len(),
{
    if s.len() > 0 && is_unicode_whitespace(s.last()) {
        let r = s.drop_last();
        lemma_trailing_ws_bound(r);
        assert forall|k: int| s.len() - trailing_ws(s) <= k < s.len() implies is_unicode_whitespace(#[trigger] s[k]) by {
            if k < s.len() - 1 {
                assert(s[k] == r[k]);
            }
        }
        if trailing_ws(s) < s.len() {
            assert(s[s.len() - trailing_ws(s) - 1] == r[r.len() - trailing_ws(r) - 1]);
        }
    }
}

/// `leading_ws` counts exactly the white-space prefix of length `n`.
proof fn lemma_leading_ws_is(s: Seq<char>, n: int)
    requires
        0 <= n <= s.len(),
        forall|k: int| 0 <= k < n ==> is_unicode_whitespace(#[trigger] s[k]),
        n < s.len() ==> !is_unicode_whitespace(s[n]),
    ensures
        leading_ws(s) == n,
    decreases s.len(),
{
    if n > 0 {
        let r = s.subrange(1, s.len() as int);
        assert(is_unicode_whitespace(s[0]));
        assert forall|k: int| 0 <= k < n - 1 implies is_unicode_whitespace(#[trigger] r[k]) by {
            assert(r[k] == s[k + 1]);
        }
        if n - 1 < r.len() {
            assert(r[n - 1] == s[n]);
        }
        lemma_leading_ws_is(r, n - 1);
    }
}

/// `trailing_ws` counts exactly the white-space suffix of length `n`.
proof fn lemma_trailing_ws_is(s: Seq<char>, n: int)
    requires
        0 <= n <= s.len(),
        forall|k: int| s.len() - n <= k < s.len() ==> is_unicode_whitespace(#[trigger] s[k]),
        n < s.len() ==> !is_unicode_whitespace(s[s.len() - n - 1]),
    ensures
        trailing_ws(s) == n,
    decreases s.len(),
{
    if n > 0 {
        let r = s.drop_last();
        assert(is_unicode_whitespace(s[s.len() - 1]));
        assert forall|k: int| r.len() - (n - 1) <= k < r.len() implies is_unicode_whitespace(#[trigger] r[k]) by {
            assert(r[k] == s[k]);
        }
        if n - 1 < r.len() {
            assert(r[r.len() - (n - 1) - 1] == s[s.len() - n - 1]);
        }
        lemma_trailing_ws_is(r, n - 1);
    }
}

/// Whether `c` is a Unicode `White_Space` character.
pub fn is_whitespace(c: char) -> (b: bool)
    ensures
        b == is_unicode_whitespace(c),
{
    ('\u{9}' <= c && c <= '\u{d}') || c == ' ' || c == '\u{85}' || c == '\u{a0}' || c
        == '\u{1680}' || ('\u{2000}' <= c && c <= '\u{200a}') || c == '\u{2028}' || c
        == '\u{2029}' || c == '\u{202f}' || c == '\u{205f}' || c == '\u{3000}'
}

/// Appends all of `src` to `out`.
pub(crate) fn push_all(out: &mut Vec<char>, src: &[char])
    ensures
        final(out)@ == old(out)@ + src@,
{
    let mut i: usize = 0;
    while i < src.len()
        invariant
            i <= src@.len(),
            out@ == old(out)@ + src@.subrange(0, i as int),
        decreases src@.len() - i,
    {
        out.push(src[i]);
        i = i + 1;
        assert(src@.subrange(0, i as int) =~= src@.subrange(0, i - 1 as int).push(src@[i - 1]));
    }
    assert(src@.subrange(0, src@.len() as int) =~= src@);
}

/// The characters `s[start..end]`.
pub(crate) fn slice_chars(s: &[char], start: usize, end: usize) -> (r: Vec<char>)
    requires
        start <= end <= s@.len(),
    ensures
        r@ == s@.subrange(start as int, end as int),
{
    let mut r: Vec<char> = Vec::new();
    let mut i: usize = start;
    while i < end
        invariant
            start <= i <= end <= s@.len(),
            r@ == s@.subrange(start as int, i as int),
        decreases end - i,
    {
        r.push(s[i]);
        i = i + 1;
        assert(s@.subrange(start as int, i as int) =~= s@.subrange(start as int, i - 1 as int).push(
            s@[i - 1],
        ));
    }
    r
}

/// Whether `pat` occurs in `s` at index `i`.
pub fn occurs_at_exec(s: &[char], i: usize, pat: &[char]) -> (b: bool)
    ensures
        b == occurs_at(s@, i as int, pat@),
{
    if i > s.len() || pat.len() > s.len() - i {
        return false;
    }
    let mut j: usize = 0;
    while j < pat.len()
        invariant
            i + pat@.len() <= s@.len(),
            s@.len() == s.len(),
            j <= pat@.len(),
            forall|k: int| 0 <= k < j ==> s@[i + k] == pat@[k],
        decreases pat@.len() - j,
    {
        if s[i + j] != pat[j] {
            assert(s@.subrange(i as int, i + pat@.len())[j as int] != pat@[j as int]);
            return false;
        }
        j = j + 1;
    }
    assert(s@.subrange(i as int, i + pat@.len()) =~= pat@);
    true
}

/// Whether `pat` occurs anywhere in `s`.
pub fn contains_chars(s: &[char], pat: &[char]) -> (b: bool)
    ensures
        b == seq_contains(s@, pat@),
{
    if pat.len() > s.len() {
        assert forall|i: int| !occurs_at(s@, i, pat@) by {}
        return false;
    }
    let mut i: usize = 0;
    while i <= s.len() - pat.len()
        invariant
            pat@.len() <= s@.len(),
            i <= s@.len() - pat@.len() + 1,
            forall|k: int| 0 <= k < i ==> !occurs_at(s@, k, pat@),
        decreases s@.len() - pat@.len() + 1 - i,
    {
        if occurs_at_exec(s, i, pat) {
            return true;
        }
        i = i + 1;
    }
    assert forall|k: int| !occurs_at(s@, k, pat@) by {
        if 0 <= k < i {
        }
    }
    false
}

/// Whether `pat` occurs in `s` (`str::contains` with a string pattern).
pub fn contains(s: &str, pat: &str) -> (b: bool)
    ensures
        b == seq_contains(s@, pat@),
{
    let sv = chars_of(s);
    let pv = chars_of(pat);
    contains_chars(&sv, &pv)
}

/// Whether `s` begins with `pat`.
pub fn starts_with_chars(s: &[char], pat: &[char]) -> (b: bool)
    ensures
        b == seq_starts_with(s@, pat@),
{
    occurs_at_exec(s, 0, pat)
}

/// Whether `s` ends with `pat`.
pub fn ends_with_chars(s: &[char], pat: &[char]) -> (b: bool)
    ensures
        b == seq_ends_with(s@, pat@),
{
    if pat.len() > s.len() {
        false
    } else {
        occurs_at_exec(s, s.len() - pat.len(), pat)
    }
}

/// One unfolding step of `replace_seq` at position `i`.
proof fn lemma_replace_step(s: Seq<char>, i: int, from: Seq<char>, to: Seq<char>)
    requires
        from.len() > 0,
        0 <= i < s.len(),
    ensures
        occurs_at(s, i, from) ==> replace_seq(s.subrange(i, s.len() as int), from, to) == to
            + replace_seq(s.subrange(i + from.len(), s.len() as int), from, to),
        !occurs_at(s, i, from) ==> replace_seq(s.subrange(i, s.len() as int), from, to)
            == seq![s[i]] + replace_seq(s.subrange(i + 1, s.len() as int), from, to),
{
    let t = s.subrange(i, s.len() as int);
    assert(occurs_at(t, 0, from) == occurs_at(s, i, from)) by {
        if i + from.len() <= s.len() {
            assert(t.subrange(0, from.len() as int) =~= s.subrange(i, i + from.len()));
        }
    }
    if occurs_at(s, i, from) {
        assert(t.subrange(from.len() as int, t.len() as int) =~= s.subrange(
            i + from.len(),
            s.len() as int,
        ));
    } else {
        assert(t.subrange(1, t.len() as int) =~= s.subrange(i + 1, s.len() as int));
    }
}

/// Replaces every non-overlapping occurrence of `from`, left to right.
pub fn replace_chars(s: &[char], from: &[char], to: &[char]) -> (r: Vec<char>)
    requires
        from@.len() > 0,
    ensures
        r@ == replace_seq(s@, from@, to@),
{
    let mut out: Vec<char> = Vec::new();
    let mut i: usize = 0;
    assert(s@.subrange(0, s@.len() as int) =~= s@);
    while i < s.len()
        invariant
            from@.len() > 0,
            i <= s@.len(),
            out@ + replace_seq(s@.subrange(i as int, s@.len() as int), from@, to@) == replace_seq(
                s@,
                from@,
                to@,
            ),
        decreases s@.len() - i,
    {
        proof {
            lemma_replace_step(s@, i as int, from@, to@);
        }
        let ghost prev = out@;
        if occurs_at_exec(s, i, from) {
            push_all(&mut out, to);
            let ghost rest = replace_seq(s@.subrange(i + from@.len(), s@.len() as int), from@, to@);
            assert((prev + to@) + rest =~= prev + (to@ + rest));
            i = i + from.len();
        } else {
            let ghost rest = replace_seq(s@.subrange(i + 1, s@.len() as int), from@, to@);
            out.push(s[i]);
            assert(prev.push(s@[i as int]) + rest =~= prev + (seq![s@[i as int]] + rest));
            i = i + 1;
        }
    }
    assert(s@.subrange(i as int, s@.len() as int) =~= Seq::<char>::empty());
    assert(out@ + Seq::<char>::empty() =~= out@);
    out
}

/// The views of a sequence of character vectors.
pub open spec fn views(v: Seq<Vec<char>>) -> Seq<Seq<char>> {
    v.map_values(|x: Vec<char>| x@)
}

proof fn lemma_views_push(v: Seq<Vec<char>>, x: Vec<char>)
    ensures
        views(v.push(x)) == views(v).push(x@),
{
    assert(views(v.push(x)) =~= views(v).push(x@));
}

/// Index of the first `c` in `s` at or after `i`, or `s.len()`.
pub fn find_char(s: &[char], c: char, i: usize) -> (e: usize)
    requires
        i <= s@.len(),
    ensures
        e as int == find_char_from(s@, c, i as int),
{
    let mut e: usize = i;
    while e < s.len() && s[e] != c
        invariant
            i <= e <= s@.len(),
            find_char_from(s@, c, i as int) == find_char_from(s@, c, e as int),
        decreases s@.len() - e,
    {
        e = e + 1;
    }
    e
}

/// The lines of `s`, as `str::lines` yields them.
pub fn lines_chars(s: &[char]) -> (r: Vec<Vec<char>>)
    ensures
        views(r@) == seq_lines(s@),
{
    let mut out: Vec<Vec<char>> = Vec::new();
    let mut i: usize = 0;
    while i < s.len()
        invariant
            i <= s@.len(),
            views(out@) + lines_from(s@, i as int) == seq_lines(s@),
        decreases s@.len() - i,
    {
        let e = find_char(s, '\n', i);
        proof {
            lemma_find_char_bounds(s@, '\n', i as int);
        }
        let ghost prev = views(out@);
        if e == s.len() {
            let line = slice_chars(s, i, e);
            proof {
                lemma_views_push(out@, line);
            }
            out.push(line);
            assert(lines_from(s@, s@.len() as int) =~= Seq::<Seq<char>>::empty());
            assert(prev + lines_from(s@, i as int) =~= views(out@) + lines_from(s@, s@.len() as int));
            i = e;
        } else {
            let mut line = slice_chars(s, i, e);
            if line.len() > 0 && line[line.len() - 1] == '\r' {
                line.pop();
            }
            assert(line@ == strip_cr(s@.subrange(i as int, e as int)));
            proof {
                lemma_views_push(out@, line);
            }
            out.push(line);
            assert(prev + lines_from(s@, i as int) =~= views(out@) + lines_from(s@, e + 1));
            i = e + 1;
        }
    }
    assert(lines_from(s@, i as int) =~= Seq::<Seq<char>>::empty());
    assert(views(out@) + Seq::<Seq<char>>::empty() =~= views(out@));
    out
}

/// `parts` joined with `sep` between each two neighbours.
pub fn join_chars(parts: &Vec<Vec<char>>, sep: &[char]) -> (r: Vec<char>)
    ensures
        r@ == join_seq(views(parts@), sep@),
{
    let mut out: Vec<char> = Vec::new();
    let mut k: usize = 0;
    while k < parts.len()
        invariant
            k <= parts@.len(),
            out@ == join_seq(views(parts@).take(k as int), sep@),
        decreases parts@.len() - k,
    {
        let ghost t = views(parts@).take(k + 1 as int);
        assert(t.drop_last() =~= views(parts@).take(k as int));
        assert(t.last() == parts@[k as int]@);
        if k > 0 {
            push_all(&mut out, sep);
        }
        push_all(&mut out, parts[k].as_slice());
        if k == 0 {
            assert(out@ =~= t[0]);
        }
        k = k + 1;
    }
    assert(views(parts@).take(k as int) =~= views(parts@));
    out
}

/// Index of the first non-white-space character (or `s.len()`).
fn first_non_ws(s: &[char]) -> (a: usize)
    ensures
        a == leading_ws(s@),
        a <= s@.len(),
{
    let mut a: usize = 0;
    while a < s.len() && is_whitespace(s[a])
        invariant
            a <= s@.len(),
            forall|k: int| 0 <= k < a ==> is_unicode_whitespace(#[trigger] s@[k]),
        decreases s@.len() - a,
    {
        a = a + 1;
    }
    proof {
        lemma_leading_ws_is(s@, a as int);
    }
    assert(a <= s@.len());
    a
}

/// `s` with leading and trailing white space removed (`str::trim`).
pub fn trim_chars(s: &[char]) -> (r: Vec<char>)
    ensures
        r@ == trim_seq(s@),
{
    let a = first_non_ws(s);
    let t = slice_chars(s, a, s.len());
    let mut b: usize = t.len();
    while b > 0 && is_whitespace(t[b - 1])
        invariant
            b <= t@.len(),
            forall|k: int| b <= k < t@.len() ==> is_unicode_whitespace(#[trigger] t@[k]),
        decreases b,
    {
        b = b - 1;
    }
    proof {
        lemma_trailing_ws_is(t@, t@.len() - b);
    }
    slice_chars(&t, 0, b)
}

/// `s` with leading and trailing white space removed (`str::trim`).
pub fn trim(s: &str) -> (r: String)
    ensures
        r@ == trim_seq(s@),
{
    let v = chars_of(s);
    let t = trim_chars(&v);
    string_of(&t)
}

/// Every non-overlapping occurrence of `from` replaced by `to`
/// (`str::replace` with a non-empty pattern).
pub fn replace(s: &str, from: &str, to: &str) -> (r: String)
    requires
        from@.len() > 0,
    ensures
        r@ == replace_seq(s@, from@, to@),
{
    let sv = chars_of(s);
    let fv = chars_of(from);
    let tv = chars_of(to);
    let r = replace_chars(&sv, &fv, &tv);
    string_of(&r)
}

/// `x` placed at offset `d` from the start of `r` agrees with `r` where the
/// two meet.
pub open spec fn agree_at(x: Seq<char>, r: Seq<char>, d: int) -> bool {
    if d <= 0 {
        let n = if x.len() + d < r.len() {
            x.len() + d
        } else {
            r.len() as int
        };
        x.subrange(-d, -d + n) =~= r.subrange(0, n)
    } else {
        let n = if x.len() < r.len() - d {
            x.len() as int
        } else {
            r.len() - d
        };
        x.subrange(0, n) =~= r.subrange(d, d + n)
    }
}

/// `x` and `r` can share characters when placed in one text: some offset
/// at which they meet agrees.
pub open spec fn can_overlap(x: Seq<char>, r: Seq<char>) -> bool {
    exists|d: int| -x.len() < d < r.len() && #[trigger] agree_at(x, r, d)
}

/// No offset in `lo..=hi` lets `x` and `r` agree when `x[i]` lies inside
/// every such placement and differs from each character of `r` it meets.
pub proof fn lemma_apart_on(x: Seq<char>, r: Seq<char>, lo: int, hi: int, i: int)
    requires
        -x.len() < lo <= hi < r.len(),
        0 <= i < x.len(),
        -lo <= i,
        i + hi < r.len(),
        forall|k: int| lo + i <= k <= hi + i ==> r[k] != x[i],
    ensures
        forall|d: int| lo <= d <= hi ==> !#[trigger] agree_at(x, r, d),
{
    assert forall|d: int| lo <= d <= hi implies !#[trigger] agree_at(x, r, d) by {
        if d <= 0 {
            let n = if x.len() + d < r.len() {
                x.len() + d
            } else {
                r.len() as int
            };
            assert(x.subrange(-d, -d + n)[i + d] != r.subrange(0, n)[i + d]);
        } else {
            let n = if x.len() < r.len() - d {
                x.len() as int
            } else {
                r.len() - d
            };
            assert(x.subrange(0, n)[i] != r.subrange(d, d + n)[i]);
        }
    }
}

/// Without an occurrence of `from`, replacing changes nothing.
pub proof fn lemma_replace_absent(s: Seq<char>, from: Seq<char>, to: Seq<char>)
    requires
        !seq_contains(s, from),
    ensures
        replace_seq(s, from, to) == s,
    decreases s.len(),
{
    if from.len() == 0 || s.len() == 0 {
    } else {
        assert(!occurs_at(s, 0, from));
        let t = s.subrange(1, s.len() as int);
        assert forall|i: int| !occurs_at(t, i, from) by {
            if occurs_at(t, i, from) {
                assert(s.subrange(i + 1, i + 1 + from.len()) =~= t.subrange(i, i + from.len()));
                assert(occurs_at(s, i + 1, from));
            }
        }
        lemma_replace_absent(t, from, to);
        assert(seq![s[0]] + t =~= s);
    }
}

/// Replacing an occurring `from` by a `to` that holds `m` leaves `m` in
/// the text.
pub proof fn lemma_replace_inserts(s: Seq<char>, from: Seq<char>, to: Seq<char>, m: Seq<char>)
    requires
        from.len() > 0,
        seq_contains(s, from),
        seq_contains(to, m),
    ensures
        seq_contains(replace_seq(s, from, to), m),
    decreases s.len(),
{
    let j = choose|j: int| occurs_at(s, j, from);
    let i = choose|i: int| occurs_at(to, i, m);
    if occurs_at(s, 0, from) {
        let rest = replace_seq(s.subrange(from.len() as int, s.len() as int), from, to);
        assert((to + rest).subrange(i, i + m.len()) =~= to.subrange(i, i + m.len()));
        assert(occurs_at(to + rest, i, m));
    } else {
        let t = s.subrange(1, s.len() as int);
        assert(j > 0);
        assert(t.subrange(j - 1, j - 1 + from.len()) =~= s.subrange(j, j + from.len()));
        assert(occurs_at(t, j - 1, from));
        lemma_replace_inserts(t, from, to, m);
        let rest = replace_seq(t, from, to);
        let k = choose|k: int| occurs_at(rest, k, m);
        assert((seq![s[0]] + rest).subrange(k + 1, k + 1 + m.len()) =~= rest.subrange(k, k + m.len()));
        assert(occurs_at(seq![s[0]] + rest, k + 1, m));
    }
}

/// A text that begins with `m[k..]` still does after the replacement, when
/// `m` and `from` cannot overlap.
proof fn lemma_replace_keeps_prefix(s: Seq<char>, from: Seq<char>, to: Seq<char>, m: Seq<char>, k: int)
    requires
        from.len() > 0,
        0 <= k < m.len(),
        seq_starts_with(s, m.subrange(k, m.len() as int)),
        !can_overlap(m, from),
    ensures
        seq_starts_with(replace_seq(s, from, to), m.subrange(k, m.len() as int)),
    decreases s.len(),
{
    let y = m.subrange(k, m.len() as int);
    if occurs_at(s, 0, from) {
        let d = -k;
        let n = if m.len() + d < from.len() {
            m.len() + d
        } else {
            from.len() as int
        };
        assert(m.subrange(-d, -d + n) =~= from.subrange(0, n));
        assert(agree_at(m, from, d));
    } else {
        assert(s.len() > 0);
        let t = s.subrange(1, s.len() as int);
        let rest = replace_seq(t, from, to);
        assert(replace_seq(s, from, to) == seq![s[0]] + rest);
        assert(s[0] == y[0]) by {
            assert(s.subrange(0, y.len() as int)[0] == y[0]);
        }
        if k + 1 < m.len() {
            assert(t.subrange(0, m.len() - k - 1) =~= m.subrange(k + 1, m.len() as int)) by {
                assert forall|i: int| 0 <= i < m.len() - k - 1 implies t[i] == m[k + 1 + i] by {
                    assert(s.subrange(0, y.len() as int)[i + 1] == y[i + 1]);
                }
            }
            lemma_replace_keeps_prefix(t, from, to, m, k + 1);
            assert((seq![s[0]] + rest).subrange(0, y.len() as int) =~= y) by {
                assert forall|i: int| 0 <= i < y.len() implies (seq![s[0]] + rest)[i] == y[i] by {
                    if i > 0 {
                        assert(rest.subrange(0, m.len() - k - 1)[i - 1] == m.subrange(
                            k + 1,
                            m.len() as int,
                        )[i - 1]);
                    }
                }
            }
        } else {
            assert((seq![s[0]] + rest).subrange(0, y.len() as int) =~= y);
        }
    }
}

/// An `m` that cannot overlap `from` survives the replacement.
pub proof fn lemma_replace_keeps(s: Seq<char>, from: Seq<char>, to: Seq<char>, m: Seq<char>)
    requires
        from.len() > 0,
        m.len() > 0,
        seq_contains(s, m),
        !can_overlap(m, from),
    ensures
        seq_contains(replace_seq(s, from, to), m),
    decreases s.len(),
{
    let j = choose|j: int| occurs_at(s, j, m);
    if occurs_at(s, 0, from) {
        if j < from.len() {
            let n = if m.len() < from.len() - j {
                m.len() as int
            } else {
                from.len() - j
            };
            if j > 0 {
                assert(m.subrange(0, n) =~= from.subrange(j, j + n));
                assert(agree_at(m, from, j));
            } else {
                let n0 = if m.len() < from.len() {
                    m.len() as int
                } else {
                    from.len() as int
                };
                assert(m.subrange(0, n0) =~= from.subrange(0, n0));
                assert(agree_at(m, from, 0));
            }
        } else {
            let t = s.subrange(from.len() as int, s.len() as int);
            assert(t.subrange(j - from.len(), j - from.len() + m.len()) =~= s.subrange(j, j + m.len()));
            assert(occurs_at(t, j - from.len(), m));
            lemma_replace_keeps(t, from, to, m);
            let rest = replace_seq(t, from, to);
            let k = choose|k: int| occurs_at(rest, k, m);
            assert((to + rest).subrange(to.len() + k, to.len() + k + m.len()) =~= rest.subrange(k, k + m.len()));
            assert(occurs_at(to + rest, to.len() + k, m));
        }
    } else if j == 0 {
        assert(m.subrange(0, m.len() as int) =~= m);
        lemma_replace_keeps_prefix(s, from, to, m, 0);
        assert(occurs_at(replace_seq(s, from, to), 0, m));
    } else {
        let t = s.subrange(1, s.len() as int);
        assert(t.subrange(j - 1, j - 1 + m.len()) =~= s.subrange(j, j + m.len()));
        assert(occurs_at(t, j - 1, m));
        lemma_replace_keeps(t, from, to, m);
        let rest = replace_seq(t, from, to);
        let k = choose|k: int| occurs_at(rest, k, m);
        assert((seq![s[0]] + rest).subrange(k + 1, k + 1 + m.len()) =~= rest.subrange(k, k + m.len()));
        assert(occurs_at(seq![s[0]] + rest, k + 1, m));
    }
}

/// When the replacement text begins with `x[k..]`, the text did, provided
/// `x` cannot overlap `to`.
proof fn lemma_replace_creates_no_prefix(
    s: Seq<char>,
    from: Seq<char>,
    to: Seq<char>,
    x: Seq<char>,
    k: int,
)
    requires
        from.len() > 0,
        to.len() > 0,
        0 <= k < x.len(),
        seq_starts_with(replace_seq(s, from, to), x.subrange(k, x.len() as int)),
        !can_overlap(x, to),
    ensures
        seq_starts_with(s, x.subrange(k, x.len() as int)),
    decreases s.len(),
{
    let y = x.subrange(k, x.len() as int);
    let r = replace_seq(s, from, to);
    if s.len() == 0 {
        assert(r == s);
    } else if occurs_at(s, 0, from) {
        let rest = replace_seq(s.subrange(from.len() as int, s.len() as int), from, to);
        assert(r == to + rest);
        let d = -k;
        let n = if x.len() + d < to.len() {
            x.len() + d
        } else {
            to.len() as int
        };
        assert(x.subrange(-d, -d + n) =~= to.subrange(0, n)) by {
            assert forall|i: int| 0 <= i < n implies x.subrange(-d, -d + n)[i] == to.subrange(0, n)[i] by {
                assert(r.subrange(0, y.len() as int)[i] == y[i]);
                assert(r[i] == to[i]);
            }
        }
        assert(agree_at(x, to, d));
    } else {
        let t = s.subrange(1, s.len() as int);
        let rest = replace_seq(t, from, to);
        assert(r == seq![s[0]] + rest);
        assert(r[0] == y[0]);
        if k + 1 < x.len() {
            assert(rest.subrange(0, x.len() - k - 1) =~= x.subrange(k + 1, x.len() as int)) by {
                assert forall|i: int| 0 <= i < x.len() - k - 1 implies rest[i] == x[k + 1 + i] by {
                    assert(r.subrange(0, y.len() as int)[i + 1] == y[i + 1]);
                    assert(r[i + 1] == rest[i]);
                }
            }
            lemma_replace_creates_no_prefix(t, from, to, x, k + 1);
            assert(s.subrange(0, y.len() as int) =~= y) by {
                assert forall|i: int| 0 <= i < y.len() implies s[i] == y[i] by {
                    if i > 0 {
                        assert(t.subrange(0, x.len() - k - 1)[i - 1] == x.subrange(k + 1, x.len() as int)[i - 1]);
                    }
                }
            }
        } else {
            assert(s.subrange(0, y.len() as int) =~= y);
        }
    }
}

/// After replacing, no occurrence of `from` is left, when `from` cannot
/// overlap its replacement.
pub proof fn lemma_replace_removes(s: Seq<char>, from: Seq<char>, to: Seq<char>)
    requires
        from.len() > 0,
        to.len() > 0,
        !can_overlap(from, to),
    ensures
        !seq_contains(replace_seq(s, from, to), from),
    decreases s.len(),
{
    let r = replace_seq(s, from, to);
    if s.len() == 0 {
        assert(r == s);
    } else if occurs_at(s, 0, from) {
        let t = s.subrange(from.len() as int, s.len() as int);
        let rest = replace_seq(t, from, to);
        lemma_replace_removes(t, from, to);
        assert(r == to + rest);
        assert forall|i: int| !occurs_at(r, i, from) by {
            if occurs_at(r, i, from) {
                if i >= to.len() {
                    assert(rest.subrange(i - to.len(), i - to.len() + from.len()) =~= r.subrange(
                        i,
                        i + from.len(),
                    ));
                    assert(occurs_at(rest, i - to.len(), from));
                } else {
                    let n = if from.len() < to.len() - i {
                        from.len() as int
                    } else {
                        to.len() - i
                    };
                    assert(from.subrange(0, n) =~= to.subrange(i, i + n)) by {
                        assert forall|q: int| 0 <= q < n implies from[q] == to[i + q] by {
                            assert(r.subrange(i, i + from.len())[q] == from[q]);
                        }
                    }
                    assert(agree_at(from, to, i));
                }
            }
        }
    } else {
        let t = s.subrange(1, s.len() as int);
        let rest = replace_seq(t, from, to);
        lemma_replace_removes(t, from, to);
        assert(r == seq![s[0]] + rest);
        assert forall|i: int| !occurs_at(r, i, from) by {
            if occurs_at(r, i, from) {
                if i >= 1 {
                    assert(rest.subrange(i - 1, i - 1 + from.len()) =~= r.subrange(i, i + from.len()));
                    assert(occurs_at(rest, i - 1, from));
                } else {
                    assert(r.subrange(0, from.len() as int) =~= from);
                    if from.len() > 1 {
                        assert(rest.subrange(0, from.len() - 1) =~= from.subrange(1, from.len() as int))
                            by {
                            assert forall|q: int| 0 <= q < from.len() - 1 implies rest[q] == from[1 + q] by {
                                assert(r[q + 1] == rest[q]);
                            }
                        }
                        lemma_replace_creates_no_prefix(t, from, to, from, 1);
                        assert(s.subrange(0, from.len() as int) =~= from) by {
                            assert forall|q: int| 0 <= q < from.len() implies s[q] == from[q] by {
                                if q > 0 {
                                    assert(t.subrange(0, from.len() - 1)[q - 1] == from.subrange(
                                        1,
                                        from.len() as int,
                                    )[q - 1]);
                                }
                            }
                        }
                    } else {
                        assert(s.subrange(0, 1) =~= from);
                    }
                    assert(occurs_at(s, 0, from));
                }
            }
        }
    }
}

/// Replacing creates no `x` that cannot overlap the replacement text.
pub proof fn lemma_replace_creates_none(s: Seq<char>, from: Seq<char>, to: Seq<char>, x: Seq<char>)
    requires
        from.len() > 0,
        to.len() > 0,
        x.len() > 0,
        !seq_contains(s, x),
        !can_overlap(x, to),
    ensures
        !seq_contains(replace_seq(s, from, to), x),
    decreases s.len(),
{
    let r = replace_seq(s, from, to);
    if s.len() == 0 {
        assert(r == s);
    } else {
        assert forall|i: int| !occurs_at(r, i, x) by {
            if occurs_at(r, i, x) {
                if occurs_at(s, 0, from) {
                    let t = s.subrange(from.len() as int, s.len() as int);
                    let rest = replace_seq(t, from, to);
                    assert(r == to + rest);
                    if i >= to.len() {
                        assert(rest.subrange(i - to.len(), i - to.len() + x.len()) =~= r.subrange(i, i + x.len()));
                        assert(occurs_at(rest, i - to.len(), x));
                        assert forall|j: int| !occurs_at(t, j, x) by {
                            if occurs_at(t, j, x) {
                                assert(s.subrange(j + from.len(), j + from.len() + x.len()) =~= t.subrange(j, j + x.len()));
                                assert(occurs_at(s, j + from.len(), x));
                            }
                        }
                        lemma_replace_creates_none(t, from, to, x);
                    } else {
                        let n = if x.len() < to.len() - i {
                            x.len() as int
                        } else {
                            to.len() - i
                        };
                        if i > 0 {
                            assert(x.subrange(0, n) =~= to.subrange(i, i + n)) by {
                                assert forall|q: int| 0 <= q < n implies x[q] == to[i + q] by {
                                    assert(r.subrange(i, i + x.len())[q] == x[q]);
                                }
                            }
                            assert(agree_at(x, to, i));
                        } else {
                            let n0 = if x.len() < to.len() {
                                x.len() as int
                            } else {
                                to.len() as int
                            };
                            assert(x.subrange(0, n0) =~= to.subrange(0, n0)) by {
                                assert forall|q: int| 0 <= q < n0 implies x[q] == to[q] by {
                                    assert(r.subrange(0, x.len() as int)[q] == x[q]);
                                }
                            }
                            assert(agree_at(x, to, 0));
                        }
                    }
                } else {
                    let t = s.subrange(1, s.len() as int);
                    let rest = replace_seq(t, from, to);
                    assert(r == seq![s[0]] + rest);
                    assert forall|j: int| !occurs_at(t, j, x) by {
                        if occurs_at(t, j, x) {
                            assert(s.subrange(j + 1, j + 1 + x.len()) =~= t.subrange(j, j + x.len()));
                            assert(occurs_at(s, j + 1, x));
                        }
                    }
                    if i >= 1 {
                        assert(rest.subrange(i - 1, i - 1 + x.len()) =~= r.subrange(i, i + x.len()));
                        assert(occurs_at(rest, i - 1, x));
                        lemma_replace_creates_none(t, from, to, x);
                    } else {
                        assert(r.subrange(0, x.len() as int) =~= x);
                        if x.len() > 1 {
                            assert(rest.subrange(0, x.len() - 1) =~= x.subrange(1, x.len() as int)) by {
                                assert forall|q: int| 0 <= q < x.len() - 1 implies rest[q] == x[1 + q] by {
                                    assert(r[q + 1] == rest[q]);
                                }
                            }
                            lemma_replace_creates_no_prefix(t, from, to, x, 1);
                            assert(s.subrange(0, x.len() as int) =~= x) by {
                                assert forall|q: int| 0 <= q < x.len() implies s[q] == x[q] by {
                                    if q > 0 {
                                        assert(t.subrange(0, x.len() - 1)[q - 1] == x.subrange(1, x.len() as int)[q - 1]);
                                    }
                                }
                            }
                        } else {
                            assert(s.subrange(0, 1) =~= x);
                        }
                        assert(occurs_at(s, 0, x));
                    }
                }
            }
        }
    }
}

/// Each edit applied in turn, replacing every occurrence of its first
/// string by its second.
pub open spec fn replace_all_seq(s: Seq<char>, edits: Seq<(Seq<char>, Seq<char>)>) -> Seq<char>
    decreases edits.len(),
{
    if edits.len() == 0 {
        s
    } else {
        replace_seq(replace_all_seq(s, edits.drop_last()), edits.last().0, edits.last().1)
    }
}

/// A text that none of the edits' patterns can overlap survives them all.
pub proof fn lemma_edits_keep(s: Seq<char>, edits: Seq<(Seq<char>, Seq<char>)>, m: Seq<char>)
    requires
        m.len() > 0,
        seq_contains(s, m),
        forall|j: int| 0 <= j < edits.len() ==> edits[j].0.len() > 0 && !can_overlap(m, edits[j].0),
    ensures
        seq_contains(replace_all_seq(s, edits), m),
    decreases edits.len(),
{
    if edits.len() > 0 {
        let rest = edits.drop_last();
        lemma_edits_keep(s, rest, m);
        lemma_replace_keeps(replace_all_seq(s, rest), edits.last().0, edits.last().1, m);
    }
}

/// Edits whose replacements cannot overlap `x` create no `x`.
pub proof fn lemma_edits_create_none(s: Seq<char>, edits: Seq<(Seq<char>, Seq<char>)>, x: Seq<char>)
    requires
        x.len() > 0,
        !seq_contains(s, x),
        forall|j: int|
            0 <= j < edits.len() ==> edits[j].0.len() > 0 && edits[j].1.len() > 0 && !can_overlap(x, edits[j].1),
    ensures
        !seq_contains(replace_all_seq(s, edits), x),
    decreases edits.len(),
{
    if edits.len() > 0 {
        let rest = edits.drop_last();
        lemma_edits_create_none(s, rest, x);
        lemma_replace_creates_none(replace_all_seq(s, rest), edits.last().0, edits.last().1, x);
    }
}

/// An edit whose pattern occurs, and survives the edits before it, leaves
/// a marker of its replacement that the edits after it cannot overlap.
pub proof fn lemma_edits_insert(
    s: Seq<char>,
    edits: Seq<(Seq<char>, Seq<char>)>,
    k: int,
    m: Seq<char>,
)
    requires
        0 <= k < edits.len(),
        m.len() > 0,
        edits[k].0.len() > 0,
        seq_contains(s, edits[k].0),
        seq_contains(edits[k].1, m),
        forall|j: int|
            0 <= j < k ==> edits[j].0.len() > 0 && !can_overlap(edits[k].0, #[trigger] edits[j].0),
        forall|j: int| k < j < edits.len() ==> edits[j].0.len() > 0 && !can_overlap(m, #[trigger] edits[j].0),
    ensures
        seq_contains(replace_all_seq(s, edits), m),
    decreases edits.len(),
{
    let rest = edits.drop_last();
    if k == edits.len() - 1 {
        lemma_edits_keep(s, rest, edits[k].0);
        lemma_replace_inserts(replace_all_seq(s, rest), edits[k].0, edits[k].1, m);
    } else {
        lemma_edits_insert(s, rest, k, m);
        lemma_replace_keeps(replace_all_seq(s, rest), edits.last().0, edits.last().1, m);
    }
}

/// Edits none of whose patterns occur change nothing.
pub proof fn lemma_edits_absent(s: Seq<char>, edits: Seq<(Seq<char>, Seq<char>)>)
    requires
        forall|j: int| 0 <= j < edits.len() ==> !seq_contains(s, #[trigger] edits[j].0),
    ensures
        replace_all_seq(s, edits) == s,
    decreases edits.len(),
{
    if edits.len() > 0 {
        let rest = edits.drop_last();
        assert forall|j: int| 0 <= j < rest.len() implies !seq_contains(s, #[trigger] rest[j].0) by {
            assert(rest[j] == edits[j]);
        }
        lemma_edits_absent(s, rest);
        lemma_replace_absent(s, edits.last().0, edits.last().1);
    }
}

/// Edits whose patterns cannot overlap their own replacement or a later
/// one leave none of their patterns in the text.
pub proof fn lemma_edits_remove_patterns(s: Seq<char>, edits: Seq<(Seq<char>, Seq<char>)>)
    requires
        forall|j: int| 0 <= j < edits.len() ==> edits[j].0.len() > 0 && edits[j].1.len() > 0,
        forall|k: int, j: int|
            0 <= k <= j < edits.len() ==> !can_overlap(#[trigger] edits[k].0, #[trigger] edits[j].1),
    ensures
        forall|k: int| 0 <= k < edits.len() ==> !seq_contains(replace_all_seq(s, edits), #[trigger] edits[k].0),
    decreases edits.len(),
{
    if edits.len() > 0 {
        let rest = edits.drop_last();
        let n = edits.len() - 1;
        assert forall|k: int, j: int| 0 <= k <= j < rest.len() implies !can_overlap(
            #[trigger] rest[k].0,
            #[trigger] rest[j].1,
        ) by {
            assert(rest[k] == edits[k]);
            assert(rest[j] == edits[j]);
            assert(!can_overlap(edits[k].0, edits[j].1));
        }
        lemma_edits_remove_patterns(s, rest);
        let before = replace_all_seq(s, rest);
        lemma_replace_removes(before, edits[n].0, edits[n].1);
        assert forall|k: int| 0 <= k < edits.len() implies !seq_contains(
            replace_all_seq(s, edits),
            #[trigger] edits[k].0,
        ) by {
            if k < n {
                assert(rest[k] == edits[k]);
                assert(!can_overlap(edits[k].0, edits[n].1));
                lemma_replace_creates_none(before, edits[n].0, edits[n].1, edits[k].0);
            }
        }
    }
}

/// Edits whose patterns cannot overlap their own replacement or a later
/// one change nothing when applied a second time.
pub proof fn lemma_edits_applied_once(s: Seq<char>, edits: Seq<(Seq<char>, Seq<char>)>)
    requires
        forall|j: int| 0 <= j < edits.len() ==> edits[j].0.len() > 0 && edits[j].1.len() > 0,
        forall|k: int, j: int|
            0 <= k <= j < edits.len() ==> !can_overlap(#[trigger] edits[k].0, #[trigger] edits[j].1),
    ensures
        replace_all_seq(replace_all_seq(s, edits), edits) == replace_all_seq(s, edits),
{
    lemma_edits_remove_patterns(s, edits);
    lemma_edits_absent(replace_all_seq(s, edits), edits);
}

/// Each edit applied in turn (`str::replace` once per edit).
pub fn replace_all(s: &str, edits: &Vec<(String, String)>) -> (r: String)
    ensures
        r@ == replace_all_seq(s@, edits.deep_view()),
{
    let ghost ev = edits.deep_view();
    let mut r = s.to_string();
    let mut k: usize = 0;
    while k < edits.len()
        invariant
            k <= edits@.len(),
            ev == edits.deep_view(),
            ev.len() == edits@.len(),
            r@ == replace_all_seq(s@, ev.take(k as int)),
        decreases edits@.len() - k,
    {
        assert(ev.take(k as int + 1).drop_last() =~= ev.take(k as int));
        let from = edits[k].0.as_str();
        let to = edits[k].1.as_str();
        assert(ev[k as int] == (from@, to@));
        if chars_of(from).len() > 0 {
            r = replace(r.as_str(), from, to);
        }
        k = k + 1;
    }
    assert(ev.take(ev.len() as int) =~= ev);
    r
}

/// The decimal digit for `d < 10`.
pub open spec fn digit(d: nat) -> char {
    if d == 0 { '0' }
    else if d == 1 { '1' }
    else if d == 2 { '2' }
    else if d == 3 { '3' }
    else if d == 4 { '4' }
    else if d == 5 { '5' }
    else if d == 6 { '6' }
    else if d == 7 { '7' }
    else if d == 8 { '8' }
    else { '9' }
}

/// The decimal representation of `n`, without leading zeros.
pub open spec fn decimal(n: nat) -> Seq<char>
    decreases n,
{
    if n < 10 {
        seq![digit(n)]
    } else {
        decimal(n / 10).push(digit(n % 10))
    }
}

/// The decimal representation of an integer, with a `-` when negative.
pub open spec fn signed_decimal(n: int) -> Seq<char> {
    if n < 0 {
        seq!['-'] + decimal((-n) as nat)
    } else {
        decimal(n as nat)
    }
}

fn digit_exec(d: u64) -> (c: char)
    requires
        d < 10,
    ensures
        c == digit(d as nat),
{
    if d == 0 { '0' }
    else if d == 1 { '1' }
    else if d == 2 { '2' }
    else if d == 3 { '3' }
    else if d == 4 { '4' }
    else if d == 5 { '5' }
    else if d == 6 { '6' }
    else if d == 7 { '7' }
    else if d == 8 { '8' }
    else { '9' }
}

/// Appends the decimal representation of `n`.
pub(crate) fn push_decimal(out: &mut Vec<char>, n: u64)
    ensures
        final(out)@ == old(out)@ + decimal(n as nat),
    decreases n,
{
    if n >= 10 {
        push_decimal(out, n / 10);
    }
    let c = digit_exec(n % 10);
    out.push(c);
}

/// `n` written in decimal, as `u64::to_string` writes it.
pub fn u64_to_string(n: u64) -> (r: String)
    ensures
        r@ == decimal(n as nat),
{
    let mut v: Vec<char> = Vec::new();
    push_decimal(&mut v, n);
    string_of(&v)
}

/// `n` written in decimal, as `i32::to_string` writes it.
pub fn i32_to_string(n: i32) -> (r: String)
    ensures
        r@ == signed_decimal(n as int),
{
    let mut v: Vec<char> = Vec::new();
    if n < 0 {
        v.push('-');
        let m: i64 = n as i64;
        push_decimal(&mut v, (-m) as u64);
    } else {
        push_decimal(&mut v, n as u64);
    }
    string_of(&v)
}

/// Whether two character sequences are equal.
pub fn eq_chars(a: &[char], b: &[char]) -> (r: bool)
    ensures
        r == (a@ == b@),
{
    if a.len() != b.len() {
        return false;
    }
    let mut i: usize = 0;
    while i < a.len()
        invariant
            a@.len() == b@.len(),
            i <= a@.len(),
            forall|k: int| 0 <= k < i ==> a@[k] == b@[k],
        decreases a@.len() - i,
    {
        if a[i] != b[i] {
            return false;
        }
        i = i + 1;
    }
    assert(a@ =~= b@);
    true
}

/// Whether two strings are equal.
pub fn str_eq(a: &str, b: &str) -> (r: bool)
    ensures
        r == (a@ == b@),
{
    let av = chars_of(a);
    let bv = chars_of(b);
    eq_chars(&av, &bv)
}

} // verus!
