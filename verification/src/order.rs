//! Ordering of strings by their characters, and sorting of string lists.
use vstd::prelude::*;
use crate::text::chars_of;

verus! {

broadcast use vstd::seq_lib::group_to_multiset_ensures;

/// Lexicographic order of character sequences (the order of `str`, since
/// UTF-8 preserves the order of code points).
pub open spec fn chars_lt(a: Seq<char>, b: Seq<char>) -> bool
    decreases a.len(),
{
    if a.len() == 0 {
        b.len() > 0
    } else if b.len() == 0 {
        false
    } else if a[0] != b[0] {
        (a[0] as int) < (b[0] as int)
    } else {
        chars_lt(a.drop_first(), b.drop_first())
    }
}

pub open spec fn chars_le(a: Seq<char>, b: Seq<char>) -> bool {
    a == b || chars_lt(a, b)
}

/// Every element is at most every later element.
pub open spec fn sorted_seqs(s: Seq<Seq<char>>) -> bool {
    forall|i: int, j: int| 0 <= i < j < s.len() ==> chars_le(#[trigger] s[i], #[trigger] s[j])
}

/// Every element is less than every later element.
pub open spec fn strictly_sorted_seqs(s: Seq<Seq<char>>) -> bool {
    forall|i: int, j: int| 0 <= i < j < s.len() ==> chars_lt(#[trigger] s[i], #[trigger] s[j])
}

pub proof fn lemma_lt_irreflexive(a: Seq<char>)
    ensures
        !chars_lt(a, a),
    decreases a.len(),
{
    if a.len() > 0 {
        lemma_lt_irreflexive(a.drop_first());
    }
}

pub proof fn lemma_lt_total(a: Seq<char>, b: Seq<char>)
    ensures
        a != b ==> chars_lt(a, b) || chars_lt(b, a),
        !(chars_lt(a, b) && chars_lt(b, a)),
    decreases a.len(),
{
    if a.len() > 0 && b.len() > 0 && a[0] == b[0] {
        lemma_lt_total(a.drop_first(), b.drop_first());
        if a != b {
            assert(a.drop_first() != b.drop_first()) by {
                if a.drop_first() == b.drop_first() {
                    assert(a =~= seq![a[0]] + a.drop_first());
                    assert(b =~= seq![b[0]] + b.drop_first());
                }
            }
        }
    } else if a.len() == 0 && b.len() == 0 {
        assert(a =~= b);
    } else if a.len() > 0 && b.len() > 0 {
        assert((a[0] as int) != (b[0] as int));
    }
}

pub proof fn lemma_lt_transitive(a: Seq<char>, b: Seq<char>, c: Seq<char>)
    requires
        chars_lt(a, b),
        chars_lt(b, c),
    ensures
        chars_lt(a, c),
    decreases a.len(),
{
    if a.len() > 0 && b.len() > 0 && c.len() > 0 && a[0] == b[0] && b[0] == c[0] {
        lemma_lt_transitive(a.drop_first(), b.drop_first(), c.drop_first());
    }
}

proof fn lemma_le_lt_transitive(a: Seq<char>, b: Seq<char>, c: Seq<char>)
    requires
        chars_le(a, b),
        chars_lt(b, c),
    ensures
        chars_lt(a, c),
{
    if a != b {
        lemma_lt_transitive(a, b, c);
    }
}

/// Whether `a` comes before `b`.
pub fn chars_less(a: &[char], b: &[char]) -> (r: bool)
    ensures
        r == chars_lt(a@, b@),
{
    let mut i: usize = 0;
    assert(a@.skip(0) =~= a@);
    assert(b@.skip(0) =~= b@);
    while i < a.len() && i < b.len() && a[i] == b[i]
        invariant
            i <= a@.len(),
            i <= b@.len(),
            chars_lt(a@, b@) == chars_lt(a@.skip(i as int), b@.skip(i as int)),
        decreases a@.len() - i,
    {
        assert(a@.skip(i as int).drop_first() =~= a@.skip(i + 1));
        assert(b@.skip(i as int).drop_first() =~= b@.skip(i + 1));
        i = i + 1;
    }
    if i == a.len() {
        i < b.len()
    } else if i == b.len() {
        false
    } else {
        assert(a@.skip(i as int)[0] == a@[i as int]);
        assert(b@.skip(i as int)[0] == b@[i as int]);
        a[i] < b[i]
    }
}

/// Whether string `a` comes before string `b`.
pub fn str_less(a: &str, b: &str) -> (r: bool)
    ensures
        r == chars_lt(a@, b@),
{
    let av = chars_of(a);
    let bv = chars_of(b);
    chars_less(&av, &bv)
}

/// Position at which `x` goes into the sorted `v`: after every element not
/// greater than `x`.
fn insertion_point(v: &Vec<String>, x: &String) -> (j: usize)
    requires
        sorted_seqs(v.deep_view()),
    ensures
        j <= v@.len(),
        forall|k: int| 0 <= k < j ==> chars_le(#[trigger] v.deep_view()[k], x@),
        forall|k: int| j <= k < v@.len() ==> chars_lt(x@, #[trigger] v.deep_view()[k]),
{
    let mut j: usize = 0;
    while j < v.len() && !str_less(x.as_str(), v[j].as_str())
        invariant
            j <= v@.len(),
            sorted_seqs(v.deep_view()),
            forall|k: int| 0 <= k < j ==> chars_le(#[trigger] v.deep_view()[k], x@),
        decreases v@.len() - j,
    {
        proof {
            lemma_lt_total(x@, v.deep_view()[j as int]);
        }
        j = j + 1;
    }
    proof {
        assert forall|k: int| j <= k < v@.len() implies chars_lt(x@, #[trigger] v.deep_view()[k]) by {
            if k > j {
                assert(chars_le(v.deep_view()[j as int], v.deep_view()[k]));
                if v.deep_view()[j as int] != v.deep_view()[k] {
                    lemma_lt_transitive(x@, v.deep_view()[j as int], v.deep_view()[k]);
                }
            }
        }
    }
    j
}

/// The strings in character order (a stable insertion sort).
pub fn sort_strings(v: Vec<String>) -> (r: Vec<String>)
    ensures
        sorted_seqs(r.deep_view()),
        r.deep_view().to_multiset() == v.deep_view().to_multiset(),
{
    let mut out: Vec<String> = Vec::new();
    let mut i: usize = 0;
    while i < v.len()
        invariant
            i <= v@.len(),
            sorted_seqs(out.deep_view()),
            out.deep_view().to_multiset() == v.deep_view().take(i as int).to_multiset(),
        decreases v@.len() - i,
    {
        let x = v[i].clone();
        let j = insertion_point(&out, &x);
        let ghost before = out.deep_view();
        out.insert(j, x);
        assert(out.deep_view() =~= before.insert(j as int, x@));
        assert(v.deep_view().take(i + 1) =~= v.deep_view().take(i as int).push(v.deep_view()[i as int]));
        assert forall|a: int, b: int| 0 <= a < b < out.deep_view().len() implies chars_le(
            #[trigger] out.deep_view()[a],
            #[trigger] out.deep_view()[b],
        ) by {
            let s = out.deep_view();
            if b < j {
            } else if a < j && b == j {
            } else if a < j && b > j {
                assert(s[b] == before[b - 1]);
                lemma_le_lt_transitive(s[a], x@, s[b]);
            } else if a == j {
                assert(s[b] == before[b - 1]);
            } else {
                assert(s[a] == before[a - 1]);
                assert(s[b] == before[b - 1]);
            }
        }
        i = i + 1;
    }
    assert(v.deep_view().take(v@.len() as int) =~= v.deep_view());
    out
}

/// The distinct strings in character order (the order and contents of a
/// `BTreeSet`).
pub fn sort_dedup_strings(v: Vec<String>) -> (r: Vec<String>)
    ensures
        strictly_sorted_seqs(r.deep_view()),
        r.deep_view().to_set() == v.deep_view().to_set(),
{
    let s = sort_strings(v);
    let ghost sv = s.deep_view();
    let mut out: Vec<String> = Vec::new();
    let mut i: usize = 0;
    while i < s.len()
        invariant
            i <= s@.len(),
            sv == s.deep_view(),
            sorted_seqs(sv),
            strictly_sorted_seqs(out.deep_view()),
            out.deep_view().to_set() == sv.take(i as int).to_set(),
            i > 0 ==> out@.len() > 0 && out.deep_view().last() == sv[i - 1],
            i == 0 ==> out@.len() == 0,
        decreases s@.len() - i,
    {
        let ghost before = out.deep_view();
        assert(sv.take(i + 1) =~= sv.take(i as int).push(sv[i as int]));
        let dup = out.len() > 0 && crate::text::str_eq(out[out.len() - 1].as_str(), s[i].as_str());
        if !dup {
            out.push(s[i].clone());
            assert(out.deep_view() =~= before.push(sv[i as int]));
            assert forall|a: int, b: int| 0 <= a < b < out.deep_view().len() implies chars_lt(
                #[trigger] out.deep_view()[a],
                #[trigger] out.deep_view()[b],
            ) by {
                if b == before.len() {
                    assert(i > 0);
                    assert(chars_le(sv[i - 1], sv[i as int]));
                    assert(sv[i - 1] != sv[i as int]);
                    if a < before.len() - 1 {
                        lemma_lt_transitive(before[a], before.last(), sv[i as int]);
                    }
                }
            }
            assert(out.deep_view().to_set() =~= sv.take(i + 1).to_set()) by {
                assert forall|e: Seq<char>| out.deep_view().to_set().contains(e) == sv.take(i + 1).to_set().contains(e) by {
                    vstd::seq_lib::lemma_seq_contains_after_push(before, sv[i as int], e);
                    vstd::seq_lib::lemma_seq_contains_after_push(sv.take(i as int), sv[i as int], e);
                    assert(before.to_set().contains(e) == before.contains(e));
                }
            }
        } else {
            assert(sv.take(i + 1).to_set() =~= sv.take(i as int).to_set()) by {
                assert forall|e: Seq<char>| sv.take(i + 1).to_set().contains(e) == sv.take(i as int).to_set().contains(e) by {
                    vstd::seq_lib::lemma_seq_contains_after_push(sv.take(i as int), sv[i as int], e);
                    assert(sv.take(i as int)[i - 1] == sv[i - 1]);
                    assert(sv[i as int] == sv[i - 1]);
                }
            }
        }
        i = i + 1;
    }
    assert(sv.take(s@.len() as int) =~= sv);
    assert(sv.to_set() == v.deep_view().to_set()) by {
        assert forall|e: Seq<char>| sv.to_set().contains(e) == v.deep_view().to_set().contains(e) by {
            assert(sv.to_multiset().count(e) == v.deep_view().to_multiset().count(e));
            vstd::seq_lib::to_multiset_contains(sv, e);
            vstd::seq_lib::to_multiset_contains(v.deep_view(), e);
        }
        assert(sv.to_set() =~= v.deep_view().to_set());
    }
    out
}

} // verus!
