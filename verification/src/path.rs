//! Unix paths as character strings: joining, parent, file name and
//! extension, following the component rules of `std::path::Path`.
use vstd::prelude::*;
use crate::text::{chars_of, push_all, slice_chars, string_of};

verus! {

pub open spec fn has_root(p: Seq<char>) -> bool {
    p.len() > 0 && p[0] == '/'
}

/// `Path::join` / `PathBuf::push` on Unix: an absolute `rel` replaces
/// `base`; otherwise a `/` is inserted when `base` is non-empty and does not
/// already end in one.
pub open spec fn join_path(base: Seq<char>, rel: Seq<char>) -> Seq<char> {
    if has_root(rel) {
        rel
    } else if base.len() > 0 && base.last() != '/' {
        base + seq!['/'] + rel
    } else {
        base + rel
    }
}

/// Length of the part before the first body component: a root `/`, or a
/// leading `.` component of a relative path.
pub open spec fn body_start(p: Seq<char>) -> int {
    if has_root(p) {
        1
    } else if (p.len() == 1 && p[0] == '.') || (p.len() >= 2 && p[0] == '.' && p[1] == '/') {
        1
    } else {
        0
    }
}

/// Index of the last `/` in `p[lo..]`, or -1 when there is none.
pub open spec fn last_sep_from(p: Seq<char>, lo: int, hi: int) -> int
    decreases hi - lo,
{
    if hi <= lo {
        -1
    } else if p[hi - 1] == '/' {
        hi - 1
    } else {
        last_sep_from(p, lo, hi - 1)
    }
}

/// Start index of the last component.
pub open spec fn back_comp_start(p: Seq<char>) -> int {
    let s = last_sep_from(p, body_start(p), p.len() as int);
    if s < 0 {
        body_start(p)
    } else {
        s + 1
    }
}

/// The path with its last component and the separator before it removed.
pub open spec fn back_cut(p: Seq<char>) -> Seq<char> {
    let s = last_sep_from(p, body_start(p), p.len() as int);
    if s < 0 {
        p.subrange(0, body_start(p))
    } else {
        p.subrange(0, s)
    }
}

/// An empty or `.` component, which `Path` skips.
pub open spec fn is_noise(c: Seq<char>) -> bool {
    c.len() == 0 || (c.len() == 1 && c[0] == '.')
}

pub open spec fn last_comp(p: Seq<char>) -> Seq<char> {
    p.subrange(back_comp_start(p), p.len() as int)
}

proof fn lemma_last_sep_bounds(p: Seq<char>, lo: int, hi: int)
    requires
        0 <= lo,
        hi <= p.len(),
    ensures
        last_sep_from(p, lo, hi) == -1 || (lo <= last_sep_from(p, lo, hi) < hi && p[last_sep_from(
            p,
            lo,
            hi,
        )] == '/'),
    decreases hi - lo,
{
    if hi > lo && p[hi - 1] != '/' {
        lemma_last_sep_bounds(p, lo, hi - 1);
    }
}

pub proof fn lemma_back_cut_shorter(p: Seq<char>)
    requires
        p.len() > body_start(p),
    ensures
        back_cut(p).len() < p.len(),
        body_start(p) <= back_comp_start(p) <= p.len(),
{
    lemma_last_sep_bounds(p, body_start(p), p.len() as int);
}

/// Trailing empty and `.` components removed (`Components::as_path`).
pub open spec fn strip_noise(p: Seq<char>) -> Seq<char>
    decreases p.len(),
{
    if p.len() > body_start(p) && is_noise(last_comp(p)) {
        proof {
            lemma_back_cut_shorter(p);
        }
        strip_noise(back_cut(p))
    } else {
        p
    }
}

/// `Path::parent` on Unix.
pub open spec fn parent_path(p: Seq<char>) -> Option<Seq<char>> {
    let q = strip_noise(p);
    if q.len() > body_start(q) {
        Some(strip_noise(back_cut(q)))
    } else if body_start(q) == 1 && !has_root(q) {
        Some(seq![])
    } else {
        None
    }
}

/// `Path::file_name` on Unix: the last component, unless it is `..`.
pub open spec fn file_name_of(p: Seq<char>) -> Option<Seq<char>> {
    let q = strip_noise(p);
    if q.len() > body_start(q) && last_comp(q) != seq!['.', '.'] {
        Some(last_comp(q))
    } else {
        None
    }
}

/// Index of the last `.` in `f`, or -1.
pub open spec fn last_dot(f: Seq<char>, hi: int) -> int
    decreases hi,
{
    if hi <= 0 {
        -1
    } else if f[hi - 1] == '.' {
        hi - 1
    } else {
        last_dot(f, hi - 1)
    }
}

/// `Path::extension` on Unix: the part of the file name after its last
/// `.`, when that dot is not the first character and the name is not `..`.
pub open spec fn extension_of(p: Seq<char>) -> Option<Seq<char>> {
    match file_name_of(p) {
        Some(f) => {
            let d = last_dot(f, f.len() as int);
            if d > 0 {
                Some(f.subrange(d + 1, f.len() as int))
            } else {
                None
            }
        },
        None => None,
    }
}

proof fn lemma_strip_noise_shorter(p: Seq<char>)
    ensures
        strip_noise(p).len() <= p.len(),
    decreases p.len(),
{
    if p.len() > body_start(p) && is_noise(last_comp(p)) {
        lemma_back_cut_shorter(p);
        lemma_strip_noise_shorter(back_cut(p));
    }
}

/// A parent is shorter than the path it is the parent of.
pub proof fn lemma_parent_shorter(p: Seq<char>)
    ensures
        parent_path(p) is Some ==> parent_path(p)->0.len() < p.len(),
{
    let q = strip_noise(p);
    lemma_strip_noise_shorter(p);
    if q.len() > body_start(q) {
        lemma_back_cut_shorter(q);
        lemma_strip_noise_shorter(back_cut(q));
    }
}

/// A path component that `Path` keeps: non-empty, without `/`, not `.`.
pub open spec fn is_plain_component(c: Seq<char>) -> bool {
    &&& c.len() > 0
    &&& forall|i: int| 0 <= i < c.len() ==> c[i] != '/'
    &&& !(c.len() == 1 && c[0] == '.')
}

proof fn lemma_last_sep_is(q: Seq<char>, lo: int, k: int)
    requires
        0 <= lo,
        k < q.len(),
        -1 <= k,
        k >= 0 ==> q[k] == '/',
        forall|i: int| k < i < q.len() ==> q[i] != '/',
    ensures
        last_sep_from(q, lo, q.len() as int) == (if k >= lo {
            k
        } else {
            -1
        }),
{
    lemma_last_sep_from_is(q, lo, q.len() as int, k);
}

proof fn lemma_last_sep_from_is(q: Seq<char>, lo: int, hi: int, k: int)
    requires
        0 <= lo,
        k < hi <= q.len(),
        -1 <= k,
        k >= 0 ==> q[k] == '/',
        forall|i: int| k < i < hi ==> q[i] != '/',
    ensures
        last_sep_from(q, lo, hi) == (if k >= lo {
            k
        } else {
            -1
        }),
    decreases hi - lo,
{
    if hi <= lo {
    } else if q[hi - 1] == '/' {
    } else {
        lemma_last_sep_from_is(q, lo, hi - 1, k);
    }
}

/// A path that ends in `/` stands for the same path without it.
proof fn lemma_strip_trailing_slash(p: Seq<char>)
    requires
        p.len() > 1,
        p.last() == '/',
    ensures
        strip_noise(p) == strip_noise(p.drop_last()),
{
    let k = p.len() - 1;
    lemma_last_sep_is(p, body_start(p), k);
    assert(p.len() > body_start(p));
    assert(last_comp(p) =~= Seq::<char>::empty());
    assert(back_cut(p) =~= p.drop_last());
}

/// The parent of `p` joined with a plain component is `p` itself, trailing
/// separators and `.` components aside (`Path::parent` of `Path::join`).
pub proof fn law_parent_of_join(p: Seq<char>, c: Seq<char>)
    requires
        is_plain_component(c),
    ensures
        parent_path(join_path(p, c)) == Some(strip_noise(p)),
{
    let q = join_path(p, c);
    assert(!has_root(c));
    if p.len() > 0 && p.last() != '/' {
        assert(q == p + seq!['/'] + c);
        let k = p.len() as int;
        assert(q[k] == '/');
        assert forall|i: int| k < i < q.len() implies q[i] != '/' by {
            assert(q[i] == c[i - k - 1]);
        }
        assert(body_start(q) == body_start(p));
        assert(body_start(q) <= k);
        lemma_last_sep_is(q, body_start(q), k);
        assert(last_comp(q) =~= c);
        assert(strip_noise(q) == q);
        assert(back_cut(q) =~= p);
    } else if p.len() == 0 {
        assert(q =~= c);
        assert(body_start(q) == 0);
        lemma_last_sep_is(q, 0, -1);
        assert(last_comp(q) =~= c);
        assert(strip_noise(q) == q);
        assert(back_cut(q) =~= p);
    } else {
        assert(q == p + c);
        let k = p.len() - 1;
        assert(q[k] == '/');
        assert forall|i: int| k < i < q.len() implies q[i] != '/' by {
            assert(q[i] == c[i - k - 1]);
        }
        lemma_last_sep_is(q, body_start(q), k);
        if p.len() == 1 {
            assert(p =~= seq!['/']);
            assert(body_start(q) == 1);
            assert(last_comp(q) =~= c);
            assert(strip_noise(q) == q);
            assert(back_cut(q) =~= p);
        } else {
            assert(body_start(q) == body_start(p));
            assert(body_start(q) <= k);
            assert(last_comp(q) =~= c);
            assert(strip_noise(q) == q);
            assert(back_cut(q) =~= p.drop_last());
            lemma_strip_trailing_slash(p);
        }
    }
}

/// A path that ends in a plain component has no trailing noise to strip.
pub proof fn lemma_join_plain_kept(p: Seq<char>, c: Seq<char>)
    requires
        is_plain_component(c),
    ensures
        strip_noise(join_path(p, c)) == join_path(p, c),
{
    law_parent_of_join(p, c);
    let q = join_path(p, c);
    assert(!has_root(c));
    if p.len() > 0 && p.last() != '/' {
        let k = p.len() as int;
        assert(q[k] == '/');
        assert forall|i: int| k < i < q.len() implies q[i] != '/' by {
            assert(q[i] == c[i - k - 1]);
        }
        assert(body_start(q) == body_start(p));
        lemma_last_sep_is(q, body_start(q), k);
        assert(last_comp(q) =~= c);
    } else if p.len() == 0 {
        assert(q =~= c);
        lemma_last_sep_is(q, 0, -1);
        assert(last_comp(q) =~= c);
    } else {
        let k = p.len() - 1;
        assert(q[k] == '/');
        assert forall|i: int| k < i < q.len() implies q[i] != '/' by {
            assert(q[i] == c[i - k - 1]);
        }
        lemma_last_sep_is(q, body_start(q), k);
        if p.len() == 1 {
            assert(p =~= seq!['/']);
        } else {
            assert(body_start(q) == body_start(p));
        }
        assert(last_comp(q) =~= c);
    }
}

/// `base` joined with `rel`.
pub fn join_chars_path(base: &[char], rel: &[char]) -> (r: Vec<char>)
    ensures
        r@ == join_path(base@, rel@),
{
    if rel.len() > 0 && rel[0] == '/' {
        return slice_chars(rel, 0, rel.len());
    }
    let mut out = slice_chars(base, 0, base.len());
    if base.len() > 0 && base[base.len() - 1] != '/' {
        out.push('/');
    }
    push_all(&mut out, rel);
    assert(base@.subrange(0, base@.len() as int) =~= base@);
    out
}

/// `Path::join` for paths held as strings.
pub fn join(base: &str, rel: &str) -> (r: String)
    ensures
        r@ == join_path(base@, rel@),
{
    let b = chars_of(base);
    let r = chars_of(rel);
    let j = join_chars_path(&b, &r);
    string_of(&j)
}

fn body_start_exec(p: &[char]) -> (n: usize)
    ensures
        n as int == body_start(p@),
{
    if p.len() > 0 && p[0] == '/' {
        1
    } else if (p.len() == 1 && p[0] == '.') || (p.len() >= 2 && p[0] == '.' && p[1] == '/') {
        1
    } else {
        0
    }
}

/// Index of the last `/` in `p[lo..hi]`, if any.
fn last_sep_exec(p: &[char], lo: usize, hi: usize) -> (r: Option<usize>)
    requires
        lo <= hi <= p@.len(),
    ensures
        match r {
            Some(s) => s as int == last_sep_from(p@, lo as int, hi as int),
            None => last_sep_from(p@, lo as int, hi as int) == -1,
        },
{
    let mut h: usize = hi;
    while h > lo
        invariant
            lo <= h <= hi <= p@.len(),
            last_sep_from(p@, lo as int, hi as int) == last_sep_from(p@, lo as int, h as int),
        decreases h,
    {
        if p[h - 1] == '/' {
            return Some(h - 1);
        }
        h = h - 1;
    }
    None
}

/// Start of the last component and length of the cut path.
fn back_split(p: &[char]) -> (r: (usize, usize))
    requires
        p@.len() > body_start(p@),
    ensures
        r.0 as int == back_comp_start(p@),
        back_cut(p@) == p@.subrange(0, r.1 as int),
        r.1 < p@.len(),
        r.0 <= p@.len(),
{
    proof {
        lemma_back_cut_shorter(p@);
        lemma_last_sep_bounds(p@, body_start(p@), p@.len() as int);
    }
    let lo = body_start_exec(p);
    match last_sep_exec(p, lo, p.len()) {
        Some(s) => (s + 1, s),
        None => (lo, lo),
    }
}

fn is_noise_exec(p: &[char], start: usize) -> (b: bool)
    requires
        start <= p@.len(),
    ensures
        b == is_noise(p@.subrange(start as int, p@.len() as int)),
{
    let n = p.len() - start;
    n == 0 || (n == 1 && p[start] == '.')
}

/// Trailing empty and `.` components removed.
fn strip_noise_exec(p: &[char]) -> (r: Vec<char>)
    ensures
        r@ == strip_noise(p@),
{
    let mut cur = slice_chars(p, 0, p.len());
    assert(p@.subrange(0, p@.len() as int) =~= p@);
    loop
        invariant
            strip_noise(cur@) == strip_noise(p@),
        decreases cur@.len(),
    {
        let lo = body_start_exec(&cur);
        if cur.len() <= lo {
            return cur;
        }
        let (cs, cut) = back_split(&cur);
        if !is_noise_exec(&cur, cs) {
            return cur;
        }
        cur = slice_chars(&cur, 0, cut);
    }
}

/// The parent of a path (`Path::parent`).
pub fn parent_chars(p: &[char]) -> (r: Option<Vec<char>>)
    ensures
        match r {
            Some(v) => parent_path(p@) == Some(v@),
            None => parent_path(p@) is None,
        },
{
    let q = strip_noise_exec(p);
    let lo = body_start_exec(&q);
    if q.len() > lo {
        let (_cs, cut) = back_split(&q);
        let c = slice_chars(&q, 0, cut);
        Some(strip_noise_exec(&c))
    } else if lo == 1 && q[0] != '/' {
        Some(Vec::new())
    } else {
        None
    }
}

/// The parent of a path (`Path::parent`).
pub fn parent(p: &str) -> (r: Option<String>)
    ensures
        match r {
            Some(s) => parent_path(p@) == Some(s@),
            None => parent_path(p@) is None,
        },
{
    let v = chars_of(p);
    match parent_chars(&v) {
        Some(q) => Some(string_of(&q)),
        None => None,
    }
}

/// The final component of a path, unless it is `..` (`Path::file_name`).
pub fn file_name_chars(p: &[char]) -> (r: Option<Vec<char>>)
    ensures
        match r {
            Some(v) => file_name_of(p@) == Some(v@),
            None => file_name_of(p@) is None,
        },
{
    let q = strip_noise_exec(p);
    let lo = body_start_exec(&q);
    if q.len() > lo {
        let (cs, _cut) = back_split(&q);
        let c = slice_chars(&q, cs, q.len());
        if c.len() == 2 && c[0] == '.' && c[1] == '.' {
            assert(c@ =~= seq!['.', '.']);
            None
        } else {
            assert(c@ != seq!['.', '.']);
            Some(c)
        }
    } else {
        None
    }
}

/// The extension of a path's file name (`Path::extension`).
pub fn extension_chars(p: &[char]) -> (r: Option<Vec<char>>)
    ensures
        match r {
            Some(v) => extension_of(p@) == Some(v@),
            None => extension_of(p@) is None,
        },
{
    match file_name_chars(p) {
        Some(f) => {
            let mut h: usize = f.len();
            while h > 0 && f[h - 1] != '.'
                invariant
                    h <= f@.len(),
                    last_dot(f@, f@.len() as int) == last_dot(f@, h as int),
                decreases h,
            {
                h = h - 1;
            }
            if h > 1 {
                Some(slice_chars(&f, h, f.len()))
            } else {
                None
            }
        },
        None => None,
    }
}

} // verus!
