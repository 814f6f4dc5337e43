//! Rewrites the variables of generated `libtool` scripts so that they
//! build shared libraries the target's way.
use vstd::prelude::*;
use crate::path::{file_name_chars, file_name_of};
use crate::text::{
    chars_of, ends_with_chars, join_chars, join_seq, lemma_join_ends_with_break, lemma_lines_hold_no_break, lemma_lines_lack_char,
    lemma_two_empty_last_lines,
    lemma_lines_of_joined, lemma_lines_of_joined_any, lines_chars, plain_lines, push_all, seq_ends_with,
    seq_lines, seq_starts_with, starts_with_chars, string_of, strip_cr, views,
};

verus! {

/// A line that assigns `needle` (`key=`) is replaced by `assign`.
pub open spec fn assign_line(line: Seq<char>, needle: Seq<char>, assign: Seq<char>) -> Seq<char> {
    if seq_starts_with(line, needle) {
        assign
    } else {
        line
    }
}

pub open spec fn assign_lines(ls: Seq<Seq<char>>, needle: Seq<char>, assign: Seq<char>) -> Seq<
    Seq<char>,
> {
    ls.map_values(|l: Seq<char>| assign_line(l, needle, assign))
}

pub open spec fn some_line_starts_with(ls: Seq<Seq<char>>, needle: Seq<char>) -> bool {
    exists|i: int| 0 <= i < ls.len() && seq_starts_with(#[trigger] ls[i], needle)
}

/// The script with every line that starts with `key=` replaced by
/// `key=value` (the line is appended when there is none), joined with `\n`
/// and ending in `\n`.
pub open spec fn shell_var_set(script: Seq<char>, key: Seq<char>, value: Seq<char>) -> Seq<char> {
    let needle = key.push('=');
    let assign = needle + value;
    let ls = seq_lines(script);
    let set = assign_lines(ls, needle, assign);
    let all = if some_line_starts_with(ls, needle) {
        set
    } else {
        set.push(assign)
    };
    let joined = join_seq(all, seq!['\n']);
    if seq_ends_with(joined, seq!['\n']) {
        joined
    } else {
        joined.push('\n')
    }
}

/// Sets the shell variable `key` to `value` in a script.
pub fn set_shell_var(script: &mut String, key: &str, value: &str)
    ensures
        final(script)@ == shell_var_set(old(script)@, key@, value@),
{
    let s = chars_of(script.as_str());
    let mut needle = chars_of(key);
    needle.push('=');
    let mut assign = needle.clone();
    let vv = chars_of(value);
    push_all(&mut assign, &vv);
    let ls = lines_chars(&s);
    let ghost lsv = views(ls@);
    let mut out: Vec<Vec<char>> = Vec::new();
    let mut found = false;
    let mut i: usize = 0;
    while i < ls.len()
        invariant
            i <= ls@.len(),
            lsv == views(ls@),
            views(out@) == assign_lines(lsv.take(i as int), needle@, assign@),
            found == some_line_starts_with(lsv.take(i as int), needle@),
        decreases ls@.len() - i,
    {
        let ghost t = lsv.take(i + 1 as int);
        assert(t.drop_last() =~= lsv.take(i as int));
        assert(t.last() == ls@[i as int]@);
        let starts = starts_with_chars(ls[i].as_slice(), needle.as_slice());
        let ghost before = views(out@);
        let line = if starts {
            found = true;
            assign.clone()
        } else {
            ls[i].clone()
        };
        assert(line@ =~= assign_line(t[i as int], needle@, assign@));
        out.push(line);
        assert(views(out@) =~= before.push(line@));
        assert(assign_lines(t, needle@, assign@) =~= assign_lines(lsv.take(i as int), needle@, assign@).push(
            assign_line(t[i as int], needle@, assign@),
        ));
        assert(found == some_line_starts_with(t, needle@)) by {
            if starts {
                assert(seq_starts_with(t[i as int], needle@));
            } else if some_line_starts_with(t, needle@) {
                let k = choose|k: int| 0 <= k < t.len() && seq_starts_with(#[trigger] t[k], needle@);
                assert(t[k] == lsv.take(i as int)[k]);
            }
        }
        i = i + 1;
    }
    assert(lsv.take(ls@.len() as int) =~= lsv);
    if !found {
        let ghost before = views(out@);
        out.push(assign.clone());
        assert(views(out@) =~= before.push(assign@));
    }
    let nl: Vec<char> = vec!['\n'];
    let mut joined = join_chars(&out, &nl);
    if !ends_with_chars(&joined, &nl) {
        joined.push('\n');
    }
    assert(nl@ =~= seq!['\n']);
    *script = string_of(&joined);
}

/// Whether setting `key` to `value` in `script`, then setting it once
/// more, gives what the first setting gave: the key and the value hold no
/// line break, every line that ends in a carriage return assigns `key`,
/// and the script does not end in two empty lines where it assigns `key`.
pub open spec fn shell_var_settles(script: Seq<char>, key: Seq<char>, value: Seq<char>) -> bool {
    let needle = key.push('=');
    let ls = seq_lines(script);
    &&& !key.contains('\n')
    &&& !value.contains('\n')
    &&& forall|i: int|
        0 <= i < ls.len() && (#[trigger] ls[i]).len() > 0 && ls[i].last() == '\r' ==> seq_starts_with(
            ls[i],
            needle,
        )
    &&& !(some_line_starts_with(ls, needle) && ls.len() >= 2 && ls[ls.len() - 1].len() == 0
        && ls[ls.len() - 2].len() == 0)
}

/// A script in the form that setting a variable leaves: its lines joined
/// with `\n` and ended by one, the last line not empty, no line holding a
/// line break or ending in a carriage return.
pub open spec fn settled_script(x: Seq<char>) -> bool {
    let ls = seq_lines(x);
    &&& ls.len() > 0
    &&& ls.last().len() > 0
    &&& plain_lines(ls)
    &&& x == join_seq(ls, seq!['\n']) + seq!['\n']
}

/// A settled script in which `key` is assigned, and every line that
/// assigns it assigns `value`.
pub open spec fn var_settled(x: Seq<char>, key: Seq<char>, value: Seq<char>) -> bool {
    let ls = seq_lines(x);
    let needle = key.push('=');
    &&& settled_script(x)
    &&& some_line_starts_with(ls, needle)
    &&& forall|i: int| 0 <= i < ls.len() && seq_starts_with(#[trigger] ls[i], needle) ==> ls[i] == needle + value
}

/// The lines that setting a variable joins.
pub open spec fn lines_with_var(ls: Seq<Seq<char>>, needle: Seq<char>, assign: Seq<char>) -> Seq<Seq<char>> {
    let set = assign_lines(ls, needle, assign);
    if some_line_starts_with(ls, needle) {
        set
    } else {
        set.push(assign)
    }
}

/// An assignment holds no line break and ends in no carriage return.
proof fn lemma_assignment_plain(key: Seq<char>, value: Seq<char>)
    requires
        !key.contains('\n'),
        !value.contains('\n'),
        !value.contains('\r'),
    ensures
        !(key.push('=') + value).contains('\n'),
        (key.push('=') + value).len() > 0,
        (key.push('=') + value).last() != '\r',
        seq_starts_with(key.push('=') + value, key.push('=')),
{
    let needle = key.push('=');
    let a = needle + value;
    if a.contains('\n') {
        let k = choose|k: int| 0 <= k < a.len() && a[k] == '\n';
        if k < key.len() {
            assert(key[k] == '\n');
        } else if k > key.len() {
            assert(value[k - key.len() - 1] == '\n');
        }
    }
    if value.len() > 0 {
        assert(a.last() == value.last());
        assert(value[value.len() - 1] == value.last());
    }
    assert(a.subrange(0, needle.len() as int) =~= needle);
}

/// Setting a variable in a script where it settles gives a settled script
/// in which the variable has its value; its lines are those set, the
/// last one dropped where it is empty.
proof fn lemma_set_settles(script: Seq<char>, key: Seq<char>, value: Seq<char>)
    requires
        shell_var_settles(script, key, value),
        !value.contains('\r'),
    ensures
        var_settled(shell_var_set(script, key, value), key, value),
        ({
            let all = lines_with_var(seq_lines(script), key.push('='), key.push('=') + value);
            all.last().len() > 0 ==> seq_lines(shell_var_set(script, key, value)) == all
        }),
{
    let nl = seq!['\n'];
    let needle = key.push('=');
    let assign = needle + value;
    let ls = seq_lines(script);
    let found = some_line_starts_with(ls, needle);
    let all = lines_with_var(ls, needle, assign);
    let x = shell_var_set(script, key, value);
    lemma_lines_hold_no_break(script, 0);
    lemma_assignment_plain(key, value);
    assert(plain_lines(all)) by {
        assert forall|j: int| 0 <= j < all.len() implies !(#[trigger] all[j]).contains('\n') && (
        all[j].len() == 0 || all[j].last() != '\r') by {
            if j < ls.len() && !seq_starts_with(ls[j], needle) {
                assert(all[j] == ls[j]);
            } else {
                assert(all[j] == assign);
            }
        }
    }
    assert forall|i: int| 0 <= i < all.len() && seq_starts_with(#[trigger] all[i], needle) implies all[i]
        == assign by {
        if i < ls.len() && !seq_starts_with(ls[i], needle) {
            assert(all[i] == ls[i]);
        }
    }
    let k = if found {
        choose|i: int| 0 <= i < ls.len() && seq_starts_with(#[trigger] ls[i], needle)
    } else {
        ls.len() as int
    };
    assert(all[k] == assign);
    assert(seq_starts_with(all[k], needle));
    if all.last().len() > 0 {
        lemma_join_ends_with_break(all);
        lemma_lines_of_joined(all);
        assert(x == join_seq(all, nl) + nl);
        assert(some_line_starts_with(all, needle));
    } else {
        let n = all.len();
        assert(found);
        assert(n >= 2);
        let d = all.drop_last();
        assert(join_seq(all, nl) == join_seq(d, nl) + nl + all.last());
        assert(join_seq(all, nl) =~= join_seq(d, nl) + nl);
        lemma_join_ends_with_break(all);
        assert(x == join_seq(d, nl) + nl);
        assert(ls[n - 1].len() == 0);
        assert(ls[n - 2].len() > 0);
        assert(d.last() == all[n - 2]);
        assert(plain_lines(d)) by {
            assert forall|j: int| 0 <= j < d.len() implies !(#[trigger] d[j]).contains('\n') && (d[j].len()
                == 0 || d[j].last() != '\r') by {
                assert(d[j] == all[j]);
            }
        }
        lemma_lines_of_joined(d);
        assert(k < n - 1) by {
            if k == n - 1 {
                assert(ls[k].len() == 0);
            }
        }
        assert(d[k] == assign);
        assert(some_line_starts_with(d, needle));
        assert forall|i: int| 0 <= i < d.len() && seq_starts_with(#[trigger] d[i], needle) implies d[i]
            == assign by {
            assert(d[i] == all[i]);
        }
    }
}

/// Setting a variable once more in a script where it is settled with the
/// same value changes nothing.
proof fn lemma_settled_set_again(x: Seq<char>, key: Seq<char>, value: Seq<char>)
    requires
        var_settled(x, key, value),
    ensures
        shell_var_set(x, key, value) == x,
{
    let nl = seq!['\n'];
    let needle = key.push('=');
    let assign = needle + value;
    let ls = seq_lines(x);
    let set = assign_lines(ls, needle, assign);
    assert(set =~= ls);
    lemma_join_ends_with_break(ls);
}

/// An assignment holds no line break, and it still assigns its key with
/// one carriage return at its end removed.
proof fn lemma_assignment_breakless(key: Seq<char>, value: Seq<char>)
    requires
        !key.contains('\n'),
        !value.contains('\n'),
    ensures
        !(key.push('=') + value).contains('\n'),
        (key.push('=') + value).len() > 0,
        seq_starts_with(key.push('=') + value, key.push('=')),
        seq_starts_with(strip_cr(key.push('=') + value), key.push('=')),
{
    let needle = key.push('=');
    let a = needle + value;
    if a.contains('\n') {
        let k = choose|k: int| 0 <= k < a.len() && a[k] == '\n';
        if k < key.len() {
            assert(key[k] == '\n');
        } else if k > key.len() {
            assert(value[k - key.len() - 1] == '\n');
        }
    }
    assert(a.subrange(0, needle.len() as int) =~= needle);
    let b = strip_cr(a);
    if value.len() == 0 {
        assert(a.last() == '=');
    }
    assert(b.len() >= needle.len());
    assert(b.subrange(0, needle.len() as int) =~= needle);
}

/// Setting a shell variable a second time changes nothing, wherever it
/// settles.
pub proof fn law_shell_var_set_once(script: Seq<char>, key: Seq<char>, value: Seq<char>)
    requires
        shell_var_settles(script, key, value),
    ensures
        shell_var_set(shell_var_set(script, key, value), key, value) == shell_var_set(script, key, value),
{
    let nl = seq!['\n'];
    let needle = key.push('=');
    let assign = needle + value;
    let ls = seq_lines(script);
    let found = some_line_starts_with(ls, needle);
    let all = lines_with_var(ls, needle, assign);
    let x = shell_var_set(script, key, value);
    lemma_lines_hold_no_break(script, 0);
    lemma_assignment_breakless(key, value);
    assert forall|j: int| 0 <= j < all.len() implies !(#[trigger] all[j]).contains('\n') && (
    seq_starts_with(all[j], needle) ==> all[j] == assign) && (!seq_starts_with(all[j], needle) ==> (
    all[j].len() == 0 || all[j].last() != '\r')) by {
        if j < ls.len() && !seq_starts_with(ls[j], needle) {
            assert(all[j] == ls[j]);
        } else {
            assert(all[j] == assign);
        }
    }
    let k = if found {
        choose|i: int| 0 <= i < ls.len() && seq_starts_with(#[trigger] ls[i], needle)
    } else {
        ls.len() as int
    };
    assert(all[k] == assign);
    let q = if all.last().len() > 0 {
        all
    } else {
        all.drop_last()
    };
    if all.last().len() > 0 {
        lemma_join_ends_with_break(all);
        assert(x == join_seq(q, nl) + nl);
    } else {
        let n = all.len();
        assert(found);
        assert(n >= 2);
        assert(join_seq(all, nl) == join_seq(q, nl) + nl + all.last());
        assert(join_seq(all, nl) =~= join_seq(q, nl) + nl);
        lemma_join_ends_with_break(all);
        assert(x == join_seq(q, nl) + nl);
        assert(ls[n - 1].len() == 0);
        assert(ls[n - 2].len() > 0);
        assert(q.last() == all[n - 2]);
        assert(k < n - 1) by {
            if k == n - 1 {
                assert(ls[k].len() == 0);
            }
        }
    }
    assert(q.len() > 0 && q.last().len() > 0 && k < q.len());
    assert forall|j: int| 0 <= j < q.len() implies !(#[trigger] q[j]).contains('\n') && (seq_starts_with(
        q[j],
        needle,
    ) ==> q[j] == assign) && (!seq_starts_with(q[j], needle) ==> (q[j].len() == 0 || q[j].last()
        != '\r')) by {
        assert(q[j] == all[j]);
    }
    lemma_lines_of_joined_any(q);
    let l2 = seq_lines(x);
    assert(l2 == q.map_values(|p: Seq<char>| strip_cr(p)));
    let set2 = assign_lines(l2, needle, assign);
    assert(set2 =~= q) by {
        assert forall|j: int| 0 <= j < q.len() implies set2[j] == q[j] by {
            assert(l2[j] == strip_cr(q[j]));
            if seq_starts_with(q[j], needle) {
                assert(q[j] == assign);
            } else {
                assert(strip_cr(q[j]) == q[j]);
            }
        }
    }
    assert(l2[k] == strip_cr(assign));
    assert(some_line_starts_with(l2, needle));
    lemma_join_ends_with_break(q);
}

/// The assignment of one key does not start like the assignment of
/// another, when neither key holds `=`.
proof fn lemma_other_key_apart(k1: Seq<char>, k2: Seq<char>, v2: Seq<char>)
    requires
        k1 != k2,
        !k1.contains('='),
        !k2.contains('='),
    ensures
        !seq_starts_with(k2.push('=') + v2, k1.push('=')),
{
    let a = k2.push('=') + v2;
    let n = k1.push('=');
    if seq_starts_with(a, n) {
        let p = a.subrange(0, n.len() as int);
        if k1.len() < k2.len() {
            assert(p[k1.len() as int] == n[k1.len() as int]);
            assert(k2[k1.len() as int] == '=');
        } else if k1.len() > k2.len() {
            assert(p[k2.len() as int] == n[k2.len() as int]);
            assert(k1[k2.len() as int] == '=');
        } else {
            assert forall|i: int| 0 <= i < k1.len() implies k1[i] == k2[i] by {
                assert(p[i] == n[i]);
            }
            assert(k1 =~= k2);
        }
    }
}

/// In a settled script any key without line breaks settles.
proof fn lemma_settled_settles(x: Seq<char>, key: Seq<char>, value: Seq<char>)
    requires
        settled_script(x),
        !key.contains('\n'),
        !value.contains('\n'),
        !value.contains('\r'),
    ensures
        shell_var_settles(x, key, value),
{
    let ls = seq_lines(x);
    assert(ls[ls.len() - 1] == ls.last());
}

/// Setting another key keeps a key settled with its value.
proof fn lemma_set_keeps_settled(x: Seq<char>, k1: Seq<char>, v1: Seq<char>, k2: Seq<char>, v2: Seq<char>)
    requires
        var_settled(x, k1, v1),
        k1 != k2,
        !k1.contains('='),
        !k2.contains('='),
        !k2.contains('\n'),
        !v2.contains('\n'),
        !v2.contains('\r'),
    ensures
        var_settled(shell_var_set(x, k2, v2), k1, v1),
{
    let n1 = k1.push('=');
    let a1 = n1 + v1;
    let n2 = k2.push('=');
    let a2 = n2 + v2;
    let ls = seq_lines(x);
    let all = lines_with_var(ls, n2, a2);
    lemma_settled_settles(x, k2, v2);
    lemma_set_settles(x, k2, v2);
    lemma_other_key_apart(k1, k2, v2);
    lemma_other_key_apart(k2, k1, v1);
    assert(all.last().len() > 0) by {
        if some_line_starts_with(ls, n2) {
            assert(all.last() == assign_line(ls.last(), n2, a2));
            assert(ls[ls.len() - 1] == ls.last());
            lemma_assignment_plain(k2, v2);
        } else {
            lemma_assignment_plain(k2, v2);
        }
    }
    let y = shell_var_set(x, k2, v2);
    assert(seq_lines(y) == all);
    let k = choose|i: int| 0 <= i < ls.len() && seq_starts_with(#[trigger] ls[i], n1);
    assert(ls[k] == a1);
    assert(all[k] == a1);
    assert(seq_starts_with(all[k], n1));
    assert forall|i: int| 0 <= i < all.len() && seq_starts_with(#[trigger] all[i], n1) implies all[i] == a1 by {
        if i < ls.len() && !seq_starts_with(ls[i], n2) {
            assert(all[i] == ls[i]);
        }
    }
}

/// Each setting applied in turn.
pub open spec fn shell_vars_set(script: Seq<char>, settings: Seq<(Seq<char>, Seq<char>)>) -> Seq<char>
    decreases settings.len(),
{
    if settings.len() == 0 {
        script
    } else {
        shell_var_set(shell_vars_set(script, settings.drop_last()), settings.last().0, settings.last().1)
    }
}

/// Settings whose keys differ and hold neither `=` nor a line break, and
/// whose values hold no line break or carriage return.
pub open spec fn plain_settings(settings: Seq<(Seq<char>, Seq<char>)>) -> bool {
    &&& forall|i: int|
        0 <= i < settings.len() ==> !(#[trigger] settings[i]).0.contains('=') && !settings[i].0.contains(
            '\n',
        ) && !settings[i].1.contains('\n') && !settings[i].1.contains('\r')
    &&& forall|i: int, j: int| 0 <= i < j < settings.len() ==> (#[trigger] settings[i]).0 != (#[trigger] settings[j]).0
}

/// After plain settings, applied to a script where the first settles, each
/// key is settled with its value.
proof fn lemma_settings_settled(script: Seq<char>, settings: Seq<(Seq<char>, Seq<char>)>)
    requires
        settings.len() > 0,
        plain_settings(settings),
        shell_var_settles(script, settings[0].0, settings[0].1),
    ensures
        forall|i: int|
            0 <= i < settings.len() ==> var_settled(
                shell_vars_set(script, settings),
                (#[trigger] settings[i]).0,
                settings[i].1,
            ),
    decreases settings.len(),
{
    let n = settings.len() - 1;
    let d = settings.drop_last();
    if n == 0 {
        assert(shell_vars_set(script, d) == script);
        lemma_set_settles(script, settings[0].0, settings[0].1);
    } else {
        assert(plain_settings(d)) by {
            assert forall|i: int| 0 <= i < d.len() implies !(#[trigger] d[i]).0.contains('=') && !d[i].0.contains(
                '\n',
            ) && !d[i].1.contains('\n') && !d[i].1.contains('\r') by {
                assert(d[i] == settings[i]);
            }
            assert forall|i: int, j: int| 0 <= i < j < d.len() implies (#[trigger] d[i]).0 != (
            #[trigger] d[j]).0 by {
                assert(d[i] == settings[i]);
                assert(d[j] == settings[j]);
            }
        }
        assert(d[0] == settings[0]);
        lemma_settings_settled(script, d);
        let y = shell_vars_set(script, d);
        assert(var_settled(y, d[0].0, d[0].1));
        let last = settings[n];
        assert(settings.last() == last);
        lemma_settled_settles(y, last.0, last.1);
        lemma_set_settles(y, last.0, last.1);
        assert forall|i: int| 0 <= i < settings.len() implies var_settled(
            shell_vars_set(script, settings),
            (#[trigger] settings[i]).0,
            settings[i].1,
        ) by {
            if i < n {
                assert(d[i] == settings[i]);
                assert(var_settled(y, d[i].0, d[i].1));
                lemma_set_keeps_settled(y, settings[i].0, settings[i].1, last.0, last.1);
            }
        }
    }
}

/// Settings that are all settled in a script change nothing there.
proof fn lemma_settings_again(x: Seq<char>, settings: Seq<(Seq<char>, Seq<char>)>)
    requires
        forall|i: int| 0 <= i < settings.len() ==> var_settled(x, (#[trigger] settings[i]).0, settings[i].1),
    ensures
        shell_vars_set(x, settings) == x,
    decreases settings.len(),
{
    if settings.len() > 0 {
        let d = settings.drop_last();
        assert forall|i: int| 0 <= i < d.len() implies var_settled(x, (#[trigger] d[i]).0, d[i].1) by {
            assert(d[i] == settings[i]);
        }
        lemma_settings_again(x, d);
        assert(settings.last() == settings[settings.len() - 1]);
        lemma_settled_set_again(x, settings.last().0, settings.last().1);
    }
}

/// Plain settings applied a second time change nothing, where the first
/// settles.
pub proof fn law_shell_vars_set_once(script: Seq<char>, settings: Seq<(Seq<char>, Seq<char>)>)
    requires
        settings.len() > 0,
        plain_settings(settings),
        shell_var_settles(script, settings[0].0, settings[0].1),
    ensures
        shell_vars_set(shell_vars_set(script, settings), settings) == shell_vars_set(script, settings),
{
    lemma_settings_settled(script, settings);
    lemma_settings_again(shell_vars_set(script, settings), settings);
}

/// The variables set in every `libtool` script, in order, with their
/// values.
pub open spec fn libtool_settings_of() -> Seq<(Seq<char>, Seq<char>)> {
    seq![
        ("host_os"@, "linux-gnu"@),
        ("build_libtool_libs"@, "yes"@),
        ("build_old_libs"@, "no"@),
        ("version_type"@, "linux"@),
        ("need_lib_prefix"@, "no"@),
        ("need_version"@, "no"@),
        ("deplibs_check_method"@, "\"pass_all\""@),
        ("link_all_deplibs"@, "yes"@),
        ("library_names_spec"@, "'${libname}${release}${shared_ext}$versuffix ${libname}${release}${shared_ext}$major ${libname}${shared_ext}'"@),
        ("soname_spec"@, "'${libname}${release}${shared_ext}$major'"@),
        ("dynamic_linker"@, "'Seele ld.so'"@),
        ("shlibpath_var"@, "LD_LIBRARY_PATH"@),
    ]
}

/// The variables set in every `libtool` script, in order, with their
/// values.
pub fn libtool_settings() -> (r: Vec<(&'static str, &'static str)>)
    ensures
        r@.map_values(|p: (&'static str, &'static str)| (p.0@, p.1@)) == libtool_settings_of(),
{
    let mut r: Vec<(&'static str, &'static str)> = Vec::new();
    r.push(("host_os", "linux-gnu"));
    r.push(("build_libtool_libs", "yes"));
    r.push(("build_old_libs", "no"));
    r.push(("version_type", "linux"));
    r.push(("need_lib_prefix", "no"));
    r.push(("need_version", "no"));
    r.push(("deplibs_check_method", "\"pass_all\""));
    r.push(("link_all_deplibs", "yes"));
    r.push(("library_names_spec", "'${libname}${release}${shared_ext}$versuffix ${libname}${release}${shared_ext}$major ${libname}${shared_ext}'"));
    r.push(("soname_spec", "'${libname}${release}${shared_ext}$major'"));
    r.push(("dynamic_linker", "'Seele ld.so'"));
    r.push(("shlibpath_var", "LD_LIBRARY_PATH"));
    assert(r@.map_values(|p: (&'static str, &'static str)| (p.0@, p.1@)) =~= libtool_settings_of());
    r
}

/// A `libtool` script with its variables set for the target.
pub open spec fn libtool_fixed(content: Seq<char>) -> Seq<char> {
    shell_vars_set(content, libtool_settings_of())
}

/// The content of a `libtool` script with its variables set for the
/// target.
pub fn fix_libtool_content(content: &str) -> (r: String)
    ensures
        r@ == libtool_fixed(content@),
{
    let settings = libtool_settings();
    let ghost sv = settings@.map_values(|p: (&'static str, &'static str)| (p.0@, p.1@));
    let mut c = content.to_string();
    let mut i: usize = 0;
    while i < settings.len()
        invariant
            i <= settings@.len(),
            sv == settings@.map_values(|p: (&'static str, &'static str)| (p.0@, p.1@)),
            sv.len() == settings@.len(),
            c@ == shell_vars_set(content@, sv.take(i as int)),
        decreases settings@.len() - i,
    {
        assert(sv.take(i + 1 as int).drop_last() =~= sv.take(i as int));
        let (key, value) = settings[i];
        assert(sv[i as int] == (key@, value@));
        set_shell_var(&mut c, key, value);
        i = i + 1;
    }
    assert(sv.take(sv.len() as int) =~= sv);
    c
}

/// The table's keys differ and hold neither `=` nor a line break, and its
/// values hold no line break or carriage return.
proof fn lemma_libtool_settings_plain()
    ensures
        plain_settings(libtool_settings_of()),
{
    let t = libtool_settings_of();
    reveal_strlit("host_os");
    reveal_strlit("linux-gnu");
    reveal_strlit("build_libtool_libs");
    reveal_strlit("yes");
    reveal_strlit("build_old_libs");
    reveal_strlit("no");
    reveal_strlit("version_type");
    reveal_strlit("linux");
    reveal_strlit("need_lib_prefix");
    reveal_strlit("no");
    reveal_strlit("need_version");
    reveal_strlit("no");
    reveal_strlit("deplibs_check_method");
    reveal_strlit("\"pass_all\"");
    reveal_strlit("link_all_deplibs");
    reveal_strlit("yes");
    reveal_strlit("library_names_spec");
    reveal_strlit("'${libname}${release}${shared_ext}$versuffix ${libname}${release}${shared_ext}$major ${libname}${shared_ext}'");
    reveal_strlit("soname_spec");
    reveal_strlit("'${libname}${release}${shared_ext}$major'");
    reveal_strlit("dynamic_linker");
    reveal_strlit("'Seele ld.so'");
    reveal_strlit("shlibpath_var");
    reveal_strlit("LD_LIBRARY_PATH");
    assert forall|i: int| 0 <= i < t.len() implies !(#[trigger] t[i]).0.contains('=') && !t[i].0.contains('\n')
        && !t[i].1.contains('\n') && !t[i].1.contains('\r') by {
        if i == 0 {
            assert(t[i] == ("host_os"@, "linux-gnu"@));
        } else if i == 1 {
            assert(t[i] == ("build_libtool_libs"@, "yes"@));
        } else if i == 2 {
            assert(t[i] == ("build_old_libs"@, "no"@));
        } else if i == 3 {
            assert(t[i] == ("version_type"@, "linux"@));
        } else if i == 4 {
            assert(t[i] == ("need_lib_prefix"@, "no"@));
        } else if i == 5 {
            assert(t[i] == ("need_version"@, "no"@));
        } else if i == 6 {
            assert(t[i] == ("deplibs_check_method"@, "\"pass_all\""@));
        } else if i == 7 {
            assert(t[i] == ("link_all_deplibs"@, "yes"@));
        } else if i == 8 {
            assert(t[i] == ("library_names_spec"@, "'${libname}${release}${shared_ext}$versuffix ${libname}${release}${shared_ext}$major ${libname}${shared_ext}'"@));
        } else if i == 9 {
            assert(t[i] == ("soname_spec"@, "'${libname}${release}${shared_ext}$major'"@));
        } else if i == 10 {
            assert(t[i] == ("dynamic_linker"@, "'Seele ld.so'"@));
        } else if i == 11 {
            assert(t[i] == ("shlibpath_var"@, "LD_LIBRARY_PATH"@));
        }
    }
    assert forall|i: int, j: int| 0 <= i < j < t.len() implies (#[trigger] t[i]).0 != (#[trigger] t[j]).0 by {
        assert(t[0].0.len() == 7 && t[0].0[0] == 'h');
        assert(t[1].0.len() == 18 && t[1].0[0] == 'b');
        assert(t[2].0.len() == 14 && t[2].0[0] == 'b');
        assert(t[3].0.len() == 12 && t[3].0[0] == 'v');
        assert(t[4].0.len() == 15 && t[4].0[0] == 'n');
        assert(t[5].0.len() == 12 && t[5].0[0] == 'n');
        assert(t[6].0.len() == 20 && t[6].0[0] == 'd');
        assert(t[7].0.len() == 16 && t[7].0[0] == 'l');
        assert(t[8].0.len() == 18 && t[8].0[0] == 'l');
        assert(t[9].0.len() == 11 && t[9].0[0] == 's');
        assert(t[10].0.len() == 14 && t[10].0[0] == 'd');
        assert(t[11].0.len() == 13 && t[11].0[0] == 's');
    }
}


/// Fixing a `libtool` script a second time changes nothing, where its
/// first variable settles.
pub proof fn law_libtool_fixed_once(content: Seq<char>)
    requires
        shell_var_settles(content, "host_os"@, "linux-gnu"@),
    ensures
        libtool_fixed(libtool_fixed(content)) == libtool_fixed(content),
{
    lemma_libtool_settings_plain();
    law_shell_vars_set_once(content, libtool_settings_of());
}

/// Whether a file found below a source tree is a `libtool` script.
pub fn is_libtool_script(path: &str) -> (r: bool)
    ensures
        r == (file_name_of(path@) == Some("libtool"@)),
{
    let p = chars_of(path);
    let name = chars_of("libtool");
    match file_name_chars(&p) {
        Some(f) => crate::text::eq_chars(&f, &name),
        None => false,
    }
}

/// A script without carriage returns that does not end in two line
/// breaks settles for any key and value without line breaks.
pub proof fn lemma_plain_script_settles(script: Seq<char>, key: Seq<char>, value: Seq<char>)
    requires
        !script.contains('\r'),
        !seq_ends_with(script, seq!['\n', '\n']),
        !key.contains('\n'),
        !value.contains('\n'),
    ensures
        shell_var_settles(script, key, value),
{
    let ls = seq_lines(script);
    lemma_lines_lack_char(script, 0, '\r');
    assert forall|i: int| 0 <= i < ls.len() && (#[trigger] ls[i]).len() > 0 implies ls[i].last() != '\r' by {
        assert(ls[i][ls[i].len() - 1] == ls[i].last());
    }
    if ls.len() >= 2 && ls[ls.len() - 1].len() == 0 && ls[ls.len() - 2].len() == 0 {
        assert(ls.last() == ls[ls.len() - 1]);
        lemma_two_empty_last_lines(script, 0);
    }
}

/// Fixing a `libtool` script without carriage returns that does not end in
/// two line breaks a second time changes nothing.
pub proof fn law_libtool_fixed_once_on_plain_scripts(content: Seq<char>)
    requires
        !content.contains('\r'),
        !seq_ends_with(content, seq!['\n', '\n']),
    ensures
        libtool_fixed(libtool_fixed(content)) == libtool_fixed(content),
{
    reveal_strlit("host_os");
    reveal_strlit("linux-gnu");
    lemma_plain_script_settles(content, "host_os"@, "linux-gnu"@);
    law_libtool_fixed_once(content);
}

} // verus!
