//! Busybox's `.config`: merging the target's settings into a generated
//! configuration, and reading the list of applets.
use vstd::prelude::*;
use crate::error::Error;
use crate::path::{join, join_path};
use crate::plan::{Step, StepView};
use crate::order::{sort_dedup_strings, strictly_sorted_seqs};
use crate::text::{
    chars_of, eq_chars, find_char, find_char_from, is_unicode_whitespace, is_whitespace,
    join_chars, join_seq, lemma_find_char_bounds, lemma_lines_hold_no_break, lemma_lines_of_joined,
    lines_chars, plain_lines, push_all, seq_lines,
    seq_starts_with, slice_chars, starts_with_chars, string_of, trim_chars, trim_seq, views,
};

verus! {

/// A line that `remove_config_key` drops: `key=...` or `# key is not set`.
pub open spec fn mentions_key(line: Seq<char>, key: Seq<char>) -> bool {
    seq_starts_with(line, key.push('=')) || line == "# "@ + key + " is not set"@
}

pub open spec fn lines_without_key(ls: Seq<Seq<char>>, key: Seq<char>) -> Seq<Seq<char>>
    decreases ls.len(),
{
    if ls.len() == 0 {
        seq![]
    } else if mentions_key(ls.last(), key) {
        lines_without_key(ls.drop_last(), key)
    } else {
        lines_without_key(ls.drop_last(), key).push(ls.last())
    }
}

/// The configuration with every line about `key` removed; a non-empty
/// result ends in `\n`.
pub open spec fn config_without_key(config: Seq<char>, key: Seq<char>) -> Seq<char> {
    let kept = join_seq(lines_without_key(seq_lines(config), key), seq!['\n']);
    if kept.len() == 0 {
        seq![]
    } else {
        kept.push('\n')
    }
}

fn mentions_key_exec(line: &[char], key_eq: &[char], not_set: &[char]) -> (r: bool)
    ensures
        r == (seq_starts_with(line@, key_eq@) || line@ == not_set@),
{
    starts_with_chars(line, key_eq) || eq_chars(line, not_set)
}

/// Removes every line about `key` from a configuration.
pub fn remove_config_key(config: &mut String, key: &str)
    ensures
        final(config)@ == config_without_key(old(config)@, key@),
{
    let c = chars_of(config.as_str());
    let k = chars_of(key);
    let mut key_eq = k.clone();
    key_eq.push('=');
    let mut not_set = chars_of("# ");
    push_all(&mut not_set, &k);
    let tail = chars_of(" is not set");
    push_all(&mut not_set, &tail);
    let ls = lines_chars(&c);
    let ghost lsv = views(ls@);
    let mut kept: Vec<Vec<char>> = Vec::new();
    let mut i: usize = 0;
    while i < ls.len()
        invariant
            i <= ls@.len(),
            lsv == views(ls@),
            key_eq@ == key@.push('='),
            not_set@ == "# "@ + key@ + " is not set"@,
            views(kept@) == lines_without_key(lsv.take(i as int), key@),
        decreases ls@.len() - i,
    {
        let ghost t = lsv.take(i + 1);
        assert(t.drop_last() =~= lsv.take(i as int));
        assert(t.last() == ls@[i as int]@);
        let ghost before = views(kept@);
        if !mentions_key_exec(ls[i].as_slice(), &key_eq, &not_set) {
            let line = ls[i].clone();
            kept.push(line);
            assert(views(kept@) =~= before.push(line@));
        }
        i = i + 1;
    }
    assert(lsv.take(ls@.len() as int) =~= lsv);
    let nl: Vec<char> = vec!['\n'];
    assert(nl@ =~= seq!['\n']);
    let mut joined = join_chars(&kept, &nl);
    if joined.len() == 0 {
        *config = string_of(&joined);
    } else {
        joined.push('\n');
        *config = string_of(&joined);
    }
}

/// The kept lines are lines of the input that do not mention the key.
proof fn lemma_kept_lines(ls: Seq<Seq<char>>, key: Seq<char>)
    ensures
        forall|i: int|
            0 <= i < lines_without_key(ls, key).len() ==> !mentions_key(
                #[trigger] lines_without_key(ls, key)[i],
                key,
            ) && exists|j: int| 0 <= j < ls.len() && ls[j] == lines_without_key(ls, key)[i],
    decreases ls.len(),
{
    if ls.len() > 0 {
        let d = ls.drop_last();
        lemma_kept_lines(d, key);
        let k = lines_without_key(ls, key);
        let kd = lines_without_key(d, key);
        assert forall|i: int| 0 <= i < k.len() implies !mentions_key(#[trigger] k[i], key) && exists|j: int|
            0 <= j < ls.len() && ls[j] == k[i] by {
            if i < kd.len() {
                assert(k[i] == kd[i]);
                let j = choose|j: int| 0 <= j < d.len() && d[j] == kd[i];
                assert(ls[j] == d[j]);
            } else {
                assert(k[i] == ls.last());
                assert(ls[ls.len() - 1] == ls.last());
            }
        }
    }
}

/// Lines none of which mention the key are all kept.
proof fn lemma_nothing_to_remove(ls: Seq<Seq<char>>, key: Seq<char>)
    requires
        forall|i: int| 0 <= i < ls.len() ==> !mentions_key(#[trigger] ls[i], key),
    ensures
        lines_without_key(ls, key) == ls,
    decreases ls.len(),
{
    if ls.len() > 0 {
        let d = ls.drop_last();
        assert forall|i: int| 0 <= i < d.len() implies !mentions_key(#[trigger] d[i], key) by {
            assert(d[i] == ls[i]);
        }
        lemma_nothing_to_remove(d, key);
        assert(ls[ls.len() - 1] == ls.last());
        assert(d.push(ls.last()) =~= ls);
    }
}

/// Whether removing a key once more from what removing it left is bound to
/// change nothing: no kept line ends in a carriage return.
pub open spec fn key_removal_settles(config: Seq<char>, key: Seq<char>) -> bool {
    let kept = lines_without_key(seq_lines(config), key);
    forall|i: int| 0 <= i < kept.len() && (#[trigger] kept[i]).len() > 0 ==> kept[i].last() != '\r'
}

/// Removing a key from a configuration a second time changes nothing,
/// where the removal settles.
pub proof fn law_config_key_removed_once(config: Seq<char>, key: Seq<char>)
    requires
        key_removal_settles(config, key),
    ensures
        config_without_key(config_without_key(config, key), key) == config_without_key(config, key),
{
    let nl = seq!['\n'];
    let ls = seq_lines(config);
    let kept = lines_without_key(ls, key);
    let j = join_seq(kept, nl);
    let x = config_without_key(config, key);
    if j.len() == 0 {
        assert(x == Seq::<char>::empty());
        assert(seq_lines(x) =~= Seq::<Seq<char>>::empty());
        assert(lines_without_key(seq_lines(x), key) =~= Seq::<Seq<char>>::empty());
    } else {
        assert(kept.len() > 0);
        lemma_kept_lines(ls, key);
        lemma_lines_hold_no_break(config, 0);
        assert(plain_lines(kept)) by {
            assert forall|i: int| 0 <= i < kept.len() implies !(#[trigger] kept[i]).contains('\n') && (
            kept[i].len() == 0 || kept[i].last() != '\r') by {
                let w = choose|w: int| 0 <= w < ls.len() && ls[w] == kept[i];
                assert(!ls[w].contains('\n'));
            }
        }
        assert(x == j + nl);
        lemma_lines_of_joined(kept);
        lemma_nothing_to_remove(kept, key);
    }
}

/// Index of the first `=` in a line, if any (`str::split_once('=')`).
pub open spec fn eq_index(line: Seq<char>) -> int {
    find_char_from(line, '=', 0)
}

/// The configuration after one line of the target's settings: blank lines
/// and comments are ignored; `key=n` becomes `# key is not set`; any other
/// `key=value` replaces the lines about `key`.
pub open spec fn config_apply_line(config: Seq<char>, raw: Seq<char>) -> Seq<char> {
    let line = trim_seq(raw);
    let e = eq_index(line);
    if line.len() == 0 || line[0] == '#' || e >= line.len() {
        config
    } else {
        let key = line.subrange(0, e);
        let value = line.subrange(e + 1, line.len() as int);
        let c = config_without_key(config, key);
        if value == "n"@ {
            c + "# "@ + key + " is not set\n"@
        } else {
            c + key + "="@ + value + "\n"@
        }
    }
}

pub open spec fn config_apply_lines(config: Seq<char>, ls: Seq<Seq<char>>) -> Seq<char>
    decreases ls.len(),
{
    if ls.len() == 0 {
        config
    } else {
        config_apply_line(config_apply_lines(config, ls.drop_last()), ls.last())
    }
}

/// A generated configuration with the target's settings applied, line by
/// line.
pub fn merge_config(config: &str, settings: &str) -> (r: String)
    ensures
        r@ == config_apply_lines(config@, seq_lines(settings@)),
{
    proof {
        reveal_strlit("n");
        reveal_strlit("=");
    }
    let mut cur = config.to_string();
    let sv = chars_of(settings);
    let ls = lines_chars(&sv);
    let ghost lsv = views(ls@);
    let n_chars = chars_of("n");
    let mut i: usize = 0;
    while i < ls.len()
        invariant
            i <= ls@.len(),
            lsv == views(ls@),
            lsv == seq_lines(settings@),
            n_chars@ == "n"@,
            cur@ == config_apply_lines(config@, lsv.take(i as int)),
        decreases ls@.len() - i,
    {
        let ghost t = lsv.take(i + 1);
        assert(t.drop_last() =~= lsv.take(i as int));
        assert(t.last() == ls@[i as int]@);
        let line = trim_chars(ls[i].as_slice());
        if line.len() > 0 && line[0] != '#' {
            let e = find_char(&line, '=', 0);
            proof {
                lemma_find_char_bounds(line@, '=', 0);
            }
            if e < line.len() {
                let key_v = slice_chars(&line, 0, e);
                let value_v = slice_chars(&line, e + 1, line.len());
                let key = string_of(&key_v);
                remove_config_key(&mut cur, key.as_str());
                if eq_chars(&value_v, &n_chars) {
                    cur.append("# ");
                    cur.append(key.as_str());
                    cur.append(" is not set\n");
                } else {
                    cur.append(key.as_str());
                    cur.append("=");
                    let value = string_of(&value_v);
                    cur.append(value.as_str());
                    cur.append("\n");
                }
            }
        }
        i = i + 1;
    }
    assert(lsv.take(ls@.len() as int) =~= lsv);
    cur
}

/// Index of the first non-white-space character at or after `i`.
pub open spec fn skip_ws(s: Seq<char>, i: int) -> int
    decreases s.len() - i,
{
    if i < 0 || i >= s.len() {
        s.len() as int
    } else if is_unicode_whitespace(s[i]) {
        skip_ws(s, i + 1)
    } else {
        i
    }
}

/// Index of the first white-space character at or after `i`.
pub open spec fn token_end(s: Seq<char>, i: int) -> int
    decreases s.len() - i,
{
    if i < 0 || i >= s.len() {
        s.len() as int
    } else if is_unicode_whitespace(s[i]) {
        i
    } else {
        token_end(s, i + 1)
    }
}

proof fn lemma_skip_ws_bounds(s: Seq<char>, i: int)
    requires
        0 <= i,
    ensures
        i <= skip_ws(s, i) <= s.len() || (i > s.len() && skip_ws(s, i) == s.len()),
    decreases s.len() - i,
{
    if i < s.len() && is_unicode_whitespace(s[i]) {
        lemma_skip_ws_bounds(s, i + 1);
    }
}

proof fn lemma_token_end_bounds(s: Seq<char>, i: int)
    requires
        0 <= i,
    ensures
        i <= token_end(s, i) <= s.len() || (i > s.len() && token_end(s, i) == s.len()),
    decreases s.len() - i,
{
    if i < s.len() && !is_unicode_whitespace(s[i]) {
        lemma_token_end_bounds(s, i + 1);
    }
}

fn skip_ws_exec(s: &[char], i: usize) -> (r: usize)
    requires
        i <= s@.len(),
    ensures
        r as int == skip_ws(s@, i as int),
        i <= r <= s@.len(),
{
    let mut j = i;
    while j < s.len() && is_whitespace(s[j])
        invariant
            i <= j <= s@.len(),
            skip_ws(s@, i as int) == skip_ws(s@, j as int),
        decreases s@.len() - j,
    {
        j = j + 1;
    }
    j
}

fn token_end_exec(s: &[char], i: usize) -> (r: usize)
    requires
        i <= s@.len(),
    ensures
        r as int == token_end(s@, i as int),
        i <= r <= s@.len(),
{
    let mut j = i;
    while j < s.len() && !is_whitespace(s[j])
        invariant
            i <= j <= s@.len(),
            token_end(s@, i as int) == token_end(s@, j as int),
        decreases s@.len() - j,
    {
        j = j + 1;
    }
    j
}

/// The first two white-space separated words of `s`, if it has two.
pub open spec fn first_two_words(s: Seq<char>) -> Option<(Seq<char>, Seq<char>)> {
    let a = skip_ws(s, 0);
    let b = token_end(s, a);
    let c = skip_ws(s, b);
    let d = token_end(s, c);
    if a < s.len() && c < s.len() {
        Some((s.subrange(a, b), s.subrange(c, d)))
    } else {
        None
    }
}

/// The directories that busybox installs applets into, all of which map to
/// the one install directory.
pub open spec fn known_applet_dir(dir: Seq<char>) -> bool {
    ||| dir == "BB_DIR_BIN"@
    ||| dir == "BB_DIR_SBIN"@
    ||| dir == "BB_DIR_USR_BIN"@
    ||| dir == "BB_DIR_USR_SBIN"@
    ||| dir == "BB_DIR_ROOT"@
}

/// Busybox installs its applets from each of its five install directories
/// (`/bin`, `/sbin`, `/usr/bin`, `/usr/sbin` and the root): every one of
/// them is an applet directory, and an applet's link is named after the
/// applet alone.
pub proof fn law_busybox_install_dirs()
    ensures
        known_applet_dir("BB_DIR_BIN"@),
        known_applet_dir("BB_DIR_SBIN"@),
        known_applet_dir("BB_DIR_USR_BIN"@),
        known_applet_dir("BB_DIR_USR_SBIN"@),
        known_applet_dir("BB_DIR_ROOT"@),
{
}

/// What one output line contributes: nothing, an applet name, or an
/// unknown directory.  Lines `LINK <dir> <name>` list applets; busybox
/// itself is not one.
pub open spec fn link_line(line: Seq<char>) -> Option<Result<Seq<char>, Seq<char>>> {
    if !seq_starts_with(line, "LINK "@) {
        None
    } else {
        match first_two_words(line.subrange(5, line.len() as int)) {
            None => None,
            Some(w) => if w.1 == "busybox"@ {
                None
            } else if known_applet_dir(w.0) {
                Some(Ok(w.1))
            } else {
                Some(Err(w.0))
            },
        }
    }
}

/// The applet names listed by the lines `ls`, or the first unknown
/// directory.
pub open spec fn applets_of(ls: Seq<Seq<char>>) -> Result<Seq<Seq<char>>, Seq<char>>
    decreases ls.len(),
{
    if ls.len() == 0 {
        Ok(seq![])
    } else {
        match applets_of(ls.drop_last()) {
            Err(d) => Err(d),
            Ok(names) => match link_line(ls.last()) {
                None => Ok(names),
                Some(Ok(n)) => Ok(names.push(n)),
                Some(Err(d)) => Err(d),
            },
        }
    }
}

/// What one line contributes.
enum LinkLine {
    Skip,
    Applet(String),
    BadDir(String),
}

fn parse_link_line(line: &[char]) -> (r: LinkLine)
    ensures
        match link_line(line@) {
            None => r is Skip,
            Some(Ok(n)) => r matches LinkLine::Applet(a) && a@ == n,
            Some(Err(d)) => r matches LinkLine::BadDir(b) && b@ == d,
        },
{
    proof {
        reveal_strlit("LINK ");
        reveal_strlit("busybox");
    }
    let link = chars_of("LINK ");
    if !starts_with_chars(line, &link) {
        return LinkLine::Skip;
    }
    let rest = slice_chars(line, 5, line.len());
    let a = skip_ws_exec(&rest, 0);
    let b = token_end_exec(&rest, a);
    let c = skip_ws_exec(&rest, b);
    let d = token_end_exec(&rest, c);
    if a < rest.len() && c < rest.len() {
        let dir = slice_chars(&rest, a, b);
        let name = slice_chars(&rest, c, d);
        if eq_chars(&name, &chars_of("busybox")) {
            return LinkLine::Skip;
        }
        let ds = string_of(&dir);
        let ns = string_of(&name);
        match applet_path(ds.as_str(), ns.as_str()) {
            Ok(p) => LinkLine::Applet(p),
            Err(_) => LinkLine::BadDir(ds),
        }
    } else {
        LinkLine::Skip
    }
}

/// The install path of an applet below the install directory.
pub fn applet_path(dir: &str, name: &str) -> (r: Result<String, Error>)
    ensures
        known_applet_dir(dir@) ==> (r matches Ok(p) && p@ == name@),
        (dir@ == "BB_DIR_BIN"@ || dir@ == "BB_DIR_SBIN"@ || dir@ == "BB_DIR_USR_BIN"@ || dir@
            == "BB_DIR_USR_SBIN"@ || dir@ == "BB_DIR_ROOT"@) ==> (r matches Ok(p) && p@ == name@),
        !known_applet_dir(dir@) ==> (r matches Err(Error::UnknownAppletDir(d)) && d@ == dir@),
{
    let d = chars_of(dir);
    if eq_chars(&d, &chars_of("BB_DIR_BIN")) || eq_chars(&d, &chars_of("BB_DIR_SBIN")) || eq_chars(
        &d,
        &chars_of("BB_DIR_USR_BIN"),
    ) || eq_chars(&d, &chars_of("BB_DIR_USR_SBIN")) || eq_chars(&d, &chars_of("BB_DIR_ROOT")) {
        Ok(name.to_string())
    } else {
        Err(Error::UnknownAppletDir(dir.to_string()))
    }
}

/// The applets named in the output of busybox's `applets.h` preprocessed
/// with `MAKE_LINKS`, distinct and in character order.
pub fn busybox_applets(output: &str) -> (r: Result<Vec<String>, Error>)
    ensures
        match applets_of(seq_lines(output@)) {
            Ok(names) => r matches Ok(v) && strictly_sorted_seqs(v.deep_view()) && v.deep_view().to_set()
                == names.to_set(),
            Err(d) => r matches Err(Error::UnknownAppletDir(e)) && e@ == d,
        },
{
    let ov = chars_of(output);
    let ls = lines_chars(&ov);
    let ghost lsv = views(ls@);
    let mut names: Vec<String> = Vec::new();
    assert(names.deep_view() =~= Seq::<Seq<char>>::empty());
    assert(lsv.take(0) =~= Seq::<Seq<char>>::empty());
    let mut i: usize = 0;
    while i < ls.len()
        invariant
            i <= ls@.len(),
            lsv == views(ls@),
            lsv == seq_lines(output@),
            applets_of(lsv.take(i as int)) == Ok::<Seq<Seq<char>>, Seq<char>>(names.deep_view()),
        decreases ls@.len() - i,
    {
        let ghost t = lsv.take(i + 1);
        assert(t.drop_last() =~= lsv.take(i as int));
        assert(t.last() == ls@[i as int]@);
        match parse_link_line(ls[i].as_slice()) {
            LinkLine::Skip => {},
            LinkLine::Applet(p) => {
                let ghost before = names.deep_view();
                names.push(p);
                assert(names.deep_view() =~= before.push(p@));
            },
            LinkLine::BadDir(d) => {
                proof {
                    lemma_applets_err_stays(lsv, i as int + 1, d@);
                    assert(lsv.take(lsv.len() as int) =~= lsv);
                }
                return Err(Error::UnknownAppletDir(d));
            },
        }
        i = i + 1;
    }
    assert(lsv.take(ls@.len() as int) =~= lsv);
    Ok(sort_dedup_strings(names))
}

/// Once a prefix of the lines yields an error, so do all longer prefixes.
proof fn lemma_applets_err_stays(ls: Seq<Seq<char>>, k: int, d: Seq<char>)
    requires
        0 <= k <= ls.len(),
        applets_of(ls.take(k)) == Err::<Seq<Seq<char>>, Seq<char>>(d),
    ensures
        applets_of(ls.take(ls.len() as int)) == Err::<Seq<Seq<char>>, Seq<char>>(d),
    decreases ls.len() - k,
{
    if k < ls.len() {
        assert(ls.take(k + 1).drop_last() =~= ls.take(k));
        lemma_applets_err_stays(ls, k + 1, d);
    }
}

/// Busybox itself is never one of its applets: no applet link replaces the
/// installed binary.
pub proof fn law_busybox_not_an_applet(ls: Seq<Seq<char>>)
    ensures
        applets_of(ls) matches Ok(names) ==> !names.contains("busybox"@),
    decreases ls.len(),
{
    if ls.len() > 0 {
        law_busybox_not_an_applet(ls.drop_last());
        if let Ok(names) = applets_of(ls.drop_last()) {
            if let Some(Ok(n)) = link_line(ls.last()) {
                assert(n != "busybox"@);
                assert forall|i: int| 0 <= i < names.push(n).len() implies names.push(n)[i] != "busybox"@ by {
                    if i < names.len() {
                        assert(names.push(n)[i] == names[i]);
                    }
                }
            }
        }
    }
}

/// The step that links an applet to busybox in the install directory.
pub fn install_busybox_symlink(install_dir: &str, applet: &str) -> (r: Step)
    ensures
        r@ == StepView::Symlink("busybox"@, join_path(install_dir@, applet@)),
{
    Step::Symlink { target: "busybox".to_string(), link: join(install_dir, applet) }
}

} // verus!
