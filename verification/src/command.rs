//! Description of an external command: program, arguments, working
//! directory, environment changes and standard input.  The command itself is
//! started by the caller; this module decides what it is.
use vstd::prelude::*;

verus! {

/// The abstract value of a `CommandSpec`.
pub struct CommandSpecView {
    pub program: Seq<char>,
    pub args: Seq<Seq<char>>,
    pub cwd: Option<Seq<char>>,
    pub envs: Seq<(Seq<char>, Seq<char>)>,
    pub env_removes: Seq<Seq<char>>,
    pub stdin_file: Option<Seq<char>>,
}

/// Index of the last environment entry whose key is `key`, or -1.
pub open spec fn last_key_index(envs: Seq<(Seq<char>, Seq<char>)>, key: Seq<char>) -> int
    decreases envs.len(),
{
    if envs.len() == 0 {
        -1
    } else if envs.last().0 == key {
        envs.len() - 1
    } else {
        last_key_index(envs.drop_last(), key)
    }
}

/// The value that `env_append` stores over an existing value.
pub open spec fn appended_value(existing: Seq<char>, val: Seq<char>, sep: Seq<char>) -> Seq<char> {
    if existing.len() > 0 && val.len() > 0 {
        existing + sep + val
    } else if val.len() > 0 {
        val
    } else {
        existing
    }
}

/// The value that `env_prepend` stores over an existing value.
pub open spec fn prepended_value(existing: Seq<char>, val: Seq<char>, sep: Seq<char>) -> Seq<char> {
    if existing.len() > 0 && val.len() > 0 {
        val + sep + existing
    } else if val.len() > 0 {
        val
    } else {
        existing
    }
}

/// What a started command sees of one environment variable.
pub enum EnvEffect {
    /// The variable is passed on from the parent process unchanged.
    Inherited,
    /// The variable is removed.
    Unset,
    /// The variable is set to this value.
    Assigned(Seq<char>),
}

impl CommandSpecView {
    pub open spec fn new(program: Seq<char>) -> CommandSpecView {
        CommandSpecView {
            program,
            args: seq![],
            cwd: None,
            envs: seq![],
            env_removes: seq![],
            stdin_file: None,
        }
    }

    pub open spec fn with_arg(self, arg: Seq<char>) -> CommandSpecView {
        CommandSpecView { args: self.args.push(arg), ..self }
    }

    pub open spec fn with_args(self, args: Seq<Seq<char>>) -> CommandSpecView {
        CommandSpecView { args: self.args + args, ..self }
    }

    pub open spec fn with_envs(self, envs: Seq<(Seq<char>, Seq<char>)>) -> CommandSpecView {
        CommandSpecView { envs: self.envs + envs, ..self }
    }

    pub open spec fn with_cwd(self, cwd: Seq<char>) -> CommandSpecView {
        CommandSpecView { cwd: Some(cwd), ..self }
    }

    pub open spec fn with_env(self, key: Seq<char>, val: Seq<char>) -> CommandSpecView {
        CommandSpecView { envs: self.envs.push((key, val)), ..self }
    }

    pub open spec fn with_env_append(self, key: Seq<char>, val: Seq<char>, sep: Seq<char>) -> CommandSpecView {
        let i = last_key_index(self.envs, key);
        if i < 0 {
            self.with_env(key, val)
        } else {
            CommandSpecView {
                envs: self.envs.update(i, (key, appended_value(self.envs[i].1, val, sep))),
                ..self
            }
        }
    }

    pub open spec fn with_env_prepend(self, key: Seq<char>, val: Seq<char>, sep: Seq<char>) -> CommandSpecView {
        let i = last_key_index(self.envs, key);
        if i < 0 {
            self.with_env(key, val)
        } else {
            CommandSpecView {
                envs: self.envs.update(i, (key, prepended_value(self.envs[i].1, val, sep))),
                ..self
            }
        }
    }

    pub open spec fn with_env_remove(self, key: Seq<char>) -> CommandSpecView {
        CommandSpecView { env_removes: self.env_removes.push(key), ..self }
    }

    pub open spec fn with_stdin_file(self, path: Seq<char>) -> CommandSpecView {
        CommandSpecView { stdin_file: Some(path), ..self }
    }

    /// The variable as the command sees it: environment entries are applied
    /// in order, and every removal is applied after all of them.
    pub open spec fn env_effect(self, key: Seq<char>) -> EnvEffect {
        if self.env_removes.contains(key) {
            EnvEffect::Unset
        } else {
            let i = last_key_index(self.envs, key);
            if i < 0 {
                EnvEffect::Inherited
            } else {
                EnvEffect::Assigned(self.envs[i].1)
            }
        }
    }
}

/// A command to run: program, arguments, working directory, environment
/// entries, environment removals and an optional file for standard input.
#[derive(Clone, Debug, PartialEq, Eq)]
pub struct CommandSpec {
    program: String,
    args: Vec<String>,
    cwd: Option<String>,
    envs: Vec<(String, String)>,
    env_removes: Vec<String>,
    stdin_file: Option<String>,
}

impl View for CommandSpec {
    type V = CommandSpecView;

    closed spec fn view(&self) -> CommandSpecView {
        CommandSpecView {
            program: self.program@,
            args: self.args.deep_view(),
            cwd: self.cwd.deep_view(),
            envs: self.envs.deep_view(),
            env_removes: self.env_removes.deep_view(),
            stdin_file: self.stdin_file.deep_view(),
        }
    }
}

pub proof fn lemma_last_key_index_bounds(envs: Seq<(Seq<char>, Seq<char>)>, key: Seq<char>)
    ensures
        -1 <= last_key_index(envs, key) < envs.len(),
        last_key_index(envs, key) >= 0 ==> envs[last_key_index(envs, key)].0 == key,
        forall|j: int|
            last_key_index(envs, key) < j < envs.len() ==> #[trigger] envs[j].0 != key,
    decreases envs.len(),
{
    if envs.len() > 0 && envs.last().0 != key {
        lemma_last_key_index_bounds(envs.drop_last(), key);
        assert forall|j: int| last_key_index(envs, key) < j < envs.len() implies #[trigger] envs[j].0
            != key by {
            if j < envs.len() - 1 {
                assert(envs[j] == envs.drop_last()[j]);
            }
        }
    }
}

fn seq_add3(a: &String, b: &str, c: &String) -> (r: String)
    ensures
        r@ == a@ + b@ + c@,
{
    let mut r = a.clone();
    r.append(b);
    r.append(c.as_str());
    r
}

impl CommandSpec {
    /// A command that runs `program` with no arguments and no environment
    /// changes.
    pub fn new(program: &str) -> (r: Self)
        ensures
            r@ == CommandSpecView::new(program@),
    {
        let r = CommandSpec {
            program: program.to_string(),
            args: Vec::new(),
            cwd: None,
            envs: Vec::new(),
            env_removes: Vec::new(),
            stdin_file: None,
        };
        assert(r@.args =~= Seq::<Seq<char>>::empty());
        assert(r@.envs =~= Seq::<(Seq<char>, Seq<char>)>::empty());
        assert(r@.env_removes =~= Seq::<Seq<char>>::empty());
        r
    }

    /// Appends one argument.
    pub fn arg(self, arg: &str) -> (r: Self)
        ensures
            r@ == self@.with_arg(arg@),
    {
        let mut s = self;
        let ghost before = s.args.deep_view();
        s.args.push(arg.to_string());
        assert(s.args.deep_view() =~= before.push(arg@));
        s
    }

    /// Appends the arguments, in order.
    pub fn args(self, args: &Vec<String>) -> (r: Self)
        ensures
            r@ == self@.with_args(args.deep_view()),
    {
        let mut s = self;
        let ghost start = s@;
        let mut i: usize = 0;
        while i < args.len()
            invariant
                i <= args@.len(),
                s@ == start.with_args(args.deep_view().take(i as int)),
            decreases args@.len() - i,
        {
            assert(args.deep_view().take(i + 1) =~= args.deep_view().take(i as int).push(args@[i as int]@));
            s = s.arg(args[i].as_str());
            assert(s@.args =~= start.args + args.deep_view().take(i + 1));
            i = i + 1;
        }
        assert(args.deep_view().take(args@.len() as int) =~= args.deep_view());
        assert(start.with_args(args.deep_view().take(0)).args =~= start.args);
        s
    }

    /// Adds the environment entries, in order.
    pub fn envs(self, envs: &Vec<(String, String)>) -> (r: Self)
        ensures
            r@ == self@.with_envs(envs.deep_view()),
    {
        let mut s = self;
        let ghost start = s@;
        let mut i: usize = 0;
        assert(start.with_envs(envs.deep_view().take(0)).envs =~= start.envs);
        while i < envs.len()
            invariant
                i <= envs@.len(),
                s@ == start.with_envs(envs.deep_view().take(i as int)),
            decreases envs@.len() - i,
        {
            assert(envs.deep_view().take(i + 1) =~= envs.deep_view().take(i as int).push(
                envs.deep_view()[i as int],
            ));
            s = s.env(envs[i].0.as_str(), envs[i].1.as_str());
            assert(s@.envs =~= start.envs + envs.deep_view().take(i + 1));
            i = i + 1;
        }
        assert(envs.deep_view().take(envs@.len() as int) =~= envs.deep_view());
        s
    }

    /// The program to run.
    pub fn program(&self) -> (r: &str)
        ensures
            r@ == self@.program,
    {
        self.program.as_str()
    }

    /// The arguments, in order.
    pub fn get_args(&self) -> (r: &Vec<String>)
        ensures
            r.deep_view() == self@.args,
    {
        &self.args
    }

    /// The working directory, if one is set.
    pub fn get_cwd(&self) -> (r: &Option<String>)
        ensures
            r.deep_view() == self@.cwd,
    {
        &self.cwd
    }

    /// The environment entries, in order.
    pub fn get_envs(&self) -> (r: &Vec<(String, String)>)
        ensures
            r.deep_view() == self@.envs,
    {
        &self.envs
    }

    /// The removed environment variables, in order.
    pub fn get_env_removes(&self) -> (r: &Vec<String>)
        ensures
            r.deep_view() == self@.env_removes,
    {
        &self.env_removes
    }

    /// The file fed to standard input, if any.
    pub fn get_stdin_file(&self) -> (r: &Option<String>)
        ensures
            r.deep_view() == self@.stdin_file,
    {
        &self.stdin_file
    }

    /// Sets the working directory.
    pub fn cwd(self, cwd: &str) -> (r: Self)
        ensures
            r@ == self@.with_cwd(cwd@),
    {
        let mut s = self;
        s.cwd = Some(cwd.to_string());
        s
    }

    /// Adds an environment entry.
    pub fn env(self, key: &str, val: &str) -> (r: Self)
        ensures
            r@ == self@.with_env(key@, val@),
    {
        let mut s = self;
        let ghost before = s.envs.deep_view();
        s.envs.push((key.to_string(), val.to_string()));
        assert(s.envs.deep_view() =~= before.push((key@, val@)));
        s
    }

    /// Index of the last environment entry for `key`.
    fn find_last_env(&self, key: &String) -> (r: Option<usize>)
        ensures
            match r {
                Some(i) => i as int == last_key_index(self@.envs, key@),
                None => last_key_index(self@.envs, key@) == -1,
            },
    {
        let ghost envs = self@.envs;
        let mut j: usize = self.envs.len();
        proof {
            assert(envs.len() == j);
            assert(envs.subrange(0, j as int) =~= envs);
        }
        while j > 0
            invariant
                j <= envs.len(),
                envs == self@.envs,
                envs.len() == self.envs@.len(),
                last_key_index(envs, key@) == last_key_index(envs.subrange(0, j as int), key@),
            decreases j,
        {
            let ghost pre = envs.subrange(0, j as int);
            assert(pre.drop_last() =~= envs.subrange(0, j - 1 as int));
            assert(pre.last() == envs[j - 1]);
            if self.envs[j - 1].0 == *key {
                return Some(j - 1);
            }
            j = j - 1;
        }
        None
    }

    /// Stores `val` under `key`, joined to the value of the last entry for
    /// `key` with `separator` when both are non-empty; adds a new entry when
    /// there is none.
    pub fn env_append(self, key: &str, val: &str, separator: &str) -> (r: Self)
        ensures
            r@ == self@.with_env_append(key@, val@, separator@),
    {
        self.env_merge(key, val, separator, true)
    }

    /// Like `env_append`, with `val` placed before the existing value.
    pub fn env_prepend(self, key: &str, val: &str, separator: &str) -> (r: Self)
        ensures
            r@ == self@.with_env_prepend(key@, val@, separator@),
    {
        self.env_merge(key, val, separator, false)
    }

    fn env_merge(self, key: &str, val: &str, separator: &str, append: bool) -> (r: Self)
        ensures
            append ==> r@ == self@.with_env_append(key@, val@, separator@),
            !append ==> r@ == self@.with_env_prepend(key@, val@, separator@),
    {
        let key_s = key.to_string();
        let val_s = val.to_string();
        let mut s = self;
        let ghost before = s@;
        match s.find_last_env(&key_s) {
            None => {
                let ghost e = s.envs.deep_view();
                s.envs.push((key_s, val_s));
                assert(s.envs.deep_view() =~= e.push((key@, val@)));
                s
            },
            Some(i) => {
                proof {
                    lemma_last_key_index_bounds(before.envs, key@);
                }
                let existing = s.envs[i].1.clone();
                let merged = if !existing.as_str().is_empty() && !val.is_empty() {
                    if append {
                        seq_add3(&existing, separator, &val_s)
                    } else {
                        seq_add3(&val_s, separator, &existing)
                    }
                } else if !val.is_empty() {
                    val_s
                } else {
                    existing
                };
                let ghost e = s.envs.deep_view();
                let ghost m = merged@;
                s.envs.set(i, (key_s, merged));
                assert(s.envs.deep_view() =~= e.update(i as int, (key@, m)));
                s
            },
        }
    }

    /// Removes an environment variable from the command's environment.
    pub fn env_remove(self, key: &str) -> (r: Self)
        ensures
            r@ == self@.with_env_remove(key@),
    {
        let mut s = self;
        let ghost before = s.env_removes.deep_view();
        s.env_removes.push(key.to_string());
        assert(s.env_removes.deep_view() =~= before.push(key@));
        s
    }

    /// Feeds the file at `path` to the command's standard input.
    pub fn stdin_file(self, path: &str) -> (r: Self)
        ensures
            r@ == self@.with_stdin_file(path@),
    {
        let mut s = self;
        s.stdin_file = Some(path.to_string());
        s
    }
}

/// An entry added with `env` is what the command sees, unless the variable
/// has been removed.
pub proof fn law_env_sets(s: CommandSpecView, key: Seq<char>, val: Seq<char>)
    requires
        !s.env_removes.contains(key),
    ensures
        s.with_env(key, val).env_effect(key) == EnvEffect::Assigned(val),
{
    assert(s.with_env(key, val).envs.drop_last() =~= s.envs);
}

/// `env_append` and `env_prepend` extend the value the command would have
/// seen; on a variable with no entry they set it.
pub proof fn law_env_merge_effect(s: CommandSpecView, key: Seq<char>, val: Seq<char>, sep: Seq<char>)
    requires
        !s.env_removes.contains(key),
    ensures
        s.with_env_append(key, val, sep).env_effect(key) == (match s.env_effect(key) {
            EnvEffect::Assigned(e) => EnvEffect::Assigned(appended_value(e, val, sep)),
            _ => EnvEffect::Assigned(val),
        }),
        s.with_env_prepend(key, val, sep).env_effect(key) == (match s.env_effect(key) {
            EnvEffect::Assigned(e) => EnvEffect::Assigned(prepended_value(e, val, sep)),
            _ => EnvEffect::Assigned(val),
        }),
{
    lemma_last_key_index_bounds(s.envs, key);
    let i = last_key_index(s.envs, key);
    if i < 0 {
        assert(s.with_env(key, val).envs.drop_last() =~= s.envs);
    } else {
        let a = s.envs.update(i, (key, appended_value(s.envs[i].1, val, sep)));
        let p = s.envs.update(i, (key, prepended_value(s.envs[i].1, val, sep)));
        lemma_last_key_index_same(s.envs, a, key, i);
        lemma_last_key_index_same(s.envs, p, key, i);
    }
}

/// Updating the last entry for `key` keeps it the last entry for `key`.
proof fn lemma_last_key_index_same(
    envs: Seq<(Seq<char>, Seq<char>)>,
    upd: Seq<(Seq<char>, Seq<char>)>,
    key: Seq<char>,
    i: int,
)
    requires
        i == last_key_index(envs, key),
        0 <= i < envs.len(),
        upd.len() == envs.len(),
        upd[i].0 == key,
        forall|j: int| 0 <= j < envs.len() && j != i ==> upd[j] == envs[j],
    ensures
        last_key_index(upd, key) == i,
    decreases envs.len(),
{
    lemma_last_key_index_bounds(envs, key);
    if i < envs.len() - 1 {
        assert(upd.last() == envs.last());
        assert(envs.last().0 != key);
        lemma_last_key_index_same(envs.drop_last(), upd.drop_last(), key, i);
    }
}

/// Entries for other variables do not change what the command sees of `key`.
proof fn lemma_last_key_index_other_push(
    envs: Seq<(Seq<char>, Seq<char>)>,
    key: Seq<char>,
    other: (Seq<char>, Seq<char>),
)
    requires
        other.0 != key,
    ensures
        last_key_index(envs.push(other), key) == last_key_index(envs, key),
{
    assert(envs.push(other).drop_last() =~= envs);
}

proof fn lemma_last_key_index_other_update(
    envs: Seq<(Seq<char>, Seq<char>)>,
    key: Seq<char>,
    i: int,
    entry: (Seq<char>, Seq<char>),
)
    requires
        0 <= i < envs.len(),
        envs[i].0 != key,
        entry.0 != key,
    ensures
        last_key_index(envs.update(i, entry), key) == last_key_index(envs, key),
    decreases envs.len(),
{
    let u = envs.update(i, entry);
    if i == envs.len() - 1 {
        assert(u.drop_last() =~= envs.drop_last());
    } else {
        assert(u.drop_last() =~= envs.drop_last().update(i, entry));
        if envs.last().0 != key {
            lemma_last_key_index_other_update(envs.drop_last(), key, i, entry);
        }
    }
}

/// A builder call on one variable leaves every other variable as it was.
pub proof fn law_env_other_keys(
    s: CommandSpecView,
    key: Seq<char>,
    other: Seq<char>,
    val: Seq<char>,
    sep: Seq<char>,
)
    requires
        key != other,
    ensures
        s.with_env(key, val).env_effect(other) == s.env_effect(other),
        s.with_env_append(key, val, sep).env_effect(other) == s.env_effect(other),
        s.with_env_prepend(key, val, sep).env_effect(other) == s.env_effect(other),
        s.with_env_remove(key).env_effect(other) == s.env_effect(other),
{
    lemma_last_key_index_bounds(s.envs, key);
    lemma_last_key_index_other_push(s.envs, other, (key, val));
    let i = last_key_index(s.envs, key);
    if i >= 0 {
        lemma_last_key_index_other_update(
            s.envs,
            other,
            i,
            (key, appended_value(s.envs[i].1, val, sep)),
        );
        lemma_last_key_index_other_update(
            s.envs,
            other,
            i,
            (key, prepended_value(s.envs[i].1, val, sep)),
        );
        lemma_last_key_index_bounds(s.envs, other);
        let j = last_key_index(s.envs, other);
        if j >= 0 {
            assert(s.envs.update(i, (key, appended_value(s.envs[i].1, val, sep)))[j] == s.envs[j]);
            assert(s.envs.update(i, (key, prepended_value(s.envs[i].1, val, sep)))[j] == s.envs[j]);
        }
    } else {
        lemma_last_key_index_bounds(s.envs, other);
        let j = last_key_index(s.envs, other);
        if j >= 0 {
            assert(s.envs.push((key, val))[j] == s.envs[j]);
        }
    }
    assert(s.with_env_remove(key).env_removes.contains(other) == s.env_removes.contains(other)) by {
        if s.with_env_remove(key).env_removes.contains(other) {
            let k = choose|k: int| 0 <= k < s.env_removes.len() + 1 && s.env_removes.push(key)[k] == other;
            assert(s.env_removes[k] == other);
        }
        if s.env_removes.contains(other) {
            let k = choose|k: int| 0 <= k < s.env_removes.len() && s.env_removes[k] == other;
            assert(s.env_removes.push(key)[k] == other);
        }
    }
}

/// Once removed, a variable stays removed whatever entries follow.
pub proof fn law_env_remove_wins(
    s: CommandSpecView,
    key: Seq<char>,
    k2: Seq<char>,
    val: Seq<char>,
    sep: Seq<char>,
)
    ensures
        s.with_env_remove(key).env_effect(key) == EnvEffect::Unset,
        s.env_effect(key) == EnvEffect::Unset ==> {
            &&& s.with_env(k2, val).env_effect(key) == EnvEffect::Unset
            &&& s.with_env_append(k2, val, sep).env_effect(key) == EnvEffect::Unset
            &&& s.with_env_prepend(k2, val, sep).env_effect(key) == EnvEffect::Unset
            &&& s.with_env_remove(k2).env_effect(key) == EnvEffect::Unset
        },
{
    assert(s.with_env_remove(key).env_removes[s.env_removes.len() as int] == key);
    if s.env_removes.contains(key) {
        let k = choose|k: int| 0 <= k < s.env_removes.len() && s.env_removes[k] == key;
        assert(s.with_env_remove(k2).env_removes[k] == key);
    }
}

} // verus!
