//! Applying patch files to source trees: which patches, in which order, with
//! which command, and what the outcome of `patch` means.
use vstd::prelude::*;
use crate::command::{CommandSpec, CommandSpecView};
use crate::error::Error;
use crate::order::{sort_strings, sorted_seqs};
use crate::path::{extension_chars, extension_of, join, join_path};
use crate::text::{chars_of, contains, eq_chars, seq_contains, str_eq};
use crate::types::PackagePaths;

verus! {

/// A path whose extension is `patch` or `diff`.
pub open spec fn is_patch_path(p: Seq<char>) -> bool {
    extension_of(p) == Some("patch"@) || extension_of(p) == Some("diff"@)
}

/// The entries that are patch files, in their order.
pub open spec fn patch_files_of(entries: Seq<Seq<char>>) -> Seq<Seq<char>>
    decreases entries.len(),
{
    if entries.len() == 0 {
        seq![]
    } else if is_patch_path(entries.last()) {
        patch_files_of(entries.drop_last()).push(entries.last())
    } else {
        patch_files_of(entries.drop_last())
    }
}

/// Whether a path names a patch file.
pub fn is_patch_file(path: &str) -> (r: bool)
    ensures
        r == is_patch_path(path@),
{
    proof {
        reveal_strlit("patch");
        reveal_strlit("diff");
    }
    let p = chars_of(path);
    let patch = chars_of("patch");
    let diff = chars_of("diff");
    match extension_chars(&p) {
        Some(e) => eq_chars(&e, &patch) || eq_chars(&e, &diff),
        None => false,
    }
}

/// The patch files among the entries of a directory.
pub fn list_patch_files(entries: &Vec<String>) -> (r: Vec<String>)
    ensures
        r.deep_view() == patch_files_of(entries.deep_view()),
{
    let mut out: Vec<String> = Vec::new();
    let mut i: usize = 0;
    while i < entries.len()
        invariant
            i <= entries@.len(),
            out.deep_view() == patch_files_of(entries.deep_view().take(i as int)),
        decreases entries@.len() - i,
    {
        let ghost t = entries.deep_view().take(i + 1);
        assert(t.drop_last() =~= entries.deep_view().take(i as int));
        let ghost before = out.deep_view();
        if is_patch_file(entries[i].as_str()) {
            out.push(entries[i].clone());
            assert(out.deep_view() =~= before.push(entries[i as int]@));
        }
        i = i + 1;
    }
    assert(entries.deep_view().take(entries@.len() as int) =~= entries.deep_view());
    out
}

/// The sequence with every element equal to `x` removed.
pub open spec fn without(s: Seq<Seq<char>>, x: Seq<char>) -> Seq<Seq<char>>
    decreases s.len(),
{
    if s.len() == 0 {
        seq![]
    } else if s.last() == x {
        without(s.drop_last(), x)
    } else {
        without(s.drop_last(), x).push(s.last())
    }
}

/// `config.patch` is applied once: the other patch files never include it.
pub proof fn law_config_patch_applied_once(s: Seq<Seq<char>>, x: Seq<char>)
    ensures
        !without(s, x).contains(x),
    decreases s.len(),
{
    if s.len() > 0 {
        law_config_patch_applied_once(s.drop_last(), x);
        let w = without(s.drop_last(), x);
        if s.last() != x {
            assert forall|i: int| 0 <= i < w.push(s.last()).len() implies w.push(s.last())[i] != x by {
                if i < w.len() {
                    assert(w.push(s.last())[i] == w[i]);
                }
            }
        }
    }
}

/// The patch files of a package's `pkg-specific` directory in the order
/// they are applied: its `config.patch` first when that is a file, then
/// every other patch file in character order.
pub fn apply_pkg_specific_patches(
    paths: &PackagePaths,
    config_patch_is_file: bool,
    patch_files: Vec<String>,
) -> (r: Vec<String>)
    ensures
        exists|sorted: Seq<Seq<char>>|
            {
                &&& sorted_seqs(sorted)
                &&& sorted.to_multiset() == patch_files.deep_view().to_multiset()
                &&& r.deep_view() == (if config_patch_is_file {
                    seq![join_path(paths.pkg_specific@, "config.patch"@)]
                } else {
                    seq![]
                }) + without(sorted, join_path(paths.pkg_specific@, "config.patch"@))
            },
{
    let config_patch = join(paths.pkg_specific.as_str(), "config.patch");
    let mut out: Vec<String> = Vec::new();
    if config_patch_is_file {
        out.push(config_patch.clone());
    }
    let ghost head = out.deep_view();
    let sorted = sort_strings(patch_files);
    let ghost sv = sorted.deep_view();
    let mut i: usize = 0;
    while i < sorted.len()
        invariant
            i <= sorted@.len(),
            sv == sorted.deep_view(),
            out.deep_view() == head + without(sv.take(i as int), config_patch@),
        decreases sorted@.len() - i,
    {
        let ghost t = sv.take(i + 1);
        assert(t.drop_last() =~= sv.take(i as int));
        let ghost before = out.deep_view();
        if !str_eq(sorted[i].as_str(), config_patch.as_str()) {
            out.push(sorted[i].clone());
            assert(out.deep_view() =~= before.push(sv[i as int]));
            assert(head + without(t, config_patch@) =~= (head + without(sv.take(i as int), config_patch@)).push(sv[i as int]));
        }
        i = i + 1;
    }
    assert(sv.take(sorted@.len() as int) =~= sv);
    assert(head =~= (if config_patch_is_file {
        seq![config_patch@]
    } else {
        seq![]
    }));
    out
}

/// The `patch` command that applies `patch` in `src_dir`.
pub open spec fn patch_command_view(src_dir: Seq<char>, patch: Seq<char>) -> CommandSpecView {
    CommandSpecView::new("patch"@).with_arg("-N"@).with_arg("--forward"@).with_arg(
        "--batch"@,
    ).with_arg("-p1"@).with_cwd(src_dir).with_stdin_file(patch)
}

/// The `patch` command that applies `patch` in `src_dir`.
pub fn patch_command(src_dir: &str, patch: &str) -> (r: CommandSpec)
    ensures
        r@ == patch_command_view(src_dir@, patch@),
{
    CommandSpec::new("patch").arg("-N").arg("--forward").arg("--batch").arg("-p1").cwd(
        src_dir,
    ).stdin_file(patch)
}

/// The dry run that tells whether `patch` applies.
pub fn patch_dry_run_command(src_dir: &str, patch: &str) -> (r: CommandSpec)
    ensures
        r@ == patch_command_view(src_dir@, patch@).with_arg("--dry-run"@),
{
    patch_command(src_dir, patch).arg("--dry-run")
}

/// What to do after the dry run of a patch.
#[derive(Clone, Debug, PartialEq, Eq)]
pub enum DryRunOutcome {
    /// The patch applies: run it.
    Apply,
    /// The patch is in the tree already: skip it.
    AlreadyApplied,
    /// The patch does not apply.
    Failed(Error),
}

/// The decision after the dry run of `patch`, from its success and its
/// output (standard output followed by standard error).
pub fn after_dry_run(patch: &str, success: bool, output: &str) -> (r: DryRunOutcome)
    ensures
        success ==> r is Apply,
        !success && seq_contains(output@, "Reversed (or previously applied) patch detected"@)
            ==> r is AlreadyApplied,
        !success && !seq_contains(output@, "Reversed (or previously applied) patch detected"@)
            ==> (r matches DryRunOutcome::Failed(Error::PatchFailed { patch: p, output: o })
            && p@ == patch@ && o@ == output@),
{
    if success {
        DryRunOutcome::Apply
    } else if contains(output, "Reversed (or previously applied) patch detected") {
        DryRunOutcome::AlreadyApplied
    } else {
        DryRunOutcome::Failed(
            Error::PatchFailed { patch: patch.to_string(), output: output.to_string() },
        )
    }
}

/// The outcome of applying `patch`, from its success and its output.
pub fn after_apply(patch: &str, success: bool, output: &str) -> (r: Result<(), Error>)
    ensures
        success ==> r is Ok,
        !success ==> (r matches Err(Error::PatchFailed { patch: p, output: o }) && p@ == patch@
            && o@ == output@),
{
    if success {
        Ok(())
    } else {
        Err(Error::PatchFailed { patch: patch.to_string(), output: output.to_string() })
    }
}

/// The text of a finished `patch` run: its standard output followed by its
/// standard error.
pub fn patch_output_text(stdout: &str, stderr: &str) -> (r: String)
    ensures
        r@ == stdout@ + stderr@,
{
    let mut t = stdout.to_string();
    t.append(stderr);
    t
}

} // verus!
