//! The steps of a package's workflow, as values: what the caller does on
//! the file system and which commands it runs, in order.
use vstd::prelude::*;
use crate::command::{CommandSpec, CommandSpecView};
use crate::cross::FileWrite;
use crate::desktop::TextEdit;
use crate::error::Error;

verus! {

/// One step of a package's fetch, patch, configure, build or install.
#[derive(Clone, Debug, PartialEq, Eq)]
pub enum Step {
    /// Run a command; a failure ends the workflow.
    Run(CommandSpec),
    /// Create a directory and its parents.
    EnsureDir(String),
    /// Write a file.
    WriteFile(FileWrite),
    /// Copy a file, replacing the target and creating its parent.
    CopyFile { from: String, to: String },
    /// Install a file with root rights and check that the copy has the size
    /// of the source.
    InstallFile { source: String, target: String },
    /// Copy a file with root rights, creating the target's parent.
    CopyAsRoot { from: String, to: String },
    /// Make `link` a symbolic link to `target`, replacing what is there.
    Symlink { target: String, link: String },
    /// Remove a file if it exists.
    RemoveFile(String),
    /// Remove a file, link or directory tree if it exists.
    RemovePath(String),
    /// Remove a directory tree if it exists.
    RemoveDirIfExists(String),
    /// Rename a file.
    Rename { from: String, to: String },
    /// Download `target` from the first of `urls` that works, in `cwd`.
    Download { target: String, urls: Vec<String>, cwd: String },
    /// When this directory exists, the remaining steps are skipped.
    SkipRestIfDir(String),
    /// Run the command unless this file exists.
    RunUnlessFile { path: String, command: CommandSpec },
    /// Apply the patch file to the source tree when the patch file exists.
    ApplyPatchIfExists { src_dir: String, patch: String },
    /// Refresh the GNU config files of `source_dir`, run its `configure`
    /// (`spec` before the cross environment is added), then fix its
    /// `libtool` scripts.
    ConfigureAutotools {
        source_dir: String,
        spec: CommandSpec,
        args: Vec<String>,
        dynamic_args: Vec<String>,
    },
    /// Configure the package with Meson.
    ConfigureMeson { args: Vec<String>, dynamic_args: Vec<String> },
    /// Merge the target's busybox settings into `config`.
    MergeBusyboxConfig { config: String, settings: String },
    /// Run `command` and read the busybox applets from its output, install
    /// the built `source` as `binary` (as `InstallFile` does), then link each
    /// applet to busybox in `install_dir`.
    InstallBusybox { command: CommandSpec, source: String, binary: String, install_dir: String },
    /// Check that `binary` is a file and `link` a symbolic link.
    CheckInstalled { binary: String, link: String },
    /// Rewrite a file's text with `edit`.
    EditFile { path: String, edit: TextEdit },
    /// Rewrite a file's text with `edit` when the file exists.
    EditFileIfExists { path: String, edit: TextEdit },
    /// End the workflow with this error.
    Fail(Error),
}

/// The value of a step.
pub enum StepView {
    Run(CommandSpecView),
    EnsureDir(Seq<char>),
    WriteFile(Seq<char>, Seq<char>, bool),
    CopyFile(Seq<char>, Seq<char>),
    InstallFile(Seq<char>, Seq<char>),
    CopyAsRoot(Seq<char>, Seq<char>),
    Symlink(Seq<char>, Seq<char>),
    RemoveFile(Seq<char>),
    RemovePath(Seq<char>),
    RemoveDirIfExists(Seq<char>),
    Rename(Seq<char>, Seq<char>),
    Download(Seq<char>, Seq<Seq<char>>, Seq<char>),
    SkipRestIfDir(Seq<char>),
    RunUnlessFile(Seq<char>, CommandSpecView),
    ApplyPatchIfExists(Seq<char>, Seq<char>),
    ConfigureAutotools(Seq<char>, CommandSpecView, Seq<Seq<char>>, Seq<Seq<char>>),
    ConfigureMeson(Seq<Seq<char>>, Seq<Seq<char>>),
    MergeBusyboxConfig(Seq<char>, Seq<char>),
    InstallBusybox(CommandSpecView, Seq<char>, Seq<char>, Seq<char>),
    CheckInstalled(Seq<char>, Seq<char>),
    EditFile(Seq<char>, TextEdit),
    EditFileIfExists(Seq<char>, TextEdit),
    Fail(Error),
}

impl View for Step {
    type V = StepView;

    open spec fn view(&self) -> StepView {
        match self {
            Step::Run(c) => StepView::Run(c@),
            Step::EnsureDir(p) => StepView::EnsureDir(p@),
            Step::WriteFile(f) => StepView::WriteFile(f.path@, f.content@, f.executable),
            Step::CopyFile { from, to } => StepView::CopyFile(from@, to@),
            Step::InstallFile { source, target } => StepView::InstallFile(source@, target@),
            Step::CopyAsRoot { from, to } => StepView::CopyAsRoot(from@, to@),
            Step::Symlink { target, link } => StepView::Symlink(target@, link@),
            Step::RemoveFile(p) => StepView::RemoveFile(p@),
            Step::RemovePath(p) => StepView::RemovePath(p@),
            Step::RemoveDirIfExists(p) => StepView::RemoveDirIfExists(p@),
            Step::Rename { from, to } => StepView::Rename(from@, to@),
            Step::Download { target, urls, cwd } => StepView::Download(
                target@,
                urls.deep_view(),
                cwd@,
            ),
            Step::SkipRestIfDir(p) => StepView::SkipRestIfDir(p@),
            Step::RunUnlessFile { path, command } => StepView::RunUnlessFile(path@, command@),
            Step::ApplyPatchIfExists { src_dir, patch } => StepView::ApplyPatchIfExists(
                src_dir@,
                patch@,
            ),
            Step::ConfigureAutotools { source_dir, spec, args, dynamic_args } =>
                StepView::ConfigureAutotools(
                source_dir@,
                spec@,
                args.deep_view(),
                dynamic_args.deep_view(),
            ),
            Step::ConfigureMeson { args, dynamic_args } => StepView::ConfigureMeson(
                args.deep_view(),
                dynamic_args.deep_view(),
            ),
            Step::MergeBusyboxConfig { config, settings } => StepView::MergeBusyboxConfig(
                config@,
                settings@,
            ),
            Step::InstallBusybox { command, source, binary, install_dir } => StepView::InstallBusybox(
                command@,
                source@,
                binary@,
                install_dir@,
            ),
            Step::CheckInstalled { binary, link } => StepView::CheckInstalled(binary@, link@),
            Step::EditFile { path, edit } => StepView::EditFile(path@, *edit),
            Step::EditFileIfExists { path, edit } => StepView::EditFileIfExists(path@, *edit),
            Step::Fail(e) => StepView::Fail(*e),
        }
    }
}

/// The values of a list of steps.
pub open spec fn steps_view(v: Seq<Step>) -> Seq<StepView> {
    v.map_values(|s: Step| s@)
}

/// The value of a planned list of steps.
pub open spec fn plan_view(r: Result<Vec<Step>, crate::error::Error>) -> Result<
    Seq<StepView>,
    crate::error::Error,
> {
    match r {
        Ok(v) => Ok(steps_view(v@)),
        Err(e) => Err(e),
    }
}

/// A one-step plan.
pub fn one(s: Step) -> (r: Vec<Step>)
    ensures
        steps_view(r@) == seq![s@],
{
    let mut r: Vec<Step> = Vec::new();
    r.push(s);
    assert(steps_view(r@) =~= seq![s@]);
    r
}

/// Two steps, in order.
pub fn two(a: Step, b: Step) -> (r: Vec<Step>)
    ensures
        steps_view(r@) == seq![a@, b@],
{
    let mut r: Vec<Step> = Vec::new();
    r.push(a);
    r.push(b);
    assert(steps_view(r@) =~= seq![a@, b@]);
    r
}

/// Appends one step.
pub fn push_step(v: &mut Vec<Step>, s: Step)
    ensures
        steps_view(final(v)@) == steps_view(old(v)@).push(s@),
{
    let ghost before = steps_view(v@);
    v.push(s);
    assert(steps_view(v@) =~= before.push(s@));
}

/// Appends all steps of `w`.
pub fn append_steps(v: &mut Vec<Step>, w: Vec<Step>)
    ensures
        steps_view(final(v)@) == steps_view(old(v)@) + steps_view(w@),
{
    let ghost before = steps_view(v@);
    let ghost wv = steps_view(w@);
    let mut w = w;
    v.append(&mut w);
    assert(steps_view(v@) =~= before + wv);
}

} // verus!
