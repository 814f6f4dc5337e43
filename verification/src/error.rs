//! Errors of the package tool and the messages they are reported with.
use vstd::prelude::*;
use crate::text::{i32_to_string, signed_decimal};

verus! {

/// A command that ran and did not succeed.
#[derive(Clone, Debug, PartialEq, Eq)]
pub struct CommandError {
    pub program: String,
    /// The exit code; `None` when the process was ended by a signal.
    pub code: Option<i32>,
}

pub open spec fn command_error_message(program: Seq<char>, code: Option<i32>) -> Seq<char> {
    match code {
        Some(c) => "command `"@ + program + "` failed with exit code "@ + signed_decimal(c as int),
        None => "command `"@ + program + "` terminated by signal"@,
    }
}

fn cat(a: &str, b: &str) -> (r: String)
    ensures
        r@ == a@ + b@,
{
    let mut r = a.to_string();
    r.append(b);
    r
}

fn cat3(a: &str, b: &str, c: &str) -> (r: String)
    ensures
        r@ == a@ + b@ + c@,
{
    let mut r = a.to_string();
    r.append(b);
    r.append(c);
    r
}

impl CommandError {
    /// The message the error is reported with.
    pub fn message(&self) -> (r: String)
        ensures
            r@ == command_error_message(self.program@, self.code),
    {
        match self.code {
            Some(c) => {
                let mut r = cat3("command `", self.program.as_str(), "` failed with exit code ");
                let d = i32_to_string(c);
                r.append(d.as_str());
                r
            },
            None => cat3("command `", self.program.as_str(), "` terminated by signal"),
        }
    }

    /// The outcome of a finished command: success, or the error naming
    /// `program` and the exit code.
    pub fn check(program: &str, success: bool, code: Option<i32>) -> (r: Result<(), CommandError>)
        ensures
            success ==> r is Ok,
            !success ==> (r matches Err(e) && e.program@ == program@ && e.code == code),
    {
        if success {
            Ok(())
        } else {
            Err(CommandError { program: program.to_string(), code })
        }
    }
}

/// Errors of the package tool.
#[derive(Clone, Debug, PartialEq, Eq)]
pub enum Error {
    /// No packages directory at or below the working directory.
    PackagesDirNotFound,
    /// The packages directory is a root.
    PackagesDirHasNoParent,
    /// The install directory is a root.
    InstallDirHasNoParent,
    /// No project root among the ancestors of the working directory.
    ProjectRootNotFound,
    /// Neither `curl` nor `wget` is on the search path.
    NoDownloader,
    /// Every URL failed for this download target.
    DownloadFailed(String),
    /// A busybox applet listed under a directory this tool does not know.
    UnknownAppletDir(String),
    /// A patch that did not apply, with the output of `patch`.
    PatchFailed { patch: String, output: String },
    /// The llvm-project source tree is missing at this path.
    LlvmSourceMissing(String),
    /// The host LLVM toolchain is missing at this prefix.
    LlvmPrefixMissing(String),
    /// No package of this name.
    UnknownPackage(String),
    /// A command failed.
    Command(CommandError),
}

pub open spec fn error_message(e: Error) -> Seq<char> {
    match e {
        Error::PackagesDirNotFound => "could not locate packages directory from current working directory"@,
        Error::PackagesDirHasNoParent => "packages directory has no parent"@,
        Error::InstallDirHasNoParent => "install_dir has no parent"@,
        Error::ProjectRootNotFound => "could not locate project root from current working directory"@,
        Error::NoDownloader => "neither curl nor wget found; cannot download tarball"@,
        Error::DownloadFailed(t) => "failed to download "@ + t@ + " from configured URLs"@,
        Error::UnknownAppletDir(d) => "unknown busybox applet dir: "@ + d@,
        Error::PatchFailed { patch, output } => "patch "@ + patch@ + " failed:\n"@ + output@,
        Error::LlvmSourceMissing(p) => "local llvm-project source tree not found at "@ + p@,
        Error::LlvmPrefixMissing(p) => "host LLVM toolchain not found at "@ + p@
            + "; run toolchain/install.rs first"@,
        Error::UnknownPackage(n) => "unknown package: "@ + n@,
        Error::Command(c) => command_error_message(c.program@, c.code),
    }
}

impl Error {
    /// The message the error is reported with.
    pub fn message(&self) -> (r: String)
        ensures
            r@ == error_message(*self),
    {
        match self {
            Error::PackagesDirNotFound => "could not locate packages directory from current working directory".to_string(),
            Error::PackagesDirHasNoParent => "packages directory has no parent".to_string(),
            Error::InstallDirHasNoParent => "install_dir has no parent".to_string(),
            Error::ProjectRootNotFound => "could not locate project root from current working directory".to_string(),
            Error::NoDownloader => "neither curl nor wget found; cannot download tarball".to_string(),
            Error::DownloadFailed(t) => cat3("failed to download ", t.as_str(), " from configured URLs"),
            Error::UnknownAppletDir(d) => cat("unknown busybox applet dir: ", d.as_str()),
            Error::PatchFailed { patch, output } => {
                let mut r = cat3("patch ", patch.as_str(), " failed:\n");
                r.append(output.as_str());
                r
            },
            Error::LlvmSourceMissing(p) => cat("local llvm-project source tree not found at ", p.as_str()),
            Error::LlvmPrefixMissing(p) => cat3(
                "host LLVM toolchain not found at ",
                p.as_str(),
                "; run toolchain/install.rs first",
            ),
            Error::UnknownPackage(n) => cat("unknown package: ", n.as_str()),
            Error::Command(c) => c.message(),
        }
    }
}

} // verus!
