//! Installing built packages into the sysroot.
use vstd::prelude::*;
use crate::command::{CommandSpec, CommandSpecView};
use crate::configure::flag;
use crate::cross::view_result;
use crate::error::Error;
use crate::misc::sysroot_dir;
use crate::path::{join, join_path, parent_path};
use crate::plan::{steps_view, two, Step, StepView};
use crate::packages::Package;
use crate::registry::{install_name_of, name_of};
use crate::types::{Context, PackagePaths, PackagePathsView, paths_of};

verus! {

/// `make install` in `cwd` with root rights, staged into the sysroot.
pub open spec fn install_make_spec(cwd: Seq<char>, ctx: Context) -> Result<CommandSpecView, Error> {
    match parent_path(ctx.install_dir@) {
        None => Err(Error::InstallDirHasNoParent),
        Some(sysroot) => Ok(
            CommandSpecView::new("sudo"@).with_arg("env"@).with_arg("DESTDIR="@ + sysroot).with_arg(
                "make"@,
            ).with_arg("-C"@).with_arg(cwd).with_arg("install"@),
        ),
    }
}

/// `make install` in `cwd` into the sysroot.
pub fn install_make_in(cwd: &str, ctx: &Context) -> (r: Result<CommandSpec, Error>)
    ensures
        view_result(r) == install_make_spec(cwd@, *ctx),
{
    let sysroot = match sysroot_dir(ctx) {
        Ok(s) => s,
        Err(e) => return Err(e),
    };
    Ok(
        CommandSpec::new("sudo").arg("env").arg(flag("DESTDIR=", sysroot.as_str()).as_str()).arg(
            "make",
        ).arg("-C").arg(cwd).arg("install"),
    )
}

/// `make install` in a package's source tree.
pub fn install_autotools(paths: &PackagePaths, ctx: &Context) -> (r: Result<CommandSpec, Error>)
    ensures
        view_result(r) == install_make_spec(paths.src@, *ctx),
{
    install_make_in(paths.src.as_str(), ctx)
}

/// `meson install` of a package's build directory into the sysroot.
pub open spec fn install_meson_spec(paths: PackagePathsView, ctx: Context) -> Result<
    CommandSpecView,
    Error,
> {
    match parent_path(ctx.install_dir@) {
        None => Err(Error::InstallDirHasNoParent),
        Some(sysroot) => Ok(
            CommandSpecView::new("sudo"@).with_arg("env"@).with_arg("DESTDIR="@ + sysroot).with_arg(
                "meson"@,
            ).with_arg("install"@).with_arg("--no-rebuild"@).with_arg("-C"@).with_arg(paths.build),
        ),
    }
}

/// `meson install` into the sysroot.
pub fn install_meson(paths: &PackagePaths, ctx: &Context) -> (r: Result<CommandSpec, Error>)
    ensures
        view_result(r) == install_meson_spec(paths@, *ctx),
{
    let sysroot = match sysroot_dir(ctx) {
        Ok(s) => s,
        Err(e) => return Err(e),
    };
    Ok(
        CommandSpec::new("sudo").arg("env").arg(flag("DESTDIR=", sysroot.as_str()).as_str()).arg(
            "meson",
        ).arg("install").arg("--no-rebuild").arg("-C").arg(paths.build.as_str()),
    )
}

/// Installing one file.
pub fn install_file(source: &str, target: &str) -> (r: Step)
    ensures
        r@ == StepView::InstallFile(source@, target@),
{
    Step::InstallFile { source: source.to_string(), target: target.to_string() }
}

/// Installing the contents of a directory with root rights: the target is
/// created, then everything in the source is copied into it, links and
/// modes kept.
pub fn install_dir_contents(source_dir: &str, target_dir: &str) -> (r: Vec<Step>)
    ensures
        steps_view(r@) == seq![
            StepView::Run(
                CommandSpecView::new("sudo"@).with_arg("mkdir"@).with_arg("-p"@).with_arg(
                    target_dir@,
                ),
            ),
            StepView::Run(
                CommandSpecView::new("sudo"@).with_arg("cp"@).with_arg("-a"@).with_arg(
                    join_path(source_dir@, "."@),
                ).with_arg(target_dir@),
            ),
        ],
{
    let src_all = join(source_dir, ".");
    two(
        Step::Run(CommandSpec::new("sudo").arg("mkdir").arg("-p").arg(target_dir)),
        Step::Run(CommandSpec::new("sudo").arg("cp").arg("-a").arg(src_all.as_str()).arg(target_dir)),
    )
}

/// A package whose installation is one built program.
pub trait Install: Package {
    /// The built program's file name in the build directory.
    spec fn binary(&self) -> Seq<char>;

    /// The built program's file name in the build directory.
    fn binary_name(&self) -> (r: &'static str)
        ensures
            r@ == self.binary(),
    ;

    /// Installing the built program from the build directory into the
    /// install directory, under the package's install name.
    fn install_binary(&self, ctx: &Context) -> (r: Step)
        ensures
            r@ == StepView::InstallFile(
                join_path(paths_of(*ctx, name_of(self.package_id())).build, self.binary()),
                join_path(ctx.install_dir@, install_name_of(self.package_id())),
            ),
    {
        let paths = self.calc_paths(ctx);
        binary_install_step(&paths, ctx, self.binary_name(), self.install_name())
    }
}

/// Installing a built program: from the build directory into the install
/// directory under `install_name`.
pub fn binary_install_step(paths: &PackagePaths, ctx: &Context, binary_name: &str, install_name: &str) -> (r:
    Step)
    ensures
        r@ == StepView::InstallFile(
            join_path(paths.build@, binary_name@),
            join_path(ctx.install_dir@, install_name@),
        ),
{
    let source = join(paths.build.as_str(), binary_name);
    let target = join(ctx.install_dir.as_str(), install_name);
    install_file(source.as_str(), target.as_str())
}

} // verus!
