//! The build commands of autotools, Meson, CMake, plain make and Cargo
//! builds.
use vstd::prelude::*;
use crate::command::{CommandSpec, CommandSpecView};
use crate::configure::flag;
use crate::cross::{pkg_env, pkg_env_spec, target_env, target_env_spec, view_result, TARGET_TRIPLE};
use crate::error::Error;
use crate::path::{join, join_path};
use crate::text::{decimal, u64_to_string};
use crate::types::{Context, PackagePaths, PackagePathsView};

verus! {

/// The target C compiler.
pub const CC: &'static str = "clang --target=x86_64-seele";

/// `make` with `jobs` parallel jobs.
pub open spec fn make_view(jobs: u64) -> CommandSpecView {
    CommandSpecView::new("make"@).with_arg("-j"@ + decimal(jobs as nat))
}

/// `make` with `jobs` parallel jobs.
pub fn make(jobs: u64) -> (r: CommandSpec)
    ensures
        r@ == make_view(jobs),
{
    let j = u64_to_string(jobs);
    CommandSpec::new("make").arg(flag("-j", j.as_str()).as_str())
}

/// `make` in the source tree with the cross environment, extra
/// environment entries and extra arguments.
pub open spec fn autotools_build_spec(
    paths: PackagePathsView,
    ctx: Context,
    host_path: Seq<char>,
    jobs: u64,
    envs: Seq<(Seq<char>, Seq<char>)>,
    extra_args: Seq<Seq<char>>,
) -> Result<CommandSpecView, Error> {
    match target_env_spec(make_view(jobs).with_cwd(paths.src), ctx, host_path) {
        Ok(t) => Ok(t.with_envs(envs).with_args(extra_args)),
        Err(e) => Err(e),
    }
}

/// The build command of an autotools package.
pub fn build_autotools_with(
    paths: &PackagePaths,
    ctx: &Context,
    host_path: &str,
    jobs: u64,
    envs: &Vec<(String, String)>,
    extra_args: &Vec<String>,
) -> (r: Result<CommandSpec, Error>)
    ensures
        view_result(r) == autotools_build_spec(
            paths@,
            *ctx,
            host_path@,
            jobs,
            envs.deep_view(),
            extra_args.deep_view(),
        ),
{
    let t = match target_env(make(jobs).cwd(paths.src.as_str()), ctx, host_path) {
        Ok(t) => t,
        Err(e) => return Err(e),
    };
    Ok(t.envs(envs).args(extra_args))
}

/// `meson compile` in the build directory with the cross environment.
pub open spec fn meson_build_spec(
    paths: PackagePathsView,
    ctx: Context,
    host_path: Seq<char>,
    jobs: u64,
) -> Result<CommandSpecView, Error> {
    pkg_env_spec(
        CommandSpecView::new("meson"@).with_arg("compile"@).with_arg("-C"@).with_arg(
            paths.build,
        ).with_arg("-j"@ + decimal(jobs as nat)),
        ctx,
        host_path,
    )
}

/// The build command of a Meson package.
pub fn build_meson(paths: &PackagePaths, ctx: &Context, host_path: &str, jobs: u64) -> (r: Result<
    CommandSpec,
    Error,
>)
    ensures
        view_result(r) == meson_build_spec(paths@, *ctx, host_path@, jobs),
{
    let j = u64_to_string(jobs);
    pkg_env(
        CommandSpec::new("meson").arg("compile").arg("-C").arg(paths.build.as_str()).arg(
            flag("-j", j.as_str()).as_str(),
        ),
        ctx,
        host_path,
    )
}

/// The build command of a CMake package.
pub fn build_cmake(paths: &PackagePaths, jobs: u64) -> (r: CommandSpec)
    ensures
        r@ == CommandSpecView::new("cmake"@).with_arg("--build"@).with_arg(paths.build@).with_arg(
            "--parallel"@,
        ).with_arg(decimal(jobs as nat)),
{
    let j = u64_to_string(jobs);
    CommandSpec::new("cmake").arg("--build").arg(paths.build.as_str()).arg("--parallel").arg(
        j.as_str(),
    )
}

/// `make` in `cwd` with extra environment entries and arguments, without
/// the cross environment.
pub fn build_make_in(cwd: &str, envs: &Vec<(String, String)>, extra_args: &Vec<String>, jobs: u64) -> (r:
    CommandSpec)
    ensures
        r@ == make_view(jobs).with_cwd(cwd@).with_envs(envs.deep_view()).with_args(
            extra_args.deep_view(),
        ),
{
    make(jobs).cwd(cwd).envs(envs).args(extra_args)
}

/// `cargo build` for the target with the cross environment.
pub open spec fn cargo_build_spec(
    paths: PackagePathsView,
    ctx: Context,
    host_path: Seq<char>,
    envs: Seq<(Seq<char>, Seq<char>)>,
    extra_args: Seq<Seq<char>>,
) -> Result<CommandSpecView, Error> {
    match target_env_spec(
        CommandSpecView::new("cargo"@).with_cwd(paths.src).with_arg("+seele"@).with_arg(
            "build"@,
        ).with_arg("--target"@).with_arg(TARGET_TRIPLE@).with_arg("--target-dir"@).with_arg(
            join_path(paths.build, "target"@),
        ),
        ctx,
        host_path,
    ) {
        Ok(t) => Ok(
            t.with_envs(envs).with_env("CARGO_TARGET_X86_64_SEELE_LINKER"@, "clang"@).with_args(
                extra_args,
            ),
        ),
        Err(e) => Err(e),
    }
}

/// The build command of a Cargo package.
pub fn build_cargo_with(
    paths: &PackagePaths,
    ctx: &Context,
    host_path: &str,
    envs: &Vec<(String, String)>,
    extra_args: &Vec<String>,
) -> (r: Result<CommandSpec, Error>)
    ensures
        view_result(r) == cargo_build_spec(
            paths@,
            *ctx,
            host_path@,
            envs.deep_view(),
            extra_args.deep_view(),
        ),
{
    let target_dir = join(paths.build.as_str(), "target");
    let t = match target_env(
        CommandSpec::new("cargo").cwd(paths.src.as_str()).arg("+seele").arg("build").arg(
            "--target",
        ).arg(TARGET_TRIPLE).arg("--target-dir").arg(target_dir.as_str()),
        ctx,
        host_path,
    ) {
        Ok(t) => t,
        Err(e) => return Err(e),
    };
    Ok(t.envs(envs).env("CARGO_TARGET_X86_64_SEELE_LINKER", "clang").args(extra_args))
}

} // verus!
