//! The configure commands of autotools, Meson and CMake builds.
use vstd::prelude::*;
use crate::command::{CommandSpec, CommandSpecView};
use crate::cross::{cross_file_text, meson_cross_file, meson_native_file, meson_native_pkg_config, meson_vala_wrapper, native_file_text, native_pkg_config_text, pkg_env, vala_wrapper_script, pkg_env_spec, target_env, target_env_spec, view_result, FileWrite, HostEnv};
use crate::error::Error;
use crate::layout::{relative_dir, spec_relative_dir, BINDIR, INCLUDEDIR, LIB_BINARY_DIR, LOCALSTATEDIR, PREFIX, SBINDIR, SYSCONFDIR};
use crate::misc::sysroot_dir;
use crate::path::{join_path, parent_path};
use crate::plan::{plan_view, push_step, steps_view, Step, StepView};
use crate::types::{Context, PackagePaths, PackagePathsView};

verus! {

/// `prefix` followed by `value`.
pub(crate) fn flag(prefix: &str, value: &str) -> (r: String)
    ensures
        r@ == prefix@ + value@,
{
    let mut r = prefix.to_string();
    r.append(value);
    r
}

/// Adds the environment entries to a command.
pub fn with_envs(spec: CommandSpec, envs: &Vec<(String, String)>) -> (r: CommandSpec)
    ensures
        r@ == spec@.with_envs(envs.deep_view()),
{
    spec.envs(envs)
}

pub open spec fn autotools_layout(s: CommandSpecView) -> CommandSpecView {
    s.with_arg("--prefix="@ + PREFIX@).with_arg("--bindir="@ + BINDIR@).with_arg(
        "--sbindir="@ + SBINDIR@,
    ).with_arg("--includedir="@ + INCLUDEDIR@).with_arg("--libdir="@ + LIB_BINARY_DIR@).with_arg(
        "--sysconfdir="@ + SYSCONFDIR@,
    ).with_arg("--localstatedir="@ + LOCALSTATEDIR@)
}

/// The install layout as `configure` arguments.
pub fn with_autotools_layout(spec: CommandSpec) -> (r: CommandSpec)
    ensures
        r@ == autotools_layout(spec@),
{
    spec.arg(flag("--prefix=", PREFIX).as_str()).arg(flag("--bindir=", BINDIR).as_str()).arg(
        flag("--sbindir=", SBINDIR).as_str(),
    ).arg(flag("--includedir=", INCLUDEDIR).as_str()).arg(
        flag("--libdir=", LIB_BINARY_DIR).as_str(),
    ).arg(flag("--sysconfdir=", SYSCONFDIR).as_str()).arg(
        flag("--localstatedir=", LOCALSTATEDIR).as_str(),
    )
}

pub open spec fn meson_layout(s: CommandSpecView) -> CommandSpecView {
    s.with_arg("--prefix="@ + PREFIX@).with_arg("--bindir="@ + spec_relative_dir(BINDIR@)).with_arg(
        "--sbindir="@ + spec_relative_dir(SBINDIR@),
    ).with_arg("--includedir="@ + spec_relative_dir(INCLUDEDIR@)).with_arg(
        "--libdir="@ + spec_relative_dir(LIB_BINARY_DIR@),
    ).with_arg("--sysconfdir="@ + SYSCONFDIR@).with_arg("--localstatedir="@ + LOCALSTATEDIR@)
}

/// The install layout as `meson setup` arguments, with directories below
/// the prefix given relative to it.
pub fn with_meson_layout(spec: CommandSpec) -> (r: CommandSpec)
    ensures
        r@ == meson_layout(spec@),
{
    spec.arg(flag("--prefix=", PREFIX).as_str()).arg(
        flag("--bindir=", relative_dir(BINDIR)).as_str(),
    ).arg(flag("--sbindir=", relative_dir(SBINDIR)).as_str()).arg(
        flag("--includedir=", relative_dir(INCLUDEDIR)).as_str(),
    ).arg(flag("--libdir=", relative_dir(LIB_BINARY_DIR)).as_str()).arg(
        flag("--sysconfdir=", SYSCONFDIR).as_str(),
    ).arg(flag("--localstatedir=", LOCALSTATEDIR).as_str())
}

pub open spec fn cmake_layout(s: CommandSpecView) -> CommandSpecView {
    s.with_arg("-DCMAKE_INSTALL_PREFIX="@ + PREFIX@).with_arg(
        "-DCMAKE_INSTALL_BINDIR="@ + BINDIR@,
    ).with_arg("-DCMAKE_INSTALL_SBINDIR="@ + SBINDIR@).with_arg(
        "-DCMAKE_INSTALL_INCLUDEDIR="@ + INCLUDEDIR@,
    ).with_arg("-DCMAKE_INSTALL_LIBDIR="@ + LIB_BINARY_DIR@).with_arg(
        "-DCMAKE_INSTALL_SYSCONFDIR="@ + SYSCONFDIR@,
    ).with_arg("-DCMAKE_INSTALL_LOCALSTATEDIR="@ + LOCALSTATEDIR@)
}

/// The install layout as CMake cache variables.
pub fn with_cmake_layout(spec: CommandSpec) -> (r: CommandSpec)
    ensures
        r@ == cmake_layout(spec@),
{
    spec.arg(flag("-DCMAKE_INSTALL_PREFIX=", PREFIX).as_str()).arg(
        flag("-DCMAKE_INSTALL_BINDIR=", BINDIR).as_str(),
    ).arg(flag("-DCMAKE_INSTALL_SBINDIR=", SBINDIR).as_str()).arg(
        flag("-DCMAKE_INSTALL_INCLUDEDIR=", INCLUDEDIR).as_str(),
    ).arg(flag("-DCMAKE_INSTALL_LIBDIR=", LIB_BINARY_DIR).as_str()).arg(
        flag("-DCMAKE_INSTALL_SYSCONFDIR=", SYSCONFDIR).as_str(),
    ).arg(flag("-DCMAKE_INSTALL_LOCALSTATEDIR=", LOCALSTATEDIR).as_str())
}

/// The `configure` command: the cross environment, the install layout, the
/// build, host and target triples, shared libraries only, then the extra
/// arguments.
pub open spec fn autotools_configure_spec(
    spec: CommandSpecView,
    ctx: Context,
    extra_args: Seq<Seq<char>>,
    extra_dynamic: Seq<Seq<char>>,
    build_triplet: Seq<char>,
    host_path: Seq<char>,
) -> Result<CommandSpecView, Error> {
    match target_env_spec(spec, ctx, host_path) {
        Ok(t) => Ok(
            autotools_layout(t).with_arg("--build="@ + build_triplet).with_arg(
                "--host=x86_64-seele"@,
            ).with_arg("--target=x86_64-seele"@).with_arg("--enable-shared"@).with_arg(
                "--disable-static"@,
            ).with_args(extra_args).with_args(extra_dynamic),
        ),
        Err(e) => Err(e),
    }
}

/// The `configure` command of an autotools source tree, given the build
/// triple of the machine and the host `PATH`.  The caller refreshes the
/// tree's GNU config files before it and fixes its `libtool` scripts after.
pub fn configure_autotools_in(
    spec: CommandSpec,
    ctx: &Context,
    extra_args: &Vec<String>,
    extra_dynamic: &Vec<String>,
    build_triplet: &str,
    host_path: &str,
) -> (r: Result<CommandSpec, Error>)
    ensures
        view_result(r) == autotools_configure_spec(
            spec@,
            *ctx,
            extra_args.deep_view(),
            extra_dynamic.deep_view(),
            build_triplet@,
            host_path@,
        ),
{
    let t = match target_env(spec, ctx, host_path) {
        Ok(t) => t,
        Err(e) => return Err(e),
    };
    Ok(
        with_autotools_layout(t).arg(flag("--build=", build_triplet).as_str()).arg(
            "--host=x86_64-seele",
        ).arg("--target=x86_64-seele").arg("--enable-shared").arg("--disable-static").args(
            extra_args,
        ).args(extra_dynamic),
    )
}

/// The `./configure` of a package's source tree with extra environment
/// entries.
pub fn configure_autotools(
    paths: &PackagePaths,
    ctx: &Context,
    envs: &Vec<(String, String)>,
    extra_args: &Vec<String>,
    extra_dynamic: &Vec<String>,
    build_triplet: &str,
    host_path: &str,
) -> (r: Result<CommandSpec, Error>)
    ensures
        view_result(r) == autotools_configure_spec(
            CommandSpecView::new("./configure"@).with_cwd(paths.src@).with_envs(envs.deep_view()),
            *ctx,
            extra_args.deep_view(),
            extra_dynamic.deep_view(),
            build_triplet@,
            host_path@,
        ),
{
    let spec = with_envs(CommandSpec::new("./configure").cwd(paths.src.as_str()), envs);
    configure_autotools_in(spec, ctx, extra_args, extra_dynamic, build_triplet, host_path)
}

/// What a Meson configure step does: write these files in order, then run
/// the command.
#[derive(Clone, Debug, PartialEq, Eq)]
pub struct MesonConfigure {
    pub files: Vec<FileWrite>,
    pub command: CommandSpec,
}

/// The `meson setup` command of a package, given the paths of its cross
/// and native files.
pub open spec fn meson_setup_spec(
    ctx: Context,
    paths: PackagePathsView,
    cross: Seq<char>,
    native: Seq<char>,
    extra_args: Seq<Seq<char>>,
    extra_dynamic: Seq<Seq<char>>,
    host_path: Seq<char>,
) -> Result<CommandSpecView, Error> {
    match pkg_env_spec(
        CommandSpecView::new("meson"@).with_arg("setup"@).with_cwd(paths.root),
        ctx,
        host_path,
    ) {
        Ok(s) => Ok(
            meson_layout(s).with_arg(paths.build).with_arg(paths.src).with_arg(
                "--cross-file="@ + cross,
            ).with_arg("--native-file="@ + native).with_arg("--buildtype=release"@).with_arg(
                "--wrap-mode=nodownload"@,
            ).with_arg("-Ddefault_library=shared"@).with_args(extra_args).with_args(extra_dynamic),
        ),
        Err(e) => Err(e),
    }
}

/// The Meson configure step of a package: the `valac`
/// wrapper (with the Vala arguments the caller found), the cross file, the
/// build-machine `pkg-config` wrapper, the wrapper again, the native file,
/// then `meson setup` in the work directory.  The caller creates the build
/// directory first.
pub fn configure_meson(
    ctx: &Context,
    paths: &PackagePaths,
    env: &HostEnv,
    vala_args: &Vec<String>,
    extra_args: &Vec<String>,
    extra_dynamic: &Vec<String>,
) -> (r: Result<MesonConfigure, Error>)
    ensures
        match r {
            Ok(m) => m.files@.len() == 5 && m.files@[0].path@ == join_path(paths.root@, "valac"@)
                && m.files@[1].path@ == join_path(paths.root@, "seele.cross"@)
                && m.files@[2].path@ == join_path(paths.root@, "build-pkg-config"@)
                && m.files@[3].path@ == join_path(paths.root@, "valac"@)
                && m.files@[4].path@ == join_path(paths.root@, "native.ini"@)
                && m.files@[3].content@ == m.files@[0].content@
                && m.files@[0].content@ == vala_wrapper_script(env.path@, vala_args.deep_view())
                + " \"$@\"\n"@ && m.files@[0].executable && m.files@[3].executable
                && m.files@[1].content@ == cross_file_text(*ctx, join_path(paths.root@, "valac"@))
                && !m.files@[1].executable
                && m.files@[2].content@ == native_pkg_config_text(*env) && m.files@[2].executable
                && m.files@[4].content@ == native_file_text(
                join_path(paths.root@, "build-pkg-config"@),
                join_path(paths.root@, "valac"@),
            ) && !m.files@[4].executable
                && meson_setup_spec(
                *ctx,
                paths@,
                join_path(paths.root@, "seele.cross"@),
                join_path(paths.root@, "native.ini"@),
                extra_args.deep_view(),
                extra_dynamic.deep_view(),
                env.path@,
            ) == Ok::<CommandSpecView, Error>(m.command@),
            Err(e) => meson_setup_spec(
                *ctx,
                paths@,
                join_path(paths.root@, "seele.cross"@),
                join_path(paths.root@, "native.ini"@),
                extra_args.deep_view(),
                extra_dynamic.deep_view(),
                env.path@,
            ) == Err::<CommandSpecView, Error>(e),
        },
{
    let base = CommandSpec::new("meson").arg("setup").cwd(paths.root.as_str());
    let s = match pkg_env(base, ctx, env.path.as_str()) {
        Ok(s) => s,
        Err(e) => return Err(e),
    };
    let vala = meson_vala_wrapper(paths, env.path.as_str(), vala_args);
    let cross = meson_cross_file(ctx, paths, vala.path.as_str());
    let pc = meson_native_pkg_config(paths, env);
    let vala2 = meson_vala_wrapper(paths, env.path.as_str(), vala_args);
    let native = meson_native_file(paths, pc.path.as_str(), vala2.path.as_str());
    let command = with_meson_layout(s).arg(paths.build.as_str()).arg(paths.src.as_str()).arg(
        flag("--cross-file=", cross.path.as_str()).as_str(),
    ).arg(flag("--native-file=", native.path.as_str()).as_str()).arg("--buildtype=release").arg(
        "--wrap-mode=nodownload",
    ).arg("-Ddefault_library=shared").args(extra_args).args(extra_dynamic);
    let mut files: Vec<FileWrite> = Vec::new();
    files.push(vala);
    files.push(cross);
    files.push(pc);
    files.push(vala2);
    files.push(native);
    Ok(MesonConfigure { files, command })
}

/// The `cmake` configure command of a package.
pub open spec fn cmake_configure_spec(
    ctx: Context,
    paths: PackagePathsView,
    extra_args: Seq<Seq<char>>,
    extra_dynamic: Seq<Seq<char>>,
    host_path: Seq<char>,
) -> Result<CommandSpecView, Error> {
    match parent_path(ctx.install_dir@) {
        None => Err(Error::InstallDirHasNoParent),
        Some(sysroot) => match pkg_env_spec(
            CommandSpecView::new("cmake"@).with_cwd(paths.root),
            ctx,
            host_path,
        ) {
            Err(e) => Err(e),
            Ok(s) => {
                let inc = ctx.include_root_dir@;
                let cinc = ctx.include_c_dir@;
                let lib = ctx.lib_binary_dir@;
                Ok(
                    cmake_layout(s).with_arg("-S"@).with_arg(paths.src).with_arg("-B"@).with_arg(
                        paths.build,
                    ).with_arg("-G"@).with_arg("Ninja"@).with_arg(
                        "-DCMAKE_BUILD_TYPE=Release"@,
                    ).with_arg("-DCMAKE_C_COMPILER=clang"@).with_arg(
                        "-DCMAKE_CXX_COMPILER=clang++"@,
                    ).with_arg("-DCMAKE_C_COMPILER_TARGET=x86_64-seele"@).with_arg(
                        "-DCMAKE_CXX_COMPILER_TARGET=x86_64-seele"@,
                    ).with_arg("-DCMAKE_ASM_COMPILER_TARGET=x86_64-seele"@).with_arg(
                        "-DCMAKE_SYSROOT="@ + sysroot,
                    ).with_arg("-DCMAKE_POSITION_INDEPENDENT_CODE=ON"@).with_arg(
                        "-DCMAKE_C_FLAGS=-fPIC -I"@ + inc + " -I"@ + cinc,
                    ).with_arg("-DCMAKE_CXX_FLAGS=-fPIC -I"@ + inc + " -I"@ + cinc).with_arg(
                        "-DCMAKE_EXE_LINKER_FLAGS=-L"@ + lib + " -Wl,-rpath-link,"@ + lib,
                    ).with_arg(
                        "-DCMAKE_SHARED_LINKER_FLAGS=-L"@ + lib + " -Wl,-rpath-link,"@ + lib,
                    ).with_arg("-DCMAKE_TRY_COMPILE_TARGET_TYPE=STATIC_LIBRARY"@).with_args(
                        extra_args,
                    ).with_args(extra_dynamic),
                )
            },
        },
    }
}

/// The steps that configure a package with `cmake`: with a sysroot, the
/// build directory is made first, then the command runs, or the workflow
/// ends with the error of its environment.
pub open spec fn cmake_configure_plan(
    ctx: Context,
    paths: PackagePathsView,
    extra_args: Seq<Seq<char>>,
    extra_dynamic: Seq<Seq<char>>,
    host_path: Seq<char>,
) -> Result<Seq<StepView>, Error> {
    match parent_path(ctx.install_dir@) {
        None => Err(Error::InstallDirHasNoParent),
        Some(_) => match cmake_configure_spec(ctx, paths, extra_args, extra_dynamic, host_path) {
            Ok(c) => Ok(seq![StepView::EnsureDir(paths.build), StepView::Run(c)]),
            Err(e) => Ok(seq![StepView::EnsureDir(paths.build), StepView::Fail(e)]),
        },
    }
}

fn flag3(a: &str, b: &str, c: &str, d: &str) -> (r: String)
    ensures
        r@ == a@ + b@ + c@ + d@,
{
    let mut r = a.to_string();
    r.append(b);
    r.append(c);
    r.append(d);
    r
}

/// The steps that configure a package with `cmake`.
pub fn configure_cmake(
    ctx: &Context,
    paths: &PackagePaths,
    host_path: &str,
    extra_args: &Vec<String>,
    extra_dynamic: &Vec<String>,
) -> (r: Result<Vec<Step>, Error>)
    ensures
        plan_view(r) == cmake_configure_plan(
            *ctx,
            paths@,
            extra_args.deep_view(),
            extra_dynamic.deep_view(),
            host_path@,
        ),
{
    let sysroot = match sysroot_dir(ctx) {
        Ok(s) => s,
        Err(e) => return Err(e),
    };
    let mut r: Vec<Step> = Vec::new();
    push_step(&mut r, Step::EnsureDir(paths.build.clone()));
    let s = match pkg_env(CommandSpec::new("cmake").cwd(paths.root.as_str()), ctx, host_path) {
        Ok(s) => s,
        Err(e) => {
            push_step(&mut r, Step::Fail(e));
            assert(steps_view(r@) =~= seq![StepView::EnsureDir(paths@.build), StepView::Fail(e)]);
            return Ok(r);
        },
    };
    let inc = ctx.include_root_dir.as_str();
    let cinc = ctx.include_c_dir.as_str();
    let lib = ctx.lib_binary_dir.as_str();
    let command = with_cmake_layout(s).arg("-S").arg(paths.src.as_str()).arg("-B").arg(
            paths.build.as_str(),
        ).arg("-G").arg("Ninja").arg("-DCMAKE_BUILD_TYPE=Release").arg(
            "-DCMAKE_C_COMPILER=clang",
        ).arg("-DCMAKE_CXX_COMPILER=clang++").arg("-DCMAKE_C_COMPILER_TARGET=x86_64-seele").arg(
            "-DCMAKE_CXX_COMPILER_TARGET=x86_64-seele",
        ).arg("-DCMAKE_ASM_COMPILER_TARGET=x86_64-seele").arg(
            flag("-DCMAKE_SYSROOT=", sysroot.as_str()).as_str(),
        ).arg("-DCMAKE_POSITION_INDEPENDENT_CODE=ON").arg(
            flag3("-DCMAKE_C_FLAGS=-fPIC -I", inc, " -I", cinc).as_str(),
        ).arg(flag3("-DCMAKE_CXX_FLAGS=-fPIC -I", inc, " -I", cinc).as_str()).arg(
            flag3("-DCMAKE_EXE_LINKER_FLAGS=-L", lib, " -Wl,-rpath-link,", lib).as_str(),
        ).arg(flag3("-DCMAKE_SHARED_LINKER_FLAGS=-L", lib, " -Wl,-rpath-link,", lib).as_str()).arg(
            "-DCMAKE_TRY_COMPILE_TARGET_TYPE=STATIC_LIBRARY",
        ).args(extra_args).args(extra_dynamic);
    let ghost cv = command@;
    push_step(&mut r, Step::Run(command));
    assert(steps_view(r@) =~= seq![StepView::EnsureDir(paths@.build), StepView::Run(cv)]);
    Ok(r)
}

} // verus!
