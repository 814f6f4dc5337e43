//! The clang compiler for SeeleOS, built from a local llvm-project tree
//! with the host LLVM's tools.
use vstd::prelude::*;
use crate::building::build_cmake;
use crate::command::{CommandSpec, CommandSpecView};
use crate::configure::{cmake_layout, flag, with_cmake_layout};
use crate::cross::{pkg_env, pkg_env_of};
use crate::error::Error;
use crate::misc::sysroot_dir;
use crate::path::{join, join_path, parent, parent_path};
use crate::plan::{plan_view, push_step, steps_view, Step, StepView};
use crate::types::{Context, PackagePaths, PackagePathsView, paths_of};

verus! {

/// The target triple of the compiler that is built.
pub const LLVM_TARGET_TRIPLE: &'static str = "x86_64-unknown-seele";

/// The generator, build type, system, compilers and target triples of the LLVM build.
pub open spec fn clang_toolchain_args_of() -> Seq<Seq<char>> {
    seq![
        "-G"@,
        "Ninja"@,
        "-DCMAKE_BUILD_TYPE=Release"@,
        "-DCMAKE_SYSTEM_NAME=Seele"@,
        "-DCMAKE_C_COMPILER=clang"@,
        "-DCMAKE_CXX_COMPILER=clang++"@,
        "-DCMAKE_C_COMPILER_TARGET=x86_64-seele"@,
        "-DCMAKE_CXX_COMPILER_TARGET=x86_64-seele"@,
        "-DCMAKE_ASM_COMPILER_TARGET=x86_64-seele"@,
    ]
}

/// The generator, build type, system, compilers and target triples of the LLVM build.
pub fn clang_toolchain_args() -> (r: Vec<String>)
    ensures
        r.deep_view() == clang_toolchain_args_of(),
{
    let mut r: Vec<String> = Vec::new();
    r.push("-G".to_string());
    r.push("Ninja".to_string());
    r.push("-DCMAKE_BUILD_TYPE=Release".to_string());
    r.push("-DCMAKE_SYSTEM_NAME=Seele".to_string());
    r.push("-DCMAKE_C_COMPILER=clang".to_string());
    r.push("-DCMAKE_CXX_COMPILER=clang++".to_string());
    r.push("-DCMAKE_C_COMPILER_TARGET=x86_64-seele".to_string());
    r.push("-DCMAKE_CXX_COMPILER_TARGET=x86_64-seele".to_string());
    r.push("-DCMAKE_ASM_COMPILER_TARGET=x86_64-seele".to_string());
    assert(r.deep_view() =~= clang_toolchain_args_of());
    r
}

/// What of LLVM and clang is built, and the defaults of the built compiler.
pub open spec fn clang_llvm_args_of() -> Seq<Seq<char>> {
    seq![
        "-DLLVM_ENABLE_PROJECTS=clang"@,
        "-DLLVM_TARGETS_TO_BUILD=X86"@,
        "-DLLVM_BUILD_TOOLS=ON"@,
        "-DLLVM_INCLUDE_TESTS=OFF"@,
        "-DLLVM_INCLUDE_EXAMPLES=OFF"@,
        "-DLLVM_INCLUDE_BENCHMARKS=OFF"@,
        "-DLLVM_INCLUDE_UTILS=OFF"@,
        "-DLLVM_ENABLE_BACKTRACES=OFF"@,
        "-DLLVM_ENABLE_BINDINGS=OFF"@,
        "-DLLVM_ENABLE_LIBEDIT=OFF"@,
        "-DLLVM_ENABLE_LIBXML2=OFF"@,
        "-DLLVM_ENABLE_ZLIB=OFF"@,
        "-DLLVM_ENABLE_ZSTD=OFF"@,
        "-DCLANG_BUILD_TOOLS=ON"@,
        "-DCLANG_ENABLE_STATIC_ANALYZER=OFF"@,
        "-DCLANG_ENABLE_OBJC_REWRITER=OFF"@,
        "-DLLVM_DEFAULT_TARGET_TRIPLE=x86_64-unknown-seele"@,
        "-DCLANG_DEFAULT_CXX_STDLIB=libc++"@,
        "-DCLANG_DEFAULT_RTLIB=compiler-rt"@,
        "-DCLANG_DEFAULT_UNWINDLIB=libunwind"@,
        "-DDEFAULT_SYSROOT=/"@,
    ]
}

/// What of LLVM and clang is built, and the defaults of the built compiler.
pub fn clang_llvm_args() -> (r: Vec<String>)
    ensures
        r.deep_view() == clang_llvm_args_of(),
{
    let mut r: Vec<String> = Vec::new();
    r.push("-DLLVM_ENABLE_PROJECTS=clang".to_string());
    r.push("-DLLVM_TARGETS_TO_BUILD=X86".to_string());
    r.push("-DLLVM_BUILD_TOOLS=ON".to_string());
    r.push("-DLLVM_INCLUDE_TESTS=OFF".to_string());
    r.push("-DLLVM_INCLUDE_EXAMPLES=OFF".to_string());
    r.push("-DLLVM_INCLUDE_BENCHMARKS=OFF".to_string());
    r.push("-DLLVM_INCLUDE_UTILS=OFF".to_string());
    r.push("-DLLVM_ENABLE_BACKTRACES=OFF".to_string());
    r.push("-DLLVM_ENABLE_BINDINGS=OFF".to_string());
    r.push("-DLLVM_ENABLE_LIBEDIT=OFF".to_string());
    r.push("-DLLVM_ENABLE_LIBXML2=OFF".to_string());
    r.push("-DLLVM_ENABLE_ZLIB=OFF".to_string());
    r.push("-DLLVM_ENABLE_ZSTD=OFF".to_string());
    r.push("-DCLANG_BUILD_TOOLS=ON".to_string());
    r.push("-DCLANG_ENABLE_STATIC_ANALYZER=OFF".to_string());
    r.push("-DCLANG_ENABLE_OBJC_REWRITER=OFF".to_string());
    r.push("-DLLVM_DEFAULT_TARGET_TRIPLE=x86_64-unknown-seele".to_string());
    r.push("-DCLANG_DEFAULT_CXX_STDLIB=libc++".to_string());
    r.push("-DCLANG_DEFAULT_RTLIB=compiler-rt".to_string());
    r.push("-DCLANG_DEFAULT_UNWINDLIB=libunwind".to_string());
    r.push("-DDEFAULT_SYSROOT=/".to_string());
    assert(r.deep_view() =~= clang_llvm_args_of());
    r
}

/// The project directory: the parent of the packages directory.
pub fn project_root(ctx: &Context) -> (r: Result<String, Error>)
    ensures
        match parent_path(ctx.packages_root@) {
            Some(p) => r matches Ok(s) && s@ == p,
            None => r == Err::<String, Error>(Error::PackagesDirHasNoParent),
        },
{
    match parent(ctx.packages_root.as_str()) {
        Some(p) => Ok(p),
        None => Err(Error::PackagesDirHasNoParent),
    }
}

/// Where the llvm-project sources are expected: `toolchain/llvm-project`
/// in the project.
pub open spec fn llvm_source_dir_of(project: Seq<char>) -> Seq<char> {
    join_path(join_path(project, "toolchain"@), "llvm-project"@)
}

/// Where the host LLVM toolchain is expected: `.llvm` in the project.
pub open spec fn llvm_prefix_dir_of(project: Seq<char>) -> Seq<char> {
    join_path(project, ".llvm"@)
}

/// Where the llvm-project sources are expected.
pub fn llvm_source_dir(ctx: &Context) -> (r: Result<String, Error>)
    ensures
        match parent_path(ctx.packages_root@) {
            Some(p) => r matches Ok(s) && s@ == llvm_source_dir_of(p),
            None => r == Err::<String, Error>(Error::PackagesDirHasNoParent),
        },
{
    let root = match project_root(ctx) {
        Ok(r) => r,
        Err(e) => return Err(e),
    };
    Ok(join(join(root.as_str(), "toolchain").as_str(), "llvm-project"))
}

/// The llvm-project sources, given whether
/// `llvm/CMakeLists.txt` is a file in the expected place.
pub fn llvm_source_root(ctx: &Context, cmake_lists_found: bool) -> (r: Result<String, Error>)
    ensures
        match parent_path(ctx.packages_root@) {
            Some(p) => if cmake_lists_found {
                r matches Ok(s) && s@ == llvm_source_dir_of(p)
            } else {
                r matches Err(Error::LlvmSourceMissing(s)) && s@ == llvm_source_dir_of(p)
            },
            None => r == Err::<String, Error>(Error::PackagesDirHasNoParent),
        },
{
    let source = match llvm_source_dir(ctx) {
        Ok(s) => s,
        Err(e) => return Err(e),
    };
    if cmake_lists_found {
        Ok(source)
    } else {
        Err(Error::LlvmSourceMissing(source))
    }
}

/// Where the host LLVM toolchain is expected.
pub fn llvm_prefix_dir(ctx: &Context) -> (r: Result<String, Error>)
    ensures
        match parent_path(ctx.packages_root@) {
            Some(p) => r matches Ok(s) && s@ == llvm_prefix_dir_of(p),
            None => r == Err::<String, Error>(Error::PackagesDirHasNoParent),
        },
{
    let root = match project_root(ctx) {
        Ok(r) => r,
        Err(e) => return Err(e),
    };
    Ok(join(root.as_str(), ".llvm"))
}

/// The host LLVM toolchain, given whether `bin/clang`
/// exists in the expected place.
pub fn llvm_prefix(ctx: &Context, clang_found: bool) -> (r: Result<String, Error>)
    ensures
        match parent_path(ctx.packages_root@) {
            Some(p) => if clang_found {
                r matches Ok(s) && s@ == llvm_prefix_dir_of(p)
            } else {
                r matches Err(Error::LlvmPrefixMissing(s)) && s@ == llvm_prefix_dir_of(p)
            },
            None => r == Err::<String, Error>(Error::PackagesDirHasNoParent),
        },
{
    let prefix = match llvm_prefix_dir(ctx) {
        Ok(s) => s,
        Err(e) => return Err(e),
    };
    if clang_found {
        Ok(prefix)
    } else {
        Err(Error::LlvmPrefixMissing(prefix))
    }
}

/// The host LLVM's libraries for the target, which the build uses when
/// they exist.
pub open spec fn target_lib_dir_of(prefix: Seq<char>) -> Seq<char> {
    join_path(join_path(prefix, "lib"@), LLVM_TARGET_TRIPLE@)
}

/// The host LLVM's libraries for the target.
pub fn target_lib_dir(prefix: &str) -> (r: String)
    ensures
        r@ == target_lib_dir_of(prefix@),
{
    join(join(prefix, "lib").as_str(), LLVM_TARGET_TRIPLE)
}

/// The C flags of the build: position-independent code and the staged
/// headers.
pub open spec fn clang_c_flags(ctx: Context) -> Seq<char> {
    "-fPIC -I"@ + ctx.include_root_dir@ + " -I"@ + ctx.include_c_dir@
}

/// The C++ flags of the build: the host LLVM's C++ headers, generic and for
/// the target, before the staged headers.
pub open spec fn clang_cxx_flags(ctx: Context, prefix: Seq<char>) -> Seq<char> {
    let headers = join_path(prefix, "include"@);
    let generic = join_path(join_path(headers, "c++"@), "v1"@);
    let target = join_path(join_path(join_path(headers, LLVM_TARGET_TRIPLE@), "c++"@), "v1"@);
    "-fPIC -nostdinc++ -I"@ + generic + " -I"@ + target + " -I"@ + ctx.include_root_dir@ + " -I"@
        + ctx.include_c_dir@
}

/// The linker flags of the build: the staged libraries, then the host
/// LLVM's libraries for the target.
pub open spec fn clang_link_flags(ctx: Context, prefix: Seq<char>) -> Seq<char> {
    let t = target_lib_dir_of(prefix);
    "-L"@ + ctx.lib_binary_dir@ + " -Wl,-rpath-link,"@ + ctx.lib_binary_dir@ + " -L"@ + t
        + " -Wl,-rpath-link,"@ + t
}

/// The `cmake` arguments of the build that depend on its directories.
pub open spec fn clang_dir_args(
    ctx: Context,
    paths: PackagePathsView,
    sysroot: Seq<char>,
    prefix: Seq<char>,
) -> Seq<Seq<char>> {
    seq![
        "-S"@,
        join_path(paths.src, "llvm"@),
        "-B"@,
        paths.build,
    ] + clang_toolchain_args_of() + seq![
        "-DCMAKE_SYSROOT="@ + sysroot,
        "-DCMAKE_TRY_COMPILE_TARGET_TYPE=STATIC_LIBRARY"@,
        "-DCMAKE_C_FLAGS="@ + clang_c_flags(ctx),
        "-DCMAKE_CXX_FLAGS="@ + clang_cxx_flags(ctx, prefix),
        "-DCMAKE_EXE_LINKER_FLAGS="@ + clang_link_flags(ctx, prefix),
        "-DCMAKE_SHARED_LINKER_FLAGS="@ + clang_link_flags(ctx, prefix),
    ]
}

/// The host tools that the build runs, and the host LLVM's libraries for
/// the target when they exist.
pub open spec fn clang_tool_args(prefix: Seq<char>, target_lib_found: bool) -> Seq<Seq<char>> {
    let bin = join_path(prefix, "bin"@);
    let tools = seq![
        "-DLLVM_NATIVE_TOOL_DIR="@ + bin,
        "-DLLVM_TABLEGEN="@ + join_path(bin, "llvm-tblgen"@),
        "-DCLANG_TABLEGEN="@ + join_path(bin, "clang-tblgen"@),
    ];
    if target_lib_found {
        tools.push("-DCMAKE_PREFIX_PATH="@ + target_lib_dir_of(prefix))
    } else {
        tools
    }
}

/// The `cmake` command that configures clang, given the project root, the
/// sysroot and the host LLVM's prefix.
pub open spec fn clang_configure_command(
    ctx: Context,
    project: Seq<char>,
    sysroot: Seq<char>,
    prefix: Seq<char>,
    target_lib_found: bool,
    host_path: Seq<char>,
) -> CommandSpecView {
    let paths = paths_of(ctx, "clang"@);
    let base = pkg_env_of(
        CommandSpecView::new("cmake"@).with_cwd(paths.root),
        ctx,
        join_path(project, ".llvm/bin"@),
        sysroot,
        host_path,
    );
    cmake_layout(base).with_args(clang_dir_args(ctx, paths, sysroot, prefix)).with_args(
        clang_llvm_args_of(),
    ).with_args(clang_tool_args(prefix, target_lib_found))
}

/// The steps that configure clang once the project root, the sysroot and
/// the host LLVM's prefix are known: the build directory, then the `cmake`
/// command.
pub open spec fn clang_configure_steps_of(
    ctx: Context,
    project: Seq<char>,
    sysroot: Seq<char>,
    prefix: Seq<char>,
    target_lib_found: bool,
    host_path: Seq<char>,
) -> Seq<StepView> {
    seq![
        StepView::EnsureDir(paths_of(ctx, "clang"@).build),
        StepView::Run(clang_configure_command(ctx, project, sysroot, prefix, target_lib_found, host_path)),
    ]
}

/// `a`, `b` and `c` one after the other.
fn cat3(a: &str, b: &str, c: &str) -> (r: String)
    ensures
        r@ == a@ + b@ + c@,
{
    let mut r = a.to_string();
    r.append(b);
    r.append(c);
    r
}

/// The `cmake` arguments of the build that depend on its directories.
fn clang_dir_arg_list(ctx: &Context, paths: &PackagePaths, sysroot: &str, prefix: &str) -> (r: Vec<String>)
    ensures
        r.deep_view() == clang_dir_args(*ctx, paths@, sysroot@, prefix@),
{
    let headers = join(prefix, "include");
    let generic = join(join(headers.as_str(), "c++").as_str(), "v1");
    let target = join(
        join(join(headers.as_str(), LLVM_TARGET_TRIPLE).as_str(), "c++").as_str(),
        "v1",
    );
    let tl = target_lib_dir(prefix);
    let c_flags = cat3("-fPIC -I", ctx.include_root_dir.as_str(), " -I");
    let mut c_flags = c_flags;
    c_flags.append(ctx.include_c_dir.as_str());
    let mut cxx = cat3("-fPIC -nostdinc++ -I", generic.as_str(), " -I");
    cxx.append(target.as_str());
    cxx.append(" -I");
    cxx.append(ctx.include_root_dir.as_str());
    cxx.append(" -I");
    cxx.append(ctx.include_c_dir.as_str());
    let mut link = cat3("-L", ctx.lib_binary_dir.as_str(), " -Wl,-rpath-link,");
    link.append(ctx.lib_binary_dir.as_str());
    link.append(" -L");
    link.append(tl.as_str());
    link.append(" -Wl,-rpath-link,");
    link.append(tl.as_str());
    let mut r: Vec<String> = Vec::new();
    r.push("-S".to_string());
    r.push(join(paths.src.as_str(), "llvm"));
    r.push("-B".to_string());
    r.push(paths.build.clone());
    let mut fixed = clang_toolchain_args();
    r.append(&mut fixed);
    r.push(flag("-DCMAKE_SYSROOT=", sysroot));
    r.push("-DCMAKE_TRY_COMPILE_TARGET_TYPE=STATIC_LIBRARY".to_string());
    r.push(flag("-DCMAKE_C_FLAGS=", c_flags.as_str()));
    r.push(flag("-DCMAKE_CXX_FLAGS=", cxx.as_str()));
    r.push(flag("-DCMAKE_EXE_LINKER_FLAGS=", link.as_str()));
    r.push(flag("-DCMAKE_SHARED_LINKER_FLAGS=", link.as_str()));
    assert(r.deep_view() =~= clang_dir_args(*ctx, paths@, sysroot@, prefix@));
    r
}

/// The host tools that the build runs.
fn clang_tool_arg_list(prefix: &str, target_lib_found: bool) -> (r: Vec<String>)
    ensures
        r.deep_view() == clang_tool_args(prefix@, target_lib_found),
{
    let bin = join(prefix, "bin");
    let mut r: Vec<String> = Vec::new();
    r.push(flag("-DLLVM_NATIVE_TOOL_DIR=", bin.as_str()));
    r.push(flag("-DLLVM_TABLEGEN=", join(bin.as_str(), "llvm-tblgen").as_str()));
    r.push(flag("-DCLANG_TABLEGEN=", join(bin.as_str(), "clang-tblgen").as_str()));
    if target_lib_found {
        r.push(flag("-DCMAKE_PREFIX_PATH=", target_lib_dir(prefix).as_str()));
    }
    assert(r.deep_view() =~= clang_tool_args(prefix@, target_lib_found));
    r
}

/// The package `clang`.
pub struct Clang;

impl Clang {
    /// The package's name.
    pub fn name(&self) -> (r: &'static str)
        ensures
            r@ == "clang"@,
    {
        "clang"
    }

    /// The steps that copy the llvm-project sources into the package's
    /// source directory, given where they are.
    pub fn fetch(&self, ctx: &Context, source_root: &str) -> (r: Vec<Step>)
        ensures
            steps_view(r@) == seq![
                StepView::EnsureDir(paths_of(*ctx, "clang"@).root),
                StepView::EnsureDir(paths_of(*ctx, "clang"@).src),
                StepView::Run(
                    CommandSpecView::new("rsync"@).with_arg("-a"@).with_arg("--delete"@).with_arg(
                        "--exclude=.git"@,
                    ).with_arg("--exclude=build"@).with_arg("--exclude=build-*"@).with_arg(
                        source_root@ + "/"@,
                    ).with_arg(paths_of(*ctx, "clang"@).src + "/"@),
                ),
            ],
    {
        let paths = PackagePaths::calc(ctx, "clang");
        let mut r: Vec<Step> = Vec::new();
        push_step(&mut r, Step::EnsureDir(paths.root.clone()));
        push_step(&mut r, Step::EnsureDir(paths.src.clone()));
        push_step(
            &mut r,
            Step::Run(
                CommandSpec::new("rsync").arg("-a").arg("--delete").arg("--exclude=.git").arg(
                    "--exclude=build",
                ).arg("--exclude=build-*").arg(flag(source_root, "/").as_str()).arg(
                    flag(paths.src.as_str(), "/").as_str(),
                ),
            ),
        );
        r
    }

    /// The steps that configure the build, given whether the host LLVM's
    /// `bin/clang` exists, whether its libraries for the target exist, and
    /// the host `PATH`: without a sysroot, a project root or the host
    /// toolchain nothing is done and the error is returned.
    pub fn configure(&self, ctx: &Context, clang_found: bool, target_lib_found: bool, host_path: &str) -> (r:
        Result<Vec<Step>, Error>)
        ensures
            match (parent_path(ctx.install_dir@), parent_path(ctx.packages_root@)) {
                (None, _) => r == Err::<Vec<Step>, Error>(Error::InstallDirHasNoParent),
                (Some(_), None) => r == Err::<Vec<Step>, Error>(Error::PackagesDirHasNoParent),
                (Some(sysroot), Some(p)) => if clang_found {
                    plan_view(r) == Ok::<Seq<StepView>, Error>(
                        clang_configure_steps_of(*ctx, p, sysroot, llvm_prefix_dir_of(p), target_lib_found, host_path@),
                    )
                } else {
                    r matches Err(Error::LlvmPrefixMissing(s)) && s@ == llvm_prefix_dir_of(p)
                },
            },
    {
        let paths = PackagePaths::calc(ctx, "clang");
        let sysroot = match sysroot_dir(ctx) {
            Ok(s) => s,
            Err(e) => return Err(e),
        };
        let prefix = match llvm_prefix(ctx, clang_found) {
            Ok(p) => p,
            Err(e) => return Err(e),
        };
        let p = prefix.as_str();
        let mut r: Vec<Step> = Vec::new();
        push_step(&mut r, Step::EnsureDir(paths.build.clone()));
        // Both parent directories were found above, so the build environment
        // is always there.
        let base = match pkg_env(CommandSpec::new("cmake").cwd(paths.root.as_str()), ctx, host_path) {
            Ok(s) => s,
            Err(e) => return Err(e),
        };
        let dir_args = clang_dir_arg_list(ctx, &paths, sysroot.as_str(), p);
        let command = with_cmake_layout(base).args(&dir_args).args(&clang_llvm_args()).args(
            &clang_tool_arg_list(p, target_lib_found),
        );
        let ghost cv = command@;
        push_step(&mut r, Step::Run(command));
        assert(steps_view(r@) =~= seq![StepView::EnsureDir(paths@.build), StepView::Run(cv)]);
        Ok(r)
    }

    /// The build command.
    pub fn build(&self, ctx: &Context, jobs: u64) -> (r: CommandSpec)
        ensures
            r@ == CommandSpecView::new("cmake"@).with_arg("--build"@).with_arg(
                paths_of(*ctx, "clang"@).build,
            ).with_arg("--parallel"@).with_arg(crate::text::decimal(jobs as nat)),
    {
        let paths = PackagePaths::calc(ctx, "clang");
        build_cmake(&paths, jobs)
    }
}

} // verus!
