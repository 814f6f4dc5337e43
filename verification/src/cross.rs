//! The cross-compilation environment for the `x86_64-seele` target:
//! environment variables of build commands, and the files that Meson reads.
use vstd::prelude::*;
use crate::command::{CommandSpec, CommandSpecView, EnvEffect};
use crate::error::Error;
use crate::misc::sysroot_dir;
use crate::path::{join, join_path, parent, parent_path};
use crate::text::{
    chars_of, find_char, find_char_from, join_seq, lemma_find_char_bounds, replace, replace_seq,
    slice_chars, string_of, trim, trim_seq,
};
use crate::types::{Context, PackagePaths};

verus! {

/// The target triple.
pub const TARGET_TRIPLE: &'static str = "x86_64-seele";

/// What the tool reads of its own environment.
#[derive(Clone, Debug, PartialEq, Eq)]
pub struct HostEnv {
    /// `PATH`, empty when unset.
    pub path: String,
    /// `XDG_DATA_DIRS`, if set.
    pub xdg_data_dirs: Option<String>,
    /// `PKG_CONFIG_PATH`, empty when unset.
    pub pkg_config_path: String,
    /// `PKG_CONFIG_LIBDIR`, empty when unset.
    pub pkg_config_libdir: String,
    /// `PKG_CONFIG_PATH_FOR_TARGET`, empty when unset.
    pub pkg_config_path_for_target: String,
    /// `PKG_CONFIG_SYSROOT_DIR`, empty when unset.
    pub pkg_config_sysroot_dir: String,
    /// The number of parallel jobs (the machine's available parallelism).
    pub jobs: u64,
}

/// A file to write.
#[derive(Clone, Debug, PartialEq, Eq)]
pub struct FileWrite {
    pub path: String,
    pub content: String,
    /// Whether the file is made executable (mode 0755).
    pub executable: bool,
}

/// A value quoted for a Meson array: backslashes and single quotes escaped.
pub open spec fn meson_quoted(v: Seq<char>) -> Seq<char> {
    "'"@ + replace_seq(replace_seq(v, "\\"@, "\\\\"@), "'"@, "\\'"@) + "'"@
}

/// A Meson array of quoted strings.
pub open spec fn meson_array_of(values: Seq<Seq<char>>) -> Seq<char> {
    "["@ + join_seq(values.map_values(|v: Seq<char>| meson_quoted(v)), ", "@) + "]"@
}

fn meson_quote(v: &str) -> (r: String)
    ensures
        r@ == meson_quoted(v@),
{
    proof {
        reveal_strlit("\\");
        reveal_strlit("'");
    }
    let a = replace(v, "\\", "\\\\");
    let b = replace(a.as_str(), "'", "\\'");
    let mut r = "'".to_string();
    r.append(b.as_str());
    r.append("'");
    r
}

/// A Meson array literal holding the values.
pub fn meson_array(values: &Vec<String>) -> (r: String)
    ensures
        r@ == meson_array_of(values.deep_view()),
{
    let ghost vals = values.deep_view();
    let mut body = String::new();
    let mut i: usize = 0;
    while i < values.len()
        invariant
            i <= values@.len(),
            vals == values.deep_view(),
            body@ == join_seq(
                vals.take(i as int).map_values(|v: Seq<char>| meson_quoted(v)),
                ", "@,
            ),
        decreases values@.len() - i,
    {
        let ghost q = vals.take(i + 1).map_values(|v: Seq<char>| meson_quoted(v));
        assert(q.drop_last() =~= vals.take(i as int).map_values(|v: Seq<char>| meson_quoted(v)));
        assert(q.last() == meson_quoted(values@[i as int]@));
        if i > 0 {
            body.append(", ");
        }
        let quoted = meson_quote(values[i].as_str());
        body.append(quoted.as_str());
        if i == 0 {
            assert(body@ =~= q[0]);
        }
        i = i + 1;
    }
    assert(vals.take(values@.len() as int) =~= vals);
    let mut r = "[".to_string();
    r.append(body.as_str());
    r.append("]");
    r
}

/// The pieces of `s` between `:` separators (`env::split_paths` on Unix).
pub open spec fn split_colon_from(s: Seq<char>, i: int) -> Seq<Seq<char>>
    decreases s.len() - i,
{
    if i < 0 || i > s.len() {
        seq![]
    } else {
        let e = find_char_from(s, ':', i);
        proof {
            lemma_find_char_bounds(s, ':', i);
        }
        if e >= s.len() {
            seq![s.subrange(i, s.len() as int)]
        } else {
            seq![s.subrange(i, e)] + split_colon_from(s, e + 1)
        }
    }
}

/// The directories of a search path (`env::split_paths`).
pub fn split_paths(s: &str) -> (r: Vec<String>)
    ensures
        r.deep_view() == split_colon_from(s@, 0),
{
    let v = chars_of(s);
    let mut out: Vec<String> = Vec::new();
    let mut i: usize = 0;
    loop
        invariant
            i <= v@.len(),
            v@ == s@,
            out.deep_view() + split_colon_from(v@, i as int) == split_colon_from(v@, 0),
        decreases v@.len() - i,
    {
        let e = find_char(&v, ':', i);
        proof {
            lemma_find_char_bounds(v@, ':', i as int);
        }
        let piece = slice_chars(&v, i, e);
        let ghost before = out.deep_view();
        out.push(string_of(&piece));
        if e == v.len() {
            assert(before + split_colon_from(v@, i as int) =~= out.deep_view());
            return out;
        }
        assert(before + split_colon_from(v@, i as int) =~= out.deep_view() + split_colon_from(
            v@,
            e + 1,
        ));
        i = e + 1;
    }
}

/// The candidate directories for Vala, as (flag, directory) in the order of
/// their arguments: the staged VAPI directories, then `vala/vapi` and
/// `gir-1.0` below each directory of `XDG_DATA_DIRS`.
pub open spec fn vala_candidates_of(ctx: Context, xdg: Option<Seq<char>>) -> Seq<
    (Seq<char>, Seq<char>),
> {
    let dirs = match xdg {
        Some(x) => split_colon_from(x, 0),
        None => seq![],
    };
    seq![
        ("--vapidir"@, join_path(ctx.staging_sysroot_dir@, "share/vala/vapi"@)),
        ("--vapidir"@, join_path(ctx.staging_sysroot_dir@, "libs/lib_binaries/vapi"@)),
    ] + dirs.map_values(|d: Seq<char>| ("--vapidir"@, join_path(d, "vala/vapi"@)))
        + dirs.map_values(|d: Seq<char>| ("--girdir"@, join_path(d, "gir-1.0"@)))
}

/// The candidate directories for Vala's arguments.
pub fn vala_candidates(ctx: &Context, xdg_data_dirs: &Option<String>) -> (r: Vec<(String, String)>)
    ensures
        r.deep_view() == vala_candidates_of(*ctx, xdg_data_dirs.deep_view()),
{
    let dirs = match xdg_data_dirs {
        Some(x) => split_paths(x.as_str()),
        None => Vec::new(),
    };
    let ghost dv = dirs.deep_view();
    assert(dv == match xdg_data_dirs.deep_view() {
        Some(x) => split_colon_from(x, 0),
        None => seq![],
    }) by {
        if xdg_data_dirs.is_none() {
            assert(dv =~= Seq::<Seq<char>>::empty());
        }
    }
    let mut out: Vec<(String, String)> = Vec::new();
    out.push(("--vapidir".to_string(), join(ctx.staging_sysroot_dir.as_str(), "share/vala/vapi")));
    out.push(
        ("--vapidir".to_string(), join(ctx.staging_sysroot_dir.as_str(), "libs/lib_binaries/vapi")),
    );
    let ghost head = out.deep_view();
    let mut i: usize = 0;
    while i < dirs.len()
        invariant
            i <= dirs@.len(),
            dv == dirs.deep_view(),
            out.deep_view() == head + dv.take(i as int).map_values(
                |d: Seq<char>| ("--vapidir"@, join_path(d, "vala/vapi"@)),
            ),
        decreases dirs@.len() - i,
    {
        let ghost before = out.deep_view();
        out.push(("--vapidir".to_string(), join(dirs[i].as_str(), "vala/vapi")));
        assert(out.deep_view() =~= before.push(("--vapidir"@, join_path(dv[i as int], "vala/vapi"@))));
        assert(dv.take(i + 1).map_values(|d: Seq<char>| ("--vapidir"@, join_path(d, "vala/vapi"@)))
            =~= dv.take(i as int).map_values(
            |d: Seq<char>| ("--vapidir"@, join_path(d, "vala/vapi"@)),
        ).push(("--vapidir"@, join_path(dv[i as int], "vala/vapi"@))));
        i = i + 1;
    }
    assert(dv.take(dirs@.len() as int) =~= dv);
    let ghost mid = out.deep_view();
    let mut k: usize = 0;
    while k < dirs.len()
        invariant
            k <= dirs@.len(),
            dv == dirs.deep_view(),
            out.deep_view() == mid + dv.take(k as int).map_values(
                |d: Seq<char>| ("--girdir"@, join_path(d, "gir-1.0"@)),
            ),
        decreases dirs@.len() - k,
    {
        let ghost before = out.deep_view();
        out.push(("--girdir".to_string(), join(dirs[k].as_str(), "gir-1.0")));
        assert(out.deep_view() =~= before.push(("--girdir"@, join_path(dv[k as int], "gir-1.0"@))));
        assert(dv.take(k + 1).map_values(|d: Seq<char>| ("--girdir"@, join_path(d, "gir-1.0"@)))
            =~= dv.take(k as int).map_values(
            |d: Seq<char>| ("--girdir"@, join_path(d, "gir-1.0"@)),
        ).push(("--girdir"@, join_path(dv[k as int], "gir-1.0"@))));
        k = k + 1;
    }
    assert(dv.take(dirs@.len() as int) =~= dv);
    assert(head =~= seq![
        ("--vapidir"@, join_path(ctx.staging_sysroot_dir@, "share/vala/vapi"@)),
        ("--vapidir"@, join_path(ctx.staging_sysroot_dir@, "libs/lib_binaries/vapi"@)),
    ]);
    out
}

/// `flag=dir` for each candidate whose directory exists, in order.
pub open spec fn existing_dir_args_of(cands: Seq<(Seq<char>, Seq<char>)>, is_dir: Seq<bool>) -> Seq<
    Seq<char>,
>
    decreases cands.len(),
{
    if cands.len() == 0 || is_dir.len() != cands.len() {
        seq![]
    } else if is_dir.last() {
        existing_dir_args_of(cands.drop_last(), is_dir.drop_last()).push(
            cands.last().0 + "="@ + cands.last().1,
        )
    } else {
        existing_dir_args_of(cands.drop_last(), is_dir.drop_last())
    }
}

/// `flag=dir` for each candidate whose directory exists (`is_dir[i]` tells
/// for `cands[i]`), in order.
pub fn existing_dir_args(cands: &Vec<(String, String)>, is_dir: &Vec<bool>) -> (r: Vec<String>)
    requires
        cands@.len() == is_dir@.len(),
    ensures
        r.deep_view() == existing_dir_args_of(cands.deep_view(), is_dir@),
{
    let mut out: Vec<String> = Vec::new();
    let mut i: usize = 0;
    while i < cands.len()
        invariant
            i <= cands@.len(),
            cands@.len() == is_dir@.len(),
            out.deep_view() == existing_dir_args_of(
                cands.deep_view().take(i as int),
                is_dir@.take(i as int),
            ),
        decreases cands@.len() - i,
    {
        assert(cands.deep_view().take(i + 1).drop_last() =~= cands.deep_view().take(i as int));
        assert(is_dir@.take(i + 1).drop_last() =~= is_dir@.take(i as int));
        assert(cands.deep_view().take(i + 1).last() == cands.deep_view()[i as int]);
        if is_dir[i] {
            let ghost before = out.deep_view();
            let mut a = cands[i].0.clone();
            a.append("=");
            a.append(cands[i].1.as_str());
            out.push(a);
            assert(out.deep_view() =~= before.push(a@));
        }
        i = i + 1;
    }
    assert(cands.deep_view().take(cands@.len() as int) =~= cands.deep_view());
    assert(is_dir@.take(cands@.len() as int) =~= is_dir@);
    out
}

/// A value quoted for a POSIX shell single-quoted string.
pub open spec fn sh_single_quoted(v: Seq<char>) -> Seq<char> {
    replace_seq(v, "'"@, "'\"'\"'"@)
}

/// The `valac` wrapper script: runs `valac` with the host `PATH` and the
/// given arguments before those of the caller.
pub open spec fn vala_wrapper_script(host_path: Seq<char>, args: Seq<Seq<char>>) -> Seq<char>
    decreases args.len(),
{
    if args.len() == 0 {
        "#!/bin/sh\nexec env PATH='"@ + sh_single_quoted(host_path) + "' valac"@
    } else {
        vala_wrapper_script(host_path, args.drop_last()) + " '"@ + sh_single_quoted(args.last())
            + "'"@
    }
}

/// The `valac` wrapper of a package, written to `valac` in its work
/// directory.
pub fn meson_vala_wrapper(paths: &PackagePaths, host_path: &str, args: &Vec<String>) -> (r: FileWrite)
    ensures
        r.path@ == join_path(paths.root@, "valac"@),
        r.content@ == vala_wrapper_script(host_path@, args.deep_view()) + " \"$@\"\n"@,
        r.executable,
{
    proof {
        reveal_strlit("'");
    }
    let ghost av = args.deep_view();
    let quoted_path = replace(host_path, "'", "'\"'\"'");
    let mut script = "#!/bin/sh\nexec env PATH='".to_string();
    script.append(quoted_path.as_str());
    script.append("' valac");
    let mut i: usize = 0;
    assert(av.take(0) =~= Seq::<Seq<char>>::empty());
    while i < args.len()
        invariant
            i <= args@.len(),
            av == args.deep_view(),
            script@ == vala_wrapper_script(host_path@, av.take(i as int)),
        decreases args@.len() - i,
    {
        assert(av.take(i + 1).drop_last() =~= av.take(i as int));
        assert(av.take(i + 1).last() == args@[i as int]@);
        proof {
            reveal_strlit("'");
        }
        let q = replace(args[i].as_str(), "'", "'\"'\"'");
        script.append(" '");
        script.append(q.as_str());
        script.append("'");
        i = i + 1;
    }
    assert(av.take(args@.len() as int) =~= av);
    script.append(" \"$@\"\n");
    FileWrite { path: join(paths.root.as_str(), "valac"), content: script, executable: true }
}

/// The triple of the build machine: the trimmed output of the source
/// tree's `config.guess` when it has one, else `x86_64-pc-linux-gnu`.
pub fn build_triplet(config_guess_output: Option<&str>) -> (r: String)
    ensures
        match config_guess_output {
            Some(out) => r@ == trim_seq(out@),
            None => r@ == "x86_64-pc-linux-gnu"@,
        },
{
    match config_guess_output {
        Some(out) => trim(out),
        None => "x86_64-pc-linux-gnu".to_string(),
    }
}

/// The command that prints the build triple of a source tree.
pub fn config_guess_command(source_dir: &str) -> (r: CommandSpec)
    ensures
        r@ == CommandSpecView::new("./config.guess"@).with_cwd(source_dir@),
{
    CommandSpec::new("./config.guess").cwd(source_dir)
}

/// The `pkg-config` search path of the staging sysroot.
pub open spec fn pkg_config_path_of(ctx: Context) -> Seq<char> {
    join_path(join_path(ctx.staging_sysroot_dir@, "libs"@), "pkgconfig"@) + ":"@ + join_path(
        ctx.lib_binary_dir@,
        "pkgconfig"@,
    ) + ":"@ + join_path(join_path(ctx.staging_sysroot_dir@, "share"@), "pkgconfig"@)
}

/// The environment changes of every cross build command.
pub open spec fn pkg_env_of(
    spec: CommandSpecView,
    ctx: Context,
    llvm_bin: Seq<char>,
    sysroot: Seq<char>,
    host_path: Seq<char>,
) -> CommandSpecView {
    let pcp = pkg_config_path_of(ctx);
    spec.with_env_remove("AR"@).with_env_remove("CC"@).with_env_remove("CPP"@).with_env_remove(
        "CXX"@,
    ).with_env_remove("LD"@).with_env_remove("NM"@).with_env_remove("RANLIB"@).with_env_remove(
        "STRIP"@,
    ).with_env("RUSTUP_TOOLCHAIN"@, "seele"@).with_env_prepend("PATH"@, llvm_bin, ":"@).with_env_append(
        "PATH"@,
        host_path,
        ":"@,
    ).with_env("PKG_CONFIG_ALLOW_CROSS"@, "1"@).with_env("PKG_CONFIG_SYSROOT_DIR"@, sysroot).with_env(
        "PKG_CONFIG_LIBDIR"@,
        pcp,
    ).with_env("PKG_CONFIG_PATH"@, pcp).with_env_append(
        "XDG_DATA_DIRS"@,
        join_path(ctx.staging_sysroot_dir@, "share"@),
        ":"@,
    ).with_env_append(
        "VAPIDIR"@,
        join_path(ctx.staging_sysroot_dir@, "share/vala/vapi"@),
        ":"@,
    ).with_env("PKG_CONFIG_PATH_FOR_TARGET"@, ""@)
}

/// A command result as a value.
pub open spec fn view_result(r: Result<CommandSpec, Error>) -> Result<CommandSpecView, Error> {
    match r {
        Ok(c) => Ok(c@),
        Err(e) => Err(e),
    }
}

/// `pkg_env` fails on a root packages directory, then on a root install
/// directory; otherwise it is `pkg_env_of` with the host LLVM's `bin` and the
/// sysroot.
pub open spec fn pkg_env_spec(spec: CommandSpecView, ctx: Context, host_path: Seq<char>) -> Result<
    CommandSpecView,
    Error,
> {
    match parent_path(ctx.packages_root@) {
        None => Err(Error::PackagesDirHasNoParent),
        Some(base) => match parent_path(ctx.install_dir@) {
            None => Err(Error::InstallDirHasNoParent),
            Some(sysroot) => Ok(
                pkg_env_of(spec, ctx, join_path(base, ".llvm/bin"@), sysroot, host_path),
            ),
        },
    }
}

/// Adds the environment of cross builds to a command: the host compiler
/// variables removed, the host LLVM first on `PATH`, `pkg-config` pointed at
/// the staging sysroot.
pub fn pkg_env(spec: CommandSpec, ctx: &Context, host_path: &str) -> (r: Result<CommandSpec, Error>)
    ensures
        view_result(r) == pkg_env_spec(spec@, *ctx, host_path@),
{
    let compat_libdir = join(join(ctx.staging_sysroot_dir.as_str(), "libs").as_str(), "pkgconfig");
    let libdir = join(ctx.lib_binary_dir.as_str(), "pkgconfig");
    let sharedir = join(join(ctx.staging_sysroot_dir.as_str(), "share").as_str(), "pkgconfig");
    let staging_share = join(ctx.staging_sysroot_dir.as_str(), "share");
    let staging_vapi = join(ctx.staging_sysroot_dir.as_str(), "share/vala/vapi");
    let base = match parent(ctx.packages_root.as_str()) {
        Some(b) => b,
        None => return Err(Error::PackagesDirHasNoParent),
    };
    let llvm_bin = join(base.as_str(), ".llvm/bin");
    let mut pcp = compat_libdir;
    pcp.append(":");
    pcp.append(libdir.as_str());
    pcp.append(":");
    pcp.append(sharedir.as_str());
    let s = spec.env_remove("AR").env_remove("CC").env_remove("CPP").env_remove("CXX").env_remove(
        "LD",
    ).env_remove("NM").env_remove("RANLIB").env_remove("STRIP").env("RUSTUP_TOOLCHAIN", "seele").env_prepend(
        "PATH",
        llvm_bin.as_str(),
        ":",
    ).env_append("PATH", host_path, ":").env("PKG_CONFIG_ALLOW_CROSS", "1");
    let sysroot = match sysroot_dir(ctx) {
        Ok(p) => p,
        Err(e) => return Err(e),
    };
    Ok(
        s.env("PKG_CONFIG_SYSROOT_DIR", sysroot.as_str()).env(
            "PKG_CONFIG_LIBDIR",
            pcp.as_str(),
        ).env("PKG_CONFIG_PATH", pcp.as_str()).env_append(
            "XDG_DATA_DIRS",
            staging_share.as_str(),
            ":",
        ).env_append("VAPIDIR", staging_vapi.as_str(), ":").env("PKG_CONFIG_PATH_FOR_TARGET", ""),
    )
}

/// The compiler and linker settings that `target_env` adds after
/// `pkg_env`.
pub open spec fn target_env_of(s: CommandSpecView, ctx: Context) -> CommandSpecView {
    s.with_env("CC"@, "clang --target=x86_64-seele"@).with_env(
        "CXX"@,
        "clang++ --target=x86_64-seele"@,
    ).with_env("AR"@, "llvm-ar"@).with_env("NM"@, "llvm-nm"@).with_env(
        "RANLIB"@,
        "llvm-ranlib"@,
    ).with_env("STRIP"@, "llvm-strip"@).with_env_append(
        "CPPFLAGS"@,
        "-I"@ + ctx.include_root_dir@ + " -I"@ + ctx.include_c_dir@,
        " "@,
    ).with_env_append("CFLAGS"@, "-fPIC"@, " "@).with_env_append(
        "CXXFLAGS"@,
        "-fPIC -idirafter"@ + ctx.include_root_dir@ + " -idirafter"@ + ctx.include_c_dir@,
        " "@,
    ).with_env_append(
        "LDFLAGS"@,
        "-L"@ + ctx.lib_binary_dir@ + " -Wl,-rpath-link,"@ + ctx.lib_binary_dir@ + " -lunwind"@,
        " "@,
    )
}

pub open spec fn target_env_spec(spec: CommandSpecView, ctx: Context, host_path: Seq<char>) -> Result<
    CommandSpecView,
    Error,
> {
    match pkg_env_spec(spec, ctx, host_path) {
        Ok(s) => Ok(target_env_of(s, ctx)),
        Err(e) => Err(e),
    }
}

/// `pkg_env` plus the target compiler, archiver and flags.
pub fn target_env(spec: CommandSpec, ctx: &Context, host_path: &str) -> (r: Result<
    CommandSpec,
    Error,
>)
    ensures
        view_result(r) == target_env_spec(spec@, *ctx, host_path@),
{
    let s = match pkg_env(spec, ctx, host_path) {
        Ok(s) => s,
        Err(e) => return Err(e),
    };
    let mut cppflags = "-I".to_string();
    cppflags.append(ctx.include_root_dir.as_str());
    cppflags.append(" -I");
    cppflags.append(ctx.include_c_dir.as_str());
    let mut cxxflags = "-fPIC -idirafter".to_string();
    cxxflags.append(ctx.include_root_dir.as_str());
    cxxflags.append(" -idirafter");
    cxxflags.append(ctx.include_c_dir.as_str());
    let mut ldflags = "-L".to_string();
    ldflags.append(ctx.lib_binary_dir.as_str());
    ldflags.append(" -Wl,-rpath-link,");
    ldflags.append(ctx.lib_binary_dir.as_str());
    ldflags.append(" -lunwind");
    Ok(
        s.env("CC", "clang --target=x86_64-seele").env("CXX", "clang++ --target=x86_64-seele").env(
            "AR",
            "llvm-ar",
        ).env("NM", "llvm-nm").env("RANLIB", "llvm-ranlib").env("STRIP", "llvm-strip").env_append(
            "CPPFLAGS",
            cppflags.as_str(),
            " ",
        ).env_append("CFLAGS", "-fPIC", " ").env_append("CXXFLAGS", cxxflags.as_str(), " ").env_append(
            "LDFLAGS",
            ldflags.as_str(),
            " ",
        ),
    )
}

/// The content of the Meson cross file.
pub open spec fn cross_file_text(ctx: Context, vala: Seq<char>) -> Seq<char> {
    let ri = ctx.include_root_dir@;
    let ci = ctx.include_c_dir@;
    let lib = ctx.lib_binary_dir@;
    "[binaries]\nc = ['clang', '--target=x86_64-seele']\ncpp = ['clang++', '--target=x86_64-seele']\nvala = '"@
        + vala
        + "'\ncargo = 'cargo'\nar = 'llvm-ar'\nnm = 'llvm-nm'\nrust = ['rustc', '--target=x86_64-seele']\nstrip = 'llvm-strip'\npkg-config = 'pkg-config'\n\n[built-in options]\nc_args = ['-fPIC', '-I"@
        + ri + "', '-I"@ + ci + "']\ncpp_args = ['-fPIC', '-idirafter"@ + ri + "', '-idirafter"@
        + ci + "']\nc_link_args = ['-L"@ + lib + "', '-Wl,-rpath-link,"@ + lib
        + "', '-lunwind']\ncpp_link_args = ['-L"@ + lib + "', '-Wl,-rpath-link,"@ + lib
        + "', '-lunwind']\n\n[properties]\nneeds_exe_wrapper = true\n\n[host_machine]\nsystem = 'seele'\ncpu_family = 'x86_64'\ncpu = 'x86_64'\nendian = 'little'\n"@
}

/// The Meson cross file of a package, `seele.cross` in its work directory;
/// `vala` is the path of its `valac` wrapper.
pub fn meson_cross_file(ctx: &Context, paths: &PackagePaths, vala: &str) -> (r: FileWrite)
    ensures
        r.path@ == join_path(paths.root@, "seele.cross"@),
        r.content@ == cross_file_text(*ctx, vala@),
        !r.executable,
{
    let ri = ctx.include_root_dir.as_str();
    let ci = ctx.include_c_dir.as_str();
    let lib = ctx.lib_binary_dir.as_str();
    let mut t = "[binaries]\nc = ['clang', '--target=x86_64-seele']\ncpp = ['clang++', '--target=x86_64-seele']\nvala = '".to_string();
    t.append(vala);
    t.append("'\ncargo = 'cargo'\nar = 'llvm-ar'\nnm = 'llvm-nm'\nrust = ['rustc', '--target=x86_64-seele']\nstrip = 'llvm-strip'\npkg-config = 'pkg-config'\n\n[built-in options]\nc_args = ['-fPIC', '-I");
    t.append(ri);
    t.append("', '-I");
    t.append(ci);
    t.append("']\ncpp_args = ['-fPIC', '-idirafter");
    t.append(ri);
    t.append("', '-idirafter");
    t.append(ci);
    t.append("']\nc_link_args = ['-L");
    t.append(lib);
    t.append("', '-Wl,-rpath-link,");
    t.append(lib);
    t.append("', '-lunwind']\ncpp_link_args = ['-L");
    t.append(lib);
    t.append("', '-Wl,-rpath-link,");
    t.append(lib);
    t.append("', '-lunwind']\n\n[properties]\nneeds_exe_wrapper = true\n\n[host_machine]\nsystem = 'seele'\ncpu_family = 'x86_64'\ncpu = 'x86_64'\nendian = 'little'\n");
    FileWrite { path: join(paths.root.as_str(), "seele.cross"), content: t, executable: false }
}

/// The build-machine `pkg-config` wrapper script.
pub open spec fn native_pkg_config_text(env: HostEnv) -> Seq<char> {
    "#!/bin/sh\n# Meson `native: true` lookups must resolve against the build machine,\n# not the target sysroot pkg-config environment we export for cross builds.\nexec env \\\nPATH='"@
        + env.path@ + "' \\\nPKG_CONFIG_ALLOW_CROSS='' \\\nPKG_CONFIG_SYSROOT_DIR='"@
        + env.pkg_config_sysroot_dir@ + "' \\\nPKG_CONFIG_LIBDIR='"@ + env.pkg_config_libdir@
        + "' \\\nPKG_CONFIG_PATH='"@ + env.pkg_config_path@ + "' \\\nPKG_CONFIG_PATH_FOR_TARGET='"@
        + env.pkg_config_path_for_target@ + "' \\\npkg-config \"$@\"\n"@
}

/// A build-machine `pkg-config` wrapper for Meson's `native: true`
/// lookups, `build-pkg-config` in the package's work directory: it runs
/// `pkg-config` with the environment the tool was started with, not the
/// cross environment pointed at the target sysroot.
pub fn meson_native_pkg_config(paths: &PackagePaths, env: &HostEnv) -> (r: FileWrite)
    ensures
        r.path@ == join_path(paths.root@, "build-pkg-config"@),
        r.content@ == native_pkg_config_text(*env),
        r.executable,
{
    let mut t = "#!/bin/sh\n# Meson `native: true` lookups must resolve against the build machine,\n# not the target sysroot pkg-config environment we export for cross builds.\nexec env \\\nPATH='".to_string();
    t.append(env.path.as_str());
    t.append("' \\\nPKG_CONFIG_ALLOW_CROSS='' \\\nPKG_CONFIG_SYSROOT_DIR='");
    t.append(env.pkg_config_sysroot_dir.as_str());
    t.append("' \\\nPKG_CONFIG_LIBDIR='");
    t.append(env.pkg_config_libdir.as_str());
    t.append("' \\\nPKG_CONFIG_PATH='");
    t.append(env.pkg_config_path.as_str());
    t.append("' \\\nPKG_CONFIG_PATH_FOR_TARGET='");
    t.append(env.pkg_config_path_for_target.as_str());
    t.append("' \\\npkg-config \"$@\"\n");
    FileWrite { path: join(paths.root.as_str(), "build-pkg-config"), content: t, executable: true }
}

pub open spec fn native_file_text(pkg_config: Seq<char>, vala: Seq<char>) -> Seq<char> {
    "[binaries]\n# Meson uses this file for build-machine tools and dependencies requested\n# with `native: true`.\npkg-config = '"@
        + pkg_config + "'\nvala = '"@ + vala + "'\n"@
}

/// The Meson native file, `native.ini` in the package's work directory:
/// the build machine's `pkg-config` and `valac`.
pub fn meson_native_file(paths: &PackagePaths, pkg_config: &str, vala: &str) -> (r: FileWrite)
    ensures
        r.path@ == join_path(paths.root@, "native.ini"@),
        r.content@ == native_file_text(pkg_config@, vala@),
        !r.executable,
{
    let mut t = "[binaries]\n# Meson uses this file for build-machine tools and dependencies requested\n# with `native: true`.\npkg-config = '".to_string();
    t.append(pkg_config);
    t.append("'\nvala = '");
    t.append(vala);
    t.append("'\n");
    FileWrite { path: join(paths.root.as_str(), "native.ini"), content: t, executable: false }
}

/// The compiler variables of the host that `pkg_env` removes.
pub open spec fn host_tool_vars() -> Seq<Seq<char>> {
    seq!["AR"@, "CC"@, "CPP"@, "CXX"@, "LD"@, "NM"@, "RANLIB"@, "STRIP"@]
}

/// The host's compiler variables never reach a cross build command: the
/// cross environment removes them.  This is a known defect as much as a
/// property: removals are applied after every assignment, so the target
/// compiler and tools that `target_env` assigns (`CC`, `CXX`, `AR`, `NM`,
/// `RANLIB`, `STRIP`) do not reach the command either.
pub proof fn law_cross_env_unsets_host_tools(
    spec: CommandSpecView,
    ctx: Context,
    llvm_bin: Seq<char>,
    sysroot: Seq<char>,
    host_path: Seq<char>,
    key: Seq<char>,
)
    requires
        host_tool_vars().contains(key),
    ensures
        pkg_env_of(spec, ctx, llvm_bin, sysroot, host_path).env_effect(key) == EnvEffect::Unset,
        target_env_of(pkg_env_of(spec, ctx, llvm_bin, sysroot, host_path), ctx).env_effect(key)
            == EnvEffect::Unset,
{
    let removed = spec.with_env_remove("AR"@).with_env_remove("CC"@).with_env_remove("CPP"@).with_env_remove(
        "CXX"@,
    ).with_env_remove("LD"@).with_env_remove("NM"@).with_env_remove("RANLIB"@).with_env_remove(
        "STRIP"@,
    );
    assert(removed.env_removes =~= spec.env_removes + host_tool_vars());
    let k = choose|k: int| 0 <= k < host_tool_vars().len() && host_tool_vars()[k] == key;
    assert(removed.env_removes[spec.env_removes.len() + k] == key);
    let p = pkg_env_of(spec, ctx, llvm_bin, sysroot, host_path);
    assert(p.env_removes == removed.env_removes);
    assert(p.env_removes.contains(key));
    assert(target_env_of(p, ctx).env_removes == p.env_removes);
}

} // verus!
