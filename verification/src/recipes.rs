//! What each package does in each phase of its workflow: where its sources
//! come from and how it is configured, built and installed.
use vstd::prelude::*;
use crate::building::{
    autotools_build_spec, build_autotools_with, build_make_in, build_meson, make, make_view,
    meson_build_spec, CC,
};
use crate::command::{CommandSpec, CommandSpecView};
use crate::configure::flag;
use crate::cross::view_result;
use crate::error::Error;
use crate::fetch::{git_clone_fetch, git_fetch_steps, tarball_fetch, tarball_fetch_steps};
use crate::install::{
    install_autotools, install_dir_contents, install_file, install_make_in, install_make_spec,
    install_meson, install_meson_spec,
};
use crate::layout::{APPDEFAULTDIR, BINDIR, DEFAULT_FONT_PATH, XKB_DIR, XKB_OUTPUT_DIR};
use crate::misc::sysroot_dir;
use crate::path::{join, join_path, parent_path};
use crate::plan::{plan_view, push_step, steps_view, Step, StepView};
use crate::registry::{deps_of, is_meta, law_declared_dependencies, name_of, PackageId};
use crate::types::{Context, PackagePaths, PackagePathsView, paths_of};

verus! {

/// The compiler that builds bash's build-time helpers.
pub const CC_FOR_BUILD: &'static str = "gcc";

/// The flags of bash's build-time helpers.
pub const CFLAGS_FOR_BUILD: &'static str = "-g -DCROSS_COMPILING -std=gnu17";

/// The extra linker flags of bash.
pub const ADDON_LDFLAGS: &'static str = "-Wl,--allow-multiple-definition";

/// The answer to bash's check whether `getenv` can be redefined.
pub const BASH_CV_GETENV_REDEF: &'static str = "no";

/// The answer to bash's check whether `getcwd` allocates.
pub const BASH_CV_GETCWD_MALLOC: &'static str = "yes";

/// The answer to bash's check whether `strchrnul` works.
pub const BASH_CV_FUNC_STRCHRNUL_WORKS: &'static str = "yes";

/// The compiler that builds ncurses' build-time helpers.
pub const BUILD_CC: &'static str = "gcc";

/// The extra `configure` arguments of libXfont2.
pub open spec fn libxfont2_args_of() -> Seq<Seq<char>> {
    seq!["--disable-devel-docs"@, "--disable-selective-werror"@]
}

/// The extra `configure` arguments of libXfont2.
pub fn libxfont2_args() -> (r: Vec<String>)
    ensures
        r.deep_view() == libxfont2_args_of(),
{
    let mut r: Vec<String> = Vec::new();
    r.push("--disable-devel-docs".to_string());
    r.push("--disable-selective-werror".to_string());
    assert(r.deep_view() =~= libxfont2_args_of());
    r
}

/// The Meson options of FreeType.
pub open spec fn freetype_args_of() -> Seq<Seq<char>> {
    seq!["-Dbrotli=disabled"@, "-Dbzip2=disabled"@, "-Dharfbuzz=disabled"@, "-Dpng=disabled"@, "-Dzlib=disabled"@]
}

/// The Meson options of FreeType.
pub fn freetype_args() -> (r: Vec<String>)
    ensures
        r.deep_view() == freetype_args_of(),
{
    let mut r: Vec<String> = Vec::new();
    r.push("-Dbrotli=disabled".to_string());
    r.push("-Dbzip2=disabled".to_string());
    r.push("-Dharfbuzz=disabled".to_string());
    r.push("-Dpng=disabled".to_string());
    r.push("-Dzlib=disabled".to_string());
    assert(r.deep_view() =~= freetype_args_of());
    r
}

/// The Meson options of pixman.
pub open spec fn pixman_args_of() -> Seq<Seq<char>> {
    seq!["-Dgtk=disabled"@, "-Dlibpng=disabled"@, "-Dtests=disabled"@]
}

/// The Meson options of pixman.
pub fn pixman_args() -> (r: Vec<String>)
    ensures
        r.deep_view() == pixman_args_of(),
{
    let mut r: Vec<String> = Vec::new();
    r.push("-Dgtk=disabled".to_string());
    r.push("-Dlibpng=disabled".to_string());
    r.push("-Dtests=disabled".to_string());
    assert(r.deep_view() =~= pixman_args_of());
    r
}

/// The Meson options of xkeyboard-config.
pub open spec fn xkeyboard_config_args_of() -> Seq<Seq<char>> {
    seq!["-Dxorg-rules-symlinks=true"@]
}

/// The Meson options of xkeyboard-config.
pub fn xkeyboard_config_args() -> (r: Vec<String>)
    ensures
        r.deep_view() == xkeyboard_config_args_of(),
{
    let mut r: Vec<String> = Vec::new();
    r.push("-Dxorg-rules-symlinks=true".to_string());
    assert(r.deep_view() =~= xkeyboard_config_args_of());
    r
}

/// The Meson options that switch off what the X server cannot use on SeeleOS.
pub open spec fn xorg_server_flags_of() -> Seq<Seq<char>> {
    seq!["-Dxorg=true"@, "-Dxv=false"@, "-Dxvfb=false"@, "-Dxephyr=false"@, "-Dxnest=false"@, "-Dsuid_wrapper=false"@, "-Dpciaccess=false"@, "-Ddpms=false"@, "-Dscreensaver=false"@, "-Dxres=false"@, "-Dxvmc=false"@, "-Dsystemd_logind=false"@, "-Dsecure-rpc=false"@, "-Dudev=false"@, "-Dudev_kms=false"@, "-Ddri1=false"@, "-Ddri2=false"@, "-Ddri3=false"@, "-Dint10=false"@, "-Dvgahw=false"@, "-Ddrm=false"@, "-Dglamor=false"@, "-Dglx=false"@, "-Dlisten_tcp=false"@]
}

/// The Meson options that switch off what the X server cannot use on SeeleOS.
pub fn xorg_server_flags() -> (r: Vec<String>)
    ensures
        r.deep_view() == xorg_server_flags_of(),
{
    let mut r: Vec<String> = Vec::new();
    r.push("-Dxorg=true".to_string());
    r.push("-Dxv=false".to_string());
    r.push("-Dxvfb=false".to_string());
    r.push("-Dxephyr=false".to_string());
    r.push("-Dxnest=false".to_string());
    r.push("-Dsuid_wrapper=false".to_string());
    r.push("-Dpciaccess=false".to_string());
    r.push("-Ddpms=false".to_string());
    r.push("-Dscreensaver=false".to_string());
    r.push("-Dxres=false".to_string());
    r.push("-Dxvmc=false".to_string());
    r.push("-Dsystemd_logind=false".to_string());
    r.push("-Dsecure-rpc=false".to_string());
    r.push("-Dudev=false".to_string());
    r.push("-Dudev_kms=false".to_string());
    r.push("-Ddri1=false".to_string());
    r.push("-Ddri2=false".to_string());
    r.push("-Ddri3=false".to_string());
    r.push("-Dint10=false".to_string());
    r.push("-Dvgahw=false".to_string());
    r.push("-Ddrm=false".to_string());
    r.push("-Dglamor=false".to_string());
    r.push("-Dglx=false".to_string());
    r.push("-Dlisten_tcp=false".to_string());
    assert(r.deep_view() =~= xorg_server_flags_of());
    r
}

/// The extra `configure` arguments of bash.
pub open spec fn bash_configure_args_of() -> Seq<Seq<char>> {
    seq!["--disable-nls"@, "--without-bash-malloc"@]
}

/// The extra `configure` arguments of bash.
pub fn bash_configure_args() -> (r: Vec<String>)
    ensures
        r.deep_view() == bash_configure_args_of(),
{
    let mut r: Vec<String> = Vec::new();
    r.push("--disable-nls".to_string());
    r.push("--without-bash-malloc".to_string());
    assert(r.deep_view() =~= bash_configure_args_of());
    r
}

/// The extra `configure` arguments of vim: a terminal-only editor without interpreters.
pub open spec fn vim_configure_args_of() -> Seq<Seq<char>> {
    seq!["--with-tlib=ncurses"@, "--with-features=normal"@, "--enable-multibyte"@, "--disable-gui"@, "--without-x"@, "--disable-acl"@, "--disable-gpm"@, "--disable-sysmouse"@, "--disable-nls"@, "--disable-netbeans"@, "--enable-channel=no"@, "--enable-terminal=no"@, "--enable-perlinterp=no"@, "--enable-pythoninterp=no"@, "--enable-python3interp=no"@, "--enable-rubyinterp=no"@, "--enable-luainterp=no"@, "--enable-mzschemeinterp=no"@, "--enable-tclinterp=no"@]
}

/// The extra `configure` arguments of vim: a terminal-only editor without interpreters.
pub fn vim_configure_args() -> (r: Vec<String>)
    ensures
        r.deep_view() == vim_configure_args_of(),
{
    let mut r: Vec<String> = Vec::new();
    r.push("--with-tlib=ncurses".to_string());
    r.push("--with-features=normal".to_string());
    r.push("--enable-multibyte".to_string());
    r.push("--disable-gui".to_string());
    r.push("--without-x".to_string());
    r.push("--disable-acl".to_string());
    r.push("--disable-gpm".to_string());
    r.push("--disable-sysmouse".to_string());
    r.push("--disable-nls".to_string());
    r.push("--disable-netbeans".to_string());
    r.push("--enable-channel=no".to_string());
    r.push("--enable-terminal=no".to_string());
    r.push("--enable-perlinterp=no".to_string());
    r.push("--enable-pythoninterp=no".to_string());
    r.push("--enable-python3interp=no".to_string());
    r.push("--enable-rubyinterp=no".to_string());
    r.push("--enable-luainterp=no".to_string());
    r.push("--enable-mzschemeinterp=no".to_string());
    r.push("--enable-tclinterp=no".to_string());
    assert(r.deep_view() =~= vim_configure_args_of());
    r
}

/// The extra `configure` arguments of ncurses: the C library with the terminal database built in.
pub open spec fn ncurses_configure_args_of() -> Seq<Seq<char>> {
    seq!["--without-ada"@, "--without-cxx"@, "--without-cxx-binding"@, "--without-manpages"@, "--without-tests"@, "--without-progs"@, "--with-normal"@, "--with-termlib"@, "--disable-db-install"@, "--with-fallbacks=xterm,xterm-256colors,vt100,linux"@, "--disable-stripping"@, "--disable-widec"@]
}

/// The extra `configure` arguments of ncurses: the C library with the terminal database built in.
pub fn ncurses_configure_args() -> (r: Vec<String>)
    ensures
        r.deep_view() == ncurses_configure_args_of(),
{
    let mut r: Vec<String> = Vec::new();
    r.push("--without-ada".to_string());
    r.push("--without-cxx".to_string());
    r.push("--without-cxx-binding".to_string());
    r.push("--without-manpages".to_string());
    r.push("--without-tests".to_string());
    r.push("--without-progs".to_string());
    r.push("--with-normal".to_string());
    r.push("--with-termlib".to_string());
    r.push("--disable-db-install".to_string());
    r.push("--with-fallbacks=xterm,xterm-256colors,vt100,linux".to_string());
    r.push("--disable-stripping".to_string());
    r.push("--disable-widec".to_string());
    assert(r.deep_view() =~= ncurses_configure_args_of());
    r
}

/// The environment of bash's `configure`: the target compiler, the build compiler and the answers to the checks that cannot run when cross-compiling.
pub open spec fn bash_configure_envs_of() -> Seq<(Seq<char>, Seq<char>)> {
    seq![("CC"@, CC@), ("CC_FOR_BUILD"@, CC_FOR_BUILD@), ("CFLAGS_FOR_BUILD"@, CFLAGS_FOR_BUILD@), ("bash_cv_getenv_redef"@, BASH_CV_GETENV_REDEF@), ("bash_cv_getcwd_malloc"@, BASH_CV_GETCWD_MALLOC@), ("bash_cv_func_strchrnul_works"@, BASH_CV_FUNC_STRCHRNUL_WORKS@)]
}

/// The environment of bash's `configure`: the target compiler, the build compiler and the answers to the checks that cannot run when cross-compiling.
pub fn bash_configure_envs() -> (r: Vec<(String, String)>)
    ensures
        r.deep_view() == bash_configure_envs_of(),
{
    let mut r: Vec<(String, String)> = Vec::new();
    r.push(("CC".to_string(), CC.to_string()));
    r.push(("CC_FOR_BUILD".to_string(), CC_FOR_BUILD.to_string()));
    r.push(("CFLAGS_FOR_BUILD".to_string(), CFLAGS_FOR_BUILD.to_string()));
    r.push(("bash_cv_getenv_redef".to_string(), BASH_CV_GETENV_REDEF.to_string()));
    r.push(("bash_cv_getcwd_malloc".to_string(), BASH_CV_GETCWD_MALLOC.to_string()));
    r.push(("bash_cv_func_strchrnul_works".to_string(), BASH_CV_FUNC_STRCHRNUL_WORKS.to_string()));
    assert(r.deep_view() =~= bash_configure_envs_of());
    r
}

/// The environment of bash's `make`.
pub open spec fn bash_build_envs_of() -> Seq<(Seq<char>, Seq<char>)> {
    seq![("CC_FOR_BUILD"@, CC_FOR_BUILD@), ("CFLAGS_FOR_BUILD"@, CFLAGS_FOR_BUILD@), ("ADDON_LDFLAGS"@, ADDON_LDFLAGS@)]
}

/// The environment of bash's `make`.
pub fn bash_build_envs() -> (r: Vec<(String, String)>)
    ensures
        r.deep_view() == bash_build_envs_of(),
{
    let mut r: Vec<(String, String)> = Vec::new();
    r.push(("CC_FOR_BUILD".to_string(), CC_FOR_BUILD.to_string()));
    r.push(("CFLAGS_FOR_BUILD".to_string(), CFLAGS_FOR_BUILD.to_string()));
    r.push(("ADDON_LDFLAGS".to_string(), ADDON_LDFLAGS.to_string()));
    assert(r.deep_view() =~= bash_build_envs_of());
    r
}

/// The environment of vim's `configure`.
pub open spec fn vim_configure_envs_of() -> Seq<(Seq<char>, Seq<char>)> {
    seq![("CC"@, "clang --target=x86_64-seele"@), ("LIBS"@, "-lncurses -ltinfo"@)]
}

/// The environment of vim's `configure`.
pub fn vim_configure_envs() -> (r: Vec<(String, String)>)
    ensures
        r.deep_view() == vim_configure_envs_of(),
{
    let mut r: Vec<(String, String)> = Vec::new();
    r.push(("CC".to_string(), "clang --target=x86_64-seele".to_string()));
    r.push(("LIBS".to_string(), "-lncurses -ltinfo".to_string()));
    assert(r.deep_view() =~= vim_configure_envs_of());
    r
}

/// The environment of vim's `make`: where vim finds its runtime files.
pub open spec fn vim_build_envs_of() -> Seq<(Seq<char>, Seq<char>)> {
    seq![("VIMRUNTIMEDIR"@, "/misc/vim"@)]
}

/// The environment of vim's `make`: where vim finds its runtime files.
pub fn vim_build_envs() -> (r: Vec<(String, String)>)
    ensures
        r.deep_view() == vim_build_envs_of(),
{
    let mut r: Vec<(String, String)> = Vec::new();
    r.push(("VIMRUNTIMEDIR".to_string(), "/misc/vim".to_string()));
    assert(r.deep_view() =~= vim_build_envs_of());
    r
}

/// The environment of ncurses' `configure`.
pub open spec fn ncurses_configure_envs_of() -> Seq<(Seq<char>, Seq<char>)> {
    seq![("CC"@, CC@)]
}

/// The environment of ncurses' `configure`.
pub fn ncurses_configure_envs() -> (r: Vec<(String, String)>)
    ensures
        r.deep_view() == ncurses_configure_envs_of(),
{
    let mut r: Vec<(String, String)> = Vec::new();
    r.push(("CC".to_string(), CC.to_string()));
    assert(r.deep_view() =~= ncurses_configure_envs_of());
    r
}

/// Where a package's sources come from.
#[derive(Clone, Debug, PartialEq, Eq)]
pub enum Source {
    /// A tarball, downloaded from the first of its URLs that works.
    Tarball(&'static str),
    /// A git repository, checked out at a commit.
    Git(&'static str, &'static str),
    /// No sources: a meta package.
    Nothing,
}

/// Where a package's sources come from, as values.
pub enum SourceView {
    Tarball(Seq<char>),
    Git(Seq<char>, Seq<char>),
    Nothing,
}

impl View for Source {
    type V = SourceView;

    open spec fn view(&self) -> SourceView {
        match self {
            Source::Tarball(u) => SourceView::Tarball(u@),
            Source::Git(u, c) => SourceView::Git(u@, c@),
            Source::Nothing => SourceView::Nothing,
        }
    }
}

/// Where a package's sources come from (its `TarballFetch::tarball_url` or
/// its `GitCloneFetch::git_url` and `git_commit`).
pub open spec fn source_of(id: PackageId) -> SourceView {
    match id {
        PackageId::Bash => SourceView::Tarball("https://ftp.gnu.org/gnu/bash/bash-5.3.tar.gz"@),
        PackageId::Busybox => SourceView::Tarball("https://mirrors.aliyun.com/slackware/slackware64-current/source/installer/sources/busybox/busybox-1.37.0.tar.bz2"@),
        PackageId::Ncurses => SourceView::Tarball("https://ftp.gnu.org/gnu/ncurses/ncurses-6.6.tar.gz"@),
        PackageId::TinyCc => SourceView::Git("https://github.com/TinyCC/tinycc.git"@, "fada98b"@),
        PackageId::Vim => SourceView::Git("https://github.com/vim/vim.git"@, "0172ff5"@),
        PackageId::LibFontenc => SourceView::Tarball("https://www.x.org/archive/individual/lib/libfontenc-1.1.9.tar.gz"@),
        PackageId::LibIce => SourceView::Tarball("https://www.x.org/archive/individual/lib/libICE-1.1.2.tar.gz"@),
        PackageId::LibSm => SourceView::Tarball("https://www.x.org/archive/individual/lib/libSM-1.2.6.tar.gz"@),
        PackageId::LibXcb => SourceView::Tarball("https://www.x.org/archive/individual/lib/libxcb-1.17.0.tar.xz"@),
        PackageId::LibXdamage => SourceView::Tarball("https://www.x.org/archive/individual/lib/libXdamage-1.1.7.tar.gz"@),
        PackageId::LibXdmcp => SourceView::Tarball("https://www.x.org/archive/individual/lib/libXdmcp-1.1.5.tar.gz"@),
        PackageId::LibXext => SourceView::Tarball("https://www.x.org/archive/individual/lib/libXext-1.3.7.tar.gz"@),
        PackageId::LibXi => SourceView::Tarball("https://www.x.org/archive/individual/lib/libXi-1.8.2.tar.gz"@),
        PackageId::LibX11 => SourceView::Tarball("https://www.x.org/archive/individual/lib/libX11-1.8.13.tar.xz"@),
        PackageId::LibXfont2 => SourceView::Tarball("https://www.x.org/archive/individual/lib/libXfont2-2.0.7.tar.gz"@),
        PackageId::LibXmu => SourceView::Tarball("https://www.x.org/archive/individual/lib/libXmu-1.3.1.tar.gz"@),
        PackageId::LibXrandr => SourceView::Tarball("https://www.x.org/archive/individual/lib/libXrandr-1.5.5.tar.gz"@),
        PackageId::LibXrender => SourceView::Tarball("https://www.x.org/archive/individual/lib/libXrender-0.9.12.tar.gz"@),
        PackageId::LibXshmfence => SourceView::Tarball("https://www.x.org/archive/individual/lib/libxshmfence-1.3.3.tar.gz"@),
        PackageId::LibXt => SourceView::Tarball("https://www.x.org/archive/individual/lib/libXt-1.3.1.tar.gz"@),
        PackageId::XcbProto => SourceView::Tarball("https://www.x.org/archive/individual/proto/xcb-proto-1.17.0.tar.xz"@),
        PackageId::XcbUtil => SourceView::Tarball("https://xcb.freedesktop.org/dist/xcb-util-0.4.1.tar.xz"@),
        PackageId::XorgFontUtil => SourceView::Tarball("https://www.x.org/archive/individual/font/font-util-1.4.1.tar.xz"@),
        PackageId::XorgTwm => SourceView::Tarball("https://www.x.org/pub/individual/app/twm-1.0.13.1.tar.xz"@),
        PackageId::XorgUtilMacros => SourceView::Tarball("https://www.x.org/archive/individual/util/util-macros-1.20.2.tar.gz"@),
        PackageId::XorgXauth => SourceView::Tarball("https://www.x.org/releases/individual/app/xauth-1.1.5.tar.xz"@),
        PackageId::XorgXinit => SourceView::Tarball("https://www.x.org/releases/individual/app/xinit-1.4.4.tar.xz"@),
        PackageId::XorgXkbcomp => SourceView::Tarball("https://www.x.org/archive/individual/app/xkbcomp-1.5.0.tar.gz"@),
        PackageId::XorgXmodmap => SourceView::Tarball("https://www.x.org/releases/individual/app/xmodmap-1.0.11.tar.xz"@),
        PackageId::XorgXrdb => SourceView::Tarball("https://www.x.org/releases/individual/app/xrdb-1.2.2.tar.xz"@),
        PackageId::Xtrans => SourceView::Tarball("https://www.x.org/archive/individual/lib/xtrans-1.6.0.tar.gz"@),
        PackageId::Freetype2 => SourceView::Git("https://gitlab.freedesktop.org/freetype/freetype.git"@, "0a0221a1347e2f1e07c395263540026e9a0aa7c7"@),
        PackageId::Pixman => SourceView::Git("https://gitlab.freedesktop.org/pixman/pixman.git"@, "9cc163c9da0fb4da430641715313d95a6ec466d9"@),
        PackageId::LibXau => SourceView::Tarball("https://www.x.org/archive/individual/lib/libXau-1.0.12.tar.gz"@),
        PackageId::LibXfixes => SourceView::Git("https://gitlab.freedesktop.org/xorg/lib/libxfixes.git"@, "70d5b0e37f8a759f3dbc218f22954347ceed094a"@),
        PackageId::LibXinerama => SourceView::Tarball("https://www.x.org/archive/individual/lib/libXinerama-1.1.6.tar.gz"@),
        PackageId::LibXkbfile => SourceView::Tarball("https://www.x.org/archive/individual/lib/libxkbfile-1.2.0.tar.xz"@),
        PackageId::LibXcvt => SourceView::Tarball("https://www.x.org/archive/individual/lib/libxcvt-0.1.3.tar.xz"@),
        PackageId::XkeyboardConfig => SourceView::Git("https://gitlab.freedesktop.org/xkeyboard-config/xkeyboard-config.git"@, "a79055334104d382bd511760b67acf9a5a161361"@),
        PackageId::XorgProto => SourceView::Tarball("https://www.x.org/releases/individual/proto/xorgproto-2025.1.tar.xz"@),
        PackageId::XorgXeyes => SourceView::Git("https://gitlab.freedesktop.org/xorg/app/xeyes.git"@, "7dc4f720f57471d2eccefd87cdca54494cf75eb5"@),
        PackageId::XorgServer => SourceView::Git("https://gitlab.freedesktop.org/xorg/xserver.git"@, "312a25c65c8a918fea2cc77abd0db07ec0fc421c"@),
        _ => SourceView::Nothing,
    }
}

/// Where a package's sources come from.
pub fn source(id: PackageId) -> (r: Source)
    ensures
        r@ == source_of(id),
{
    match id {
        PackageId::Bash => Source::Tarball("https://ftp.gnu.org/gnu/bash/bash-5.3.tar.gz"),
        PackageId::Busybox => Source::Tarball("https://mirrors.aliyun.com/slackware/slackware64-current/source/installer/sources/busybox/busybox-1.37.0.tar.bz2"),
        PackageId::Ncurses => Source::Tarball("https://ftp.gnu.org/gnu/ncurses/ncurses-6.6.tar.gz"),
        PackageId::TinyCc => Source::Git("https://github.com/TinyCC/tinycc.git", "fada98b"),
        PackageId::Vim => Source::Git("https://github.com/vim/vim.git", "0172ff5"),
        PackageId::LibFontenc => Source::Tarball("https://www.x.org/archive/individual/lib/libfontenc-1.1.9.tar.gz"),
        PackageId::LibIce => Source::Tarball("https://www.x.org/archive/individual/lib/libICE-1.1.2.tar.gz"),
        PackageId::LibSm => Source::Tarball("https://www.x.org/archive/individual/lib/libSM-1.2.6.tar.gz"),
        PackageId::LibXcb => Source::Tarball("https://www.x.org/archive/individual/lib/libxcb-1.17.0.tar.xz"),
        PackageId::LibXdamage => Source::Tarball("https://www.x.org/archive/individual/lib/libXdamage-1.1.7.tar.gz"),
        PackageId::LibXdmcp => Source::Tarball("https://www.x.org/archive/individual/lib/libXdmcp-1.1.5.tar.gz"),
        PackageId::LibXext => Source::Tarball("https://www.x.org/archive/individual/lib/libXext-1.3.7.tar.gz"),
        PackageId::LibXi => Source::Tarball("https://www.x.org/archive/individual/lib/libXi-1.8.2.tar.gz"),
        PackageId::LibX11 => Source::Tarball("https://www.x.org/archive/individual/lib/libX11-1.8.13.tar.xz"),
        PackageId::LibXfont2 => Source::Tarball("https://www.x.org/archive/individual/lib/libXfont2-2.0.7.tar.gz"),
        PackageId::LibXmu => Source::Tarball("https://www.x.org/archive/individual/lib/libXmu-1.3.1.tar.gz"),
        PackageId::LibXrandr => Source::Tarball("https://www.x.org/archive/individual/lib/libXrandr-1.5.5.tar.gz"),
        PackageId::LibXrender => Source::Tarball("https://www.x.org/archive/individual/lib/libXrender-0.9.12.tar.gz"),
        PackageId::LibXshmfence => Source::Tarball("https://www.x.org/archive/individual/lib/libxshmfence-1.3.3.tar.gz"),
        PackageId::LibXt => Source::Tarball("https://www.x.org/archive/individual/lib/libXt-1.3.1.tar.gz"),
        PackageId::XcbProto => Source::Tarball("https://www.x.org/archive/individual/proto/xcb-proto-1.17.0.tar.xz"),
        PackageId::XcbUtil => Source::Tarball("https://xcb.freedesktop.org/dist/xcb-util-0.4.1.tar.xz"),
        PackageId::XorgFontUtil => Source::Tarball("https://www.x.org/archive/individual/font/font-util-1.4.1.tar.xz"),
        PackageId::XorgTwm => Source::Tarball("https://www.x.org/pub/individual/app/twm-1.0.13.1.tar.xz"),
        PackageId::XorgUtilMacros => Source::Tarball("https://www.x.org/archive/individual/util/util-macros-1.20.2.tar.gz"),
        PackageId::XorgXauth => Source::Tarball("https://www.x.org/releases/individual/app/xauth-1.1.5.tar.xz"),
        PackageId::XorgXinit => Source::Tarball("https://www.x.org/releases/individual/app/xinit-1.4.4.tar.xz"),
        PackageId::XorgXkbcomp => Source::Tarball("https://www.x.org/archive/individual/app/xkbcomp-1.5.0.tar.gz"),
        PackageId::XorgXmodmap => Source::Tarball("https://www.x.org/releases/individual/app/xmodmap-1.0.11.tar.xz"),
        PackageId::XorgXrdb => Source::Tarball("https://www.x.org/releases/individual/app/xrdb-1.2.2.tar.xz"),
        PackageId::Xtrans => Source::Tarball("https://www.x.org/archive/individual/lib/xtrans-1.6.0.tar.gz"),
        PackageId::Freetype2 => Source::Git("https://gitlab.freedesktop.org/freetype/freetype.git", "0a0221a1347e2f1e07c395263540026e9a0aa7c7"),
        PackageId::Pixman => Source::Git("https://gitlab.freedesktop.org/pixman/pixman.git", "9cc163c9da0fb4da430641715313d95a6ec466d9"),
        PackageId::LibXau => Source::Tarball("https://www.x.org/archive/individual/lib/libXau-1.0.12.tar.gz"),
        PackageId::LibXfixes => Source::Git("https://gitlab.freedesktop.org/xorg/lib/libxfixes.git", "70d5b0e37f8a759f3dbc218f22954347ceed094a"),
        PackageId::LibXinerama => Source::Tarball("https://www.x.org/archive/individual/lib/libXinerama-1.1.6.tar.gz"),
        PackageId::LibXkbfile => Source::Tarball("https://www.x.org/archive/individual/lib/libxkbfile-1.2.0.tar.xz"),
        PackageId::LibXcvt => Source::Tarball("https://www.x.org/archive/individual/lib/libxcvt-0.1.3.tar.xz"),
        PackageId::XkeyboardConfig => Source::Git("https://gitlab.freedesktop.org/xkeyboard-config/xkeyboard-config.git", "a79055334104d382bd511760b67acf9a5a161361"),
        PackageId::XorgProto => Source::Tarball("https://www.x.org/releases/individual/proto/xorgproto-2025.1.tar.xz"),
        PackageId::XorgXeyes => Source::Git("https://gitlab.freedesktop.org/xorg/app/xeyes.git", "7dc4f720f57471d2eccefd87cdca54494cf75eb5"),
        PackageId::XorgServer => Source::Git("https://gitlab.freedesktop.org/xorg/xserver.git", "312a25c65c8a918fea2cc77abd0db07ec0fc421c"),
        _ => Source::Nothing,
    }
}

/// How a package is configured, built and installed.
#[derive(Clone, Copy, Debug, PartialEq, Eq, Structural)]
pub enum Recipe {
    /// `./configure`, `make` and `make install` in the source tree.
    Autotools,
    /// `meson setup`, `meson compile` and `meson install`.
    Meson,
    Bash,
    Busybox,
    Ncurses,
    TinyCc,
    Vim,
    /// Meson, with the server's options, and its configuration file
    /// installed after it.
    XorgServer,
    /// A meta package: nothing of its own.
    Meta,
}

/// How a package is configured, built and installed.
pub open spec fn recipe_of(id: PackageId) -> Recipe {
    match id {
        PackageId::LibFontenc => Recipe::Autotools,
        PackageId::LibIce => Recipe::Autotools,
        PackageId::LibSm => Recipe::Autotools,
        PackageId::LibXcb => Recipe::Autotools,
        PackageId::LibXdamage => Recipe::Autotools,
        PackageId::LibXdmcp => Recipe::Autotools,
        PackageId::LibXext => Recipe::Autotools,
        PackageId::LibXi => Recipe::Autotools,
        PackageId::LibX11 => Recipe::Autotools,
        PackageId::LibXfont2 => Recipe::Autotools,
        PackageId::LibXmu => Recipe::Autotools,
        PackageId::LibXrandr => Recipe::Autotools,
        PackageId::LibXrender => Recipe::Autotools,
        PackageId::LibXshmfence => Recipe::Autotools,
        PackageId::LibXt => Recipe::Autotools,
        PackageId::XcbProto => Recipe::Autotools,
        PackageId::XcbUtil => Recipe::Autotools,
        PackageId::XorgFontUtil => Recipe::Autotools,
        PackageId::XorgTwm => Recipe::Autotools,
        PackageId::XorgUtilMacros => Recipe::Autotools,
        PackageId::XorgXauth => Recipe::Autotools,
        PackageId::XorgXinit => Recipe::Autotools,
        PackageId::XorgXkbcomp => Recipe::Autotools,
        PackageId::XorgXmodmap => Recipe::Autotools,
        PackageId::XorgXrdb => Recipe::Autotools,
        PackageId::Xtrans => Recipe::Autotools,
        PackageId::Freetype2 => Recipe::Meson,
        PackageId::Pixman => Recipe::Meson,
        PackageId::LibXau => Recipe::Meson,
        PackageId::LibXfixes => Recipe::Meson,
        PackageId::LibXinerama => Recipe::Meson,
        PackageId::LibXkbfile => Recipe::Meson,
        PackageId::LibXcvt => Recipe::Meson,
        PackageId::XkeyboardConfig => Recipe::Meson,
        PackageId::XorgProto => Recipe::Meson,
        PackageId::XorgXeyes => Recipe::Meson,
        PackageId::Bash => Recipe::Bash,
        PackageId::Busybox => Recipe::Busybox,
        PackageId::Ncurses => Recipe::Ncurses,
        PackageId::TinyCc => Recipe::TinyCc,
        PackageId::Vim => Recipe::Vim,
        PackageId::XorgServer => Recipe::XorgServer,
        _ => Recipe::Meta,
    }
}

/// How a package is configured, built and installed.
pub fn recipe(id: PackageId) -> (r: Recipe)
    ensures
        r == recipe_of(id),
{
    match id {
        PackageId::LibFontenc
        | PackageId::LibIce
        | PackageId::LibSm
        | PackageId::LibXcb
        | PackageId::LibXdamage
        | PackageId::LibXdmcp
        | PackageId::LibXext
        | PackageId::LibXi
        | PackageId::LibX11
        | PackageId::LibXfont2
        | PackageId::LibXmu
        | PackageId::LibXrandr
        | PackageId::LibXrender
        | PackageId::LibXshmfence
        | PackageId::LibXt
        | PackageId::XcbProto
        | PackageId::XcbUtil
        | PackageId::XorgFontUtil
        | PackageId::XorgTwm
        | PackageId::XorgUtilMacros
        | PackageId::XorgXauth
        | PackageId::XorgXinit
        | PackageId::XorgXkbcomp
        | PackageId::XorgXmodmap
        | PackageId::XorgXrdb
        | PackageId::Xtrans => Recipe::Autotools,
        PackageId::Freetype2
        | PackageId::Pixman
        | PackageId::LibXau
        | PackageId::LibXfixes
        | PackageId::LibXinerama
        | PackageId::LibXkbfile
        | PackageId::LibXcvt
        | PackageId::XkeyboardConfig
        | PackageId::XorgProto
        | PackageId::XorgXeyes => Recipe::Meson,
        PackageId::Bash => Recipe::Bash,
        PackageId::Busybox => Recipe::Busybox,
        PackageId::Ncurses => Recipe::Ncurses,
        PackageId::TinyCc => Recipe::TinyCc,
        PackageId::Vim => Recipe::Vim,
        PackageId::XorgServer => Recipe::XorgServer,
        _ => Recipe::Meta,
    }
}

/// The extra `configure` arguments of an autotools package.
pub open spec fn autotools_args_of(id: PackageId) -> Seq<Seq<char>> {
    if id is LibXfont2 {
        libxfont2_args_of()
    } else {
        Seq::empty()
    }
}

/// The extra `configure` arguments of an autotools package.
pub fn autotools_args(id: PackageId) -> (r: Vec<String>)
    ensures
        r.deep_view() == autotools_args_of(id),
{
    match id {
        PackageId::LibXfont2 => libxfont2_args(),
        _ => {
            let r: Vec<String> = Vec::new();
            assert(r.deep_view() =~= Seq::<Seq<char>>::empty());
            r
        },
    }
}

/// Where libX11 finds `keysymdef.h`: the staged X11 headers.
pub fn libx11_extra_args(ctx: &Context) -> (r: Vec<String>)
    ensures
        r.deep_view() == seq!["--with-keysymdefdir="@ + join_path(ctx.include_root_dir@, "X11"@)],
{
    let dir = join(ctx.include_root_dir.as_str(), "X11");
    let mut r: Vec<String> = Vec::new();
    r.push(flag("--with-keysymdefdir=", dir.as_str()));
    assert(r.deep_view() =~= seq!["--with-keysymdefdir="@ + join_path(ctx.include_root_dir@, "X11"@)]);
    r
}

/// Where libXt looks for application defaults.
pub fn libxt_args() -> (r: Vec<String>)
    ensures
        r.deep_view() == seq!["--with-appdefaultdir="@ + APPDEFAULTDIR@],
{
    let mut r: Vec<String> = Vec::new();
    r.push(flag("--with-appdefaultdir=", APPDEFAULTDIR));
    assert(r.deep_view() =~= seq!["--with-appdefaultdir="@ + APPDEFAULTDIR@]);
    r
}

/// The `configure` arguments of an autotools package that depend on the
/// run's directories.
pub open spec fn autotools_dynamic_args_of(id: PackageId, ctx: Context) -> Seq<Seq<char>> {
    match id {
        PackageId::LibX11 => seq!["--with-keysymdefdir="@ + join_path(ctx.include_root_dir@, "X11"@)],
        PackageId::LibXt => seq!["--with-appdefaultdir="@ + APPDEFAULTDIR@],
        _ => Seq::empty(),
    }
}

/// The `configure` arguments of an autotools package that depend on the
/// run's directories.
pub fn autotools_dynamic_args(id: PackageId, ctx: &Context) -> (r: Vec<String>)
    ensures
        r.deep_view() == autotools_dynamic_args_of(id, *ctx),
{
    match id {
        PackageId::LibX11 => libx11_extra_args(ctx),
        PackageId::LibXt => libxt_args(),
        _ => {
            let r: Vec<String> = Vec::new();
            assert(r.deep_view() =~= Seq::<Seq<char>>::empty());
            r
        },
    }
}

/// The Meson options of a Meson package.
pub open spec fn meson_args_of(id: PackageId) -> Seq<Seq<char>> {
    match id {
        PackageId::Freetype2 => freetype_args_of(),
        PackageId::Pixman => pixman_args_of(),
        PackageId::XkeyboardConfig => xkeyboard_config_args_of(),
        _ => Seq::empty(),
    }
}

/// The Meson options of a Meson package.
pub fn meson_args(id: PackageId) -> (r: Vec<String>)
    ensures
        r.deep_view() == meson_args_of(id),
{
    match id {
        PackageId::Freetype2 => freetype_args(),
        PackageId::Pixman => pixman_args(),
        PackageId::XkeyboardConfig => xkeyboard_config_args(),
        _ => {
            let r: Vec<String> = Vec::new();
            assert(r.deep_view() =~= Seq::<Seq<char>>::empty());
            r
        },
    }
}

/// The X server's directories of keyboard descriptions and fonts.
pub open spec fn xorg_server_args_of() -> Seq<Seq<char>> {
    seq![
        "-Dxkb_bin_dir="@ + BINDIR@,
        "-Dxkb_dir="@ + XKB_DIR@,
        "-Dxkb_output_dir="@ + XKB_OUTPUT_DIR@,
        "-Ddefault_font_path="@ + DEFAULT_FONT_PATH@,
    ]
}

/// The X server's directories of keyboard descriptions and fonts.
pub fn xorg_server_args() -> (r: Vec<String>)
    ensures
        r.deep_view() == xorg_server_args_of(),
{
    let mut r: Vec<String> = Vec::new();
    r.push(flag("-Dxkb_bin_dir=", BINDIR));
    r.push(flag("-Dxkb_dir=", XKB_DIR));
    r.push(flag("-Dxkb_output_dir=", XKB_OUTPUT_DIR));
    r.push(flag("-Ddefault_font_path=", DEFAULT_FONT_PATH));
    assert(r.deep_view() =~= xorg_server_args_of());
    r
}

/// A phase of a package's workflow.
#[derive(Clone, Copy, Debug, PartialEq, Eq, Structural)]
pub enum Phase {
    Fetch,
    Patch,
    Configure,
    Build,
    Install,
}

/// The phases of a package's workflow, in order.
pub open spec fn phases_of() -> Seq<Phase> {
    seq![Phase::Fetch, Phase::Patch, Phase::Configure, Phase::Build, Phase::Install]
}

/// The phases of a package's workflow, in order.
pub fn phases() -> (r: Vec<Phase>)
    ensures
        r@ == phases_of(),
{
    vec![Phase::Fetch, Phase::Patch, Phase::Configure, Phase::Build, Phase::Install]
}

/// The name of a phase's stamp.
pub open spec fn phase_name_of(p: Phase) -> Seq<char> {
    match p {
        Phase::Fetch => "fetch"@,
        Phase::Patch => "patch"@,
        Phase::Configure => "configure"@,
        Phase::Build => "build"@,
        Phase::Install => "install"@,
    }
}

/// The name of a phase's stamp.
pub fn phase_name(p: Phase) -> (r: &'static str)
    ensures
        r@ == phase_name_of(p),
{
    match p {
        Phase::Fetch => "fetch",
        Phase::Patch => "patch",
        Phase::Configure => "configure",
        Phase::Build => "build",
        Phase::Install => "install",
    }
}

/// Whether a rebuild leaves the phase alone once its stamp exists: the
/// sources are fetched only once.
pub fn phase_ignores_rebuild(p: Phase) -> (r: bool)
    ensures
        r == (p is Fetch),
{
    match p {
        Phase::Fetch => true,
        _ => false,
    }
}

/// The steps that fetch a package's sources.
pub open spec fn fetch_plan(id: PackageId, ctx: Context) -> Seq<StepView> {
    let paths = paths_of(ctx, name_of(id));
    match source_of(id) {
        SourceView::Tarball(u) => tarball_fetch_steps(paths, seq![u], name_of(id)),
        SourceView::Git(u, c) => git_fetch_steps(paths, u, c),
        SourceView::Nothing => Seq::empty(),
    }
}

/// The steps that fetch a package's sources.
pub fn fetch_steps(id: PackageId, ctx: &Context) -> (r: Vec<Step>)
    ensures
        steps_view(r@) == fetch_plan(id, *ctx),
{
    let paths = PackagePaths::calc(ctx, id.name());
    match source(id) {
        Source::Tarball(u) => {
            let mut urls: Vec<String> = Vec::new();
            urls.push(u.to_string());
            assert(urls.deep_view() =~= seq![u@]);
            tarball_fetch(&paths, &urls, id.name())
        },
        Source::Git(u, c) => git_clone_fetch(&paths, u, c),
        Source::Nothing => {
            let r: Vec<Step> = Vec::new();
            assert(steps_view(r@) =~= Seq::<StepView>::empty());
            r
        },
    }
}

/// The steps that patch a package's sources: its patch file, when there is
/// one, is applied to the source tree.
pub open spec fn patch_plan(id: PackageId, ctx: Context) -> Seq<StepView> {
    let paths = paths_of(ctx, name_of(id));
    seq![StepView::EnsureDir(paths.stamp), StepView::ApplyPatchIfExists(paths.src, paths.patch)]
}

/// The steps that patch a package's sources.
pub fn patch_steps(id: PackageId, ctx: &Context) -> (r: Vec<Step>)
    ensures
        steps_view(r@) == patch_plan(id, *ctx),
{
    let paths = PackagePaths::calc(ctx, id.name());
    let mut r: Vec<Step> = Vec::new();
    push_step(&mut r, Step::EnsureDir(paths.stamp.clone()));
    push_step(&mut r, Step::ApplyPatchIfExists { src_dir: paths.src.clone(), patch: paths.patch.clone() });
    assert(steps_view(r@) =~= patch_plan(id, *ctx));
    r
}

/// The shell command that completes busybox's configuration with the
/// defaults of every option that the merged settings leave open.
pub open spec fn busybox_oldconfig_script(src: Seq<char>, build: Seq<char>) -> Seq<char> {
    "yes \"\" | make -C '"@ + src + "' O='"@ + build + "' HOSTCC='gcc' oldconfig >/dev/null"@
}

/// The steps that load the target's busybox settings: a
/// configuration with every option off, then the settings merged into it.
pub open spec fn load_config_plan(ctx: Context, jobs: u64) -> Seq<StepView> {
    let paths = paths_of(ctx, "busybox"@);
    let config = join_path(paths.build, ".config"@);
    seq![
        StepView::RemoveFile(config),
        StepView::Run(
            make_view(jobs).with_arg("-C"@).with_arg(paths.src).with_arg("O="@ + paths.build).with_arg(
                "HOSTCC=gcc"@,
            ).with_arg("allnoconfig"@),
        ),
        StepView::MergeBusyboxConfig(config, join_path(ctx.packages_root@, "busybox/seele.config"@)),
    ]
}

/// The steps that load the target's busybox settings.
pub fn load_config(ctx: &Context, jobs: u64) -> (r: Vec<Step>)
    ensures
        steps_view(r@) == load_config_plan(*ctx, jobs),
{
    let paths = PackagePaths::calc(ctx, "busybox");
    let config = join(paths.build.as_str(), ".config");
    let settings = join(ctx.packages_root.as_str(), "busybox/seele.config");
    let mut r: Vec<Step> = Vec::new();
    push_step(&mut r, Step::RemoveFile(config.clone()));
    push_step(
        &mut r,
        Step::Run(
            make(jobs).arg("-C").arg(paths.src.as_str()).arg(flag("O=", paths.build.as_str()).as_str()).arg(
                "HOSTCC=gcc",
            ).arg("allnoconfig"),
        ),
    );
    push_step(&mut r, Step::MergeBusyboxConfig { config, settings });
    assert(steps_view(r@) =~= load_config_plan(*ctx, jobs));
    r
}

/// The steps that configure busybox (`load_config`, then `oldconfig`): a
/// configuration with every option off, the target's settings merged into
/// it, then the defaults of the rest.
pub open spec fn busybox_configure_plan(ctx: Context, jobs: u64) -> Seq<StepView> {
    let paths = paths_of(ctx, "busybox"@);
    load_config_plan(ctx, jobs) + seq![
        StepView::Run(
            CommandSpecView::new("sh"@).with_arg("-c"@).with_arg(
                busybox_oldconfig_script(paths.src, paths.build),
            ),
        ),
    ]
}

/// The steps that configure a package.
pub open spec fn configure_plan(id: PackageId, ctx: Context, jobs: u64) -> Seq<StepView> {
    let paths = paths_of(ctx, name_of(id));
    match recipe_of(id) {
        Recipe::Autotools => seq![
            StepView::ConfigureAutotools(
                paths.src,
                CommandSpecView::new("./configure"@).with_cwd(paths.src),
                autotools_args_of(id),
                autotools_dynamic_args_of(id, ctx),
            ),
        ],
        Recipe::Meson => seq![
            StepView::EnsureDir(paths.build),
            StepView::ConfigureMeson(meson_args_of(id), Seq::empty()),
        ],
        Recipe::XorgServer => seq![
            StepView::EnsureDir(paths.build),
            StepView::ConfigureMeson(xorg_server_flags_of(), xorg_server_args_of()),
        ],
        Recipe::Bash => seq![
            StepView::ConfigureAutotools(
                paths.src,
                CommandSpecView::new("./configure"@).with_cwd(paths.src).with_envs(
                    bash_configure_envs_of(),
                ),
                bash_configure_args_of(),
                Seq::empty(),
            ),
        ],
        Recipe::Vim => seq![
            StepView::ConfigureAutotools(
                paths.src,
                CommandSpecView::new("./configure"@).with_cwd(paths.src).with_envs(
                    vim_configure_envs_of(),
                ),
                vim_configure_args_of(),
                Seq::empty(),
            ),
        ],
        Recipe::Ncurses => seq![
            StepView::ConfigureAutotools(
                paths.src,
                CommandSpecView::new("../configure"@).with_cwd(paths.build).with_envs(
                    ncurses_configure_envs_of(),
                ),
                ncurses_configure_args_of(),
                seq!["--with-build-cc="@ + BUILD_CC@],
            ),
        ],
        Recipe::TinyCc => seq![
            StepView::Run(
                CommandSpecView::new("./configure"@).with_arg("--prefix=/"@).with_cwd(paths.src),
            ),
        ],
        Recipe::Busybox => busybox_configure_plan(ctx, jobs),
        Recipe::Meta => Seq::empty(),
    }
}

/// A configure step of an autotools source tree.
fn autotools_step(source_dir: &str, spec: CommandSpec, args: Vec<String>, dynamic_args: Vec<String>) -> (r:
    Vec<Step>)
    ensures
        steps_view(r@) == seq![
            StepView::ConfigureAutotools(
                source_dir@,
                spec@,
                args.deep_view(),
                dynamic_args.deep_view(),
            ),
        ],
{
    let mut r: Vec<Step> = Vec::new();
    push_step(
        &mut r,
        Step::ConfigureAutotools { source_dir: source_dir.to_string(), spec, args, dynamic_args },
    );
    r
}

/// A configure step of a Meson package, after its build directory.
fn meson_steps(build_dir: &str, args: Vec<String>, dynamic_args: Vec<String>) -> (r: Vec<Step>)
    ensures
        steps_view(r@) == seq![
            StepView::EnsureDir(build_dir@),
            StepView::ConfigureMeson(args.deep_view(), dynamic_args.deep_view()),
        ],
{
    let mut r: Vec<Step> = Vec::new();
    push_step(&mut r, Step::EnsureDir(build_dir.to_string()));
    push_step(&mut r, Step::ConfigureMeson { args, dynamic_args });
    r
}

/// The steps that configure busybox.
pub fn busybox_configure_steps(ctx: &Context, jobs: u64) -> (r: Vec<Step>)
    ensures
        steps_view(r@) == busybox_configure_plan(*ctx, jobs),
{
    let paths = PackagePaths::calc(ctx, "busybox");
    let mut script = "yes \"\" | make -C '".to_string();
    script.append(paths.src.as_str());
    script.append("' O='");
    script.append(paths.build.as_str());
    script.append("' HOSTCC='gcc' oldconfig >/dev/null");
    let mut r = load_config(ctx, jobs);
    push_step(&mut r, Step::Run(CommandSpec::new("sh").arg("-c").arg(script.as_str())));
    assert(steps_view(r@) =~= busybox_configure_plan(*ctx, jobs));
    r
}

/// The steps that configure a package.
pub fn configure_steps(id: PackageId, ctx: &Context, jobs: u64) -> (r: Vec<Step>)
    ensures
        steps_view(r@) == configure_plan(id, *ctx, jobs),
{
    let paths = PackagePaths::calc(ctx, id.name());
    let none: Vec<String> = Vec::new();
    assert(none.deep_view() =~= Seq::<Seq<char>>::empty());
    match recipe(id) {
        Recipe::Autotools => autotools_step(
            paths.src.as_str(),
            CommandSpec::new("./configure").cwd(paths.src.as_str()),
            autotools_args(id),
            autotools_dynamic_args(id, ctx),
        ),
        Recipe::Meson => meson_steps(paths.build.as_str(), meson_args(id), none),
        Recipe::XorgServer => meson_steps(
            paths.build.as_str(),
            xorg_server_flags(),
            xorg_server_args(),
        ),
        Recipe::Bash => autotools_step(
            paths.src.as_str(),
            CommandSpec::new("./configure").cwd(paths.src.as_str()).envs(&bash_configure_envs()),
            bash_configure_args(),
            none,
        ),
        Recipe::Vim => autotools_step(
            paths.src.as_str(),
            CommandSpec::new("./configure").cwd(paths.src.as_str()).envs(&vim_configure_envs()),
            vim_configure_args(),
            none,
        ),
        Recipe::Ncurses => {
            let mut dynamic: Vec<String> = Vec::new();
            dynamic.push(flag("--with-build-cc=", BUILD_CC));
            assert(dynamic.deep_view() =~= seq!["--with-build-cc="@ + BUILD_CC@]);
            autotools_step(
                paths.src.as_str(),
                CommandSpec::new("../configure").cwd(paths.build.as_str()).envs(
                    &ncurses_configure_envs(),
                ),
                ncurses_configure_args(),
                dynamic,
            )
        },
        Recipe::TinyCc => {
            let mut r: Vec<Step> = Vec::new();
            push_step(
                &mut r,
                Step::Run(CommandSpec::new("./configure").arg("--prefix=/").cwd(paths.src.as_str())),
            );
            assert(steps_view(r@) =~= configure_plan(id, *ctx, jobs));
            r
        },
        Recipe::Busybox => busybox_configure_steps(ctx, jobs),
        Recipe::Meta => {
            let r: Vec<Step> = Vec::new();
            assert(steps_view(r@) =~= Seq::<StepView>::empty());
            r
        },
    }
}

/// The `make` arguments of busybox: its build directory, the compilers, and
/// the one target.
pub open spec fn busybox_build_args_of(build: Seq<char>) -> Seq<Seq<char>> {
    seq!["O="@ + build, "HOSTCC=gcc"@, "CC="@ + CC@, "busybox"@]
}

/// The host tools that tinycc's build needs, each made unless it is there:
/// `c2str.exe`, then the `tccdefs_.h` it writes.
pub open spec fn tcc_tools_plan(paths: PackagePathsView) -> Seq<StepView> {
    seq![
        StepView::RunUnlessFile(
            join_path(paths.src, "c2str.exe"@),
            CommandSpecView::new("gcc"@).with_arg("-DC2STR"@).with_arg("conftest.c"@).with_arg(
                "-o"@,
            ).with_arg("c2str.exe"@).with_cwd(paths.src),
        ),
        StepView::RunUnlessFile(
            join_path(paths.src, "tccdefs_.h"@),
            CommandSpecView::new("./c2str.exe"@).with_arg("include/tccdefs.h"@).with_arg(
                "tccdefs_.h"@,
            ).with_cwd(paths.src),
        ),
    ]
}

/// The steps that make tinycc's host tools.
pub fn build_tcc_tools(paths: &PackagePaths) -> (r: Vec<Step>)
    ensures
        steps_view(r@) == tcc_tools_plan(paths@),
{
    let mut r: Vec<Step> = Vec::new();
    push_step(
        &mut r,
        Step::RunUnlessFile {
            path: join(paths.src.as_str(), "c2str.exe"),
            command: CommandSpec::new("gcc").arg("-DC2STR").arg("conftest.c").arg("-o").arg(
                "c2str.exe",
            ).cwd(paths.src.as_str()),
        },
    );
    push_step(
        &mut r,
        Step::RunUnlessFile {
            path: join(paths.src.as_str(), "tccdefs_.h"),
            command: CommandSpec::new("./c2str.exe").arg("include/tccdefs.h").arg(
                "tccdefs_.h",
            ).cwd(paths.src.as_str()),
        },
    );
    assert(steps_view(r@) =~= tcc_tools_plan(paths@));
    r
}

/// The steps that build tinycc (`build_tcc_tools`, then the compiler): the
/// host helper and the generated header when they are missing, then the
/// compiler, moved into the build directory.
pub open spec fn tinycc_build_plan(ctx: Context, jobs: u64) -> Seq<StepView> {
    let paths = paths_of(ctx, "tinycc"@);
    tcc_tools_plan(paths) + seq![
        StepView::RemoveFile(join_path(paths.build, "tcc"@)),
        StepView::Run(
            make_view(jobs).with_arg("-f"@).with_arg("Makefile"@).with_arg("CC="@ + CC@).with_arg(
                "tcc"@,
            ).with_cwd(paths.src),
        ),
        StepView::Rename(join_path(paths.src, "tcc"@), join_path(paths.build, "tcc"@)),
    ]
}

/// One command as a plan, or the error that stopped it.
pub open spec fn run_plan(c: Result<CommandSpecView, Error>) -> Result<Seq<StepView>, Error> {
    match c {
        Ok(c) => Ok(seq![StepView::Run(c)]),
        Err(e) => Err(e),
    }
}

/// The steps that build a package, given the host's `PATH` and the number
/// of parallel jobs.
pub open spec fn build_plan(id: PackageId, ctx: Context, host_path: Seq<char>, jobs: u64) -> Result<
    Seq<StepView>,
    Error,
> {
    let paths = paths_of(ctx, name_of(id));
    match recipe_of(id) {
        Recipe::Autotools => run_plan(
            autotools_build_spec(paths, ctx, host_path, jobs, Seq::empty(), Seq::empty()),
        ),
        Recipe::Meson | Recipe::XorgServer => run_plan(meson_build_spec(paths, ctx, host_path, jobs)),
        Recipe::Bash => Ok(
            seq![
                StepView::Run(
                    make_view(jobs).with_cwd(paths.src).with_envs(bash_build_envs_of()).with_args(
                        seq!["bash"@],
                    ),
                ),
            ],
        ),
        Recipe::Vim => Ok(
            seq![
                StepView::Run(
                    make_view(jobs).with_cwd(paths.src).with_envs(vim_build_envs_of()).with_args(
                        Seq::empty(),
                    ),
                ),
            ],
        ),
        Recipe::Ncurses => Ok(
            seq![
                StepView::Run(
                    make_view(jobs).with_cwd(paths.build).with_envs(Seq::empty()).with_args(
                        Seq::empty(),
                    ),
                ),
            ],
        ),
        Recipe::Busybox => Ok(
            seq![
                StepView::Run(
                    make_view(jobs).with_cwd(paths.src).with_envs(Seq::empty()).with_args(
                        busybox_build_args_of(paths.build),
                    ),
                ),
            ],
        ),
        Recipe::TinyCc => Ok(tinycc_build_plan(ctx, jobs)),
        Recipe::Meta => Ok(Seq::empty()),
    }
}

/// One command as steps.
fn run_steps(c: Result<CommandSpec, Error>) -> (r: Result<Vec<Step>, Error>)
    ensures
        plan_view(r) == run_plan(view_result(c)),
{
    match c {
        Ok(c) => {
            let ghost cv = c@;
            let mut r: Vec<Step> = Vec::new();
            push_step(&mut r, Step::Run(c));
            assert(steps_view(r@) =~= seq![StepView::Run(cv)]);
            Ok(r)
        },
        Err(e) => Err(e),
    }
}

/// The steps that build tinycc.
pub fn tinycc_build_steps(ctx: &Context, jobs: u64) -> (r: Vec<Step>)
    ensures
        steps_view(r@) == tinycc_build_plan(*ctx, jobs),
{
    let paths = PackagePaths::calc(ctx, "tinycc");
    let mut r = build_tcc_tools(&paths);
    let target = join(paths.build.as_str(), "tcc");
    push_step(&mut r, Step::RemoveFile(target.clone()));
    push_step(
        &mut r,
        Step::Run(
            make(jobs).arg("-f").arg("Makefile").arg(flag("CC=", CC).as_str()).arg("tcc").cwd(
                paths.src.as_str(),
            ),
        ),
    );
    push_step(&mut r, Step::Rename { from: join(paths.src.as_str(), "tcc"), to: target });
    assert(steps_view(r@) =~= tinycc_build_plan(*ctx, jobs));
    r
}

/// The steps that build a package, given the host's
/// `PATH` and the number of parallel jobs.
pub fn build_steps(id: PackageId, ctx: &Context, host_path: &str, jobs: u64) -> (r: Result<
    Vec<Step>,
    Error,
>)
    ensures
        plan_view(r) == build_plan(id, *ctx, host_path@, jobs),
{
    let paths = PackagePaths::calc(ctx, id.name());
    let none: Vec<String> = Vec::new();
    let no_envs: Vec<(String, String)> = Vec::new();
    assert(none.deep_view() =~= Seq::<Seq<char>>::empty());
    assert(no_envs.deep_view() =~= Seq::<(Seq<char>, Seq<char>)>::empty());
    match recipe(id) {
        Recipe::Autotools => run_steps(
            build_autotools_with(&paths, ctx, host_path, jobs, &no_envs, &none),
        ),
        Recipe::Meson | Recipe::XorgServer => run_steps(build_meson(&paths, ctx, host_path, jobs)),
        Recipe::Bash => {
            let mut args: Vec<String> = Vec::new();
            args.push("bash".to_string());
            assert(args.deep_view() =~= seq!["bash"@]);
            run_steps(Ok(build_make_in(paths.src.as_str(), &bash_build_envs(), &args, jobs)))
        },
        Recipe::Vim => run_steps(
            Ok(build_make_in(paths.src.as_str(), &vim_build_envs(), &none, jobs)),
        ),
        Recipe::Ncurses => run_steps(Ok(build_make_in(paths.build.as_str(), &no_envs, &none, jobs))),
        Recipe::Busybox => {
            let mut args: Vec<String> = Vec::new();
            args.push(flag("O=", paths.build.as_str()));
            args.push("HOSTCC=gcc".to_string());
            args.push(flag("CC=", CC));
            args.push("busybox".to_string());
            assert(args.deep_view() =~= busybox_build_args_of(paths.build@));
            run_steps(Ok(build_make_in(paths.src.as_str(), &no_envs, &args, jobs)))
        },
        Recipe::TinyCc => Ok(tinycc_build_steps(ctx, jobs)),
        Recipe::Meta => {
            let r: Vec<Step> = Vec::new();
            assert(steps_view(r@) =~= Seq::<StepView>::empty());
            Ok(r)
        },
    }
}

/// The command that lists busybox's applets: the applet table run through
/// the preprocessor with the configured options.
pub open spec fn busybox_applets_command(build: Seq<char>) -> CommandSpecView {
    CommandSpecView::new("gcc"@).with_arg("-E"@).with_arg("-DMAKE_LINKS"@).with_arg("-include"@).with_arg(
        join_path(build, "include/autoconf.h"@),
    ).with_arg(join_path(build, "include/applets.h"@))
}

/// The step that installs the X server's configuration file into the
/// sysroot.
pub open spec fn xorg_server_hook_plan(ctx: Context) -> Result<StepView, Error> {
    match parent_path(ctx.install_dir@) {
        Some(sysroot) => Ok(
            StepView::CopyAsRoot(
                join_path(ctx.packages_root@, "xorg-server/xorg.conf"@),
                join_path(sysroot, "etc/X11/xorg.conf"@),
            ),
        ),
        None => Err(Error::InstallDirHasNoParent),
    }
}

/// The step that installs the X server's configuration file.
pub fn xorg_server_install_hook(ctx: &Context) -> (r: Result<Step, Error>)
    ensures
        match r {
            Ok(s) => xorg_server_hook_plan(*ctx) == Ok::<StepView, Error>(s@),
            Err(e) => xorg_server_hook_plan(*ctx) == Err::<StepView, Error>(e),
        },
{
    let sysroot = match sysroot_dir(ctx) {
        Ok(s) => s,
        Err(e) => return Err(e),
    };
    Ok(
        Step::CopyAsRoot {
            from: join(ctx.packages_root.as_str(), "xorg-server/xorg.conf"),
            to: join(sysroot.as_str(), "etc/X11/xorg.conf"),
        },
    )
}

/// The steps that install a package into the staged sysroot.
pub open spec fn install_plan(id: PackageId, ctx: Context) -> Result<Seq<StepView>, Error> {
    let paths = paths_of(ctx, name_of(id));
    match recipe_of(id) {
        Recipe::Autotools => run_plan(install_make_spec(paths.src, ctx)),
        Recipe::Meson => run_plan(install_meson_spec(paths, ctx)),
        Recipe::XorgServer => match (install_meson_spec(paths, ctx), xorg_server_hook_plan(ctx)) {
            (Ok(c), Ok(h)) => Ok(seq![StepView::Run(c), h]),
            (Err(e), _) => Err(e),
            (_, Err(e)) => Err(e),
        },
        Recipe::Ncurses => run_plan(install_make_spec(paths.build, ctx)),
        Recipe::Bash => Ok(
            seq![
                StepView::InstallFile(
                    join_path(paths.src, "bash"@),
                    join_path(ctx.install_dir@, "bash"@),
                ),
            ],
        ),
        Recipe::TinyCc => Ok(
            seq![
                StepView::InstallFile(
                    join_path(paths.build, "tcc"@),
                    join_path(ctx.install_dir@, "tcc"@),
                ),
            ],
        ),
        Recipe::Vim => match parent_path(ctx.install_dir@) {
            Some(sysroot) => Ok(
                seq![
                    StepView::InstallFile(
                        join_path(paths.src, "src/vim"@),
                        join_path(ctx.install_dir@, "vim"@),
                    ),
                    StepView::Run(
                        CommandSpecView::new("sudo"@).with_arg("mkdir"@).with_arg("-p"@).with_arg(
                            join_path(sysroot, "misc/vim"@),
                        ),
                    ),
                    StepView::Run(
                        CommandSpecView::new("sudo"@).with_arg("cp"@).with_arg("-a"@).with_arg(
                            join_path(join_path(paths.src, "runtime"@), "."@),
                        ).with_arg(join_path(sysroot, "misc/vim"@)),
                    ),
                ],
            ),
            None => Err(Error::InstallDirHasNoParent),
        },
        Recipe::Busybox => Ok(
            seq![
                StepView::InstallBusybox(
                    busybox_applets_command(paths.build),
                    join_path(paths.build, "busybox"@),
                    join_path(ctx.install_dir@, "busybox"@),
                    ctx.install_dir@,
                ),
                StepView::CheckInstalled(
                    join_path(ctx.install_dir@, "busybox"@),
                    join_path(ctx.install_dir@, "ls"@),
                ),
            ],
        ),
        Recipe::Meta => Ok(Seq::empty()),
    }
}

/// The steps that install a package.
pub fn install_steps(id: PackageId, ctx: &Context) -> (r: Result<Vec<Step>, Error>)
    ensures
        plan_view(r) == install_plan(id, *ctx),
{
    let paths = PackagePaths::calc(ctx, id.name());
    match recipe(id) {
        Recipe::Autotools => run_steps(install_autotools(&paths, ctx)),
        Recipe::Meson => run_steps(install_meson(&paths, ctx)),
        Recipe::XorgServer => {
            let c = match install_meson(&paths, ctx) {
                Ok(c) => c,
                Err(e) => return Err(e),
            };
            let h = match xorg_server_install_hook(ctx) {
                Ok(h) => h,
                Err(e) => return Err(e),
            };
            let mut r: Vec<Step> = Vec::new();
            push_step(&mut r, Step::Run(c));
            push_step(&mut r, h);
            assert(steps_view(r@) =~= install_plan(id, *ctx)->Ok_0);
            Ok(r)
        },
        Recipe::Ncurses => run_steps(install_make_in(paths.build.as_str(), ctx)),
        Recipe::Bash => {
            let target = join(ctx.install_dir.as_str(), "bash");
            let source = join(paths.src.as_str(), "bash");
            let mut r: Vec<Step> = Vec::new();
            push_step(&mut r, install_file(source.as_str(), target.as_str()));
            assert(steps_view(r@) =~= install_plan(id, *ctx)->Ok_0);
            Ok(r)
        },
        Recipe::TinyCc => {
            let target = join(ctx.install_dir.as_str(), "tcc");
            let source = join(paths.build.as_str(), "tcc");
            let mut r: Vec<Step> = Vec::new();
            push_step(&mut r, install_file(source.as_str(), target.as_str()));
            assert(steps_view(r@) =~= install_plan(id, *ctx)->Ok_0);
            Ok(r)
        },
        Recipe::Vim => {
            let sysroot = match sysroot_dir(ctx) {
                Ok(s) => s,
                Err(e) => return Err(e),
            };
            let source = join(paths.src.as_str(), "src/vim");
            let target = join(ctx.install_dir.as_str(), "vim");
            let runtime_source = join(paths.src.as_str(), "runtime");
            let runtime_target = join(sysroot.as_str(), "misc/vim");
            let mut r: Vec<Step> = Vec::new();
            push_step(&mut r, install_file(source.as_str(), target.as_str()));
            let rest = install_dir_contents(runtime_source.as_str(), runtime_target.as_str());
            let ghost before = steps_view(r@);
            let ghost restv = steps_view(rest@);
            let mut rest = rest;
            r.append(&mut rest);
            assert(steps_view(r@) =~= before + restv);
            assert(steps_view(r@) =~= install_plan(id, *ctx)->Ok_0);
            Ok(r)
        },
        Recipe::Busybox => {
            let binary = join(ctx.install_dir.as_str(), "busybox");
            let command = CommandSpec::new("gcc").arg("-E").arg("-DMAKE_LINKS").arg("-include").arg(
                join(paths.build.as_str(), "include/autoconf.h").as_str(),
            ).arg(join(paths.build.as_str(), "include/applets.h").as_str());
            let mut r: Vec<Step> = Vec::new();
            push_step(
                &mut r,
                Step::InstallBusybox {
                    command,
                    source: join(paths.build.as_str(), "busybox"),
                    binary: binary.clone(),
                    install_dir: ctx.install_dir.clone(),
                },
            );
            push_step(
                &mut r,
                Step::CheckInstalled { binary, link: join(ctx.install_dir.as_str(), "ls") },
            );
            assert(steps_view(r@) =~= install_plan(id, *ctx)->Ok_0);
            Ok(r)
        },
        Recipe::Meta => {
            let r: Vec<Step> = Vec::new();
            assert(steps_view(r@) =~= Seq::<StepView>::empty());
            Ok(r)
        },
    }
}

/// The steps of one phase of a package.
pub open spec fn phase_plan(
    id: PackageId,
    phase: Phase,
    ctx: Context,
    host_path: Seq<char>,
    jobs: u64,
) -> Result<Seq<StepView>, Error> {
    match phase {
        Phase::Fetch => Ok(fetch_plan(id, ctx)),
        Phase::Patch => Ok(patch_plan(id, ctx)),
        Phase::Configure => Ok(configure_plan(id, ctx, jobs)),
        Phase::Build => build_plan(id, ctx, host_path, jobs),
        Phase::Install => install_plan(id, ctx),
    }
}

/// The steps of one phase of a package, given the host's `PATH` and the
/// number of parallel jobs.  A meta package has no phases of its own.
pub fn phase_steps(id: PackageId, phase: Phase, ctx: &Context, host_path: &str, jobs: u64) -> (r:
    Result<Vec<Step>, Error>)
    requires
        !is_meta(id),
    ensures
        plan_view(r) == phase_plan(id, phase, *ctx, host_path@, jobs),
{
    match phase {
        Phase::Fetch => Ok(fetch_steps(id, ctx)),
        Phase::Patch => Ok(patch_steps(id, ctx)),
        Phase::Configure => Ok(configure_steps(id, ctx, jobs)),
        Phase::Build => build_steps(id, ctx, host_path, jobs),
        Phase::Install => install_steps(id, ctx),
    }
}

/// The steps that clean a package: its work directory is removed.
pub fn clean_steps(id: PackageId, ctx: &Context) -> (r: Vec<Step>)
    ensures
        steps_view(r@) == seq![StepView::RemoveDirIfExists(paths_of(*ctx, name_of(id)).root)],
{
    let paths = PackagePaths::calc(ctx, id.name());
    let mut r: Vec<Step> = Vec::new();
    push_step(&mut r, Step::RemoveDirIfExists(paths.root.clone()));
    assert(steps_view(r@) =~= seq![StepView::RemoveDirIfExists(paths_of(*ctx, name_of(id)).root)]);
    r
}

/// The steps that put the session files of xinit into the sysroot's home
/// directory.
pub open spec fn xinit_hook_plan(ctx: Context) -> Result<Seq<StepView>, Error> {
    match parent_path(ctx.install_dir@) {
        Some(sysroot) => Ok(
            seq![
                StepView::CopyFile(
                    join_path(ctx.packages_root@, "xorg-xinit/.xinitrc"@),
                    join_path(sysroot, "home/.xinitrc"@),
                ),
                StepView::CopyFile(
                    join_path(ctx.packages_root@, "xorg-xinit/.xserverrc"@),
                    join_path(sysroot, "home/.xserverrc"@),
                ),
            ],
        ),
        None => Err(Error::InstallDirHasNoParent),
    }
}

/// The steps that put the session files of xinit into the sysroot's home
/// directory.
pub fn xorg_xinit_install_hook(ctx: &Context) -> (r: Result<Vec<Step>, Error>)
    ensures
        plan_view(r) == xinit_hook_plan(*ctx),
{
    let sysroot = match sysroot_dir(ctx) {
        Ok(s) => s,
        Err(e) => return Err(e),
    };
    let mut r: Vec<Step> = Vec::new();
    push_step(
        &mut r,
        Step::CopyFile {
            from: join(ctx.packages_root.as_str(), "xorg-xinit/.xinitrc"),
            to: join(sysroot.as_str(), "home/.xinitrc"),
        },
    );
    push_step(
        &mut r,
        Step::CopyFile {
            from: join(ctx.packages_root.as_str(), "xorg-xinit/.xserverrc"),
            to: join(sysroot.as_str(), "home/.xserverrc"),
        },
    );
    assert(steps_view(r@) =~= xinit_hook_plan(*ctx)->Ok_0);
    Ok(r)
}


/// The working directory of a step's command, for a step that runs one.
pub open spec fn step_cwd(s: StepView) -> Option<Seq<char>> {
    match s {
        StepView::Run(c) => c.cwd,
        StepView::ConfigureAutotools(_, c, _, _) => c.cwd,
        _ => None,
    }
}

/// The command of a step, for a step that runs or configures with one.
pub open spec fn step_command(s: StepView) -> Option<CommandSpecView> {
    match s {
        StepView::Run(c) => Some(c),
        StepView::ConfigureAutotools(_, c, _, _) => Some(c),
        _ => None,
    }
}

/// A package installed with `make install` is installed from the directory
/// it was configured and built in: its `configure` and its build command
/// run in one directory, and the install is `make -C` that directory
/// `install` into the sysroot.  For ncurses, built out of tree, that is
/// its build directory.
pub proof fn law_installed_where_built(id: PackageId, ctx: Context, host_path: Seq<char>, jobs: u64)
    requires
        recipe_of(id) is Autotools || recipe_of(id) is Ncurses,
        build_plan(id, ctx, host_path, jobs) is Ok,
        install_plan(id, ctx) is Ok,
    ensures
        ({
            let b = build_plan(id, ctx, host_path, jobs)->Ok_0;
            let c = configure_plan(id, ctx, jobs);
            let sysroot = parent_path(ctx.install_dir@)->Some_0;
            &&& b.len() == 1
            &&& c.len() == 1
            &&& b[0] is Run
            &&& c[0] is ConfigureAutotools
            &&& step_cwd(b[0]) is Some
            &&& step_cwd(c[0]) == step_cwd(b[0])
            &&& parent_path(ctx.install_dir@) is Some
            &&& install_plan(id, ctx) == Ok::<Seq<StepView>, Error>(
                seq![
                    StepView::Run(
                        CommandSpecView::new("sudo"@).with_arg("env"@).with_arg("DESTDIR="@ + sysroot).with_arg(
                            "make"@,
                        ).with_arg("-C"@).with_arg(step_cwd(b[0])->Some_0).with_arg("install"@),
                    ),
                ],
            )
        }),
{
    if recipe_of(id) is Ncurses {
        assert(id == PackageId::Ncurses);
    }
}

/// Whether a command's environment gives `key` the value `val`: its last
/// entry for `key` has that value and `key` is not removed.
pub open spec fn env_gives(c: CommandSpecView, key: Seq<char>, val: Seq<char>) -> bool {
    &&& exists|i: int| 0 <= i < c.envs.len() && c.envs[i] == (key, val) && forall|j: int|
        i < j < c.envs.len() ==> (#[trigger] c.envs[j]).0 != key
    &&& !c.env_removes.contains(key)
}

/// vim is built to find its runtime files where its install puts them:
/// its build runs with `VIMRUNTIMEDIR=/misc/vim`, and its install copies
/// the runtime into `misc/vim` of the sysroot, the sysroot being the root
/// of the target system.
pub proof fn law_vim_runtime_where_installed(ctx: Context, host_path: Seq<char>, jobs: u64)
    requires
        parent_path(ctx.install_dir@) is Some,
    ensures
        ({
            let sysroot = parent_path(ctx.install_dir@)->Some_0;
            let b = build_plan(PackageId::Vim, ctx, host_path, jobs)->Ok_0;
            let i = install_plan(PackageId::Vim, ctx)->Ok_0;
            &&& build_plan(PackageId::Vim, ctx, host_path, jobs) is Ok
            &&& install_plan(PackageId::Vim, ctx) is Ok
            &&& b.len() == 1
            &&& step_command(b[0]) is Some
            &&& env_gives(step_command(b[0])->Some_0, "VIMRUNTIMEDIR"@, "/misc/vim"@)
            &&& i.len() == 3
            &&& step_command(i[2]) is Some
            &&& (step_command(i[2])->Some_0).program == "sudo"@
            &&& (step_command(i[2])->Some_0).args.last() == join_path(sysroot, "misc/vim"@)
        }),
{
    let c = step_command(build_plan(PackageId::Vim, ctx, host_path, jobs)->Ok_0[0])->Some_0;
    assert(c.envs.len() > 0);
    let i = c.envs.len() - 1;
    assert(c.envs[i] == ("VIMRUNTIMEDIR"@, "/misc/vim"@));
}

/// vim's `configure` finds the terminal library of ncurses, which it needs
/// first, and uses the target compiler: its command's environment gives
/// `LIBS=-lncurses -ltinfo` and `CC=clang --target=x86_64-seele`.
pub proof fn law_vim_configure_links_ncurses(ctx: Context, jobs: u64)
    ensures
        deps_of(PackageId::Vim).contains(PackageId::Ncurses),
        ({
            let c = configure_plan(PackageId::Vim, ctx, jobs);
            &&& c.len() == 1
            &&& c[0] is ConfigureAutotools
            &&& step_command(c[0]) is Some
            &&& env_gives(step_command(c[0])->Some_0, "LIBS"@, "-lncurses -ltinfo"@)
            &&& env_gives(step_command(c[0])->Some_0, "CC"@, "clang --target=x86_64-seele"@)
        }),
{
    law_declared_dependencies();
    assert(deps_of(PackageId::Vim)[0] == PackageId::Ncurses);
    let c = step_command(configure_plan(PackageId::Vim, ctx, jobs)[0])->Some_0;
    reveal_strlit("LIBS");
    reveal_strlit("CC");
    assert(c.envs.len() == 2);
    assert(c.envs[0] == ("CC"@, "clang --target=x86_64-seele"@));
    assert(c.envs[1] == ("LIBS"@, "-lncurses -ltinfo"@));
    assert("LIBS"@.len() == 4 && "CC"@.len() == 2);
    assert(c.envs[1].0 != "CC"@);
    assert(forall|j: int| 0 < j < c.envs.len() ==> (#[trigger] c.envs[j]).0 != "CC"@);
    assert(forall|j: int| 1 < j < c.envs.len() ==> (#[trigger] c.envs[j]).0 != "LIBS"@);
}

} // verus!
