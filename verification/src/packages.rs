//! The packages as values of their own types, each with the workflow of
//! the package it stands for.
use vstd::prelude::*;
use crate::error::Error;
use crate::install::Install;
use crate::plan::{plan_view, steps_view, Step, StepView};
use crate::fetch::{tarball_name, tarball_name_of};
use crate::recipes::{
    build_plan, build_steps, clean_steps, configure_plan, configure_steps, fetch_plan,
    fetch_steps, install_plan, install_steps, patch_plan, patch_steps, source, source_of, Source,
};
use crate::registry::{
    deps_of, install_name_of, is_meta, members_of, name_of, PackageId,
};
use crate::types::{Action, Context, PackagePaths, paths_of};
use crate::workflow::{action_steps, action_steps_of, make_order, make_sequence, ActionStep};

verus! {

/// A package of the collection.
pub trait Package {
    /// The package that this value stands for.
    spec fn package_id(&self) -> PackageId;

    /// The package that this value stands for.
    fn id(&self) -> (r: PackageId)
        ensures
            r == self.package_id(),
    ;

    /// The package's name.
    fn name(&self) -> (r: &'static str)
        ensures
            r@ == name_of(self.package_id()),
    {
        self.id().name()
    }

    /// The name of the package's installed program.
    fn install_name(&self) -> (r: &'static str)
        ensures
            r@ == install_name_of(self.package_id()),
    {
        self.id().install_name()
    }

    /// The package's directories.
    fn calc_paths(&self, ctx: &Context) -> (r: PackagePaths)
        ensures
            r@ == paths_of(*ctx, name_of(self.package_id())),
    {
        PackagePaths::calc(ctx, self.name())
    }

    /// The packages this one needs first.
    fn dependencies(&self) -> (r: Vec<PackageId>)
        ensures
            r@ == deps_of(self.package_id()),
    {
        self.id().dependencies()
    }

    /// The packages that making this one makes, in order.
    fn make(&self, ignore_deps: bool) -> (r: Vec<PackageId>)
        ensures
            r@ == make_sequence(self.package_id(), ignore_deps),
    {
        make_order(self.id(), ignore_deps)
    }

    /// What an action on this package does.
    fn run(&self, action: Action) -> (r: Vec<ActionStep>)
        ensures
            r@ == action_steps_of(action),
    {
        action_steps(action)
    }

    /// The steps that fetch the package's sources.
    fn fetch(&self, ctx: &Context) -> (r: Vec<Step>)
        requires
            !is_meta(self.package_id()),
        ensures
            steps_view(r@) == fetch_plan(self.package_id(), *ctx),
    {
        fetch_steps(self.id(), ctx)
    }

    /// The steps that patch the package's sources.
    fn patch(&self, ctx: &Context) -> (r: Vec<Step>)
        requires
            !is_meta(self.package_id()),
        ensures
            steps_view(r@) == patch_plan(self.package_id(), *ctx),
    {
        patch_steps(self.id(), ctx)
    }

    /// The steps that configure the package.
    fn configure(&self, ctx: &Context, jobs: u64) -> (r: Vec<Step>)
        requires
            !is_meta(self.package_id()),
        ensures
            steps_view(r@) == configure_plan(self.package_id(), *ctx, jobs),
    {
        configure_steps(self.id(), ctx, jobs)
    }

    /// The steps that build the package.
    fn build(&self, ctx: &Context, host_path: &str, jobs: u64) -> (r: Result<Vec<Step>, Error>)
        requires
            !is_meta(self.package_id()),
        ensures
            plan_view(r) == build_plan(self.package_id(), *ctx, host_path@, jobs),
    {
        build_steps(self.id(), ctx, host_path, jobs)
    }

    /// The steps that install the package.
    fn install(&self, ctx: &Context) -> (r: Result<Vec<Step>, Error>)
        requires
            !is_meta(self.package_id()),
        ensures
            plan_view(r) == install_plan(self.package_id(), *ctx),
    {
        install_steps(self.id(), ctx)
    }

    /// The steps that remove the package's work directory.
    fn clean(&self, ctx: &Context) -> (r: Vec<Step>)
        ensures
            steps_view(r@) == seq![StepView::RemoveDirIfExists(paths_of(*ctx, name_of(self.package_id())).root)],
    {
        clean_steps(self.id(), ctx)
    }
}

/// The message with which the program stops when a phase of a meta
/// package is asked for: a meta package has no sources of its own.
pub fn meta_panic() -> (r: &'static str)
    ensures
        r@ == "Meta packages doesnt support this."@,
{
    "Meta packages doesnt support this."
}

/// A package that only groups others.
pub trait MetaPackage: Package {
    /// The packages it groups, in the order they are made.
    fn packages(&self) -> (r: Vec<PackageId>)
        ensures
            r@ == members_of(self.package_id()),
    {
        self.id().members()
    }
}

/// The package `bash`.
pub struct Bash;

impl Package for Bash {
    open spec fn package_id(&self) -> PackageId {
        PackageId::Bash
    }

    fn id(&self) -> (r: PackageId) {
        PackageId::Bash
    }
}

impl Install for Bash {
    open spec fn binary(&self) -> Seq<char> {
        "bash"@
    }

    fn binary_name(&self) -> (r: &'static str) {
        "bash"
    }
}

/// The package `busybox`.
pub struct Busybox;

impl Package for Busybox {
    open spec fn package_id(&self) -> PackageId {
        PackageId::Busybox
    }

    fn id(&self) -> (r: PackageId) {
        PackageId::Busybox
    }
}

/// The package `ncurses`.
pub struct Ncurses;

impl Package for Ncurses {
    open spec fn package_id(&self) -> PackageId {
        PackageId::Ncurses
    }

    fn id(&self) -> (r: PackageId) {
        PackageId::Ncurses
    }
}

/// The package `tinycc`.
pub struct TinyCc;

impl Package for TinyCc {
    open spec fn package_id(&self) -> PackageId {
        PackageId::TinyCc
    }

    fn id(&self) -> (r: PackageId) {
        PackageId::TinyCc
    }
}

/// The package `vim`.
pub struct Vim;

impl Package for Vim {
    open spec fn package_id(&self) -> PackageId {
        PackageId::Vim
    }

    fn id(&self) -> (r: PackageId) {
        PackageId::Vim
    }
}

/// The meta package `base`.
pub struct BasePackage;

impl Package for BasePackage {
    open spec fn package_id(&self) -> PackageId {
        PackageId::Base
    }

    fn id(&self) -> (r: PackageId) {
        PackageId::Base
    }
}

impl MetaPackage for BasePackage {
}

/// The meta package `gui`.
pub struct GuiPackage;

impl Package for GuiPackage {
    open spec fn package_id(&self) -> PackageId {
        PackageId::Gui
    }

    fn id(&self) -> (r: PackageId) {
        PackageId::Gui
    }
}

impl MetaPackage for GuiPackage {
}

/// The meta package `xorg`.
pub struct XorgPackage;

impl Package for XorgPackage {
    open spec fn package_id(&self) -> PackageId {
        PackageId::Xorg
    }

    fn id(&self) -> (r: PackageId) {
        PackageId::Xorg
    }
}

impl MetaPackage for XorgPackage {
}

/// The package `xcb-proto`.
pub struct XcbProto;

impl Package for XcbProto {
    open spec fn package_id(&self) -> PackageId {
        PackageId::XcbProto
    }

    fn id(&self) -> (r: PackageId) {
        PackageId::XcbProto
    }
}

/// The package `xorg-proto`.
pub struct XorgProto;

impl Package for XorgProto {
    open spec fn package_id(&self) -> PackageId {
        PackageId::XorgProto
    }

    fn id(&self) -> (r: PackageId) {
        PackageId::XorgProto
    }
}

/// The package `xorg-util-macros`.
pub struct XorgUtilMacros;

impl Package for XorgUtilMacros {
    open spec fn package_id(&self) -> PackageId {
        PackageId::XorgUtilMacros
    }

    fn id(&self) -> (r: PackageId) {
        PackageId::XorgUtilMacros
    }
}

/// The package `xtrans`.
pub struct Xtrans;

impl Package for Xtrans {
    open spec fn package_id(&self) -> PackageId {
        PackageId::Xtrans
    }

    fn id(&self) -> (r: PackageId) {
        PackageId::Xtrans
    }
}

/// The package `libx11`.
pub struct LibX11;

impl Package for LibX11 {
    open spec fn package_id(&self) -> PackageId {
        PackageId::LibX11
    }

    fn id(&self) -> (r: PackageId) {
        PackageId::LibX11
    }
}

/// The package `libxau`.
pub struct LibXau;

impl Package for LibXau {
    open spec fn package_id(&self) -> PackageId {
        PackageId::LibXau
    }

    fn id(&self) -> (r: PackageId) {
        PackageId::LibXau
    }
}

/// The package `libxcb`.
pub struct LibXcb;

impl Package for LibXcb {
    open spec fn package_id(&self) -> PackageId {
        PackageId::LibXcb
    }

    fn id(&self) -> (r: PackageId) {
        PackageId::LibXcb
    }
}

/// The package `libxdmcp`.
pub struct LibXdmcp;

impl Package for LibXdmcp {
    open spec fn package_id(&self) -> PackageId {
        PackageId::LibXdmcp
    }

    fn id(&self) -> (r: PackageId) {
        PackageId::LibXdmcp
    }
}

/// The package `libxext`.
pub struct LibXext;

impl Package for LibXext {
    open spec fn package_id(&self) -> PackageId {
        PackageId::LibXext
    }

    fn id(&self) -> (r: PackageId) {
        PackageId::LibXext
    }
}

/// The package `libxdamage`.
pub struct LibXdamage;

impl Package for LibXdamage {
    open spec fn package_id(&self) -> PackageId {
        PackageId::LibXdamage
    }

    fn id(&self) -> (r: PackageId) {
        PackageId::LibXdamage
    }
}

/// The package `libxfixes`.
pub struct LibXfixes;

impl Package for LibXfixes {
    open spec fn package_id(&self) -> PackageId {
        PackageId::LibXfixes
    }

    fn id(&self) -> (r: PackageId) {
        PackageId::LibXfixes
    }
}

/// The package `libxi`.
pub struct LibXi;

impl Package for LibXi {
    open spec fn package_id(&self) -> PackageId {
        PackageId::LibXi
    }

    fn id(&self) -> (r: PackageId) {
        PackageId::LibXi
    }
}

/// The package `libxrandr`.
pub struct LibXrandr;

impl Package for LibXrandr {
    open spec fn package_id(&self) -> PackageId {
        PackageId::LibXrandr
    }

    fn id(&self) -> (r: PackageId) {
        PackageId::LibXrandr
    }
}

/// The package `libxrender`.
pub struct LibXrender;

impl Package for LibXrender {
    open spec fn package_id(&self) -> PackageId {
        PackageId::LibXrender
    }

    fn id(&self) -> (r: PackageId) {
        PackageId::LibXrender
    }
}

/// The package `libice`.
pub struct LibIce;

impl Package for LibIce {
    open spec fn package_id(&self) -> PackageId {
        PackageId::LibIce
    }

    fn id(&self) -> (r: PackageId) {
        PackageId::LibIce
    }
}

/// The package `libsm`.
pub struct LibSm;

impl Package for LibSm {
    open spec fn package_id(&self) -> PackageId {
        PackageId::LibSm
    }

    fn id(&self) -> (r: PackageId) {
        PackageId::LibSm
    }
}

/// The package `libxinerama`.
pub struct LibXinerama;

impl Package for LibXinerama {
    open spec fn package_id(&self) -> PackageId {
        PackageId::LibXinerama
    }

    fn id(&self) -> (r: PackageId) {
        PackageId::LibXinerama
    }
}

/// The package `libxmu`.
pub struct LibXmu;

impl Package for LibXmu {
    open spec fn package_id(&self) -> PackageId {
        PackageId::LibXmu
    }

    fn id(&self) -> (r: PackageId) {
        PackageId::LibXmu
    }
}

/// The package `libxt`.
pub struct LibXt;

impl Package for LibXt {
    open spec fn package_id(&self) -> PackageId {
        PackageId::LibXt
    }

    fn id(&self) -> (r: PackageId) {
        PackageId::LibXt
    }
}

/// The package `freetype2`.
pub struct Freetype2;

impl Package for Freetype2 {
    open spec fn package_id(&self) -> PackageId {
        PackageId::Freetype2
    }

    fn id(&self) -> (r: PackageId) {
        PackageId::Freetype2
    }
}

/// The package `libfontenc`.
pub struct LibFontenc;

impl Package for LibFontenc {
    open spec fn package_id(&self) -> PackageId {
        PackageId::LibFontenc
    }

    fn id(&self) -> (r: PackageId) {
        PackageId::LibFontenc
    }
}

/// The package `libxcvt`.
pub struct LibXcvt;

impl Package for LibXcvt {
    open spec fn package_id(&self) -> PackageId {
        PackageId::LibXcvt
    }

    fn id(&self) -> (r: PackageId) {
        PackageId::LibXcvt
    }
}

/// The package `libxfont2`.
pub struct LibXfont2;

impl Package for LibXfont2 {
    open spec fn package_id(&self) -> PackageId {
        PackageId::LibXfont2
    }

    fn id(&self) -> (r: PackageId) {
        PackageId::LibXfont2
    }
}

/// The package `pixman`.
pub struct Pixman;

impl Package for Pixman {
    open spec fn package_id(&self) -> PackageId {
        PackageId::Pixman
    }

    fn id(&self) -> (r: PackageId) {
        PackageId::Pixman
    }
}

/// The package `libxkbfile`.
pub struct LibXkbfile;

impl Package for LibXkbfile {
    open spec fn package_id(&self) -> PackageId {
        PackageId::LibXkbfile
    }

    fn id(&self) -> (r: PackageId) {
        PackageId::LibXkbfile
    }
}

/// The package `libxshmfence`.
pub struct LibXshmfence;

impl Package for LibXshmfence {
    open spec fn package_id(&self) -> PackageId {
        PackageId::LibXshmfence
    }

    fn id(&self) -> (r: PackageId) {
        PackageId::LibXshmfence
    }
}

/// The package `xcb-util`.
pub struct XcbUtil;

impl Package for XcbUtil {
    open spec fn package_id(&self) -> PackageId {
        PackageId::XcbUtil
    }

    fn id(&self) -> (r: PackageId) {
        PackageId::XcbUtil
    }
}

/// The package `xkeyboard-config`.
pub struct XkeyboardConfig;

impl Package for XkeyboardConfig {
    open spec fn package_id(&self) -> PackageId {
        PackageId::XkeyboardConfig
    }

    fn id(&self) -> (r: PackageId) {
        PackageId::XkeyboardConfig
    }
}

/// The package `xorg-font-util`.
pub struct XorgFontUtil;

impl Package for XorgFontUtil {
    open spec fn package_id(&self) -> PackageId {
        PackageId::XorgFontUtil
    }

    fn id(&self) -> (r: PackageId) {
        PackageId::XorgFontUtil
    }
}

/// The package `xorg-server`.
pub struct XorgServer;

impl Package for XorgServer {
    open spec fn package_id(&self) -> PackageId {
        PackageId::XorgServer
    }

    fn id(&self) -> (r: PackageId) {
        PackageId::XorgServer
    }
}

/// The package `xorg-xkbcomp`.
pub struct XorgXkbcomp;

impl Package for XorgXkbcomp {
    open spec fn package_id(&self) -> PackageId {
        PackageId::XorgXkbcomp
    }

    fn id(&self) -> (r: PackageId) {
        PackageId::XorgXkbcomp
    }
}

/// The package `xorg-twm`.
pub struct XorgTwm;

impl Package for XorgTwm {
    open spec fn package_id(&self) -> PackageId {
        PackageId::XorgTwm
    }

    fn id(&self) -> (r: PackageId) {
        PackageId::XorgTwm
    }
}

/// The package `xorg-xauth`.
pub struct XorgXauth;

impl Package for XorgXauth {
    open spec fn package_id(&self) -> PackageId {
        PackageId::XorgXauth
    }

    fn id(&self) -> (r: PackageId) {
        PackageId::XorgXauth
    }
}

/// The package `xorg-xeyes`.
pub struct XorgXeyes;

impl Package for XorgXeyes {
    open spec fn package_id(&self) -> PackageId {
        PackageId::XorgXeyes
    }

    fn id(&self) -> (r: PackageId) {
        PackageId::XorgXeyes
    }
}

/// The package `xorg-xinit`.
pub struct XorgXinit;

impl Package for XorgXinit {
    open spec fn package_id(&self) -> PackageId {
        PackageId::XorgXinit
    }

    fn id(&self) -> (r: PackageId) {
        PackageId::XorgXinit
    }
}

/// The package `xorg-xmodmap`.
pub struct XorgXmodmap;

impl Package for XorgXmodmap {
    open spec fn package_id(&self) -> PackageId {
        PackageId::XorgXmodmap
    }

    fn id(&self) -> (r: PackageId) {
        PackageId::XorgXmodmap
    }
}

/// The package `xorg-xrdb`.
pub struct XorgXrdb;

impl Package for XorgXrdb {
    open spec fn package_id(&self) -> PackageId {
        PackageId::XorgXrdb
    }

    fn id(&self) -> (r: PackageId) {
        PackageId::XorgXrdb
    }
}

/// A package whose sources are a tarball.
pub trait TarballFetch: Package {
    /// The tarball's URLs, tried in order.
    fn tarball_url(&self) -> (r: Vec<String>)
        requires
            source_of(self.package_id()) is Tarball,
        ensures
            r.deep_view() == seq![source_of(self.package_id())->Tarball_0],
    {
        let mut r: Vec<String> = Vec::new();
        if let Source::Tarball(u) = source(self.id()) {
            r.push(u.to_string());
        }
        assert(r.deep_view() =~= seq![source_of(self.package_id())->Tarball_0]);
        r
    }

    /// The file name of the downloaded tarball.
    fn tarball_name(&self) -> (r: String)
        requires
            source_of(self.package_id()) is Tarball,
        ensures
            r@ == tarball_name_of(
                seq![source_of(self.package_id())->Tarball_0],
                name_of(self.package_id()),
            ),
    {
        tarball_name(&self.tarball_url(), self.name())
    }

    /// The steps that download and unpack the tarball.
    fn fetch_tarball(&self, ctx: &Context) -> (r: Vec<Step>)
        requires
            source_of(self.package_id()) is Tarball,
        ensures
            steps_view(r@) == fetch_plan(self.package_id(), *ctx),
    {
        fetch_steps(self.id(), ctx)
    }
}

/// A package whose sources are a git repository.
pub trait GitCloneFetch: Package {
    /// The repository's URL.
    fn git_url(&self) -> (r: &'static str)
        requires
            source_of(self.package_id()) is Git,
        ensures
            r@ == source_of(self.package_id())->Git_0,
    {
        match source(self.id()) {
            Source::Git(u, _) => u,
            _ => "",
        }
    }

    /// The commit that is checked out.
    fn git_commit(&self) -> (r: &'static str)
        requires
            source_of(self.package_id()) is Git,
        ensures
            r@ == source_of(self.package_id())->Git_1,
    {
        match source(self.id()) {
            Source::Git(_, c) => c,
            _ => "",
        }
    }

    /// The steps that clone the repository and check the commit out.
    fn fetch_clone(&self, ctx: &Context) -> (r: Vec<Step>)
        requires
            source_of(self.package_id()) is Git,
        ensures
            steps_view(r@) == fetch_plan(self.package_id(), *ctx),
    {
        fetch_steps(self.id(), ctx)
    }
}

impl TarballFetch for Bash {
}

impl TarballFetch for Busybox {
}

impl TarballFetch for Ncurses {
}

impl GitCloneFetch for TinyCc {
}

impl GitCloneFetch for Vim {
}

impl TarballFetch for LibFontenc {
}

impl TarballFetch for LibIce {
}

impl TarballFetch for LibSm {
}

impl TarballFetch for LibXcb {
}

impl TarballFetch for LibXdamage {
}

impl TarballFetch for LibXdmcp {
}

impl TarballFetch for LibXext {
}

impl TarballFetch for LibXi {
}

impl TarballFetch for LibX11 {
}

impl TarballFetch for LibXfont2 {
}

impl TarballFetch for LibXmu {
}

impl TarballFetch for LibXrandr {
}

impl TarballFetch for LibXrender {
}

impl TarballFetch for LibXshmfence {
}

impl TarballFetch for LibXt {
}

impl TarballFetch for XcbProto {
}

impl TarballFetch for XcbUtil {
}

impl TarballFetch for XorgFontUtil {
}

impl TarballFetch for XorgTwm {
}

impl TarballFetch for XorgUtilMacros {
}

impl TarballFetch for XorgXauth {
}

impl TarballFetch for XorgXinit {
}

impl TarballFetch for XorgXkbcomp {
}

impl TarballFetch for XorgXmodmap {
}

impl TarballFetch for XorgXrdb {
}

impl TarballFetch for Xtrans {
}

impl GitCloneFetch for Freetype2 {
}

impl GitCloneFetch for Pixman {
}

impl TarballFetch for LibXau {
}

impl GitCloneFetch for LibXfixes {
}

impl TarballFetch for LibXinerama {
}

impl TarballFetch for LibXkbfile {
}

impl TarballFetch for LibXcvt {
}

impl GitCloneFetch for XkeyboardConfig {
}

impl TarballFetch for XorgProto {
}

impl GitCloneFetch for XorgXeyes {
}

impl GitCloneFetch for XorgServer {
}

} // verus!
