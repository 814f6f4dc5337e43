//! The action requested on the command line, the directories of a run, and
//! the directories of one package.
use vstd::prelude::*;
use crate::error::Error;
use crate::layout::{spec_relative_dir, relative_dir, BINDIR, INCLUDEDIR, LIBDIR, LIB_BINARY_DIR};
use crate::path::{
    is_plain_component, join, join_path, law_parent_of_join, lemma_join_plain_kept, parent, parent_path,
    strip_noise,
};
use crate::text::str_eq;

verus! {

/// What to do with a package.
#[derive(Clone, Copy, Debug, PartialEq, Eq, Structural)]
pub enum Action {
    /// Build the package and its dependencies and install it.
    Install,
    /// Remove the package's work directory.
    Clean,
    /// Clean, then build and install again.
    RebuildOnly,
}

pub open spec fn action_named(value: Seq<char>) -> Option<Action> {
    if value == "install"@ {
        Some(Action::Install)
    } else if value == "clean"@ {
        Some(Action::Clean)
    } else if value == "rebuild-only"@ {
        Some(Action::RebuildOnly)
    } else {
        None
    }
}

impl Action {
    /// The action named on the command line, if the name is one.
    pub fn from_str(value: &str) -> (r: Option<Action>)
        ensures
            r == action_named(value@),
    {
        if str_eq(value, "install") {
            Some(Action::Install)
        } else if str_eq(value, "clean") {
            Some(Action::Clean)
        } else if str_eq(value, "rebuild-only") {
            Some(Action::RebuildOnly)
        } else {
            None
        }
    }
}

/// The directories of a run and its flags.
#[derive(Clone, Debug, PartialEq, Eq)]
pub struct Context {
    pub packages_root: String,
    pub pkg_specific_root: String,
    pub staging_sysroot_dir: String,
    pub real_sysroot_dir: String,
    pub install_dir: String,
    pub include_root_dir: String,
    pub include_c_dir: String,
    pub lib_binary_dir: String,
    pub lib_dir: String,
    pub rebuild: bool,
    pub ignore_deps: bool,
}

/// The staging sysroot below a packages directory.
pub open spec fn staging_of(packages_root: Seq<char>) -> Seq<char> {
    join_path(packages_root, "work/sysroot-stage"@)
}

/// The directories derived from a packages directory and its parent.
pub open spec fn context_from(ctx: Context, packages_root: Seq<char>, base: Seq<char>) -> bool {
    let staging = staging_of(packages_root);
    let include_root = join_path(staging, spec_relative_dir(INCLUDEDIR@));
    &&& ctx.packages_root@ == packages_root
    &&& ctx.pkg_specific_root@ == join_path(packages_root, "pkg-specific"@)
    &&& ctx.staging_sysroot_dir@ == staging
    &&& ctx.real_sysroot_dir@ == join_path(base, "sysroot"@)
    &&& ctx.install_dir@ == join_path(staging, spec_relative_dir(BINDIR@))
    &&& ctx.include_root_dir@ == include_root
    &&& ctx.include_c_dir@ == join_path(include_root, "c"@)
    &&& ctx.lib_binary_dir@ == join_path(staging, spec_relative_dir(LIB_BINARY_DIR@))
    &&& ctx.lib_dir@ == join_path(staging, spec_relative_dir(LIBDIR@))
}

/// Packages are installed into the staged sysroot: the parent of the
/// install directory, which the install steps take for the sysroot, is the
/// staging sysroot.
pub proof fn law_install_dir_in_staging(ctx: Context, packages_root: Seq<char>, base: Seq<char>)
    requires
        context_from(ctx, packages_root, base),
    ensures
        parent_path(ctx.install_dir@) == Some(ctx.staging_sysroot_dir@),
{
    reveal_strlit("/programs");
    reveal_strlit("programs");
    reveal_strlit("work/sysroot-stage");
    reveal_strlit("work");
    reveal_strlit("sysroot-stage");
    let staging = staging_of(packages_root);
    assert(spec_relative_dir(BINDIR@) =~= "programs"@);
    law_parent_of_join(staging, "programs"@);
    assert("work/sysroot-stage"@ =~= "work"@ + seq!['/'] + "sysroot-stage"@);
    assert(staging =~= join_path(join_path(packages_root, "work"@), "sysroot-stage"@));
    lemma_join_plain_kept(join_path(packages_root, "work"@), "sysroot-stage"@);
}

impl Context {
    /// The context of a run whose packages directory is `packages_root`.
    pub fn from_packages_root(packages_root: &str, rebuild: bool, ignore_deps: bool) -> (r: Result<
        Context,
        Error,
    >)
        ensures
            match r {
                Ok(ctx) => parent_path(packages_root@) is Some && context_from(
                    ctx,
                    packages_root@,
                    parent_path(packages_root@)->0,
                ) && ctx.rebuild == rebuild && ctx.ignore_deps == ignore_deps,
                Err(e) => parent_path(packages_root@) is None && e == Error::PackagesDirHasNoParent,
            },
    {
        let base = match parent(packages_root) {
            Some(b) => b,
            None => return Err(Error::PackagesDirHasNoParent),
        };
        let pkg_specific_root = join(packages_root, "pkg-specific");
        let staging = join(packages_root, "work/sysroot-stage");
        let include_root_dir = join(staging.as_str(), relative_dir(INCLUDEDIR));
        Ok(Context {
            packages_root: packages_root.to_string(),
            pkg_specific_root,
            real_sysroot_dir: join(base.as_str(), "sysroot"),
            install_dir: join(staging.as_str(), relative_dir(BINDIR)),
            include_c_dir: join(include_root_dir.as_str(), "c"),
            include_root_dir,
            lib_binary_dir: join(staging.as_str(), relative_dir(LIB_BINARY_DIR)),
            lib_dir: join(staging.as_str(), relative_dir(LIBDIR)),
            staging_sysroot_dir: staging,
            rebuild,
            ignore_deps,
        })
    }

    /// The context of a run started in `cwd`: `cwd` itself when it is the
    /// packages directory (it holds `README.md` and `pkg-specific/`), else
    /// `cwd/packages` when that holds `README.md`.
    pub fn discover(
        cwd: &str,
        cwd_is_packages_dir: bool,
        cwd_has_packages_dir: bool,
        rebuild: bool,
        ignore_deps: bool,
    ) -> (r: Result<Context, Error>)
        ensures
            !cwd_is_packages_dir && !cwd_has_packages_dir ==> r == Err::<Context, Error>(
                Error::PackagesDirNotFound,
            ),
            cwd_is_packages_dir || cwd_has_packages_dir ==> {
                let root = if cwd_is_packages_dir {
                    cwd@
                } else {
                    join_path(cwd@, "packages"@)
                };
                match r {
                    Ok(ctx) => parent_path(root) is Some && context_from(
                        ctx,
                        root,
                        parent_path(root)->0,
                    ) && ctx.rebuild == rebuild && ctx.ignore_deps == ignore_deps,
                    Err(e) => parent_path(root) is None && e == Error::PackagesDirHasNoParent,
                }
            },
    {
        if cwd_is_packages_dir {
            Context::from_packages_root(cwd, rebuild, ignore_deps)
        } else if cwd_has_packages_dir {
            let root = join(cwd, "packages");
            Context::from_packages_root(root.as_str(), rebuild, ignore_deps)
        } else {
            Err(Error::PackagesDirNotFound)
        }
    }
}

/// The directories of one package.
#[derive(Clone, Debug, PartialEq, Eq)]
pub struct PackagePaths {
    pub root: String,
    pub src: String,
    pub stamp: String,
    pub patch: String,
    pub build: String,
    pub pkg_specific: String,
}

/// The value of a `PackagePaths`.
pub struct PackagePathsView {
    pub root: Seq<char>,
    pub src: Seq<char>,
    pub stamp: Seq<char>,
    pub patch: Seq<char>,
    pub build: Seq<char>,
    pub pkg_specific: Seq<char>,
}

impl View for PackagePaths {
    type V = PackagePathsView;

    open spec fn view(&self) -> PackagePathsView {
        PackagePathsView {
            root: self.root@,
            src: self.src@,
            stamp: self.stamp@,
            patch: self.patch@,
            build: self.build@,
            pkg_specific: self.pkg_specific@,
        }
    }
}

/// The directories of the package named `name`: its work directory below
/// `work/`, the source tree, stamps and build directory inside it, and, in
/// its asset directory `<packages>/<name>/`, its patch `<name>.patch` and
/// its `pkg-specific` directory.
pub open spec fn paths_of(ctx: Context, name: Seq<char>) -> PackagePathsView {
    let root = join_path(join_path(ctx.packages_root@, "work"@), name);
    let assets = asset_dir_of(ctx, name);
    PackagePathsView {
        root,
        src: join_path(root, "src"@),
        stamp: join_path(root, ".stamp"@),
        patch: join_path(assets, name + ".patch"@),
        build: join_path(root, "src/build"@),
        pkg_specific: join_path(assets, "pkg-specific"@),
    }
}

/// A package's asset directory, `<packages>/<name>/`: it holds the
/// package's patches and extra files.
pub open spec fn asset_dir_of(ctx: Context, name: Seq<char>) -> Seq<char> {
    join_path(ctx.packages_root@, name)
}

/// A package's patch and its pkg-specific directory lie directly in its
/// asset directory, for any name that is one plain path component.
pub proof fn law_patches_in_asset_dir(ctx: Context, name: Seq<char>)
    requires
        is_plain_component(name),
    ensures
        parent_path(paths_of(ctx, name).patch) == Some(strip_noise(asset_dir_of(ctx, name))),
        parent_path(paths_of(ctx, name).pkg_specific) == Some(strip_noise(asset_dir_of(ctx, name))),
{
    let c = name + ".patch"@;
    reveal_strlit(".patch");
    reveal_strlit("pkg-specific");
    assert(is_plain_component(c)) by {
        assert forall|i: int| 0 <= i < c.len() implies c[i] != '/' by {
            if i >= name.len() {
                assert(c[i] == ".patch"@[i - name.len()]);
            }
        }
    }
    law_parent_of_join(asset_dir_of(ctx, name), c);
    law_parent_of_join(asset_dir_of(ctx, name), "pkg-specific"@);
}

impl PackagePaths {
    /// The directories of the package named `name`.
    pub fn calc(ctx: &Context, name: &str) -> (r: PackagePaths)
        ensures
            r@ == paths_of(*ctx, name@),
    {
        let work = join(ctx.packages_root.as_str(), "work");
        let root = join(work.as_str(), name);
        let assets = join(ctx.packages_root.as_str(), name);
        let mut patch_name = name.to_string();
        patch_name.append(".patch");
        PackagePaths {
            src: join(root.as_str(), "src"),
            stamp: join(root.as_str(), ".stamp"),
            patch: join(assets.as_str(), patch_name.as_str()),
            build: join(root.as_str(), "src/build"),
            pkg_specific: join(assets.as_str(), "pkg-specific"),
            root,
        }
    }

    /// The directories that must exist before each phase of a package, in
    /// the order they are created (the caller creates them).
    pub fn ensure(&self) -> (r: Vec<String>)
        ensures
            r.deep_view() == seq![self.root@, self.src@, self.stamp@, self.build@],
    {
        let mut r: Vec<String> = Vec::new();
        r.push(self.root.clone());
        r.push(self.src.clone());
        r.push(self.stamp.clone());
        r.push(self.build.clone());
        assert(r.deep_view() =~= seq![self.root@, self.src@, self.stamp@, self.build@]);
        r
    }
}

} // verus!
