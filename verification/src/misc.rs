//! Stamps that mark finished steps, the sysroot, and the project root.
use vstd::prelude::*;
use crate::command::{CommandSpec, CommandSpecView};
use crate::error::Error;
use crate::path::{file_name_chars, file_name_of, join, join_path, lemma_parent_shorter, parent, parent_path};
use crate::text::{chars_of, eq_chars};
use crate::types::{Context, PackagePaths};

verus! {

/// The sysroot: the parent of the install directory.
pub fn sysroot_dir(ctx: &Context) -> (r: Result<String, Error>)
    ensures
        match parent_path(ctx.install_dir@) {
            Some(p) => r matches Ok(s) && s@ == p,
            None => r == Err::<String, Error>(Error::InstallDirHasNoParent),
        },
{
    match parent(ctx.install_dir.as_str()) {
        Some(p) => Ok(p),
        None => Err(Error::InstallDirHasNoParent),
    }
}

/// The stamp file that marks step `name` of a package as done.
pub fn stamp(name: &str, paths: &PackagePaths) -> (r: String)
    ensures
        r@ == join_path(paths.stamp@, name@),
{
    join(paths.stamp.as_str(), name)
}

/// Whether a stamped step runs.
#[derive(Clone, Debug, PartialEq, Eq)]
pub enum StampDecision {
    /// Run the step, then create this stamp file.
    Run { stamp: String },
    /// The stamp is present: skip the step.
    Skip,
}

/// Decides a stamped step: it runs when its stamp is missing, or on a
/// rebuild that this step does not ignore.
pub fn with_stamp(
    name: &str,
    paths: &PackagePaths,
    stamp_exists: bool,
    rebuild: bool,
    ignore_rebuild: bool,
) -> (r: StampDecision)
    ensures
        (!stamp_exists || (rebuild && !ignore_rebuild)) ==> (r matches StampDecision::Run { stamp }
            && stamp@ == join_path(paths.stamp@, name@)),
        !(!stamp_exists || (rebuild && !ignore_rebuild)) ==> r is Skip,
{
    if !stamp_exists || (rebuild && !ignore_rebuild) {
        StampDecision::Run { stamp: stamp(name, paths) }
    } else {
        StampDecision::Skip
    }
}

/// The path and its ancestors, nearest first (`Path::ancestors`).
pub open spec fn ancestors_of(p: Seq<char>) -> Seq<Seq<char>>
    decreases p.len(),
{
    match parent_path(p) {
        Some(q) => {
            proof {
                lemma_parent_shorter(p);
            }
            seq![p] + ancestors_of(q)
        },
        None => seq![p],
    }
}

/// The path and its ancestors, nearest first.
pub fn ancestors(p: &str) -> (r: Vec<String>)
    ensures
        r.deep_view() == ancestors_of(p@),
{
    let mut out: Vec<String> = Vec::new();
    let mut cur = p.to_string();
    loop
        invariant
            out.deep_view() + ancestors_of(cur@) == ancestors_of(p@),
        decreases cur@.len(),
    {
        let ghost before = out.deep_view();
        proof {
            lemma_parent_shorter(cur@);
        }
        let next = parent(cur.as_str());
        out.push(cur.clone());
        assert(out.deep_view() =~= before.push(cur@));
        match next {
            Some(q) => {
                assert(before + ancestors_of(cur@) =~= out.deep_view() + ancestors_of(q@));
                cur = q;
            },
            None => {
                assert(before + ancestors_of(cur@) =~= out.deep_view());
                return out;
            },
        }
    }
}

/// What the file system shows of one ancestor of the working directory.
#[derive(Clone, Debug, PartialEq, Eq)]
pub struct RootFacts {
    /// It holds `packages/README.md` and `disk.img`.
    pub holds_packages_and_disk_image: bool,
    /// It holds `README.md` and `src/`.
    pub holds_readme_and_src: bool,
}

/// The project root decided from the ancestors `dirs[i..]`.
pub open spec fn project_root_from(dirs: Seq<Seq<char>>, facts: Seq<RootFacts>, i: int) -> Result<
    Seq<char>,
    Error,
>
    decreases dirs.len() - i,
{
    if i < 0 || i >= dirs.len() || i >= facts.len() {
        Err(Error::ProjectRootNotFound)
    } else if facts[i].holds_packages_and_disk_image {
        Ok(dirs[i])
    } else if facts[i].holds_readme_and_src && file_name_of(dirs[i]) == Some("packages"@) {
        match parent_path(dirs[i]) {
            Some(q) => Ok(q),
            None => Err(Error::PackagesDirHasNoParent),
        }
    } else {
        project_root_from(dirs, facts, i + 1)
    }
}

/// The project root: the first ancestor that holds the packages directory
/// and the disk image, or the parent of the first ancestor that is itself a
/// packages directory.
pub fn discover_project_root(dirs: &Vec<String>, facts: &Vec<RootFacts>) -> (r: Result<
    String,
    Error,
>)
    ensures
        match project_root_from(dirs.deep_view(), facts@, 0) {
            Ok(p) => r matches Ok(s) && s@ == p,
            Err(e) => r matches Err(e2) && e2 == e,
        },
{
    let packages = chars_of("packages");
    let mut i: usize = 0;
    while i < dirs.len() && i < facts.len()
        invariant
            i <= dirs@.len(),
            packages@ == "packages"@,
            project_root_from(dirs.deep_view(), facts@, 0) == project_root_from(
                dirs.deep_view(),
                facts@,
                i as int,
            ),
        decreases dirs@.len() - i,
    {
        let dir = &dirs[i];
        assert(dir@ == dirs.deep_view()[i as int]);
        if facts[i].holds_packages_and_disk_image {
            return Ok(dir.clone());
        }
        if facts[i].holds_readme_and_src {
            let dv = chars_of(dir.as_str());
            let is_packages = match file_name_chars(&dv) {
                Some(f) => eq_chars(&f, &packages),
                None => false,
            };
            if is_packages {
                return match parent(dir.as_str()) {
                    Some(q) => Ok(q),
                    None => Err(Error::PackagesDirHasNoParent),
                };
            }
        }
        i = i + 1;
    }
    Err(Error::ProjectRootNotFound)
}

/// The command that tells whether the sysroot below `project_root` is
/// mounted.
pub fn mountpoint_check(project_root: &str) -> (r: CommandSpec)
    ensures
        r@ == CommandSpecView::new("mountpoint"@).with_arg("-q"@).with_arg(
            join_path(project_root@, "sysroot"@),
        ),
{
    let sysroot = join(project_root, "sysroot");
    CommandSpec::new("mountpoint").arg("-q").arg(sysroot.as_str())
}

/// The command that mounts the disk image on the sysroot, unless it is
/// mounted already.
pub fn mount_sysroot(project_root: &str, already_mounted: bool) -> (r: Option<CommandSpec>)
    ensures
        already_mounted ==> r is None,
        !already_mounted ==> (r matches Some(c) && c@ == CommandSpecView::new("sudo"@).with_arg(
            "mount"@,
        ).with_arg("-o"@).with_arg("loop"@).with_arg(join_path(project_root@, "disk.img"@)).with_arg(
            join_path(project_root@, "sysroot"@),
        )),
{
    if already_mounted {
        return None;
    }
    let sysroot = join(project_root, "sysroot");
    let disk_img = join(project_root, "disk.img");
    Some(
        CommandSpec::new("sudo").arg("mount").arg("-o").arg("loop").arg(disk_img.as_str()).arg(
            sysroot.as_str(),
        ),
    )
}

} // verus!
