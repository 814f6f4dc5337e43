use seele_packages::busybox_config::{
    applet_path, busybox_applets, install_busybox_symlink, merge_config, remove_config_key,
};
use seele_packages::command::CommandSpec;
use seele_packages::cross::{
    build_triplet, existing_dir_args, meson_array, meson_cross_file, meson_native_file,
    meson_native_pkg_config, meson_vala_wrapper, pkg_env, split_paths, target_env,
    vala_candidates, HostEnv,
};
use seele_packages::error::{CommandError, Error};
use seele_packages::fetch::{
    after_download_attempt, download_file, download_start, tarball_name, which_candidates, DownloadNext,
};
use seele_packages::gnu_config::{patch_config_sub_for_seele, refresh_gnu_config, GnuConfigUpdate};
use seele_packages::layout::relative_dir;
use seele_packages::libtool::{fix_libtool_content, is_libtool_script, set_shell_var};
use seele_packages::misc::{
    ancestors, discover_project_root, mount_sysroot, stamp, sysroot_dir, with_stamp, RootFacts,
    StampDecision,
};
use seele_packages::order::{sort_dedup_strings, sort_strings, str_less};
use seele_packages::patch::{
    after_apply, after_dry_run, apply_pkg_specific_patches, list_patch_files, patch_command,
    patch_dry_run_command, patch_output_text, DryRunOutcome,
};
use seele_packages::path::{join, parent};
use seele_packages::plan::Step;
use seele_packages::text::{replace, replace_all, trim};
use seele_packages::types::{Context, PackagePaths};

const ROOT: &str = "/home/u/proj/packages";
const STAGE: &str = "/home/u/proj/packages/work/sysroot-stage";

fn ctx() -> Context {
    Context::from_packages_root(ROOT, false, false).unwrap()
}

fn strings(v: &[&str]) -> Vec<String> {
    v.iter().map(|s| s.to_string()).collect()
}

#[test]
fn context_directories() {
    let c = Context::from_packages_root(ROOT, true, false).unwrap();
    assert_eq!(c.packages_root, ROOT);
    assert_eq!(c.pkg_specific_root, format!("{ROOT}/pkg-specific"));
    assert_eq!(c.staging_sysroot_dir, STAGE);
    assert_eq!(c.real_sysroot_dir, "/home/u/proj/sysroot");
    assert_eq!(c.install_dir, format!("{STAGE}/programs"));
    assert_eq!(c.include_root_dir, format!("{STAGE}/libs/include"));
    assert_eq!(c.include_c_dir, format!("{STAGE}/libs/include/c"));
    assert_eq!(c.lib_binary_dir, format!("{STAGE}/libs/lib_binaries"));
    assert_eq!(c.lib_dir, format!("{STAGE}/libs"));
    assert!(c.rebuild);
    assert!(!c.ignore_deps);
}

#[test]
fn context_discovery() {
    let c = Context::discover("/home/u/proj", false, true, false, true).unwrap();
    assert_eq!(c.packages_root, ROOT);
    assert!(c.ignore_deps);
    let c = Context::discover(ROOT, true, true, false, false).unwrap();
    assert_eq!(c.packages_root, ROOT);
    assert_eq!(Context::discover("/tmp", false, false, false, false), Err(Error::PackagesDirNotFound));
    assert_eq!(Context::discover("/", true, false, false, false), Err(Error::PackagesDirHasNoParent));
}

#[test]
fn layout_paths() {
    assert_eq!(relative_dir("/programs"), "programs");
    assert_eq!(relative_dir("/libs/include"), "libs/include");
    assert_eq!(relative_dir("libs"), "libs");
}

#[test]
fn text_operations() {
    assert_eq!(trim("  a b \n"), "a b");
    assert_eq!(trim(""), "");
    assert_eq!(replace("aaa", "aa", "b"), "ba");
    assert_eq!(replace("a-b-c", "-", "+"), "a+b+c");
    let edits = vec![("x".to_string(), "y".to_string()), ("y".to_string(), "z".to_string())];
    assert_eq!(replace_all("x-y", &edits), "z-z");
    assert_eq!(replace_all("x-y", &vec![]), "x-y");
}

#[test]
fn paths() {
    assert_eq!(join("/a/b", "c"), "/a/b/c");
    assert_eq!(join("/a/b/", "c"), "/a/b/c");
    assert_eq!(join("/a", "/c"), "/c");
    assert_eq!(join("", "c"), "c");
    assert_eq!(parent("/a/b"), Some("/a".to_string()));
    assert_eq!(parent("/a/b/"), Some("/a".to_string()));
    assert_eq!(parent("/a"), Some("/".to_string()));
    assert_eq!(parent("/"), None);
    assert_eq!(parent("a"), Some("".to_string()));
    assert_eq!(ancestors("/a/b"), strings(&["/a/b", "/a", "/"]));
    for base in ["/a/b", "/a/b/", "/", "", ".", "a/./", "x"] {
        let joined = join(base, "c.d");
        let expected = match base {
            "/a/b" | "/a/b/" => "/a/b",
            "/" => "/",
            "" => "",
            "." => ".",
            "a/./" => "a",
            _ => "x",
        };
        assert_eq!(parent(&joined), Some(expected.to_string()), "parent of {}", joined);
    }
}

#[test]
fn command_environment() {
    let c = CommandSpec::new("x")
        .env("A", "1")
        .env_append("A", "2", ":")
        .env_prepend("B", "0", ":")
        .env_prepend("A", "0", ":")
        .env_append("A", "", ":")
        .env_remove("C");
    assert_eq!(
        c.get_envs(),
        &vec![("A".to_string(), "0:1:2".to_string()), ("B".to_string(), "0".to_string())]
    );
    assert_eq!(c.get_env_removes(), &strings(&["C"]));
    let c = CommandSpec::new("y").env("P", "").env_append("P", "v", ":");
    assert_eq!(c.get_envs(), &vec![("P".to_string(), "v".to_string())]);
}

#[test]
fn command_error_messages() {
    let e = CommandError::check("make", false, Some(2)).unwrap_err();
    assert_eq!(e.message(), "command `make` failed with exit code 2");
    let e = CommandError::check("make", false, None).unwrap_err();
    assert_eq!(e.message(), "command `make` terminated by signal");
    assert_eq!(CommandError::check("make", true, Some(0)), Ok(()));
    assert_eq!(Error::Command(e).message(), "command `make` terminated by signal");
}

#[test]
fn error_messages() {
    assert_eq!(
        Error::PackagesDirNotFound.message(),
        "could not locate packages directory from current working directory"
    );
    assert_eq!(Error::PackagesDirHasNoParent.message(), "packages directory has no parent");
    assert_eq!(Error::InstallDirHasNoParent.message(), "install_dir has no parent");
    assert_eq!(
        Error::ProjectRootNotFound.message(),
        "could not locate project root from current working directory"
    );
    assert_eq!(Error::NoDownloader.message(), "neither curl nor wget found; cannot download tarball");
    assert_eq!(
        Error::DownloadFailed("/t/x.tar".to_string()).message(),
        "failed to download /t/x.tar from configured URLs"
    );
    assert_eq!(
        Error::UnknownAppletDir("BB_DIR_X".to_string()).message(),
        "unknown busybox applet dir: BB_DIR_X"
    );
    assert_eq!(
        Error::PatchFailed { patch: "p.patch".to_string(), output: "bad".to_string() }.message(),
        "patch p.patch failed:\nbad"
    );
    assert_eq!(
        Error::LlvmSourceMissing("/s".to_string()).message(),
        "local llvm-project source tree not found at /s"
    );
    assert_eq!(
        Error::LlvmPrefixMissing("/p".to_string()).message(),
        "host LLVM toolchain not found at /p; run toolchain/install.rs first"
    );
    assert_eq!(Error::UnknownPackage("emacs".to_string()).message(), "unknown package: emacs");
}

#[test]
fn stamps() {
    let paths = PackagePaths::calc(&ctx(), "bash");
    let s = format!("{ROOT}/work/bash/.stamp/build");
    assert_eq!(stamp("build", &paths), s);
    assert_eq!(with_stamp("build", &paths, false, false, false), StampDecision::Run { stamp: s.clone() });
    assert_eq!(with_stamp("build", &paths, true, false, false), StampDecision::Skip);
    assert_eq!(with_stamp("build", &paths, true, true, false), StampDecision::Run { stamp: s });
    assert_eq!(with_stamp("fetch", &paths, true, true, true), StampDecision::Skip);
}

#[test]
fn sysroot_and_mounting() {
    assert_eq!(sysroot_dir(&ctx()), Ok(STAGE.to_string()));
    let mut c = ctx();
    c.install_dir = "/".to_string();
    assert_eq!(sysroot_dir(&c), Err(Error::InstallDirHasNoParent));
    assert_eq!(mount_sysroot("/home/u/proj", true), None);
    assert_eq!(
        mount_sysroot("/home/u/proj", false),
        Some(
            CommandSpec::new("sudo")
                .arg("mount")
                .arg("-o")
                .arg("loop")
                .arg("/home/u/proj/disk.img")
                .arg("/home/u/proj/sysroot")
        )
    );
}

#[test]
fn project_root_discovery() {
    let no = RootFacts { holds_packages_and_disk_image: false, holds_readme_and_src: false };
    let image = RootFacts { holds_packages_and_disk_image: true, holds_readme_and_src: false };
    let pkgs = RootFacts { holds_packages_and_disk_image: false, holds_readme_and_src: true };
    let dirs = strings(&["/home/u/proj/packages/work", "/home/u/proj/packages", "/home/u/proj"]);
    assert_eq!(
        discover_project_root(&dirs, &vec![no.clone(), pkgs.clone(), image.clone()]),
        Ok("/home/u/proj".to_string())
    );
    assert_eq!(
        discover_project_root(&dirs, &vec![no.clone(), no.clone(), image.clone()]),
        Ok("/home/u/proj".to_string())
    );
    assert_eq!(
        discover_project_root(&dirs, &vec![pkgs.clone(), no.clone(), no.clone()]),
        Err(Error::ProjectRootNotFound)
    );
    assert_eq!(
        discover_project_root(&dirs, &vec![no.clone(), no.clone(), no]),
        Err(Error::ProjectRootNotFound)
    );
}

#[test]
fn busybox_configuration_merge() {
    let config = "CONFIG_A=y\n# CONFIG_B is not set\nCONFIG_C=y\n";
    let settings = "# comment\n\nCONFIG_B=y\nCONFIG_C=n\n  CONFIG_D=\"x\"  \nnot a setting\n";
    assert_eq!(
        merge_config(config, settings),
        "CONFIG_A=y\nCONFIG_B=y\n# CONFIG_C is not set\nCONFIG_D=\"x\"\n"
    );
    let mut c = "CONFIG_A=y\n# CONFIG_A is not set\nCONFIG_AB=y\n".to_string();
    remove_config_key(&mut c, "CONFIG_A");
    assert_eq!(c, "CONFIG_AB=y\n");
    let mut c = "CONFIG_A=y\n".to_string();
    remove_config_key(&mut c, "CONFIG_A");
    assert_eq!(c, "");
}

#[test]
fn config_key_removed_once() {
    let mut c = "CONFIG_A=y\n# CONFIG_B is not set\nCONFIG_C=y\n\n# CONFIG_A is not set\n".to_string();
    remove_config_key(&mut c, "CONFIG_A");
    assert_eq!(c, "# CONFIG_B is not set\nCONFIG_C=y\n\n");
    let once = c.clone();
    remove_config_key(&mut c, "CONFIG_A");
    assert_eq!(c, once);
    // A kept line ending in a carriage return loses it the second time.
    let mut c = "x\r\r\nCONFIG_A=y\n".to_string();
    remove_config_key(&mut c, "CONFIG_A");
    assert_eq!(c, "x\r\n");
    remove_config_key(&mut c, "CONFIG_A");
    assert_eq!(c, "x\n");
}

#[test]
fn busybox_applet_list() {
    let out = "LINK BB_DIR_BIN ls\n# 1 \"x\"\nLINK BB_DIR_USR_BIN awk\nLINK BB_DIR_BIN busybox\nLINK BB_DIR_SBIN ls\nLINK\n";
    assert_eq!(busybox_applets(out), Ok(strings(&["awk", "ls"])));
    assert_eq!(
        busybox_applets("LINK BB_DIR_BIN ls\nLINK BB_DIR_OPT foo\n"),
        Err(Error::UnknownAppletDir("BB_DIR_OPT".to_string()))
    );
    assert_eq!(applet_path("BB_DIR_ROOT", "init"), Ok("init".to_string()));
    assert_eq!(applet_path("BB_DIR_X", "init"), Err(Error::UnknownAppletDir("BB_DIR_X".to_string())));
    assert_eq!(
        install_busybox_symlink("/sys/programs", "ls"),
        Step::Symlink { target: "busybox".to_string(), link: "/sys/programs/ls".to_string() }
    );
}

#[test]
fn libtool_variables() {
    let mut s = "host_os=linux\nfoo=1\n".to_string();
    set_shell_var(&mut s, "foo", "2");
    assert_eq!(s, "host_os=linux\nfoo=2\n");
    let mut s = "a=1".to_string();
    set_shell_var(&mut s, "b", "2");
    assert_eq!(s, "a=1\nb=2\n");
    let fixed = fix_libtool_content("#!/bin/sh\nhost_os=linux\n");
    assert!(fixed.starts_with("#!/bin/sh\nhost_os=linux-gnu\n"));
    assert!(fixed.contains("\ndynamic_linker='Seele ld.so'\n"));
    assert!(fixed.ends_with("shlibpath_var=LD_LIBRARY_PATH\n"));
    assert!(is_libtool_script("/src/foo/libtool"));
    assert!(!is_libtool_script("/src/foo/libtool.m4"));
}

#[test]
fn libtool_fixed_once() {
    let script = "#!/bin/sh\nhost_os=linux\nversion_type=none\r\nbuild_old_libs=yes\n\n";
    let once = fix_libtool_content(script);
    assert_eq!(
        once,
        "#!/bin/sh\nhost_os=linux-gnu\nversion_type=linux\nbuild_old_libs=no\nbuild_libtool_libs=yes\n\
need_lib_prefix=no\nneed_version=no\ndeplibs_check_method=\"pass_all\"\nlink_all_deplibs=yes\n\
library_names_spec='${libname}${release}${shared_ext}$versuffix ${libname}${release}${shared_ext}$major ${libname}${shared_ext}'\n\
soname_spec='${libname}${release}${shared_ext}$major'\ndynamic_linker='Seele ld.so'\nshlibpath_var=LD_LIBRARY_PATH\n"
    );
    assert_eq!(fix_libtool_content(&once), once);
    let mut s = "a=1\nb\n".to_string();
    set_shell_var(&mut s, "a", "2");
    let first = s.clone();
    set_shell_var(&mut s, "a", "2");
    assert_eq!(s, first);
    // Two empty lines at the end where the key is assigned: one is dropped
    // at each setting.
    let mut s = "k=1\n\n\n".to_string();
    set_shell_var(&mut s, "k", "v");
    assert_eq!(s, "k=v\n\n");
    set_shell_var(&mut s, "k", "v");
    assert_eq!(s, "k=v\n");
}

#[test]
fn shell_var_with_carriage_return_set_once() {
    let mut s = "a=1\nb\n".to_string();
    set_shell_var(&mut s, "a", "2\r");
    assert_eq!(s, "a=2\r\nb\n");
    set_shell_var(&mut s, "a", "2\r");
    assert_eq!(s, "a=2\r\nb\n");
    let once = fix_libtool_content("#!/bin/sh\nhost_os=linux\n");
    assert_eq!(fix_libtool_content(&once), once);
}

#[test]
fn config_sub_and_guess() {
    let sub = "\t| ironclad-* \\\n\tironclad*)\n\t\tkernel=ironclad\n\t\tos=`echo \"$basic_os\" | sed -e 's|ironclad|gnu|'`\n\t\t;;\n\tironclad-gnu*-)\n\t\t;;\n";
    let patched = patch_config_sub_for_seele(sub);
    assert!(patched.contains("| seele-* \\"));
    assert!(patched.contains("\tseele*)\n\t\tkernel=seele\n"));
    assert!(patched.contains("\tseele-gnu*-)\n\t\t;;"));
    assert_eq!(patch_config_sub_for_seele(&patched), patched);
    let c = ctx();
    assert_eq!(
        refresh_gnu_config(&c, "/src/x/build-aux/config.sub"),
        Some(GnuConfigUpdate::Sub(format!("{ROOT}/config.sub")))
    );
    assert_eq!(
        refresh_gnu_config(&c, "/src/x/config.guess"),
        Some(GnuConfigUpdate::Guess(format!("{ROOT}/config.guess")))
    );
    assert_eq!(refresh_gnu_config(&c, "/src/x/config.status"), None);
}

#[test]
fn download_stops_at_the_first_working_url() {
    let failed = DownloadNext::Failed(Error::DownloadFailed("/w/x".to_string()));
    assert_eq!(download_start("/w/x", 0), failed);
    assert_eq!(download_start("/w/x", 3), DownloadNext::Attempt(0));
    assert_eq!(after_download_attempt("/w/x", 3, 0, false), DownloadNext::Attempt(1));
    assert_eq!(after_download_attempt("/w/x", 3, 1, true), DownloadNext::Done);
    assert_eq!(after_download_attempt("/w/x", 3, 2, false), failed);
    // Running the attempts with outcomes [false, true, false] stops after
    // the second.
    let outcomes = [false, true, false];
    let mut tried = Vec::new();
    let mut next = download_start("/w/x", outcomes.len());
    while let DownloadNext::Attempt(i) = next {
        tried.push(i);
        next = after_download_attempt("/w/x", outcomes.len(), i, outcomes[i]);
    }
    assert_eq!(tried, vec![0, 1]);
    assert_eq!(next, DownloadNext::Done);
}

#[test]
fn downloads() {
    let urls = strings(&["https://a/x.tar.gz", "https://b/x.tar.gz"]);
    assert_eq!(download_file("/w/x.tar.gz", &urls, "/w", false, false), Err(Error::NoDownloader));
    assert_eq!(
        download_file("/w/x.tar.gz", &urls, "/w", false, true),
        Ok(vec![
            CommandSpec::new("wget").arg("-O").arg("/w/x.tar.gz").arg("https://a/x.tar.gz").cwd("/w"),
            CommandSpec::new("wget").arg("-O").arg("/w/x.tar.gz").arg("https://b/x.tar.gz").cwd("/w"),
        ])
    );
    let curl = download_file("/w/x.tar.gz", &urls, "/w", true, true).unwrap();
    assert_eq!(curl.len(), 2);
    assert_eq!(curl[1].program(), "curl");
    assert_eq!(
        curl[1].get_args(),
        &strings(&[
            "-L", "-f", "--retry", "10", "--retry-all-errors", "--retry-delay", "2", "-o",
            "/w/x.tar.gz", "https://b/x.tar.gz",
        ])
    );
    assert_eq!(tarball_name(&urls, "x"), "x.tar.gz");
    assert_eq!(tarball_name(&vec![], "x"), "x");
    assert_eq!(
        which_candidates(&Some("/usr/bin:/bin".to_string()), "curl"),
        strings(&["/usr/bin/curl", "/bin/curl"])
    );
    assert!(which_candidates(&None, "curl").is_empty());
}

#[test]
fn patch_files_and_outcomes() {
    let entries = strings(&["/p/b.patch", "/p/a.diff", "/p/readme", "/p/c.patch.orig"]);
    assert_eq!(list_patch_files(&entries), strings(&["/p/b.patch", "/p/a.diff"]));
    let c = ctx();
    let paths = PackagePaths::calc(&c, "vim");
    let dir = format!("{ROOT}/vim/pkg-specific");
    let files = vec![format!("{dir}/z.patch"), format!("{dir}/config.patch"), format!("{dir}/a.patch")];
    assert_eq!(
        apply_pkg_specific_patches(&paths, true, files.clone()),
        vec![format!("{dir}/config.patch"), format!("{dir}/a.patch"), format!("{dir}/z.patch")]
    );
    assert_eq!(
        apply_pkg_specific_patches(&paths, false, files),
        vec![format!("{dir}/a.patch"), format!("{dir}/z.patch")]
    );
    assert_eq!(
        patch_command("/s", "/p/a.patch"),
        CommandSpec::new("patch").arg("-N").arg("--forward").arg("--batch").arg("-p1").cwd("/s").stdin_file("/p/a.patch")
    );
    assert_eq!(patch_dry_run_command("/s", "/p").get_args().last(), Some(&"--dry-run".to_string()));
    assert_eq!(after_dry_run("/p", true, ""), DryRunOutcome::Apply);
    assert_eq!(
        after_dry_run("/p", false, "Reversed (or previously applied) patch detected!  Skipping."),
        DryRunOutcome::AlreadyApplied
    );
    assert_eq!(
        after_dry_run("/p", false, "hunk FAILED"),
        DryRunOutcome::Failed(Error::PatchFailed { patch: "/p".to_string(), output: "hunk FAILED".to_string() })
    );
    assert_eq!(after_apply("/p", true, ""), Ok(()));
    assert_eq!(
        after_apply("/p", false, "x"),
        Err(Error::PatchFailed { patch: "/p".to_string(), output: "x".to_string() })
    );
    assert_eq!(patch_output_text("out\n", "err\n"), "out\nerr\n");
}

#[test]
fn ordering() {
    assert!(str_less("a", "b"));
    assert!(str_less("a", "ab"));
    assert!(!str_less("b", "a"));
    assert!(!str_less("a", "a"));
    assert_eq!(sort_strings(strings(&["b", "a", "b"])), strings(&["a", "b", "b"]));
    assert_eq!(sort_dedup_strings(strings(&["b", "a", "b", "c", "a"])), strings(&["a", "b", "c"]));
}

#[test]
fn cross_environment() {
    let c = ctx();
    let cmd = pkg_env(CommandSpec::new("meson"), &c, "/usr/bin").unwrap();
    let envs = cmd.get_envs();
    let get = |k: &str| envs.iter().rev().find(|(key, _)| key == k).map(|(_, v)| v.clone());
    assert_eq!(get("PATH"), Some("/home/u/proj/.llvm/bin:/usr/bin".to_string()));
    assert_eq!(get("RUSTUP_TOOLCHAIN"), Some("seele".to_string()));
    assert_eq!(get("PKG_CONFIG_SYSROOT_DIR"), Some(STAGE.to_string()));
    assert_eq!(
        get("PKG_CONFIG_LIBDIR"),
        Some(format!("{STAGE}/libs/pkgconfig:{STAGE}/libs/lib_binaries/pkgconfig:{STAGE}/share/pkgconfig"))
    );
    assert_eq!(get("PKG_CONFIG_PATH_FOR_TARGET"), Some("".to_string()));
    assert_eq!(
        cmd.get_env_removes(),
        &strings(&["AR", "CC", "CPP", "CXX", "LD", "NM", "RANLIB", "STRIP"])
    );
    let t = target_env(CommandSpec::new("make"), &c, "/usr/bin").unwrap();
    let envs = t.get_envs();
    let get = |k: &str| envs.iter().rev().find(|(key, _)| key == k).map(|(_, v)| v.clone());
    assert_eq!(get("CC"), Some("clang --target=x86_64-seele".to_string()));
    assert_eq!(get("CFLAGS"), Some("-fPIC".to_string()));
    assert!(t.get_env_removes().contains(&"CC".to_string()));
    let mut root = ctx();
    root.packages_root = "/".to_string();
    assert_eq!(pkg_env(CommandSpec::new("x"), &root, ""), Err(Error::PackagesDirHasNoParent));
}

#[test]
fn meson_files() {
    let c = ctx();
    let paths = PackagePaths::calc(&c, "pixman");
    let root = format!("{ROOT}/work/pixman");
    assert_eq!(meson_array(&strings(&["a", "b'c", "d\\e"])), "['a', 'b\\'c', 'd\\\\e']");
    assert_eq!(meson_array(&vec![]), "[]");
    let w = meson_vala_wrapper(&paths, "/usr/bin:/o'p", &strings(&["--vapidir=/v"]));
    assert_eq!(w.path, format!("{root}/valac"));
    assert_eq!(
        w.content,
        "#!/bin/sh\nexec env PATH='/usr/bin:/o'\"'\"'p' valac '--vapidir=/v' \"$@\"\n"
    );
    assert!(w.executable);
    let cross = meson_cross_file(&c, &paths, "/v/valac");
    assert_eq!(cross.path, format!("{root}/seele.cross"));
    assert!(cross.content.contains("vala = '/v/valac'\n"));
    assert!(cross.content.contains(&format!("c_args = ['-fPIC', '-I{STAGE}/libs/include', '-I{STAGE}/libs/include/c']\n")));
    assert!(!cross.executable);
    let env = HostEnv {
        path: "/usr/bin".to_string(),
        xdg_data_dirs: None,
        pkg_config_path: "/pp".to_string(),
        pkg_config_libdir: "/pl".to_string(),
        pkg_config_path_for_target: "".to_string(),
        pkg_config_sysroot_dir: "".to_string(),
        jobs: 4,
    };
    let pc = meson_native_pkg_config(&paths, &env);
    assert_eq!(pc.path, format!("{root}/build-pkg-config"));
    assert!(pc.content.contains("PATH='/usr/bin' \\\n"));
    assert!(pc.content.contains("PKG_CONFIG_LIBDIR='/pl' \\\n"));
    assert!(pc.content.ends_with("pkg-config \"$@\"\n"));
    let native = meson_native_file(&paths, "/b/pc", "/b/valac");
    assert_eq!(native.path, format!("{root}/native.ini"));
    assert!(native.content.ends_with("pkg-config = '/b/pc'\nvala = '/b/valac'\n"));
}

#[test]
fn vala_arguments() {
    let c = ctx();
    let cands = vala_candidates(&c, &Some("/usr/share:/opt/share".to_string()));
    assert_eq!(
        cands,
        vec![
            ("--vapidir".to_string(), format!("{STAGE}/share/vala/vapi")),
            ("--vapidir".to_string(), format!("{STAGE}/libs/lib_binaries/vapi")),
            ("--vapidir".to_string(), "/usr/share/vala/vapi".to_string()),
            ("--vapidir".to_string(), "/opt/share/vala/vapi".to_string()),
            ("--girdir".to_string(), "/usr/share/gir-1.0".to_string()),
            ("--girdir".to_string(), "/opt/share/gir-1.0".to_string()),
        ]
    );
    assert_eq!(
        existing_dir_args(&cands, &vec![false, true, true, false, false, true]),
        strings(&[
            &format!("--vapidir={STAGE}/libs/lib_binaries/vapi"),
            "--vapidir=/usr/share/vala/vapi",
            "--girdir=/opt/share/gir-1.0",
        ])
    );
    assert_eq!(split_paths("/a::/b"), strings(&["/a", "", "/b"]));
    assert_eq!(build_triplet(Some(" x86_64-pc-linux-gnu\n")), "x86_64-pc-linux-gnu");
    assert_eq!(build_triplet(None), "x86_64-pc-linux-gnu");
}
