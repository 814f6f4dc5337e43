use seele_packages::building::{build_cargo_with, build_cmake, build_make_in, build_meson, make};
use seele_packages::command::CommandSpec;
use seele_packages::configure::{
    configure_autotools, configure_autotools_in, configure_cmake, configure_meson, with_autotools_layout,
    with_cmake_layout, with_envs, with_meson_layout,
};
use seele_packages::cross::{config_guess_command, HostEnv};
use seele_packages::error::Error;
use seele_packages::install::{
    binary_install_step, install_autotools, install_dir_contents, install_file, install_make_in,
    install_meson,
};
use seele_packages::plan::Step;
use seele_packages::types::{Context, PackagePaths};

const ROOT: &str = "/home/u/proj/packages";
const STAGE: &str = "/home/u/proj/packages/work/sysroot-stage";

fn ctx() -> Context {
    Context::from_packages_root(ROOT, false, false).unwrap()
}

fn strings(v: &[&str]) -> Vec<String> {
    v.iter().map(|s| s.to_string()).collect()
}

#[test]
fn layouts() {
    assert_eq!(
        with_autotools_layout(CommandSpec::new("c")).get_args(),
        &strings(&[
            "--prefix=/",
            "--bindir=/programs",
            "--sbindir=/programs",
            "--includedir=/libs/include",
            "--libdir=/libs/lib_binaries",
            "--sysconfdir=/etc",
            "--localstatedir=/var",
        ])
    );
    assert_eq!(
        with_meson_layout(CommandSpec::new("m")).get_args(),
        &strings(&[
            "--prefix=/",
            "--bindir=programs",
            "--sbindir=programs",
            "--includedir=libs/include",
            "--libdir=libs/lib_binaries",
            "--sysconfdir=/etc",
            "--localstatedir=/var",
        ])
    );
    assert_eq!(
        with_cmake_layout(CommandSpec::new("x")).get_args(),
        &strings(&[
            "-DCMAKE_INSTALL_PREFIX=/",
            "-DCMAKE_INSTALL_BINDIR=/programs",
            "-DCMAKE_INSTALL_SBINDIR=/programs",
            "-DCMAKE_INSTALL_INCLUDEDIR=/libs/include",
            "-DCMAKE_INSTALL_LIBDIR=/libs/lib_binaries",
            "-DCMAKE_INSTALL_SYSCONFDIR=/etc",
            "-DCMAKE_INSTALL_LOCALSTATEDIR=/var",
        ])
    );
    let e = with_envs(CommandSpec::new("x"), &vec![("A".to_string(), "1".to_string())]);
    assert_eq!(e.get_envs(), &vec![("A".to_string(), "1".to_string())]);
}

#[test]
fn autotools_configure_command() {
    let c = ctx();
    let spec = CommandSpec::new("./configure").cwd("/s");
    let cmd = configure_autotools_in(
        spec,
        &c,
        &strings(&["--a"]),
        &strings(&["--b"]),
        "x86_64-pc-linux-gnu",
        "/usr/bin",
    )
    .unwrap();
    let args = cmd.get_args();
    assert_eq!(args.len(), 7 + 5 + 2);
    assert_eq!(
        &args[7..],
        &strings(&[
            "--build=x86_64-pc-linux-gnu",
            "--host=x86_64-seele",
            "--target=x86_64-seele",
            "--enable-shared",
            "--disable-static",
            "--a",
            "--b",
        ])[..]
    );
    let get = |k: &str| cmd.get_envs().iter().rev().find(|(key, _)| key == k).map(|(_, v)| v.clone());
    assert_eq!(
        get("CPPFLAGS"),
        Some(format!("-I{STAGE}/libs/include -I{STAGE}/libs/include/c"))
    );
    assert_eq!(
        get("LDFLAGS"),
        Some(format!("-L{STAGE}/libs/lib_binaries -Wl,-rpath-link,{STAGE}/libs/lib_binaries -lunwind"))
    );
    let paths = PackagePaths::calc(&c, "libxau");
    let viapaths = configure_autotools(&paths, &c, &vec![], &vec![], &vec![], "b", "/usr/bin").unwrap();
    assert_eq!(viapaths.program(), "./configure");
    assert_eq!(viapaths.get_cwd(), &Some(format!("{ROOT}/work/libxau/src")));
    let mut root = ctx();
    root.packages_root = "/".to_string();
    assert_eq!(
        configure_autotools_in(CommandSpec::new("x"), &root, &vec![], &vec![], "b", ""),
        Err(Error::PackagesDirHasNoParent)
    );
    assert_eq!(
        config_guess_command("/s"),
        CommandSpec::new("./config.guess").cwd("/s")
    );
}

#[test]
fn meson_configure() {
    let c = ctx();
    let paths = PackagePaths::calc(&c, "pixman");
    let env = HostEnv {
        path: "/usr/bin".to_string(),
        xdg_data_dirs: None,
        pkg_config_path: String::new(),
        pkg_config_libdir: String::new(),
        pkg_config_path_for_target: String::new(),
        pkg_config_sysroot_dir: String::new(),
        jobs: 2,
    };
    let m = configure_meson(&c, &paths, &env, &vec![], &strings(&["-Dx=1"]), &strings(&["-Dy=2"])).unwrap();
    let root = format!("{ROOT}/work/pixman");
    let names: Vec<&str> = m.files.iter().map(|f| f.path.as_str()).collect();
    assert_eq!(
        names,
        vec![
            format!("{root}/valac").as_str(),
            format!("{root}/seele.cross").as_str(),
            format!("{root}/build-pkg-config").as_str(),
            format!("{root}/valac").as_str(),
            format!("{root}/native.ini").as_str(),
        ]
    );
    assert_eq!(m.command.program(), "meson");
    assert_eq!(m.command.get_cwd(), &Some(root.clone()));
    let args = m.command.get_args();
    assert_eq!(args[0], "setup");
    assert_eq!(
        &args[8..],
        &strings(&[
            &format!("{root}/src/build"),
            &format!("{root}/src"),
            &format!("--cross-file={root}/seele.cross"),
            &format!("--native-file={root}/native.ini"),
            "--buildtype=release",
            "--wrap-mode=nodownload",
            "-Ddefault_library=shared",
            "-Dx=1",
            "-Dy=2",
        ])[..]
    );
}

#[test]
fn cmake_configure() {
    let c = ctx();
    let paths = PackagePaths::calc(&c, "fastfetch");
    let steps = configure_cmake(&c, &paths, "/usr/bin", &strings(&["-DA=1"]), &vec![]).unwrap();
    assert_eq!(steps.len(), 2);
    assert_eq!(steps[0], Step::EnsureDir(format!("{ROOT}/work/fastfetch/src/build")));
    let Step::Run(cmd) = &steps[1] else { panic!("expected the cmake command") };
    assert_eq!(cmd.program(), "cmake");
    let args = cmd.get_args();
    assert_eq!(args[7], "-S");
    assert_eq!(args[8], format!("{ROOT}/work/fastfetch/src"));
    assert!(args.contains(&format!("-DCMAKE_SYSROOT={STAGE}")));
    assert!(args.contains(&"-DCMAKE_POSITION_INDEPENDENT_CODE=ON".to_string()));
    assert_eq!(args.last(), Some(&"-DA=1".to_string()));
    let mut root = ctx();
    root.install_dir = "/".to_string();
    assert_eq!(
        configure_cmake(&root, &paths, "", &vec![], &vec![]),
        Err(Error::InstallDirHasNoParent)
    );
    // Without a project root the build directory is made, then the
    // workflow ends with the error of the build environment.
    let mut top = ctx();
    top.packages_root = "/".to_string();
    assert_eq!(
        configure_cmake(&top, &paths, "", &vec![], &vec![]),
        Ok(vec![
            Step::EnsureDir(format!("{ROOT}/work/fastfetch/src/build")),
            Step::Fail(Error::PackagesDirHasNoParent),
        ])
    );
}

#[test]
fn builds() {
    let c = ctx();
    let paths = PackagePaths::calc(&c, "zlib");
    assert_eq!(make(12), CommandSpec::new("make").arg("-j12"));
    assert_eq!(
        build_make_in("/s", &vec![("K".to_string(), "V".to_string())], &strings(&["all"]), 3),
        CommandSpec::new("make").arg("-j3").cwd("/s").env("K", "V").arg("all")
    );
    assert_eq!(
        build_cmake(&paths, 5),
        CommandSpec::new("cmake")
            .arg("--build")
            .arg(&format!("{ROOT}/work/zlib/src/build"))
            .arg("--parallel")
            .arg("5")
    );
    let m = build_meson(&paths, &c, "/usr/bin", 7).unwrap();
    assert_eq!(
        m.get_args(),
        &strings(&["compile", "-C", &format!("{ROOT}/work/zlib/src/build"), "-j7"])
    );
    let cargo = build_cargo_with(&paths, &c, "/usr/bin", &vec![], &strings(&["--release"])).unwrap();
    assert_eq!(
        cargo.get_args(),
        &strings(&[
            "+seele",
            "build",
            "--target",
            "x86_64-seele",
            "--target-dir",
            &format!("{ROOT}/work/zlib/src/build/target"),
            "--release",
        ])
    );
    let get = |k: &str| cargo.get_envs().iter().rev().find(|(key, _)| key == k).map(|(_, v)| v.clone());
    assert_eq!(get("CARGO_TARGET_X86_64_SEELE_LINKER"), Some("clang".to_string()));
}

#[test]
fn install_commands() {
    let c = ctx();
    let paths = PackagePaths::calc(&c, "zlib");
    assert_eq!(
        install_make_in("/s/build", &c),
        Ok(CommandSpec::new("sudo")
            .arg("env")
            .arg(&format!("DESTDIR={STAGE}"))
            .arg("make")
            .arg("-C")
            .arg("/s/build")
            .arg("install"))
    );
    assert_eq!(install_autotools(&paths, &c), install_make_in(&paths.src, &c));
    assert_eq!(
        install_meson(&paths, &c),
        Ok(CommandSpec::new("sudo")
            .arg("env")
            .arg(&format!("DESTDIR={STAGE}"))
            .arg("meson")
            .arg("install")
            .arg("--no-rebuild")
            .arg("-C")
            .arg(&paths.build))
    );
    let mut root = ctx();
    root.install_dir = "/".to_string();
    assert_eq!(install_make_in("/s", &root), Err(Error::InstallDirHasNoParent));
    assert_eq!(
        install_file("/a", "/b"),
        Step::InstallFile { source: "/a".to_string(), target: "/b".to_string() }
    );
    assert_eq!(
        install_dir_contents("/r/runtime", "/t/misc"),
        vec![
            Step::Run(CommandSpec::new("sudo").arg("mkdir").arg("-p").arg("/t/misc")),
            Step::Run(CommandSpec::new("sudo").arg("cp").arg("-a").arg("/r/runtime/.").arg("/t/misc")),
        ]
    );
    assert_eq!(
        binary_install_step(&paths, &c, "z", "zz"),
        Step::InstallFile {
            source: format!("{ROOT}/work/zlib/src/build/z"),
            target: format!("{STAGE}/programs/zz"),
        }
    );
}
