use seele_packages::command::CommandSpec;
use seele_packages::error::Error;
use seele_packages::packages::{Bash, Busybox, LibX11, Package, Vim};
use seele_packages::plan::Step;
use seele_packages::recipes::{
    build_steps, build_tcc_tools, clean_steps, configure_steps, load_config, fetch_steps, install_steps, phase_ignores_rebuild,
    phase_name, phase_steps, phases, recipe, source, xorg_server_install_hook,
    xorg_xinit_install_hook, Phase, Recipe, Source,
};
use seele_packages::registry::PackageId;
use seele_packages::types::{Context, PackagePaths};

const ROOT: &str = "/home/u/proj/packages";
const STAGE: &str = "/home/u/proj/packages/work/sysroot-stage";

fn ctx() -> Context {
    Context::from_packages_root(ROOT, false, false).unwrap()
}

fn strings(v: &[&str]) -> Vec<String> {
    v.iter().map(|s| s.to_string()).collect()
}

#[test]
fn phases_in_order() {
    assert_eq!(
        phases(),
        vec![Phase::Fetch, Phase::Patch, Phase::Configure, Phase::Build, Phase::Install]
    );
    let names: Vec<&str> = phases().into_iter().map(phase_name).collect();
    assert_eq!(names, vec!["fetch", "patch", "configure", "build", "install"]);
    assert!(phase_ignores_rebuild(Phase::Fetch));
    assert!(!phase_ignores_rebuild(Phase::Build));
}

#[test]
fn sources() {
    match source(PackageId::Bash) {
        Source::Tarball(u) => assert_eq!(u, "https://ftp.gnu.org/gnu/bash/bash-5.3.tar.gz"),
        _ => panic!("bash comes as a tarball"),
    }
    match source(PackageId::XorgServer) {
        Source::Git(u, c) => {
            assert_eq!(u, "https://gitlab.freedesktop.org/xorg/xserver.git");
            assert_eq!(c, "312a25c65c8a918fea2cc77abd0db07ec0fc421c");
        },
        _ => panic!("the X server comes from git"),
    }
    assert!(matches!(source(PackageId::Gui), Source::Nothing));
    assert_eq!(recipe(PackageId::LibXcb), Recipe::Autotools);
    assert_eq!(recipe(PackageId::Pixman), Recipe::Meson);
    assert_eq!(recipe(PackageId::Base), Recipe::Meta);
}

#[test]
fn fetch_of_a_tarball() {
    let c = ctx();
    let root = format!("{ROOT}/work/bash");
    let tarball = format!("{root}/bash-5.3.tar.gz");
    let src = format!("{root}/src");
    assert_eq!(
        fetch_steps(PackageId::Bash, &c),
        vec![
            Step::EnsureDir(root.clone()),
            Step::EnsureDir(format!("{root}/.stamp")),
            Step::RemoveDirIfExists(src.clone()),
            Step::RemovePath(tarball.clone()),
            Step::Download {
                target: tarball.clone(),
                urls: strings(&["https://ftp.gnu.org/gnu/bash/bash-5.3.tar.gz"]),
                cwd: root.clone(),
            },
            Step::EnsureDir(src.clone()),
            Step::Run(
                CommandSpec::new("tar")
                    .arg("-xf")
                    .arg(&tarball)
                    .arg("--strip-components=1")
                    .arg("-C")
                    .arg(&src)
            ),
        ]
    );
}

#[test]
fn fetch_of_a_git_repository() {
    let c = ctx();
    let root = format!("{ROOT}/work/vim");
    let src = format!("{root}/src");
    assert_eq!(
        Vim.fetch(&c),
        vec![
            Step::EnsureDir(root.clone()),
            Step::EnsureDir(format!("{root}/.stamp")),
            Step::SkipRestIfDir(format!("{src}/.git")),
            Step::RemoveDirIfExists(src.clone()),
            Step::Run(CommandSpec::new("git").arg("clone").arg("https://github.com/vim/vim.git").arg(&src)),
            Step::Run(CommandSpec::new("git").arg("checkout").arg("0172ff5").cwd(&src)),
        ]
    );
}

#[test]
fn patch_applies_the_package_patch() {
    let c = ctx();
    assert_eq!(
        Bash.patch(&c),
        vec![
            Step::EnsureDir(format!("{ROOT}/work/bash/.stamp")),
            Step::ApplyPatchIfExists {
                src_dir: format!("{ROOT}/work/bash/src"),
                patch: format!("{ROOT}/bash/bash.patch"),
            },
        ]
    );
}

#[test]
fn libx11_finds_the_staged_keysym_header() {
    let c = ctx();
    let src = format!("{ROOT}/work/libx11/src");
    assert_eq!(
        LibX11.configure(&c, 4),
        vec![Step::ConfigureAutotools {
            source_dir: src.clone(),
            spec: CommandSpec::new("./configure").cwd(&src),
            args: vec![],
            dynamic_args: vec![format!("--with-keysymdefdir={STAGE}/libs/include/X11")],
        }]
    );
}

#[test]
fn libxt_and_libxfont2_arguments() {
    let c = ctx();
    match &configure_steps(PackageId::LibXt, &c, 1)[0] {
        Step::ConfigureAutotools { args, dynamic_args, .. } => {
            assert!(args.is_empty());
            assert_eq!(dynamic_args, &strings(&["--with-appdefaultdir=/etc/X11/app-defaults"]));
        },
        other => panic!("unexpected {:?}", other),
    }
    match &configure_steps(PackageId::LibXfont2, &c, 1)[0] {
        Step::ConfigureAutotools { args, dynamic_args, .. } => {
            assert_eq!(args, &strings(&["--disable-devel-docs", "--disable-selective-werror"]));
            assert!(dynamic_args.is_empty());
        },
        other => panic!("unexpected {:?}", other),
    }
}

#[test]
fn meson_configure_steps() {
    let c = ctx();
    assert_eq!(
        configure_steps(PackageId::Pixman, &c, 2),
        vec![
            Step::EnsureDir(format!("{ROOT}/work/pixman/src/build")),
            Step::ConfigureMeson {
                args: strings(&["-Dgtk=disabled", "-Dlibpng=disabled", "-Dtests=disabled"]),
                dynamic_args: vec![],
            },
        ]
    );
    match &configure_steps(PackageId::XorgServer, &c, 2)[1] {
        Step::ConfigureMeson { args, dynamic_args } => {
            assert_eq!(args.len(), 24);
            assert_eq!(args[0], "-Dxorg=true");
            assert_eq!(args[23], "-Dlisten_tcp=false");
            assert_eq!(
                dynamic_args,
                &strings(&[
                    "-Dxkb_bin_dir=/programs",
                    "-Dxkb_dir=/share/X11/xkb",
                    "-Dxkb_output_dir=/var/lib/xkb",
                    "-Ddefault_font_path=/share/fonts/X11",
                ])
            );
        },
        other => panic!("unexpected {:?}", other),
    }
}

#[test]
fn custom_configure_steps() {
    let c = ctx();
    let src = format!("{ROOT}/work/tinycc/src");
    assert_eq!(
        configure_steps(PackageId::TinyCc, &c, 1),
        vec![Step::Run(CommandSpec::new("./configure").arg("--prefix=/").cwd(&src))]
    );
    let nsrc = format!("{ROOT}/work/ncurses/src");
    let nbuild = format!("{ROOT}/work/ncurses/src/build");
    match &configure_steps(PackageId::Ncurses, &c, 1)[0] {
        Step::ConfigureAutotools { source_dir, spec, args, dynamic_args } => {
            assert_eq!(source_dir, &nsrc);
            assert_eq!(spec.program(), "../configure");
            assert_eq!(spec.get_cwd(), &Some(nbuild.clone()));
            assert_eq!(
                spec.get_envs(),
                &vec![("CC".to_string(), "clang --target=x86_64-seele".to_string())]
            );
            assert_eq!(args.len(), 12);
            assert_eq!(dynamic_args, &strings(&["--with-build-cc=gcc"]));
        },
        other => panic!("unexpected {:?}", other),
    }
    match &configure_steps(PackageId::Bash, &c, 1)[0] {
        Step::ConfigureAutotools { spec, args, .. } => {
            assert_eq!(spec.get_envs().len(), 6);
            assert_eq!(spec.get_envs()[3], ("bash_cv_getenv_redef".to_string(), "no".to_string()));
            assert_eq!(args, &strings(&["--disable-nls", "--without-bash-malloc"]));
        },
        other => panic!("unexpected {:?}", other),
    }
}

#[test]
fn busybox_configuration() {
    let c = ctx();
    let src = format!("{ROOT}/work/busybox/src");
    let build = format!("{ROOT}/work/busybox/src/build");
    assert_eq!(
        Busybox.configure(&c, 8),
        vec![
            Step::RemoveFile(format!("{build}/.config")),
            Step::Run(
                CommandSpec::new("make")
                    .arg("-j8")
                    .arg("-C")
                    .arg(&src)
                    .arg(&format!("O={build}"))
                    .arg("HOSTCC=gcc")
                    .arg("allnoconfig")
            ),
            Step::MergeBusyboxConfig {
                config: format!("{build}/.config"),
                settings: format!("{ROOT}/busybox/seele.config"),
            },
            Step::Run(CommandSpec::new("sh").arg("-c").arg(&format!(
                "yes \"\" | make -C '{src}' O='{build}' HOSTCC='gcc' oldconfig >/dev/null"
            ))),
        ]
    );
}

#[test]
fn busybox_settings_and_tcc_tools() {
    let c = ctx();
    let configure = Busybox.configure(&c, 4);
    assert_eq!(load_config(&c, 4), configure[..3].to_vec());
    let tools = build_tcc_tools(&PackagePaths::calc(&c, "tinycc"));
    assert_eq!(tools.len(), 2);
    assert_eq!(build_steps(PackageId::TinyCc, &c, "/usr/bin", 2).unwrap()[..2].to_vec(), tools);
}

#[test]
fn plain_make_builds() {
    let c = ctx();
    let src = format!("{ROOT}/work/bash/src");
    assert_eq!(
        build_steps(PackageId::Bash, &c, "/usr/bin", 3),
        Ok(vec![Step::Run(
            CommandSpec::new("make")
                .arg("-j3")
                .cwd(&src)
                .env("CC_FOR_BUILD", "gcc")
                .env("CFLAGS_FOR_BUILD", "-g -DCROSS_COMPILING -std=gnu17")
                .env("ADDON_LDFLAGS", "-Wl,--allow-multiple-definition")
                .arg("bash")
        )])
    );
    let bsrc = format!("{ROOT}/work/busybox/src");
    let bbuild = format!("{ROOT}/work/busybox/src/build");
    assert_eq!(
        build_steps(PackageId::Busybox, &c, "/usr/bin", 2),
        Ok(vec![Step::Run(
            CommandSpec::new("make")
                .arg("-j2")
                .cwd(&bsrc)
                .arg(&format!("O={bbuild}"))
                .arg("HOSTCC=gcc")
                .arg("CC=clang --target=x86_64-seele")
                .arg("busybox")
        )])
    );
}

#[test]
fn tinycc_build() {
    let c = ctx();
    let src = format!("{ROOT}/work/tinycc/src");
    let build = format!("{ROOT}/work/tinycc/src/build");
    assert_eq!(
        build_steps(PackageId::TinyCc, &c, "/usr/bin", 2),
        Ok(vec![
            Step::RunUnlessFile {
                path: format!("{src}/c2str.exe"),
                command: CommandSpec::new("gcc")
                    .arg("-DC2STR")
                    .arg("conftest.c")
                    .arg("-o")
                    .arg("c2str.exe")
                    .cwd(&src),
            },
            Step::RunUnlessFile {
                path: format!("{src}/tccdefs_.h"),
                command: CommandSpec::new("./c2str.exe")
                    .arg("include/tccdefs.h")
                    .arg("tccdefs_.h")
                    .cwd(&src),
            },
            Step::RemoveFile(format!("{build}/tcc")),
            Step::Run(
                CommandSpec::new("make")
                    .arg("-j2")
                    .arg("-f")
                    .arg("Makefile")
                    .arg("CC=clang --target=x86_64-seele")
                    .arg("tcc")
                    .cwd(&src)
            ),
            Step::Rename { from: format!("{src}/tcc"), to: format!("{build}/tcc") },
        ])
    );
}

#[test]
fn cross_builds_run_in_the_cross_environment() {
    let c = ctx();
    let steps = build_steps(PackageId::LibXext, &c, "/usr/bin", 4).unwrap();
    assert_eq!(steps.len(), 1);
    match &steps[0] {
        Step::Run(cmd) => {
            assert_eq!(cmd.program(), "make");
            assert_eq!(cmd.get_args(), &strings(&["-j4"]));
            assert_eq!(cmd.get_cwd(), &Some(format!("{ROOT}/work/libxext/src")));
            for v in ["AR", "CC", "CPP", "CXX", "LD", "NM", "RANLIB", "STRIP"] {
                assert!(cmd.get_env_removes().contains(&v.to_string()));
            }
        },
        other => panic!("unexpected {:?}", other),
    }
    let steps = build_steps(PackageId::Freetype2, &c, "/usr/bin", 4).unwrap();
    match &steps[0] {
        Step::Run(cmd) => {
            assert_eq!(cmd.program(), "meson");
            assert_eq!(
                cmd.get_args(),
                &strings(&["compile", "-C", &format!("{ROOT}/work/freetype2/src/build"), "-j4"])
            );
        },
        other => panic!("unexpected {:?}", other),
    }
}

#[test]
fn installs() {
    let c = ctx();
    assert_eq!(
        install_steps(PackageId::TinyCc, &c),
        Ok(vec![Step::InstallFile {
            source: format!("{ROOT}/work/tinycc/src/build/tcc"),
            target: format!("{STAGE}/programs/tcc"),
        }])
    );
    assert_eq!(
        install_steps(PackageId::LibXcb, &c),
        Ok(vec![Step::Run(
            CommandSpec::new("sudo")
                .arg("env")
                .arg(&format!("DESTDIR={STAGE}"))
                .arg("make")
                .arg("-C")
                .arg(&format!("{ROOT}/work/libxcb/src"))
                .arg("install")
        )])
    );
    assert_eq!(
        install_steps(PackageId::XorgServer, &c),
        Ok(vec![
            Step::Run(
                CommandSpec::new("sudo")
                    .arg("env")
                    .arg(&format!("DESTDIR={STAGE}"))
                    .arg("meson")
                    .arg("install")
                    .arg("--no-rebuild")
                    .arg("-C")
                    .arg(&format!("{ROOT}/work/xorg-server/src/build"))
            ),
            Step::CopyAsRoot {
                from: format!("{ROOT}/xorg-server/xorg.conf"),
                to: format!("{STAGE}/etc/X11/xorg.conf"),
            },
        ])
    );
    assert_eq!(
        install_steps(PackageId::Vim, &c),
        Ok(vec![
            Step::InstallFile {
                source: format!("{ROOT}/work/vim/src/src/vim"),
                target: format!("{STAGE}/programs/vim"),
            },
            Step::Run(CommandSpec::new("sudo").arg("mkdir").arg("-p").arg(&format!("{STAGE}/misc/vim"))),
            Step::Run(
                CommandSpec::new("sudo")
                    .arg("cp")
                    .arg("-a")
                    .arg(&format!("{ROOT}/work/vim/src/runtime/."))
                    .arg(&format!("{STAGE}/misc/vim"))
            ),
        ])
    );
}

#[test]
fn busybox_install_links_its_applets() {
    let c = ctx();
    let build = format!("{ROOT}/work/busybox/src/build");
    let bin = format!("{STAGE}/programs");
    assert_eq!(
        install_steps(PackageId::Busybox, &c),
        Ok(vec![
            Step::InstallBusybox {
                command: CommandSpec::new("gcc")
                    .arg("-E")
                    .arg("-DMAKE_LINKS")
                    .arg("-include")
                    .arg(&format!("{build}/include/autoconf.h"))
                    .arg(&format!("{build}/include/applets.h")),
                source: format!("{build}/busybox"),
                binary: format!("{bin}/busybox"),
                install_dir: bin.clone(),
            },
            Step::CheckInstalled { binary: format!("{bin}/busybox"), link: format!("{bin}/ls") },
        ])
    );
}

#[test]
fn install_into_a_root_install_directory_fails() {
    let mut c = ctx();
    c.install_dir = "/".to_string();
    assert_eq!(install_steps(PackageId::Vim, &c), Err(Error::InstallDirHasNoParent));
    assert_eq!(install_steps(PackageId::LibXcb, &c), Err(Error::InstallDirHasNoParent));
    assert_eq!(xorg_server_install_hook(&c), Err(Error::InstallDirHasNoParent));
    assert_eq!(xorg_xinit_install_hook(&c), Err(Error::InstallDirHasNoParent));
    assert_eq!(
        install_steps(PackageId::Bash, &c),
        Ok(vec![Step::InstallFile {
            source: format!("{ROOT}/work/bash/src/bash"),
            target: "/bash".to_string(),
        }])
    );
}

#[test]
fn xinit_session_files() {
    let c = ctx();
    assert_eq!(
        xorg_xinit_install_hook(&c),
        Ok(vec![
            Step::CopyFile {
                from: format!("{ROOT}/xorg-xinit/.xinitrc"),
                to: format!("{STAGE}/home/.xinitrc"),
            },
            Step::CopyFile {
                from: format!("{ROOT}/xorg-xinit/.xserverrc"),
                to: format!("{STAGE}/home/.xserverrc"),
            },
        ])
    );
}

#[test]
fn clean_removes_the_work_directory() {
    let c = ctx();
    assert_eq!(
        clean_steps(PackageId::Gui, &c),
        vec![Step::RemoveDirIfExists(format!("{ROOT}/work/gui"))]
    );
    assert_eq!(Vim.clean(&c), vec![Step::RemoveDirIfExists(format!("{ROOT}/work/vim"))]);
}

#[test]
fn phase_steps_dispatch() {
    let c = ctx();
    assert_eq!(
        phase_steps(PackageId::Bash, Phase::Install, &c, "/usr/bin", 1),
        install_steps(PackageId::Bash, &c)
    );
    assert_eq!(
        phase_steps(PackageId::Vim, Phase::Fetch, &c, "/usr/bin", 1),
        Ok(fetch_steps(PackageId::Vim, &c))
    );
}
