use seele_packages::install::Install;
use seele_packages::packages::{
    meta_panic, BasePackage, Bash, GitCloneFetch, GuiPackage, LibX11, MetaPackage, Package,
    TarballFetch, TinyCc, Vim, XorgPackage, XorgServer,
};
use seele_packages::registry::{package_by_name, PackageId};
use seele_packages::types::{Action, Context};
use seele_packages::workflow::{action_steps, make_order, ActionStep};

const ALL: [PackageId; 45] = [
    PackageId::Bash,
    PackageId::Busybox,
    PackageId::Ncurses,
    PackageId::TinyCc,
    PackageId::Vim,
    PackageId::Base,
    PackageId::Gui,
    PackageId::Xorg,
    PackageId::XcbProto,
    PackageId::XorgProto,
    PackageId::XorgUtilMacros,
    PackageId::Xtrans,
    PackageId::LibX11,
    PackageId::LibXau,
    PackageId::LibXcb,
    PackageId::LibXdmcp,
    PackageId::LibXext,
    PackageId::LibXdamage,
    PackageId::LibXfixes,
    PackageId::LibXi,
    PackageId::LibXrandr,
    PackageId::LibXrender,
    PackageId::LibIce,
    PackageId::LibSm,
    PackageId::LibXinerama,
    PackageId::LibXmu,
    PackageId::LibXt,
    PackageId::Freetype2,
    PackageId::LibFontenc,
    PackageId::LibXcvt,
    PackageId::LibXfont2,
    PackageId::Pixman,
    PackageId::LibXkbfile,
    PackageId::LibXshmfence,
    PackageId::XcbUtil,
    PackageId::XkeyboardConfig,
    PackageId::XorgFontUtil,
    PackageId::XorgServer,
    PackageId::XorgXkbcomp,
    PackageId::XorgTwm,
    PackageId::XorgXauth,
    PackageId::XorgXeyes,
    PackageId::XorgXinit,
    PackageId::XorgXmodmap,
    PackageId::XorgXrdb,
];

fn ctx() -> Context {
    Context::from_packages_root("/home/u/proj/packages", false, false).unwrap()
}

#[test]
fn every_package_is_selected_by_its_name() {
    for id in ALL {
        assert_eq!(package_by_name(id.name()), Some(id));
    }
}

#[test]
fn short_names_select_packages() {
    assert_eq!(package_by_name("tcc"), Some(PackageId::TinyCc));
    assert_eq!(package_by_name("tinycc"), Some(PackageId::TinyCc));
    assert_eq!(package_by_name("freetype"), Some(PackageId::Freetype2));
    assert_eq!(package_by_name("xkbcomp"), Some(PackageId::XorgXkbcomp));
    assert_eq!(package_by_name("twm"), Some(PackageId::XorgTwm));
    assert_eq!(package_by_name("xauth"), Some(PackageId::XorgXauth));
    assert_eq!(package_by_name("xeyes"), Some(PackageId::XorgXeyes));
    assert_eq!(package_by_name("xinit"), Some(PackageId::XorgXinit));
    assert_eq!(package_by_name("xmodmap"), Some(PackageId::XorgXmodmap));
    assert_eq!(package_by_name("xrdb"), Some(PackageId::XorgXrdb));
}

#[test]
fn unknown_names_select_nothing() {
    assert_eq!(package_by_name("emacs"), None);
    assert_eq!(package_by_name(""), None);
    assert_eq!(package_by_name("Bash"), None);
    assert_eq!(package_by_name("bash "), None);
}

#[test]
fn names_and_install_names() {
    assert_eq!(Bash.name(), "bash");
    assert_eq!(TinyCc.name(), "tinycc");
    assert_eq!(TinyCc.install_name(), "tcc");
    assert_eq!(Vim.install_name(), "vim");
    assert_eq!(XorgServer.name(), "xorg-server");
    assert_eq!(GuiPackage.name(), "gui");
}

#[test]
fn dependencies_and_members() {
    assert_eq!(
        LibX11.dependencies(),
        vec![PackageId::XorgProto, PackageId::LibXcb, PackageId::Xtrans]
    );
    assert_eq!(Vim.dependencies(), vec![PackageId::Ncurses]);
    assert!(Bash.dependencies().is_empty());
    assert_eq!(
        BasePackage.packages(),
        vec![PackageId::Bash, PackageId::Busybox, PackageId::TinyCc]
    );
    assert_eq!(
        GuiPackage.packages(),
        vec![PackageId::XorgServer, PackageId::XorgXinit, PackageId::XorgTwm, PackageId::XorgXeyes]
    );
    assert_eq!(XorgPackage.packages(), vec![PackageId::Gui]);
    assert_eq!(XorgServer.dependencies().len(), 23);
}

#[test]
fn make_order_of_vim() {
    assert_eq!(make_order(PackageId::Vim, false), vec![PackageId::Ncurses, PackageId::Vim]);
    assert_eq!(Vim.make(false), vec![PackageId::Ncurses, PackageId::Vim]);
}

#[test]
fn ignoring_dependencies_makes_the_package_alone() {
    for id in ALL {
        if !id.is_meta() {
            assert_eq!(make_order(id, true), vec![id]);
        }
    }
}

#[test]
fn meta_packages_make_their_members() {
    assert_eq!(
        make_order(PackageId::Base, false),
        vec![PackageId::Bash, PackageId::Busybox, PackageId::TinyCc]
    );
    assert_eq!(
        make_order(PackageId::Base, true),
        vec![PackageId::Bash, PackageId::Busybox, PackageId::TinyCc]
    );
    assert_eq!(
        make_order(PackageId::Gui, true),
        vec![PackageId::XorgServer, PackageId::XorgXinit, PackageId::XorgTwm, PackageId::XorgXeyes]
    );
    assert_eq!(make_order(PackageId::Xorg, false), make_order(PackageId::Gui, false));
}

#[test]
fn make_order_of_libx11() {
    assert_eq!(
        make_order(PackageId::LibX11, false),
        vec![
            PackageId::XorgUtilMacros,
            PackageId::XorgProto,
            PackageId::XorgUtilMacros,
            PackageId::XorgProto,
            PackageId::XorgUtilMacros,
            PackageId::XorgProto,
            PackageId::LibXau,
            PackageId::XorgUtilMacros,
            PackageId::XorgProto,
            PackageId::LibXdmcp,
            PackageId::XcbProto,
            PackageId::LibXcb,
            PackageId::XorgUtilMacros,
            PackageId::Xtrans,
            PackageId::LibX11,
        ]
    );
}

#[test]
fn dependencies_are_made_first_everywhere() {
    for id in ALL {
        let order = make_order(id, false);
        for (i, x) in order.iter().enumerate() {
            assert!(!x.is_meta());
            for d in x.dependencies() {
                assert!(order[..i].contains(&d), "{:?} before {:?} in {:?}", d, x, id);
            }
        }
        if !id.is_meta() {
            assert_eq!(order.last(), Some(&id));
        }
    }
}

#[test]
fn actions() {
    assert_eq!(action_steps(Action::Install), vec![ActionStep::Make, ActionStep::Deploy]);
    assert_eq!(action_steps(Action::Clean), vec![ActionStep::Clean]);
    assert_eq!(
        action_steps(Action::RebuildOnly),
        vec![ActionStep::Clean, ActionStep::Make, ActionStep::Deploy]
    );
    assert_eq!(Bash.run(Action::Clean), vec![ActionStep::Clean]);
    assert_eq!(Action::from_str("install"), Some(Action::Install));
    assert_eq!(Action::from_str("clean"), Some(Action::Clean));
    assert_eq!(Action::from_str("rebuild-only"), Some(Action::RebuildOnly));
    assert_eq!(Action::from_str("deploy"), None);
}

#[test]
fn bash_installs_its_binary() {
    let c = ctx();
    assert_eq!(Bash.binary_name(), "bash");
    match Bash.install_binary(&c) {
        seele_packages::plan::Step::InstallFile { source, target } => {
            assert_eq!(source, "/home/u/proj/packages/work/bash/src/build/bash");
            assert_eq!(target, "/home/u/proj/packages/work/sysroot-stage/programs/bash");
        },
        other => panic!("unexpected step {:?}", other),
    }
}

#[test]
fn package_paths() {
    let c = ctx();
    let p = Vim.calc_paths(&c);
    assert_eq!(p.root, "/home/u/proj/packages/work/vim");
    assert_eq!(p.src, "/home/u/proj/packages/work/vim/src");
    assert_eq!(p.stamp, "/home/u/proj/packages/work/vim/.stamp");
    assert_eq!(p.patch, "/home/u/proj/packages/vim/vim.patch");
    assert_eq!(p.build, "/home/u/proj/packages/work/vim/src/build");
    assert_eq!(p.pkg_specific, "/home/u/proj/packages/vim/pkg-specific");
    assert!(p.patch.starts_with("/home/u/proj/packages/vim/") && p.pkg_specific.starts_with("/home/u/proj/packages/vim/"));
    assert_eq!(
        p.ensure(),
        vec![p.root.clone(), p.src.clone(), p.stamp.clone(), p.build.clone()]
    );
}

#[test]
fn meta_panic_message() {
    assert_eq!(meta_panic(), "Meta packages doesnt support this.");
}

#[test]
fn dependencies_sit_on_lower_levels() {
    for id in ALL {
        for d in id.dependencies().into_iter().chain(id.members()) {
            assert!(d.rank() < id.rank(), "{:?} needs {:?}", id, d);
        }
        assert_eq!(id.is_meta(), !id.members().is_empty());
    }
}

#[test]
fn fetch_traits() {
    let c = ctx();
    assert_eq!(Bash.tarball_url(), vec!["https://ftp.gnu.org/gnu/bash/bash-5.3.tar.gz".to_string()]);
    assert_eq!(Bash.tarball_name(), "bash-5.3.tar.gz");
    assert_eq!(Bash.fetch_tarball(&c), Bash.fetch(&c));
    assert_eq!(Vim.git_url(), "https://github.com/vim/vim.git");
    assert_eq!(Vim.git_commit(), "0172ff5");
    assert_eq!(XorgServer.git_commit(), "312a25c65c8a918fea2cc77abd0db07ec0fc421c");
    assert_eq!(TinyCc.fetch_clone(&c), TinyCc.fetch(&c));
}
