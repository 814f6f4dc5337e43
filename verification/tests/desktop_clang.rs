use seele_packages::clang::{
    llvm_prefix, llvm_prefix_dir, llvm_source_dir, llvm_source_root, project_root, target_lib_dir,
    Clang,
};
use seele_packages::command::CommandSpec;
use seele_packages::desktop::{
    add_block, apply_edit, openbox_install_hook, patch_openbox_autostart, patch_openbox_environment,
    patch_openbox_global_autostart, patch_openbox_session, patch_openbox_source, patch_pango_source,
    rewrite_openbox_script, trim_slashes, OpenboxStackPackage, TextEdit, AUTOSTART_BLOCK,
    ENVIRONMENT_BLOCK, KEYBOARD_WITHOUT_XIM, KEYBOARD_XIM_SETUP,
};
use seele_packages::error::Error;
use seele_packages::plan::Step;
use seele_packages::types::Context;

const ROOT: &str = "/home/u/proj/packages";
const STAGE: &str = "/home/u/proj/packages/work/sysroot-stage";

fn ctx() -> Context {
    Context::from_packages_root(ROOT, false, false).unwrap()
}

#[test]
fn openbox_scripts_use_the_system_shell() {
    let script = "#!/bin/sh\nif x; then\n    sh foo\n    sh\tbar\n    sh$x\nfi\n";
    assert_eq!(
        apply_edit(TextEdit::OpenboxScript, script),
        "#!/programs/bash\nif x; then\n    /programs/bash foo\n    /programs/bash\tbar\n    /programs/bash$x\nfi\n"
    );
}

#[test]
fn openbox_session_and_autostart() {
    let session = "#!/bin/sh\nexec /programs/openbox --startup \"//libexec/openbox-autostart OPENBOX\" \"$@\"\n";
    assert_eq!(
        apply_edit(TextEdit::OpenboxSession, session),
        "#!/bin/sh\nexec /programs/openbox --sm-disable --startup \"/libexec/openbox-autostart OPENBOX\" \"$@\"\n"
    );
    let autostart = "a\n//libexec/openbox-xdg-autostart \"$@\"\nb\n";
    assert_eq!(
        apply_edit(TextEdit::OpenboxAutostart, autostart),
        "a\nif test -x /programs/python && test -f /libexec/openbox-xdg-autostart; then\n    /programs/python /libexec/openbox-xdg-autostart \"$@\"\nfi\nb\n"
    );
}

#[test]
fn blocks_are_added_once() {
    let once = apply_edit(TextEdit::OpenboxEnvironment, "FOO=1");
    assert_eq!(once, format!("FOO=1\n{ENVIRONMENT_BLOCK}"));
    assert_eq!(apply_edit(TextEdit::OpenboxEnvironment, &once), once);
    let once = apply_edit(TextEdit::OpenboxGlobalAutostart, "x &\n");
    assert_eq!(once, format!("x &\n{AUTOSTART_BLOCK}"));
    assert_eq!(apply_edit(TextEdit::OpenboxGlobalAutostart, &once), once);
    assert_eq!(add_block("", "M", "M\n"), "\nM\n");
    assert!(ENVIRONMENT_BLOCK.contains("export XMODIFIERS\n"));
    assert!(AUTOSTART_BLOCK.contains("\nst &\n"));
}

#[test]
fn replacements_applied_once() {
    let script = "#!/bin/sh\n    sh a\n    sh\tb\n    sh$c\n";
    let once = apply_edit(TextEdit::OpenboxScript, script);
    assert_eq!(apply_edit(TextEdit::OpenboxScript, &once), once);
    let session = "exec /programs/openbox --startup \"//libexec/openbox-autostart OPENBOX\" \"$@\"\n";
    let once = apply_edit(TextEdit::OpenboxSession, session);
    assert_eq!(apply_edit(TextEdit::OpenboxSession, &once), once);
    let autostart = "//libexec/openbox-xdg-autostart \"$@\"\n";
    let once = apply_edit(TextEdit::OpenboxAutostart, autostart);
    assert_eq!(apply_edit(TextEdit::OpenboxAutostart, &once), once);
    let keyboard = format!("{{\n{KEYBOARD_XIM_SETUP}{KEYBOARD_XIM_SETUP}}}\n");
    let once = apply_edit(TextEdit::ObtKeyboard, &keyboard);
    assert_eq!(once, format!("{{\n{KEYBOARD_WITHOUT_XIM}{KEYBOARD_WITHOUT_XIM}}}\n"));
    assert_eq!(apply_edit(TextEdit::ObtKeyboard, &once), once);
}

#[test]
fn openbox_main_marked_by_a_later_report() {
    let main = "int main(void)\n{\n        do {\n}\n";
    let once = apply_edit(TextEdit::OpenboxMain, main);
    assert!(once.contains("seele_debug_stage("));
    assert!(!once.contains("static void seele_debug_stage"));
    assert_eq!(apply_edit(TextEdit::OpenboxMain, &once), once);
}

#[test]
fn keyboard_without_input_method() {
    let source = format!("static void f(void)\n{{\n{KEYBOARD_XIM_SETUP}}}\n");
    let edited = apply_edit(TextEdit::ObtKeyboard, &source);
    assert_eq!(edited, format!("static void f(void)\n{{\n{KEYBOARD_WITHOUT_XIM}}}\n"));
    assert!(edited.contains("xim = NULL;"));
    assert!(!edited.contains("XOpenIM"));
}

#[test]
fn openbox_main_reports_its_stages_once() {
    let source = "#include <x.h>\nstatic void run_startup_cmd(void);\n\nint main(void)\n{\n    if (!XSetLocaleModifiers(\"\"))\n        g_message(\"x\");\n            event_startup(reconfigure);\n}\n";
    let edited = apply_edit(TextEdit::OpenboxMain, source);
    assert!(edited.contains("    if (!XSetLocaleModifiers(\"@im=none\"))\n"));
    assert!(edited.contains("static void run_startup_cmd(void);\nstatic void seele_debug_stage(const char *stage)\n{\nwrite(2, stage, strlen(stage));\nwrite(2, \"\\n\", 1);\n}\n"));
    assert!(edited.contains("            seele_debug_stage(\"OB: theme loaded\");\n            seele_debug_stage(\"OB: event_startup\");\n            event_startup(reconfigure);\n"));
    assert_eq!(apply_edit(TextEdit::OpenboxMain, &edited), edited);
}

#[test]
fn renderer_and_pango_report_their_stages_once() {
    let instance = "#include \"instance.h\"\n    return definst;\n";
    let edited = apply_edit(TextEdit::ObrenderInstance, instance);
    assert!(edited.starts_with("#include \"instance.h\"\n#include <string.h>\n#include <unistd.h>\n"));
    assert!(edited.ends_with("    rr_debug_stage(\"RR: instance ready\");\n    return definst;\n"));
    let marked = "x RR: before pango_xft_get_context\n    return definst;\n";
    assert_eq!(apply_edit(TextEdit::ObrenderInstance, marked), marked);
    let xft = "#include <string.h>\n  register_display (display);\n";
    let edited = apply_edit(TextEdit::PangoXftFontmap, xft);
    assert!(edited.contains("static void pango_xft_debug_stage(const char *stage)\n"));
    assert!(edited.contains("  pango_xft_debug_stage(\"PANGOXFT: before register_display\");\n  register_display (display);\n"));
    let fc = "#include <hb-ft.h>\n  priv->queue = g_async_queue_new ();\n\n  start_fontconfig_thread (fcfontmap);\n";
    let edited = apply_edit(TextEdit::PangoFcFontmap, fc);
    assert!(edited.contains("  pango_fc_debug_stage(\"PANGOFC: init return\");\n"));
    let marked = "PANGOFC: init enter\n#include <hb-ft.h>\n";
    assert_eq!(apply_edit(TextEdit::PangoFcFontmap, marked), marked);
}

#[test]
fn stage_reports_added_once_where_the_anchor_is() {
    let instance = "#include \"instance.h\"\n    definst->colormap = DefaultColormap(display, screen);\n    return definst;\n";
    let once = apply_edit(TextEdit::ObrenderInstance, instance);
    assert!(once.contains("    rr_debug_stage(\"RR: before pango_xft_get_context\");\n"));
    assert_eq!(apply_edit(TextEdit::ObrenderInstance, &once), once);
    let xft = "#include <string.h>\n  return pango_font_map_create_context (pango_xft_get_font_map (display, screen));\n";
    let once = apply_edit(TextEdit::PangoXftFontmap, xft);
    assert!(once.contains("PANGOXFT: get_context enter"));
    assert_eq!(apply_edit(TextEdit::PangoXftFontmap, &once), once);
    let fc = "static void\npango_fc_font_map_init (PangoFcFontMap *fcfontmap)\n{\n  g_mutex_unlock (&fc_init_mutex);\n}\n";
    let once = apply_edit(TextEdit::PangoFcFontmap, fc);
    assert!(once.contains("PANGOFC: init enter"));
    assert_eq!(apply_edit(TextEdit::PangoFcFontmap, &once), once);
    // Without the anchor no marker is left, and the reports are added again.
    let bare = "#include \"instance.h\"\n    return definst;\n";
    let once = apply_edit(TextEdit::ObrenderInstance, bare);
    assert_ne!(apply_edit(TextEdit::ObrenderInstance, &once), once);
}

#[test]
fn source_patches_of_openbox_and_pango() {
    let c = ctx();
    let src = format!("{ROOT}/work/openbox/src");
    assert_eq!(
        patch_openbox_source(&c),
        vec![
            Step::ApplyPatchIfExists { src_dir: src.clone(), patch: format!("{ROOT}/openbox/openbox.patch") },
            Step::EditFile { path: format!("{src}/obt/keyboard.c"), edit: TextEdit::ObtKeyboard },
            Step::EditFile { path: format!("{src}/openbox/openbox.c"), edit: TextEdit::OpenboxMain },
            Step::EditFile { path: format!("{src}/obrender/instance.c"), edit: TextEdit::ObrenderInstance },
        ]
    );
    let src = format!("{ROOT}/work/pango/src");
    assert_eq!(
        patch_pango_source(&c),
        vec![
            Step::ApplyPatchIfExists { src_dir: src.clone(), patch: format!("{ROOT}/pango/pango.patch") },
            Step::EditFile { path: format!("{src}/pango/pangoxft-fontmap.c"), edit: TextEdit::PangoXftFontmap },
            Step::EditFile { path: format!("{src}/pango/pangofc-fontmap.c"), edit: TextEdit::PangoFcFontmap },
        ]
    );
}

#[test]
fn openbox_install_hook_steps() {
    let c = ctx();
    let steps = openbox_install_hook(&c).unwrap();
    assert_eq!(steps.len(), 8);
    assert_eq!(
        steps[1],
        Step::EditFileIfExists {
            path: format!("{STAGE}/programs/openbox-gnome-session"),
            edit: TextEdit::OpenboxScript,
        }
    );
    assert_eq!(
        steps[3],
        Step::EditFileIfExists { path: format!("{STAGE}/libexec/openbox-autostart"), edit: TextEdit::OpenboxScript }
    );
    assert_eq!(
        steps[6],
        Step::EditFileIfExists {
            path: format!("{STAGE}/etc/xdg/openbox/environment"),
            edit: TextEdit::OpenboxEnvironment,
        }
    );
    let mut root = ctx();
    root.install_dir = "/".to_string();
    assert_eq!(openbox_install_hook(&root), Err(Error::InstallDirHasNoParent));
    assert_eq!(
        rewrite_openbox_script("/sys", "//libexec/x"),
        Step::EditFileIfExists { path: "/sys/libexec/x".to_string(), edit: TextEdit::OpenboxScript }
    );
    assert_eq!(trim_slashes("///a/b"), "a/b");
    assert_eq!(trim_slashes("a/"), "a/");
}

#[test]
fn openbox_file_patches() {
    assert_eq!(
        patch_openbox_session("/s"),
        Step::EditFileIfExists { path: "/s/programs/openbox-session".to_string(), edit: TextEdit::OpenboxSession }
    );
    assert_eq!(
        patch_openbox_autostart("/s"),
        Step::EditFileIfExists { path: "/s/libexec/openbox-autostart".to_string(), edit: TextEdit::OpenboxAutostart }
    );
    assert_eq!(
        patch_openbox_environment("/s"),
        Step::EditFileIfExists {
            path: "/s/etc/xdg/openbox/environment".to_string(),
            edit: TextEdit::OpenboxEnvironment
        }
    );
    assert_eq!(
        patch_openbox_global_autostart("/s"),
        Step::EditFileIfExists {
            path: "/s/etc/xdg/openbox/autostart".to_string(),
            edit: TextEdit::OpenboxGlobalAutostart
        }
    );
}

#[test]
fn openbox_stack() {
    assert_eq!(OpenboxStackPackage.name(), "openbox-stack");
    assert_eq!(OpenboxStackPackage.package_names(), vec!["glib2", "libxml2", "pango", "openbox"]);
}

#[test]
fn llvm_locations() {
    let c = ctx();
    assert_eq!(project_root(&c), Ok("/home/u/proj".to_string()));
    assert_eq!(llvm_source_dir(&c), Ok("/home/u/proj/toolchain/llvm-project".to_string()));
    assert_eq!(llvm_source_root(&c, true), Ok("/home/u/proj/toolchain/llvm-project".to_string()));
    assert_eq!(
        llvm_source_root(&c, false),
        Err(Error::LlvmSourceMissing("/home/u/proj/toolchain/llvm-project".to_string()))
    );
    assert_eq!(llvm_prefix_dir(&c), Ok("/home/u/proj/.llvm".to_string()));
    assert_eq!(llvm_prefix(&c, true), Ok("/home/u/proj/.llvm".to_string()));
    assert_eq!(
        llvm_prefix(&c, false),
        Err(Error::LlvmPrefixMissing("/home/u/proj/.llvm".to_string()))
    );
    assert_eq!(target_lib_dir("/p"), "/p/lib/x86_64-unknown-seele");
    let mut root = ctx();
    root.packages_root = "/".to_string();
    assert_eq!(project_root(&root), Err(Error::PackagesDirHasNoParent));
    assert_eq!(llvm_prefix(&root, true), Err(Error::PackagesDirHasNoParent));
}

#[test]
fn clang_fetch_and_build() {
    let c = ctx();
    let root = format!("{ROOT}/work/clang");
    assert_eq!(Clang.name(), "clang");
    assert_eq!(
        Clang.fetch(&c, "/home/u/proj/toolchain/llvm-project"),
        vec![
            Step::EnsureDir(root.clone()),
            Step::EnsureDir(format!("{root}/src")),
            Step::Run(
                CommandSpec::new("rsync")
                    .arg("-a")
                    .arg("--delete")
                    .arg("--exclude=.git")
                    .arg("--exclude=build")
                    .arg("--exclude=build-*")
                    .arg("/home/u/proj/toolchain/llvm-project/")
                    .arg(&format!("{root}/src/"))
            ),
        ]
    );
    assert_eq!(
        Clang.build(&c, 6),
        CommandSpec::new("cmake").arg("--build").arg(&format!("{root}/src/build")).arg("--parallel").arg("6")
    );
}

#[test]
fn clang_configure() {
    let c = ctx();
    let root = format!("{ROOT}/work/clang");
    let steps = Clang.configure(&c, true, true, "/usr/bin").unwrap();
    let p = "/home/u/proj/.llvm";
    assert_eq!(steps[0], Step::EnsureDir(format!("{root}/src/build")));
    let Step::Run(cmd) = &steps[1] else { panic!("expected the cmake command") };
    assert_eq!(cmd.program(), "cmake");
    assert_eq!(cmd.get_cwd(), &Some(root.clone()));
    let args = cmd.get_args();
    assert_eq!(args[0], "-DCMAKE_INSTALL_PREFIX=/");
    assert_eq!(args[7], "-S");
    assert_eq!(args[8], format!("{root}/src/llvm"));
    assert!(args.contains(&format!("-DCMAKE_SYSROOT={STAGE}")));
    assert!(args.contains(&format!(
        "-DCMAKE_CXX_FLAGS=-fPIC -nostdinc++ -I{p}/include/c++/v1 -I{p}/include/x86_64-unknown-seele/c++/v1 -I{STAGE}/libs/include -I{STAGE}/libs/include/c"
    )));
    assert!(args.contains(&format!(
        "-DCMAKE_EXE_LINKER_FLAGS=-L{STAGE}/libs/lib_binaries -Wl,-rpath-link,{STAGE}/libs/lib_binaries -L{p}/lib/x86_64-unknown-seele -Wl,-rpath-link,{p}/lib/x86_64-unknown-seele"
    )));
    assert!(args.contains(&"-DLLVM_DEFAULT_TARGET_TRIPLE=x86_64-unknown-seele".to_string()));
    assert_eq!(args[args.len() - 2], format!("-DCLANG_TABLEGEN={p}/bin/clang-tblgen"));
    assert_eq!(args[args.len() - 1], format!("-DCMAKE_PREFIX_PATH={p}/lib/x86_64-unknown-seele"));
    let without = Clang.configure(&c, true, false, "/usr/bin").unwrap();
    let Step::Run(cmd2) = &without[1] else { panic!("expected the cmake command") };
    assert_eq!(cmd2.get_args().len(), args.len() - 1);
    assert_eq!(cmd2.get_args().last(), Some(&format!("-DCLANG_TABLEGEN={p}/bin/clang-tblgen")));
    assert_eq!(
        Clang.configure(&c, false, true, "/usr/bin"),
        Err(Error::LlvmPrefixMissing(p.to_string()))
    );
    assert!(Error::LlvmPrefixMissing(p.to_string())
        .message()
        .starts_with("host LLVM toolchain not found at /home/u/proj/.llvm"));
    let mut root = ctx();
    root.install_dir = "/".to_string();
    assert_eq!(Clang.configure(&root, false, true, ""), Err(Error::InstallDirHasNoParent));
}
