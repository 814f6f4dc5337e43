//! The changes that SeeleOS makes to openbox and pango: their sources
//! report each stage of their start on standard error, openbox runs
//! without an input method, and its installed scripts use the system's
//! shell.
use vstd::prelude::*;
use crate::error::Error;
use crate::misc::sysroot_dir;
use crate::path::{join, join_path, parent_path};
use crate::plan::{push_step, steps_view, Step, StepView};
use crate::edit_facts::{
    lemma_openbox_anchor_apart_from_locale_line, lemma_openbox_marker_apart_from_locale_line,
    lemma_locale_line_apart_from_its_replacement, lemma_openbox_marker_apart_from_later_edits,
    lemma_locale_line_apart_from_reports, lemma_keyboard_setup_apart_from_its_replacement,
    lemma_session_start_apart_from_its_replacement, lemma_xdg_autostart_apart_from_its_replacement,
    lemma_script_patterns_apart_from_replacements,
    lemma_renderer_anchor_apart_from_first_edit, lemma_renderer_anchor_apart_from_second_edit,
    lemma_renderer_marker_apart_from_fourth_edit, lemma_renderer_marker_apart_from_fifth_edit,
    lemma_renderer_marker_apart_from_sixth_edit, lemma_renderer_marker_apart_from_seventh_edit,
    lemma_xft_anchor_apart_from_first_edit, lemma_xft_anchor_apart_from_second_edit,
    lemma_xft_anchor_apart_from_third_edit, lemma_xft_anchor_apart_from_fourth_edit,
    lemma_xft_anchor_apart_from_fifth_edit, lemma_xft_anchor_apart_from_sixth_edit,
    lemma_fc_anchor_apart_from_first_edit, lemma_fc_anchor_apart_from_second_edit,
    lemma_fc_anchor_apart_from_third_edit, lemma_fc_anchor_apart_from_fourth_edit,
    lemma_fc_anchor_apart_from_fifth_edit, lemma_fc_marker_apart_from_seventh_edit,
    lemma_fc_marker_apart_from_eighth_edit, lemma_fc_marker_apart_from_ninth_edit,
    lemma_fc_marker_apart_from_tenth_edit, lemma_fc_marker_apart_from_eleventh_edit,
};
use crate::text::{
    can_overlap, chars_of, contains, ends_with_chars, lemma_edits_applied_once,
    lemma_edits_create_none, lemma_edits_insert, lemma_replace_absent, lemma_replace_keeps,
    lemma_replace_removes, occurs_at, replace, replace_all, replace_all_seq, replace_seq,
    seq_contains, seq_ends_with, string_of,
};
use crate::types::{Context, PackagePaths, paths_of};

verus! {

/// The edits that make an openbox script run under `/programs/bash`.
pub open spec fn openbox_script_edits_of() -> Seq<(Seq<char>, Seq<char>)> {
    seq![
        ("#!/bin/sh"@, "#!/programs/bash"@),
        ("\n    sh "@, "\n    /programs/bash "@),
        ("\n    sh\t"@, "\n    /programs/bash\t"@),
        ("\n    sh$"@, "\n    /programs/bash$"@),
    ]
}

/// The edits that make an openbox script run under `/programs/bash`.
pub fn openbox_script_edits() -> (r: Vec<(String, String)>)
    ensures
        r.deep_view() == openbox_script_edits_of(),
{
    let mut r: Vec<(String, String)> = Vec::new();
    r.push(("#!/bin/sh".to_string(), "#!/programs/bash".to_string()));
    r.push(("\n    sh ".to_string(), "\n    /programs/bash ".to_string()));
    r.push(("\n    sh\t".to_string(), "\n    /programs/bash\t".to_string()));
    r.push(("\n    sh$".to_string(), "\n    /programs/bash$".to_string()));
    assert(r.deep_view() =~= openbox_script_edits_of());
    r
}

/// The edits that make openbox report each stage of its start on standard error.
pub open spec fn openbox_debug_edits_of() -> Seq<(Seq<char>, Seq<char>)> {
    seq![
        ("static void run_startup_cmd(void);\n"@, "static void run_startup_cmd(void);\nstatic void seele_debug_stage(const char *stage)\n{\nwrite(2, stage, strlen(stage));\nwrite(2, \"\\n\", 1);\n}\n"@),
        ("    if (!remote_control)\n        session_startup(argc, argv);\n\n    if (!obt_display_open(NULL))\n"@, "    if (!remote_control)\n        session_startup(argc, argv);\n\n    seele_debug_stage(\"OB: before obt_display_open\");\n    if (!obt_display_open(NULL))\n"@),
        ("    ob_main_loop = g_main_loop_new(NULL, FALSE);\n"@, "    seele_debug_stage(\"OB: display open ok\");\n    ob_main_loop = g_main_loop_new(NULL, FALSE);\n"@),
        ("    ob_rr_inst = RrInstanceNew(obt_display, ob_screen);\n"@, "    seele_debug_stage(\"OB: before RrInstanceNew\");\n    ob_rr_inst = RrInstanceNew(obt_display, ob_screen);\n"@),
        ("    if (screen_annex()) { /* it will be ours! */\n"@, "    seele_debug_stage(\"OB: before screen_annex\");\n    if (screen_annex()) { /* it will be ours! */\n"@),
        ("        do {\n"@, "        seele_debug_stage(\"OB: screen_annex ok\");\n        do {\n"@),
        ("                /* register all the available actions */\n                actions_startup(reconfigure);\n"@, "                seele_debug_stage(\"OB: actions_startup\");\n                /* register all the available actions */\n                actions_startup(reconfigure);\n"@),
        ("            {\n                RrTheme *theme;\n"@, "            seele_debug_stage(\"OB: config loaded\");\n            {\n                RrTheme *theme;\n"@),
        ("            event_startup(reconfigure);\n"@, "            seele_debug_stage(\"OB: theme loaded\");\n            seele_debug_stage(\"OB: event_startup\");\n            event_startup(reconfigure);\n"@),
        ("            sn_startup(reconfigure);\n"@, "            seele_debug_stage(\"OB: sn_startup\");\n            sn_startup(reconfigure);\n"@),
        ("            window_startup(reconfigure);\n"@, "            seele_debug_stage(\"OB: window_startup\");\n            window_startup(reconfigure);\n"@),
        ("            focus_startup(reconfigure);\n"@, "            seele_debug_stage(\"OB: focus_startup\");\n            focus_startup(reconfigure);\n"@),
        ("            screen_startup(reconfigure);\n"@, "            seele_debug_stage(\"OB: screen_startup\");\n            screen_startup(reconfigure);\n"@),
        ("            grab_startup(reconfigure);\n"@, "            seele_debug_stage(\"OB: grab_startup\");\n            grab_startup(reconfigure);\n"@),
        ("            client_startup(reconfigure);\n"@, "            seele_debug_stage(\"OB: client_startup\");\n            client_startup(reconfigure);\n"@),
        ("            dock_startup(reconfigure);\n"@, "            seele_debug_stage(\"OB: dock_startup\");\n            dock_startup(reconfigure);\n"@),
        ("            keyboard_startup(reconfigure);\n"@, "            seele_debug_stage(\"OB: keyboard_startup\");\n            keyboard_startup(reconfigure);\n"@),
        ("            mouse_startup(reconfigure);\n"@, "            seele_debug_stage(\"OB: mouse_startup\");\n            mouse_startup(reconfigure);\n"@),
        ("            menu_startup(reconfigure);\n"@, "            seele_debug_stage(\"OB: menu_startup\");\n            menu_startup(reconfigure);\n"@),
        ("            prompt_startup(reconfigure);\n"@, "            seele_debug_stage(\"OB: prompt_startup\");\n            prompt_startup(reconfigure);\n"@),
        ("                xqueue_listen();\n"@, "                seele_debug_stage(\"OB: xqueue_listen\");\n                xqueue_listen();\n"@),
        ("                window_manage_all();\n"@, "                seele_debug_stage(\"OB: window_manage_all\");\n                window_manage_all();\n"@),
        ("            ob_set_state(OB_STATE_RUNNING);\n"@, "            seele_debug_stage(\"OB: entering running state\");\n            ob_set_state(OB_STATE_RUNNING);\n"@),
        ("            g_main_loop_run(ob_main_loop);\n"@, "            seele_debug_stage(\"OB: entering main loop\");\n            g_main_loop_run(ob_main_loop);\n"@),
    ]
}

/// The edits that make openbox report each stage of its start on standard error.
pub fn openbox_debug_edits() -> (r: Vec<(String, String)>)
    ensures
        r.deep_view() == openbox_debug_edits_of(),
{
    let mut r: Vec<(String, String)> = Vec::new();
    r.push(("static void run_startup_cmd(void);\n".to_string(), "static void run_startup_cmd(void);\nstatic void seele_debug_stage(const char *stage)\n{\nwrite(2, stage, strlen(stage));\nwrite(2, \"\\n\", 1);\n}\n".to_string()));
    r.push(("    if (!remote_control)\n        session_startup(argc, argv);\n\n    if (!obt_display_open(NULL))\n".to_string(), "    if (!remote_control)\n        session_startup(argc, argv);\n\n    seele_debug_stage(\"OB: before obt_display_open\");\n    if (!obt_display_open(NULL))\n".to_string()));
    r.push(("    ob_main_loop = g_main_loop_new(NULL, FALSE);\n".to_string(), "    seele_debug_stage(\"OB: display open ok\");\n    ob_main_loop = g_main_loop_new(NULL, FALSE);\n".to_string()));
    r.push(("    ob_rr_inst = RrInstanceNew(obt_display, ob_screen);\n".to_string(), "    seele_debug_stage(\"OB: before RrInstanceNew\");\n    ob_rr_inst = RrInstanceNew(obt_display, ob_screen);\n".to_string()));
    r.push(("    if (screen_annex()) { /* it will be ours! */\n".to_string(), "    seele_debug_stage(\"OB: before screen_annex\");\n    if (screen_annex()) { /* it will be ours! */\n".to_string()));
    r.push(("        do {\n".to_string(), "        seele_debug_stage(\"OB: screen_annex ok\");\n        do {\n".to_string()));
    r.push(("                /* register all the available actions */\n                actions_startup(reconfigure);\n".to_string(), "                seele_debug_stage(\"OB: actions_startup\");\n                /* register all the available actions */\n                actions_startup(reconfigure);\n".to_string()));
    r.push(("            {\n                RrTheme *theme;\n".to_string(), "            seele_debug_stage(\"OB: config loaded\");\n            {\n                RrTheme *theme;\n".to_string()));
    r.push(("            event_startup(reconfigure);\n".to_string(), "            seele_debug_stage(\"OB: theme loaded\");\n            seele_debug_stage(\"OB: event_startup\");\n            event_startup(reconfigure);\n".to_string()));
    r.push(("            sn_startup(reconfigure);\n".to_string(), "            seele_debug_stage(\"OB: sn_startup\");\n            sn_startup(reconfigure);\n".to_string()));
    r.push(("            window_startup(reconfigure);\n".to_string(), "            seele_debug_stage(\"OB: window_startup\");\n            window_startup(reconfigure);\n".to_string()));
    r.push(("            focus_startup(reconfigure);\n".to_string(), "            seele_debug_stage(\"OB: focus_startup\");\n            focus_startup(reconfigure);\n".to_string()));
    r.push(("            screen_startup(reconfigure);\n".to_string(), "            seele_debug_stage(\"OB: screen_startup\");\n            screen_startup(reconfigure);\n".to_string()));
    r.push(("            grab_startup(reconfigure);\n".to_string(), "            seele_debug_stage(\"OB: grab_startup\");\n            grab_startup(reconfigure);\n".to_string()));
    r.push(("            client_startup(reconfigure);\n".to_string(), "            seele_debug_stage(\"OB: client_startup\");\n            client_startup(reconfigure);\n".to_string()));
    r.push(("            dock_startup(reconfigure);\n".to_string(), "            seele_debug_stage(\"OB: dock_startup\");\n            dock_startup(reconfigure);\n".to_string()));
    r.push(("            keyboard_startup(reconfigure);\n".to_string(), "            seele_debug_stage(\"OB: keyboard_startup\");\n            keyboard_startup(reconfigure);\n".to_string()));
    r.push(("            mouse_startup(reconfigure);\n".to_string(), "            seele_debug_stage(\"OB: mouse_startup\");\n            mouse_startup(reconfigure);\n".to_string()));
    r.push(("            menu_startup(reconfigure);\n".to_string(), "            seele_debug_stage(\"OB: menu_startup\");\n            menu_startup(reconfigure);\n".to_string()));
    r.push(("            prompt_startup(reconfigure);\n".to_string(), "            seele_debug_stage(\"OB: prompt_startup\");\n            prompt_startup(reconfigure);\n".to_string()));
    r.push(("                xqueue_listen();\n".to_string(), "                seele_debug_stage(\"OB: xqueue_listen\");\n                xqueue_listen();\n".to_string()));
    r.push(("                window_manage_all();\n".to_string(), "                seele_debug_stage(\"OB: window_manage_all\");\n                window_manage_all();\n".to_string()));
    r.push(("            ob_set_state(OB_STATE_RUNNING);\n".to_string(), "            seele_debug_stage(\"OB: entering running state\");\n            ob_set_state(OB_STATE_RUNNING);\n".to_string()));
    r.push(("            g_main_loop_run(ob_main_loop);\n".to_string(), "            seele_debug_stage(\"OB: entering main loop\");\n            g_main_loop_run(ob_main_loop);\n".to_string()));
    assert(r.deep_view() =~= openbox_debug_edits_of());
    r
}

/// The edits that make openbox's renderer report each stage of its set-up.
pub open spec fn instance_debug_edits_of() -> Seq<(Seq<char>, Seq<char>)> {
    seq![
        ("#include \"instance.h\"\n"@, "#include \"instance.h\"\n#include <string.h>\n#include <unistd.h>\n\nstatic void rr_debug_stage(const char *stage)\n{\n    write(2, stage, strlen(stage));\n    write(2, \"\\n\", 1);\n}\n"@),
        ("    definst->depth = DefaultDepth(display, screen);\n"@, "    rr_debug_stage(\"RR: instance start\");\n    definst->depth = DefaultDepth(display, screen);\n"@),
        ("    definst->colormap = DefaultColormap(display, screen);\n"@, "    definst->colormap = DefaultColormap(display, screen);\n    rr_debug_stage(\"RR: before pango_xft_get_context\");\n"@),
        ("    definst->pango = pango_xft_get_context(display, screen);\n"@, "    definst->pango = pango_xft_get_context(display, screen);\n    rr_debug_stage(\"RR: after pango_xft_get_context\");\n"@),
        ("    definst->color_hash = g_hash_table_new_full(g_int_hash, g_int_equal,\n                                                NULL, dest);\n"@, "    rr_debug_stage(\"RR: before color_hash\");\n    definst->color_hash = g_hash_table_new_full(g_int_hash, g_int_equal,\n                                                NULL, dest);\n    rr_debug_stage(\"RR: after color_hash\");\n"@),
        ("    switch (definst->visual->class) {\n"@, "    rr_debug_stage(\"RR: before visual setup\");\n    switch (definst->visual->class) {\n"@),
        ("    return definst;\n"@, "    rr_debug_stage(\"RR: instance ready\");\n    return definst;\n"@),
    ]
}

/// The edits that make openbox's renderer report each stage of its set-up.
pub fn instance_debug_edits() -> (r: Vec<(String, String)>)
    ensures
        r.deep_view() == instance_debug_edits_of(),
{
    let mut r: Vec<(String, String)> = Vec::new();
    r.push(("#include \"instance.h\"\n".to_string(), "#include \"instance.h\"\n#include <string.h>\n#include <unistd.h>\n\nstatic void rr_debug_stage(const char *stage)\n{\n    write(2, stage, strlen(stage));\n    write(2, \"\\n\", 1);\n}\n".to_string()));
    r.push(("    definst->depth = DefaultDepth(display, screen);\n".to_string(), "    rr_debug_stage(\"RR: instance start\");\n    definst->depth = DefaultDepth(display, screen);\n".to_string()));
    r.push(("    definst->colormap = DefaultColormap(display, screen);\n".to_string(), "    definst->colormap = DefaultColormap(display, screen);\n    rr_debug_stage(\"RR: before pango_xft_get_context\");\n".to_string()));
    r.push(("    definst->pango = pango_xft_get_context(display, screen);\n".to_string(), "    definst->pango = pango_xft_get_context(display, screen);\n    rr_debug_stage(\"RR: after pango_xft_get_context\");\n".to_string()));
    r.push(("    definst->color_hash = g_hash_table_new_full(g_int_hash, g_int_equal,\n                                                NULL, dest);\n".to_string(), "    rr_debug_stage(\"RR: before color_hash\");\n    definst->color_hash = g_hash_table_new_full(g_int_hash, g_int_equal,\n                                                NULL, dest);\n    rr_debug_stage(\"RR: after color_hash\");\n".to_string()));
    r.push(("    switch (definst->visual->class) {\n".to_string(), "    rr_debug_stage(\"RR: before visual setup\");\n    switch (definst->visual->class) {\n".to_string()));
    r.push(("    return definst;\n".to_string(), "    rr_debug_stage(\"RR: instance ready\");\n    return definst;\n".to_string()));
    assert(r.deep_view() =~= instance_debug_edits_of());
    r
}

/// The edits that make pango's Xft font map report each stage of its creation.
pub open spec fn pango_xft_debug_edits_of() -> Seq<(Seq<char>, Seq<char>)> {
    seq![
        ("#include <string.h>\n"@, "#include <string.h>\n#include <unistd.h>\n\nstatic void pango_xft_debug_stage(const char *stage)\n{\n  write(2, stage, strlen(stage));\n  write(2, \"\\n\", 1);\n}\n"@),
        ("  fontmap = pango_xft_find_font_map (display, screen);\n"@, "  pango_xft_debug_stage(\"PANGOXFT: get_font_map enter\");\n  fontmap = pango_xft_find_font_map (display, screen);\n"@),
        ("  if (fontmap)\n    return fontmap;\n"@, "  if (fontmap)\n    {\n      pango_xft_debug_stage(\"PANGOXFT: get_font_map cache hit\");\n      return fontmap;\n    }\n"@),
        ("  xftfontmap = (PangoXftFontMap *)g_object_new (PANGO_TYPE_XFT_FONT_MAP, NULL);\n"@, "  pango_xft_debug_stage(\"PANGOXFT: before g_object_new font map\");\n  xftfontmap = (PangoXftFontMap *)g_object_new (PANGO_TYPE_XFT_FONT_MAP, NULL);\n  pango_xft_debug_stage(\"PANGOXFT: after g_object_new font map\");\n"@),
        ("  register_display (display);\n"@, "  pango_xft_debug_stage(\"PANGOXFT: before register_display\");\n  register_display (display);\n  pango_xft_debug_stage(\"PANGOXFT: after register_display\");\n"@),
        ("  return PANGO_FONT_MAP (xftfontmap);\n"@, "  pango_xft_debug_stage(\"PANGOXFT: get_font_map return\");\n  return PANGO_FONT_MAP (xftfontmap);\n"@),
        ("  return pango_font_map_create_context (pango_xft_get_font_map (display, screen));\n"@, "  PangoFontMap *font_map;\n\n  pango_xft_debug_stage(\"PANGOXFT: get_context enter\");\n  font_map = pango_xft_get_font_map (display, screen);\n  pango_xft_debug_stage(\"PANGOXFT: before create_context\");\n  {\n    PangoContext *context = pango_font_map_create_context (font_map);\n    pango_xft_debug_stage(\"PANGOXFT: after create_context\");\n    return context;\n  }\n"@),
    ]
}

/// The edits that make pango's Xft font map report each stage of its creation.
pub fn pango_xft_debug_edits() -> (r: Vec<(String, String)>)
    ensures
        r.deep_view() == pango_xft_debug_edits_of(),
{
    let mut r: Vec<(String, String)> = Vec::new();
    r.push(("#include <string.h>\n".to_string(), "#include <string.h>\n#include <unistd.h>\n\nstatic void pango_xft_debug_stage(const char *stage)\n{\n  write(2, stage, strlen(stage));\n  write(2, \"\\n\", 1);\n}\n".to_string()));
    r.push(("  fontmap = pango_xft_find_font_map (display, screen);\n".to_string(), "  pango_xft_debug_stage(\"PANGOXFT: get_font_map enter\");\n  fontmap = pango_xft_find_font_map (display, screen);\n".to_string()));
    r.push(("  if (fontmap)\n    return fontmap;\n".to_string(), "  if (fontmap)\n    {\n      pango_xft_debug_stage(\"PANGOXFT: get_font_map cache hit\");\n      return fontmap;\n    }\n".to_string()));
    r.push(("  xftfontmap = (PangoXftFontMap *)g_object_new (PANGO_TYPE_XFT_FONT_MAP, NULL);\n".to_string(), "  pango_xft_debug_stage(\"PANGOXFT: before g_object_new font map\");\n  xftfontmap = (PangoXftFontMap *)g_object_new (PANGO_TYPE_XFT_FONT_MAP, NULL);\n  pango_xft_debug_stage(\"PANGOXFT: after g_object_new font map\");\n".to_string()));
    r.push(("  register_display (display);\n".to_string(), "  pango_xft_debug_stage(\"PANGOXFT: before register_display\");\n  register_display (display);\n  pango_xft_debug_stage(\"PANGOXFT: after register_display\");\n".to_string()));
    r.push(("  return PANGO_FONT_MAP (xftfontmap);\n".to_string(), "  pango_xft_debug_stage(\"PANGOXFT: get_font_map return\");\n  return PANGO_FONT_MAP (xftfontmap);\n".to_string()));
    r.push(("  return pango_font_map_create_context (pango_xft_get_font_map (display, screen));\n".to_string(), "  PangoFontMap *font_map;\n\n  pango_xft_debug_stage(\"PANGOXFT: get_context enter\");\n  font_map = pango_xft_get_font_map (display, screen);\n  pango_xft_debug_stage(\"PANGOXFT: before create_context\");\n  {\n    PangoContext *context = pango_font_map_create_context (font_map);\n    pango_xft_debug_stage(\"PANGOXFT: after create_context\");\n    return context;\n  }\n".to_string()));
    assert(r.deep_view() =~= pango_xft_debug_edits_of());
    r
}

/// The edits that make pango's fontconfig font map report each stage of its set-up.
pub open spec fn pango_fc_debug_edits_of() -> Seq<(Seq<char>, Seq<char>)> {
    seq![
        ("#include <hb-ft.h>\n"@, "#include <hb-ft.h>\n#include <string.h>\n#include <unistd.h>\n\nstatic void pango_fc_debug_stage(const char *stage)\n{\n  write(2, stage, strlen(stage));\n  write(2, \"\\n\", 1);\n}\n"@),
        ("static void\nstart_fontconfig_thread (PangoFcFontMap *fcfontmap)\n{\n"@, "static void\nstart_fontconfig_thread (PangoFcFontMap *fcfontmap)\n{\n  pango_fc_debug_stage(\"PANGOFC: start_fontconfig_thread enter\");\n"@),
        ("  thread = g_thread_new (\"[pango] fontconfig\", fc_thread_func, g_async_queue_ref (fcfontmap->priv->queue));\n"@, "  pango_fc_debug_stage(\"PANGOFC: before g_thread_new\");\n  thread = g_thread_new (\"[pango] fontconfig\", fc_thread_func, g_async_queue_ref (fcfontmap->priv->queue));\n  pango_fc_debug_stage(\"PANGOFC: after g_thread_new\");\n"@),
        ("      g_async_queue_push (fcfontmap->priv->queue, thread_data_new (FC_INIT, NULL));\n"@, "      pango_fc_debug_stage(\"PANGOFC: before FC_INIT push\");\n      g_async_queue_push (fcfontmap->priv->queue, thread_data_new (FC_INIT, NULL));\n      pango_fc_debug_stage(\"PANGOFC: after FC_INIT push\");\n"@),
        ("  g_mutex_unlock (&fc_init_mutex);\n}\n"@, "  g_mutex_unlock (&fc_init_mutex);\n  pango_fc_debug_stage(\"PANGOFC: start_fontconfig_thread return\");\n}\n"@),
        ("static void\npango_fc_font_map_init (PangoFcFontMap *fcfontmap)\n{\n"@, "static void\npango_fc_font_map_init (PangoFcFontMap *fcfontmap)\n{\n  pango_fc_debug_stage(\"PANGOFC: init enter\");\n"@),
        ("  priv = fcfontmap->priv = pango_fc_font_map_get_instance_private (fcfontmap);\n"@, "  pango_fc_debug_stage(\"PANGOFC: before get_instance_private\");\n  priv = fcfontmap->priv = pango_fc_font_map_get_instance_private (fcfontmap);\n  pango_fc_debug_stage(\"PANGOFC: after get_instance_private\");\n"@),
        ("  priv->font_hash = g_hash_table_new ((GHashFunc)pango_fc_font_key_hash,\n"@, "  pango_fc_debug_stage(\"PANGOFC: before font_hash\");\n  priv->font_hash = g_hash_table_new ((GHashFunc)pango_fc_font_key_hash,\n"@),
        ("  priv->queue = g_async_queue_new ();\n\n  start_fontconfig_thread (fcfontmap);\n"@, "  pango_fc_debug_stage(\"PANGOFC: before async_queue_new\");\n  priv->queue = g_async_queue_new ();\n  pango_fc_debug_stage(\"PANGOFC: before start_fontconfig_thread\");\n\n  start_fontconfig_thread (fcfontmap);\n  pango_fc_debug_stage(\"PANGOFC: init return\");\n"@),
        ("static void\npango_fc_font_map_class_init (PangoFcFontMapClass *class)\n{\n"@, "static void\npango_fc_font_map_class_init (PangoFcFontMapClass *class)\n{\n  pango_fc_debug_stage(\"PANGOFC: class_init enter\");\n"@),
        ("  pclass->add_font_file = pango_fc_font_map_add_font_file;\n}\n"@, "  pclass->add_font_file = pango_fc_font_map_add_font_file;\n  pango_fc_debug_stage(\"PANGOFC: class_init return\");\n}\n"@),
    ]
}

/// The edits that make pango's fontconfig font map report each stage of its set-up.
pub fn pango_fc_debug_edits() -> (r: Vec<(String, String)>)
    ensures
        r.deep_view() == pango_fc_debug_edits_of(),
{
    let mut r: Vec<(String, String)> = Vec::new();
    r.push(("#include <hb-ft.h>\n".to_string(), "#include <hb-ft.h>\n#include <string.h>\n#include <unistd.h>\n\nstatic void pango_fc_debug_stage(const char *stage)\n{\n  write(2, stage, strlen(stage));\n  write(2, \"\\n\", 1);\n}\n".to_string()));
    r.push(("static void\nstart_fontconfig_thread (PangoFcFontMap *fcfontmap)\n{\n".to_string(), "static void\nstart_fontconfig_thread (PangoFcFontMap *fcfontmap)\n{\n  pango_fc_debug_stage(\"PANGOFC: start_fontconfig_thread enter\");\n".to_string()));
    r.push(("  thread = g_thread_new (\"[pango] fontconfig\", fc_thread_func, g_async_queue_ref (fcfontmap->priv->queue));\n".to_string(), "  pango_fc_debug_stage(\"PANGOFC: before g_thread_new\");\n  thread = g_thread_new (\"[pango] fontconfig\", fc_thread_func, g_async_queue_ref (fcfontmap->priv->queue));\n  pango_fc_debug_stage(\"PANGOFC: after g_thread_new\");\n".to_string()));
    r.push(("      g_async_queue_push (fcfontmap->priv->queue, thread_data_new (FC_INIT, NULL));\n".to_string(), "      pango_fc_debug_stage(\"PANGOFC: before FC_INIT push\");\n      g_async_queue_push (fcfontmap->priv->queue, thread_data_new (FC_INIT, NULL));\n      pango_fc_debug_stage(\"PANGOFC: after FC_INIT push\");\n".to_string()));
    r.push(("  g_mutex_unlock (&fc_init_mutex);\n}\n".to_string(), "  g_mutex_unlock (&fc_init_mutex);\n  pango_fc_debug_stage(\"PANGOFC: start_fontconfig_thread return\");\n}\n".to_string()));
    r.push(("static void\npango_fc_font_map_init (PangoFcFontMap *fcfontmap)\n{\n".to_string(), "static void\npango_fc_font_map_init (PangoFcFontMap *fcfontmap)\n{\n  pango_fc_debug_stage(\"PANGOFC: init enter\");\n".to_string()));
    r.push(("  priv = fcfontmap->priv = pango_fc_font_map_get_instance_private (fcfontmap);\n".to_string(), "  pango_fc_debug_stage(\"PANGOFC: before get_instance_private\");\n  priv = fcfontmap->priv = pango_fc_font_map_get_instance_private (fcfontmap);\n  pango_fc_debug_stage(\"PANGOFC: after get_instance_private\");\n".to_string()));
    r.push(("  priv->font_hash = g_hash_table_new ((GHashFunc)pango_fc_font_key_hash,\n".to_string(), "  pango_fc_debug_stage(\"PANGOFC: before font_hash\");\n  priv->font_hash = g_hash_table_new ((GHashFunc)pango_fc_font_key_hash,\n".to_string()));
    r.push(("  priv->queue = g_async_queue_new ();\n\n  start_fontconfig_thread (fcfontmap);\n".to_string(), "  pango_fc_debug_stage(\"PANGOFC: before async_queue_new\");\n  priv->queue = g_async_queue_new ();\n  pango_fc_debug_stage(\"PANGOFC: before start_fontconfig_thread\");\n\n  start_fontconfig_thread (fcfontmap);\n  pango_fc_debug_stage(\"PANGOFC: init return\");\n".to_string()));
    r.push(("static void\npango_fc_font_map_class_init (PangoFcFontMapClass *class)\n{\n".to_string(), "static void\npango_fc_font_map_class_init (PangoFcFontMapClass *class)\n{\n  pango_fc_debug_stage(\"PANGOFC: class_init enter\");\n".to_string()));
    r.push(("  pclass->add_font_file = pango_fc_font_map_add_font_file;\n}\n".to_string(), "  pclass->add_font_file = pango_fc_font_map_add_font_file;\n  pango_fc_debug_stage(\"PANGOFC: class_init return\");\n}\n".to_string()));
    assert(r.deep_view() =~= pango_fc_debug_edits_of());
    r
}

/// The input method set-up of openbox's keyboard code.
pub const KEYBOARD_XIM_SETUP: &'static str = "    GSList *it;\n    gchar *aname, *aclass;\n\n    aname = g_strdup(g_get_prgname());\n    if (!aname) aname = g_strdup(\"obt\");\n\n    aclass = g_strdup(aname);\n    if (g_ascii_islower(aclass[0]))\n        aclass[0] = g_ascii_toupper(aclass[0]);\n\n    xim = XOpenIM(obt_display, NULL, aname, aclass);\n\n    if (!xim)\n        g_message(\"Failed to open an Input Method\");\n    else {\n        XIMStyles *xim_styles = NULL;\n        char *r;\n\n        /* get the input method styles */\n        r = XGetIMValues(xim, XNQueryInputStyle, &xim_styles, NULL);\n        if (r || !xim_styles)\n            g_message(\"Input Method does not support any styles\");\n        if (xim_styles) {\n            int i;\n\n            /* find a style that doesnt need preedit or status */\n            for (i = 0; i < xim_styles->count_styles; ++i) {\n                if (xim_styles->supported_styles[i] == \n                    (XIMPreeditNothing | XIMStatusNothing))\n                {\n                    xim_style = xim_styles->supported_styles[i];\n                    break;\n                }\n            }\n            XFree(xim_styles);\n        }\n\n        if (!xim_style) {\n            g_message(\"Input Method does not support a usable style\");\n\n            XCloseIM(xim);\n            xim = NULL;\n        }\n    }\n\n    /* any existing contexts need to be recreated for the new input method */\n    for (it = xic_all; it; it = g_slist_next(it))\n        obt_keyboard_context_renew(it->data);\n\n    g_free(aclass);\n    g_free(aname);\n";

/// What stands in its place: no input method.
pub const KEYBOARD_WITHOUT_XIM: &'static str = "    GSList *it;\n\n    /* SeeleOS does not provide a working XIM stack yet. */\n    xim = NULL;\n    xim_style = 0;\n\n    /* any existing contexts need to be recreated for the new input method */\n    for (it = xic_all; it; it = g_slist_next(it))\n        obt_keyboard_context_renew(it->data);\n";

/// openbox's default locale modifiers.
pub const LOCALE_MODIFIERS: &'static str = "    if (!XSetLocaleModifiers(\"\"))\n";

/// The locale modifiers without an input method.
pub const LOCALE_MODIFIERS_NO_IM: &'static str = "    if (!XSetLocaleModifiers(\"@im=none\"))\n";

/// The start command of `openbox-session`.
pub const SESSION_START: &'static str = "exec /programs/openbox --startup \"//libexec/openbox-autostart OPENBOX\" \"$@\"";

/// The start command without the session manager, and with the autostart path fixed.
pub const SESSION_START_FIXED: &'static str = "exec /programs/openbox --sm-disable --startup \"/libexec/openbox-autostart OPENBOX\" \"$@\"";

/// The call of the XDG autostart script.
pub const XDG_AUTOSTART: &'static str = "//libexec/openbox-xdg-autostart \"$@\"";

/// The call only where Python and the script exist.
pub const XDG_AUTOSTART_GUARDED: &'static str = "if test -x /programs/python && test -f /libexec/openbox-xdg-autostart; then\n    /programs/python /libexec/openbox-xdg-autostart \"$@\"\nfi";

/// The lines that switch the input method off in openbox's environment.
pub const ENVIRONMENT_BLOCK: &'static str = "\n# SeeleOS does not provide an input method daemon yet.\n: \"${XMODIFIERS:=@im=none}\"\nexport XMODIFIERS\n";

/// The lines that start a visible client with the session.
pub const AUTOSTART_BLOCK: &'static str = "\n# SeeleOS debug helpers: make it obvious that the session is alive.\nif which st >/dev/null 2>/dev/null; then\nst &\nelif which xeyes >/dev/null 2>/dev/null; then\nxeyes -geometry 150x100+0+0 &\nelif which xclock >/dev/null 2>/dev/null; then\nxclock &\nfi\n";

/// A change to the text of one file.
#[derive(Clone, Copy, Debug, PartialEq, Eq, Structural)]
pub enum TextEdit {
    /// openbox's keyboard code without an input method.
    ObtKeyboard,
    /// openbox's main file: no input method, and a report of each stage.
    OpenboxMain,
    /// openbox's renderer with a report of each stage.
    ObrenderInstance,
    /// pango's Xft font map with a report of each stage.
    PangoXftFontmap,
    /// pango's fontconfig font map with a report of each stage.
    PangoFcFontmap,
    /// An openbox script run by `/programs/bash`.
    OpenboxScript,
    /// `openbox-session` without the session manager.
    OpenboxSession,
    /// `openbox-autostart` that runs the XDG autostart only where it can.
    OpenboxAutostart,
    /// openbox's environment without an input method.
    OpenboxEnvironment,
    /// openbox's autostart with a visible client.
    OpenboxGlobalAutostart,
}

/// `block` added to `content` on a line of its own, unless `marker` is in
/// `content` already.
pub open spec fn with_block(content: Seq<char>, marker: Seq<char>, block: Seq<char>) -> Seq<char> {
    if seq_contains(content, marker) {
        content
    } else if seq_ends_with(content, "\n"@) {
        content + block
    } else {
        content + "\n"@ + block
    }
}

/// openbox's main file without an input method, with a report of each
/// stage unless it has them already.
pub open spec fn openbox_main_patched(content: Seq<char>) -> Seq<char> {
    let c = replace_seq(content, LOCALE_MODIFIERS@, LOCALE_MODIFIERS_NO_IM@);
    if seq_contains(c, "seele_debug_stage("@) {
        c
    } else {
        replace_all_seq(c, openbox_debug_edits_of())
    }
}

/// `edits` applied to `content` unless `marker` shows they were before.
pub open spec fn edited_once(
    content: Seq<char>,
    marker: Seq<char>,
    edits: Seq<(Seq<char>, Seq<char>)>,
) -> Seq<char> {
    if seq_contains(content, marker) {
        content
    } else {
        replace_all_seq(content, edits)
    }
}

/// The text of a file after an edit.
pub open spec fn edited(edit: TextEdit, content: Seq<char>) -> Seq<char> {
    match edit {
        TextEdit::ObtKeyboard => replace_seq(content, KEYBOARD_XIM_SETUP@, KEYBOARD_WITHOUT_XIM@),
        TextEdit::OpenboxMain => openbox_main_patched(content),
        TextEdit::ObrenderInstance => edited_once(
            content,
            "RR: before pango_xft_get_context"@,
            instance_debug_edits_of(),
        ),
        TextEdit::PangoXftFontmap => edited_once(
            content,
            "PANGOXFT: get_context enter"@,
            pango_xft_debug_edits_of(),
        ),
        TextEdit::PangoFcFontmap => edited_once(
            content,
            "PANGOFC: init enter"@,
            pango_fc_debug_edits_of(),
        ),
        TextEdit::OpenboxScript => replace_all_seq(content, openbox_script_edits_of()),
        TextEdit::OpenboxSession => replace_seq(content, SESSION_START@, SESSION_START_FIXED@),
        TextEdit::OpenboxAutostart => replace_seq(content, XDG_AUTOSTART@, XDG_AUTOSTART_GUARDED@),
        TextEdit::OpenboxEnvironment => with_block(content, "XMODIFIERS"@, ENVIRONMENT_BLOCK@),
        TextEdit::OpenboxGlobalAutostart => with_block(
            content,
            "SeeleOS debug helpers"@,
            AUTOSTART_BLOCK@,
        ),
    }
}

/// Every occurrence of `from` replaced by `to`, for a pattern that is
/// known only at run time to be non-empty.
fn replace_each(s: &str, from: &str, to: &str) -> (r: String)
    ensures
        r@ == replace_seq(s@, from@, to@),
{
    if chars_of(from).len() > 0 {
        replace(s, from, to)
    } else {
        s.to_string()
    }
}

/// `block` added to `content` on a line of its own, unless `marker` is in
/// `content` already.
pub fn add_block(content: &str, marker: &str, block: &str) -> (r: String)
    ensures
        r@ == with_block(content@, marker@, block@),
{
    if contains(content, marker) {
        return content.to_string();
    }
    let cv = chars_of(content);
    let nl = chars_of("\n");
    let mut r = content.to_string();
    if !ends_with_chars(&cv, &nl) {
        r.append("\n");
    }
    r.append(block);
    r
}

/// `edits` applied to `content` unless `marker` shows they were before.
fn edit_once(content: &str, marker: &str, edits: Vec<(String, String)>) -> (r: String)
    ensures
        r@ == edited_once(content@, marker@, edits.deep_view()),
{
    if contains(content, marker) {
        content.to_string()
    } else {
        replace_all(content, &edits)
    }
}

/// The text of a file after an edit.
pub fn apply_edit(edit: TextEdit, content: &str) -> (r: String)
    ensures
        r@ == edited(edit, content@),
{
    match edit {
        TextEdit::ObtKeyboard => replace_each(content, KEYBOARD_XIM_SETUP, KEYBOARD_WITHOUT_XIM),
        TextEdit::OpenboxMain => {
            let c = replace_each(content, LOCALE_MODIFIERS, LOCALE_MODIFIERS_NO_IM);
            if contains(c.as_str(), "seele_debug_stage(") {
                c
            } else {
                replace_all(c.as_str(), &openbox_debug_edits())
            }
        },
        TextEdit::ObrenderInstance => edit_once(
            content,
            "RR: before pango_xft_get_context",
            instance_debug_edits(),
        ),
        TextEdit::PangoXftFontmap => edit_once(
            content,
            "PANGOXFT: get_context enter",
            pango_xft_debug_edits(),
        ),
        TextEdit::PangoFcFontmap => edit_once(
            content,
            "PANGOFC: init enter",
            pango_fc_debug_edits(),
        ),
        TextEdit::OpenboxScript => replace_all(content, &openbox_script_edits()),
        TextEdit::OpenboxSession => replace_each(content, SESSION_START, SESSION_START_FIXED),
        TextEdit::OpenboxAutostart => replace_each(content, XDG_AUTOSTART, XDG_AUTOSTART_GUARDED),
        TextEdit::OpenboxEnvironment => add_block(content, "XMODIFIERS", ENVIRONMENT_BLOCK),
        TextEdit::OpenboxGlobalAutostart => add_block(
            content,
            "SeeleOS debug helpers",
            AUTOSTART_BLOCK,
        ),
    }
}

proof fn lemma_contains_after(a: Seq<char>, b: Seq<char>, m: Seq<char>)
    requires
        seq_contains(b, m),
    ensures
        seq_contains(a + b, m),
{
    let i = choose|i: int| occurs_at(b, i, m);
    assert((a + b).subrange(a.len() + i, a.len() + i + m.len()) =~= b.subrange(i, i + m.len()));
    assert(occurs_at(a + b, a.len() + i, m));
}

/// Adding a block that holds its own marker a second time changes nothing.
pub proof fn law_block_added_once(content: Seq<char>, marker: Seq<char>, block: Seq<char>)
    requires
        seq_contains(block, marker),
    ensures
        with_block(with_block(content, marker, block), marker, block) == with_block(
            content,
            marker,
            block,
        ),
{
    if !seq_contains(content, marker) {
        if seq_ends_with(content, "\n"@) {
            lemma_contains_after(content, block, marker);
        } else {
            lemma_contains_after(content + "\n"@, block, marker);
            assert(content + "\n"@ + block == (content + "\n"@) + block);
        }
    }
}

/// Editing openbox's environment or its autostart file a second time
/// changes nothing: each block is added once.
pub proof fn law_session_files_edited_once(edit: TextEdit, content: Seq<char>)
    requires
        edit is OpenboxEnvironment || edit is OpenboxGlobalAutostart,
    ensures
        edited(edit, edited(edit, content)) == edited(edit, content),
{
    reveal_strlit("\n# SeeleOS does not provide an input method daemon yet.\n: \"${XMODIFIERS:=@im=none}\"\nexport XMODIFIERS\n");
    reveal_strlit("XMODIFIERS");
    reveal_strlit("\n# SeeleOS debug helpers: make it obvious that the session is alive.\nif which st >/dev/null 2>/dev/null; then\nst &\nelif which xeyes >/dev/null 2>/dev/null; then\nxeyes -geometry 150x100+0+0 &\nelif which xclock >/dev/null 2>/dev/null; then\nxclock &\nfi\n");
    reveal_strlit("SeeleOS debug helpers");
    if edit is OpenboxEnvironment {
        assert(occurs_at(ENVIRONMENT_BLOCK@, 61, "XMODIFIERS"@));
        law_block_added_once(content, "XMODIFIERS"@, ENVIRONMENT_BLOCK@);
    } else {
        assert(occurs_at(AUTOSTART_BLOCK@, 3, "SeeleOS debug helpers"@));
        law_block_added_once(content, "SeeleOS debug helpers"@, AUTOSTART_BLOCK@);
    }
}

/// The line of a source file next to which a stage-reporting edit puts the
/// marker that shows it was applied.
pub open spec fn marker_anchor(edit: TextEdit) -> Seq<char> {
    match edit {
        TextEdit::ObrenderInstance => instance_debug_edits_of()[2].0,
        TextEdit::PangoXftFontmap => pango_xft_debug_edits_of()[6].0,
        TextEdit::PangoFcFontmap => pango_fc_debug_edits_of()[5].0,
        _ => Seq::empty(),
    }
}

/// Editing openbox's renderer, or one of pango's font maps, a second time
/// changes nothing when the source holds the line next to which the edit
/// puts its marker, or the marker.
pub proof fn law_stage_reports_added_once(edit: TextEdit, content: Seq<char>)
    requires
        edit is ObrenderInstance || edit is PangoXftFontmap || edit is PangoFcFontmap,
        edit_settles(edit, content),
    ensures
        edited(edit, edited(edit, content)) == edited(edit, content),
{
    if edit is ObrenderInstance {
        let edits = instance_debug_edits_of();
        let m = "RR: before pango_xft_get_context"@;
        reveal_strlit("RR: before pango_xft_get_context");
        if !seq_contains(content, m) {
            reveal_strlit("    definst->colormap = DefaultColormap(display, screen);\n    rr_debug_stage(\"RR: before pango_xft_get_context\");\n");
            assert(occurs_at(edits[2].1, 78, m));
            reveal_strlit("#include \"instance.h\"\n");
            reveal_strlit("    definst->depth = DefaultDepth(display, screen);\n");
            reveal_strlit("    definst->colormap = DefaultColormap(display, screen);\n");
            reveal_strlit("    definst->pango = pango_xft_get_context(display, screen);\n");
            reveal_strlit("    definst->color_hash = g_hash_table_new_full(g_int_hash, g_int_equal,\n                                                NULL, dest);\n");
            reveal_strlit("    switch (definst->visual->class) {\n");
            reveal_strlit("    return definst;\n");
            lemma_renderer_anchor_apart_from_first_edit();
            lemma_renderer_anchor_apart_from_second_edit();
            lemma_renderer_marker_apart_from_fourth_edit();
            lemma_renderer_marker_apart_from_fifth_edit();
            lemma_renderer_marker_apart_from_sixth_edit();
            lemma_renderer_marker_apart_from_seventh_edit();
            lemma_edits_insert(content, edits, 2, m);
        }
    } else if edit is PangoXftFontmap {
        let edits = pango_xft_debug_edits_of();
        let m = "PANGOXFT: get_context enter"@;
        reveal_strlit("PANGOXFT: get_context enter");
        if !seq_contains(content, m) {
            reveal_strlit("  PangoFontMap *font_map;\n\n  pango_xft_debug_stage(\"PANGOXFT: get_context enter\");\n  font_map = pango_xft_get_font_map (display, screen);\n  pango_xft_debug_stage(\"PANGOXFT: before create_context\");\n  {\n    PangoContext *context = pango_font_map_create_context (font_map);\n    pango_xft_debug_stage(\"PANGOXFT: after create_context\");\n    return context;\n  }\n");
            assert(occurs_at(edits[6].1, 52, m));
            reveal_strlit("#include <string.h>\n");
            reveal_strlit("  fontmap = pango_xft_find_font_map (display, screen);\n");
            reveal_strlit("  if (fontmap)\n    return fontmap;\n");
            reveal_strlit("  xftfontmap = (PangoXftFontMap *)g_object_new (PANGO_TYPE_XFT_FONT_MAP, NULL);\n");
            reveal_strlit("  register_display (display);\n");
            reveal_strlit("  return PANGO_FONT_MAP (xftfontmap);\n");
            reveal_strlit("  return pango_font_map_create_context (pango_xft_get_font_map (display, screen));\n");
            lemma_xft_anchor_apart_from_first_edit();
            lemma_xft_anchor_apart_from_second_edit();
            lemma_xft_anchor_apart_from_third_edit();
            lemma_xft_anchor_apart_from_fourth_edit();
            lemma_xft_anchor_apart_from_fifth_edit();
            lemma_xft_anchor_apart_from_sixth_edit();
            lemma_edits_insert(content, edits, 6, m);
        }
    } else {
        let edits = pango_fc_debug_edits_of();
        let m = "PANGOFC: init enter"@;
        reveal_strlit("PANGOFC: init enter");
        if !seq_contains(content, m) {
            reveal_strlit("static void\npango_fc_font_map_init (PangoFcFontMap *fcfontmap)\n{\n  pango_fc_debug_stage(\"PANGOFC: init enter\");\n");
            assert(occurs_at(edits[5].1, 89, m));
            reveal_strlit("#include <hb-ft.h>\n");
            reveal_strlit("static void\nstart_fontconfig_thread (PangoFcFontMap *fcfontmap)\n{\n");
            reveal_strlit("  thread = g_thread_new (\"[pango] fontconfig\", fc_thread_func, g_async_queue_ref (fcfontmap->priv->queue));\n");
            reveal_strlit("      g_async_queue_push (fcfontmap->priv->queue, thread_data_new (FC_INIT, NULL));\n");
            reveal_strlit("  g_mutex_unlock (&fc_init_mutex);\n}\n");
            reveal_strlit("static void\npango_fc_font_map_init (PangoFcFontMap *fcfontmap)\n{\n");
            reveal_strlit("  priv = fcfontmap->priv = pango_fc_font_map_get_instance_private (fcfontmap);\n");
            reveal_strlit("  priv->font_hash = g_hash_table_new ((GHashFunc)pango_fc_font_key_hash,\n");
            reveal_strlit("  priv->queue = g_async_queue_new ();\n\n  start_fontconfig_thread (fcfontmap);\n");
            reveal_strlit("static void\npango_fc_font_map_class_init (PangoFcFontMapClass *class)\n{\n");
            reveal_strlit("  pclass->add_font_file = pango_fc_font_map_add_font_file;\n}\n");
            lemma_fc_anchor_apart_from_first_edit();
            lemma_fc_anchor_apart_from_second_edit();
            lemma_fc_anchor_apart_from_third_edit();
            lemma_fc_anchor_apart_from_fourth_edit();
            lemma_fc_anchor_apart_from_fifth_edit();
            lemma_fc_marker_apart_from_seventh_edit();
            lemma_fc_marker_apart_from_eighth_edit();
            lemma_fc_marker_apart_from_ninth_edit();
            lemma_fc_marker_apart_from_tenth_edit();
            lemma_fc_marker_apart_from_eleventh_edit();
            lemma_edits_insert(content, edits, 5, m);
        }
    }
}

/// Editing openbox's main file a second time changes nothing when it
/// holds the declaration of its start-up command, after which the stage
/// reports begin, or reports its stages already.
pub proof fn law_openbox_main_edited_once(content: Seq<char>)
    requires
        seq_contains(content, openbox_debug_edits_of()[0].0) || seq_contains(content, "seele_debug_stage("@),
    ensures
        edited(TextEdit::OpenboxMain, edited(TextEdit::OpenboxMain, content)) == edited(
            TextEdit::OpenboxMain,
            content,
        ),
{
    reveal_strlit("    if (!XSetLocaleModifiers(\"\"))\n");
    reveal_strlit("    if (!XSetLocaleModifiers(\"@im=none\"))\n");
    reveal_strlit("seele_debug_stage(");
    reveal_strlit("static void run_startup_cmd(void);\n");
    let edits = openbox_debug_edits_of();
    let m = "seele_debug_stage("@;
    let from = LOCALE_MODIFIERS@;
    let to = LOCALE_MODIFIERS_NO_IM@;
    lemma_openbox_anchor_apart_from_locale_line();
    lemma_openbox_marker_apart_from_locale_line();
    lemma_locale_line_apart_from_its_replacement();
    lemma_openbox_marker_apart_from_later_edits();
    lemma_locale_line_apart_from_reports();
    let c = replace_seq(content, from, to);
    lemma_replace_removes(content, from, to);
    if !seq_contains(c, m) {
        if seq_contains(content, m) {
            lemma_replace_keeps(content, from, to, m);
        }
        lemma_replace_keeps(content, from, to, edits[0].0);
        reveal_strlit("static void run_startup_cmd(void);\nstatic void seele_debug_stage(const char *stage)\n{\nwrite(2, stage, strlen(stage));\nwrite(2, \"\\n\", 1);\n}\n");
        assert(occurs_at(edits[0].1, 47, m));
        lemma_edits_insert(c, edits, 0, m);
        lemma_edits_create_none(c, edits, from);
    }
    lemma_replace_absent(openbox_main_patched(content), from, to);
}

/// Changing openbox's keyboard code, its scripts, the start of its session
/// or its autostart a second time changes nothing.
pub proof fn law_replacements_applied_once(edit: TextEdit, content: Seq<char>)
    requires
        edit is ObtKeyboard || edit is OpenboxScript || edit is OpenboxSession || edit is OpenboxAutostart,
    ensures
        edited(edit, edited(edit, content)) == edited(edit, content),
{
    match edit {
        TextEdit::ObtKeyboard => {
            reveal_strlit("    GSList *it;\n    gchar *aname, *aclass;\n\n    aname = g_strdup(g_get_prgname());\n    if (!aname) aname = g_strdup(\"obt\");\n\n    aclass = g_strdup(aname);\n    if (g_ascii_islower(aclass[0]))\n        aclass[0] = g_ascii_toupper(aclass[0]);\n\n    xim = XOpenIM(obt_display, NULL, aname, aclass);\n\n    if (!xim)\n        g_message(\"Failed to open an Input Method\");\n    else {\n        XIMStyles *xim_styles = NULL;\n        char *r;\n\n        /* get the input method styles */\n        r = XGetIMValues(xim, XNQueryInputStyle, &xim_styles, NULL);\n        if (r || !xim_styles)\n            g_message(\"Input Method does not support any styles\");\n        if (xim_styles) {\n            int i;\n\n            /* find a style that doesnt need preedit or status */\n            for (i = 0; i < xim_styles->count_styles; ++i) {\n                if (xim_styles->supported_styles[i] == \n                    (XIMPreeditNothing | XIMStatusNothing))\n                {\n                    xim_style = xim_styles->supported_styles[i];\n                    break;\n                }\n            }\n            XFree(xim_styles);\n        }\n\n        if (!xim_style) {\n            g_message(\"Input Method does not support a usable style\");\n\n            XCloseIM(xim);\n            xim = NULL;\n        }\n    }\n\n    /* any existing contexts need to be recreated for the new input method */\n    for (it = xic_all; it; it = g_slist_next(it))\n        obt_keyboard_context_renew(it->data);\n\n    g_free(aclass);\n    g_free(aname);\n");
            reveal_strlit("    GSList *it;\n\n    /* SeeleOS does not provide a working XIM stack yet. */\n    xim = NULL;\n    xim_style = 0;\n\n    /* any existing contexts need to be recreated for the new input method */\n    for (it = xic_all; it; it = g_slist_next(it))\n        obt_keyboard_context_renew(it->data);\n");
            lemma_keyboard_setup_apart_from_its_replacement();
            lemma_replace_removes(content, KEYBOARD_XIM_SETUP@, KEYBOARD_WITHOUT_XIM@);
            lemma_replace_absent(replace_seq(content, KEYBOARD_XIM_SETUP@, KEYBOARD_WITHOUT_XIM@), KEYBOARD_XIM_SETUP@, KEYBOARD_WITHOUT_XIM@);
        },
        TextEdit::OpenboxSession => {
            reveal_strlit("exec /programs/openbox --startup \"//libexec/openbox-autostart OPENBOX\" \"$@\"");
            reveal_strlit("exec /programs/openbox --sm-disable --startup \"/libexec/openbox-autostart OPENBOX\" \"$@\"");
            lemma_session_start_apart_from_its_replacement();
            lemma_replace_removes(content, SESSION_START@, SESSION_START_FIXED@);
            lemma_replace_absent(replace_seq(content, SESSION_START@, SESSION_START_FIXED@), SESSION_START@, SESSION_START_FIXED@);
        },
        TextEdit::OpenboxAutostart => {
            reveal_strlit("//libexec/openbox-xdg-autostart \"$@\"");
            reveal_strlit("if test -x /programs/python && test -f /libexec/openbox-xdg-autostart; then\n    /programs/python /libexec/openbox-xdg-autostart \"$@\"\nfi");
            lemma_xdg_autostart_apart_from_its_replacement();
            lemma_replace_removes(content, XDG_AUTOSTART@, XDG_AUTOSTART_GUARDED@);
            lemma_replace_absent(replace_seq(content, XDG_AUTOSTART@, XDG_AUTOSTART_GUARDED@), XDG_AUTOSTART@, XDG_AUTOSTART_GUARDED@);
        },
        TextEdit::OpenboxScript => {
            lemma_script_patterns_apart_from_replacements();
            lemma_edits_applied_once(content, openbox_script_edits_of());
        },
        _ => {},
    }
}

/// Whether editing `content` a second time is bound to change nothing:
/// always, but for the edits that add stage reports, which need the text
/// to hold the line next to which they put their marker, or the marker.
pub open spec fn edit_settles(edit: TextEdit, content: Seq<char>) -> bool {
    match edit {
        TextEdit::OpenboxMain => seq_contains(content, openbox_debug_edits_of()[0].0) || seq_contains(
            content,
            "seele_debug_stage("@,
        ),
        TextEdit::ObrenderInstance => seq_contains(content, marker_anchor(edit)) || seq_contains(
            content,
            "RR: before pango_xft_get_context"@,
        ),
        TextEdit::PangoXftFontmap => seq_contains(content, marker_anchor(edit)) || seq_contains(
            content,
            "PANGOXFT: get_context enter"@,
        ),
        TextEdit::PangoFcFontmap => seq_contains(content, marker_anchor(edit)) || seq_contains(
            content,
            "PANGOFC: init enter"@,
        ),
        _ => true,
    }
}

/// Each of the changes SeeleOS makes to a text, made a second time,
/// changes nothing, wherever it settles.
pub proof fn law_edits_applied_once(edit: TextEdit, content: Seq<char>)
    requires
        edit_settles(edit, content),
    ensures
        edited(edit, edited(edit, content)) == edited(edit, content),
{
    match edit {
        TextEdit::OpenboxMain => law_openbox_main_edited_once(content),
        TextEdit::ObrenderInstance | TextEdit::PangoXftFontmap | TextEdit::PangoFcFontmap => {
            law_stage_reports_added_once(edit, content)
        },
        TextEdit::OpenboxEnvironment | TextEdit::OpenboxGlobalAutostart => {
            law_session_files_edited_once(edit, content)
        },
        _ => law_replacements_applied_once(edit, content),
    }
}

/// Whether the text an edit gave shows that the edit was made: for the
/// edits that add stage reports, their marker is in it; the other edits
/// need no mark.
pub open spec fn edit_left_mark(edit: TextEdit, result: Seq<char>) -> bool {
    match edit {
        TextEdit::OpenboxMain => seq_contains(result, "seele_debug_stage("@),
        TextEdit::ObrenderInstance => seq_contains(result, "RR: before pango_xft_get_context"@),
        TextEdit::PangoXftFontmap => seq_contains(result, "PANGOXFT: get_context enter"@),
        TextEdit::PangoFcFontmap => seq_contains(result, "PANGOFC: init enter"@),
        _ => true,
    }
}

/// Each of the changes SeeleOS makes to a text, made a second time,
/// changes nothing when the text it gave the first time shows its mark.
pub proof fn law_edit_applied_once_when_marked(edit: TextEdit, content: Seq<char>)
    requires
        edit_left_mark(edit, edited(edit, content)),
    ensures
        edited(edit, edited(edit, content)) == edited(edit, content),
{
    match edit {
        TextEdit::OpenboxMain => {
            reveal_strlit("    if (!XSetLocaleModifiers(\"\"))\n");
            reveal_strlit("    if (!XSetLocaleModifiers(\"@im=none\"))\n");
            let from = LOCALE_MODIFIERS@;
            let to = LOCALE_MODIFIERS_NO_IM@;
            let m = "seele_debug_stage("@;
            lemma_locale_line_apart_from_its_replacement();
            lemma_locale_line_apart_from_reports();
            let c = replace_seq(content, from, to);
            lemma_replace_removes(content, from, to);
            if !seq_contains(c, m) {
                let edits = openbox_debug_edits_of();
                assert forall|j: int| 0 <= j < edits.len() implies edits[j].0.len() > 0 && edits[j].1.len()
                    > 0 && !can_overlap(from, edits[j].1) by {
                    assert(!can_overlap(from, openbox_debug_edits_of()[j].1));
                }
                lemma_edits_create_none(c, edits, from);
            }
            lemma_replace_absent(openbox_main_patched(content), from, to);
        },
        TextEdit::ObrenderInstance | TextEdit::PangoXftFontmap | TextEdit::PangoFcFontmap => {},
        _ => law_edits_applied_once(edit, content),
    }
}

/// Patching openbox's sources a second time changes none of the three
/// files it edits, when the first time left the marks of the main file's
/// and the renderer's stage reports: `patch_openbox_source` edits exactly
/// these files with these edits.
pub proof fn law_openbox_sources_patched_once(
    ctx: Context,
    keyboard: Seq<char>,
    main: Seq<char>,
    instance: Seq<char>,
)
    requires
        edit_left_mark(TextEdit::OpenboxMain, edited(TextEdit::OpenboxMain, main)),
        edit_left_mark(TextEdit::ObrenderInstance, edited(TextEdit::ObrenderInstance, instance)),
    ensures
        openbox_source_plan(ctx).drop_first() == seq![
            StepView::EditFile(join_path(paths_of(ctx, "openbox"@).src, "obt/keyboard.c"@), TextEdit::ObtKeyboard),
            StepView::EditFile(join_path(paths_of(ctx, "openbox"@).src, "openbox/openbox.c"@), TextEdit::OpenboxMain),
            StepView::EditFile(
                join_path(paths_of(ctx, "openbox"@).src, "obrender/instance.c"@),
                TextEdit::ObrenderInstance,
            ),
        ],
        edited(TextEdit::ObtKeyboard, edited(TextEdit::ObtKeyboard, keyboard)) == edited(
            TextEdit::ObtKeyboard,
            keyboard,
        ),
        edited(TextEdit::OpenboxMain, edited(TextEdit::OpenboxMain, main)) == edited(TextEdit::OpenboxMain, main),
        edited(TextEdit::ObrenderInstance, edited(TextEdit::ObrenderInstance, instance)) == edited(
            TextEdit::ObrenderInstance,
            instance,
        ),
{
    assert(openbox_source_plan(ctx).drop_first() =~= seq![
        StepView::EditFile(join_path(paths_of(ctx, "openbox"@).src, "obt/keyboard.c"@), TextEdit::ObtKeyboard),
        StepView::EditFile(join_path(paths_of(ctx, "openbox"@).src, "openbox/openbox.c"@), TextEdit::OpenboxMain),
        StepView::EditFile(
            join_path(paths_of(ctx, "openbox"@).src, "obrender/instance.c"@),
            TextEdit::ObrenderInstance,
        ),
    ]);
    law_edit_applied_once_when_marked(TextEdit::ObtKeyboard, keyboard);
    law_edit_applied_once_when_marked(TextEdit::OpenboxMain, main);
    law_edit_applied_once_when_marked(TextEdit::ObrenderInstance, instance);
}

/// Patching pango's sources a second time changes neither of the two files
/// it edits, when the first time left the marks of their stage reports.
pub proof fn law_pango_sources_patched_once(ctx: Context, xft: Seq<char>, fc: Seq<char>)
    requires
        edit_left_mark(TextEdit::PangoXftFontmap, edited(TextEdit::PangoXftFontmap, xft)),
        edit_left_mark(TextEdit::PangoFcFontmap, edited(TextEdit::PangoFcFontmap, fc)),
    ensures
        pango_source_plan(ctx).drop_first() == seq![
            StepView::EditFile(
                join_path(paths_of(ctx, "pango"@).src, "pango/pangoxft-fontmap.c"@),
                TextEdit::PangoXftFontmap,
            ),
            StepView::EditFile(
                join_path(paths_of(ctx, "pango"@).src, "pango/pangofc-fontmap.c"@),
                TextEdit::PangoFcFontmap,
            ),
        ],
        edited(TextEdit::PangoXftFontmap, edited(TextEdit::PangoXftFontmap, xft)) == edited(
            TextEdit::PangoXftFontmap,
            xft,
        ),
        edited(TextEdit::PangoFcFontmap, edited(TextEdit::PangoFcFontmap, fc)) == edited(
            TextEdit::PangoFcFontmap,
            fc,
        ),
{
    assert(pango_source_plan(ctx).drop_first() =~= seq![
        StepView::EditFile(
            join_path(paths_of(ctx, "pango"@).src, "pango/pangoxft-fontmap.c"@),
            TextEdit::PangoXftFontmap,
        ),
        StepView::EditFile(
            join_path(paths_of(ctx, "pango"@).src, "pango/pangofc-fontmap.c"@),
            TextEdit::PangoFcFontmap,
        ),
    ]);
    law_edit_applied_once_when_marked(TextEdit::PangoXftFontmap, xft);
    law_edit_applied_once_when_marked(TextEdit::PangoFcFontmap, fc);
}

/// The steps that patch openbox's sources: its
/// patch file, when there is one, then the edits of its keyboard code, its
/// main file and its renderer.
pub open spec fn openbox_source_plan(ctx: Context) -> Seq<StepView> {
    let paths = paths_of(ctx, "openbox"@);
    seq![
        StepView::ApplyPatchIfExists(paths.src, paths.patch),
        StepView::EditFile(join_path(paths.src, "obt/keyboard.c"@), TextEdit::ObtKeyboard),
        StepView::EditFile(join_path(paths.src, "openbox/openbox.c"@), TextEdit::OpenboxMain),
        StepView::EditFile(join_path(paths.src, "obrender/instance.c"@), TextEdit::ObrenderInstance),
    ]
}

/// The steps that patch openbox's sources.
pub fn patch_openbox_source(ctx: &Context) -> (r: Vec<Step>)
    ensures
        steps_view(r@) == openbox_source_plan(*ctx),
{
    let paths = PackagePaths::calc(ctx, "openbox");
    let mut r: Vec<Step> = Vec::new();
    push_step(&mut r, Step::ApplyPatchIfExists { src_dir: paths.src.clone(), patch: paths.patch.clone() });
    push_step(
        &mut r,
        Step::EditFile { path: join(paths.src.as_str(), "obt/keyboard.c"), edit: TextEdit::ObtKeyboard },
    );
    push_step(
        &mut r,
        Step::EditFile { path: join(paths.src.as_str(), "openbox/openbox.c"), edit: TextEdit::OpenboxMain },
    );
    push_step(
        &mut r,
        Step::EditFile {
            path: join(paths.src.as_str(), "obrender/instance.c"),
            edit: TextEdit::ObrenderInstance,
        },
    );
    assert(steps_view(r@) =~= openbox_source_plan(*ctx));
    r
}

/// The steps that patch pango's sources: its patch
/// file, when there is one, then the edits of its two font maps.
pub open spec fn pango_source_plan(ctx: Context) -> Seq<StepView> {
    let paths = paths_of(ctx, "pango"@);
    seq![
        StepView::ApplyPatchIfExists(paths.src, paths.patch),
        StepView::EditFile(join_path(paths.src, "pango/pangoxft-fontmap.c"@), TextEdit::PangoXftFontmap),
        StepView::EditFile(join_path(paths.src, "pango/pangofc-fontmap.c"@), TextEdit::PangoFcFontmap),
    ]
}

/// The steps that patch pango's sources.
pub fn patch_pango_source(ctx: &Context) -> (r: Vec<Step>)
    ensures
        steps_view(r@) == pango_source_plan(*ctx),
{
    let paths = PackagePaths::calc(ctx, "pango");
    let mut r: Vec<Step> = Vec::new();
    push_step(&mut r, Step::ApplyPatchIfExists { src_dir: paths.src.clone(), patch: paths.patch.clone() });
    push_step(
        &mut r,
        Step::EditFile {
            path: join(paths.src.as_str(), "pango/pangoxft-fontmap.c"),
            edit: TextEdit::PangoXftFontmap,
        },
    );
    push_step(
        &mut r,
        Step::EditFile {
            path: join(paths.src.as_str(), "pango/pangofc-fontmap.c"),
            edit: TextEdit::PangoFcFontmap,
        },
    );
    assert(steps_view(r@) =~= pango_source_plan(*ctx));
    r
}

/// `s` without its leading `/`s (`str::trim_start_matches('/')`).
pub open spec fn trim_leading_slashes(s: Seq<char>) -> Seq<char>
    decreases s.len(),
{
    if s.len() > 0 && s[0] == '/' {
        trim_leading_slashes(s.drop_first())
    } else {
        s
    }
}

proof fn lemma_trim_leading_slashes(s: Seq<char>, k: int)
    requires
        0 <= k <= s.len(),
        forall|j: int| 0 <= j < k ==> s[j] == '/',
        k == s.len() || s[k] != '/',
    ensures
        trim_leading_slashes(s) == s.subrange(k, s.len() as int),
    decreases k,
{
    if k == 0 {
        assert(s.subrange(0, s.len() as int) =~= s);
    } else {
        lemma_trim_leading_slashes(s.drop_first(), k - 1);
        assert(s.drop_first().subrange(k - 1, s.len() - 1) =~= s.subrange(k, s.len() as int));
    }
}

/// `s` without its leading `/`s.
pub fn trim_slashes(s: &str) -> (r: String)
    ensures
        r@ == trim_leading_slashes(s@),
{
    let v = chars_of(s);
    let mut k: usize = 0;
    while k < v.len() && v[k] == '/'
        invariant
            k <= v@.len(),
            forall|j: int| 0 <= j < k ==> v@[j] == '/',
        decreases v@.len() - k,
    {
        k = k + 1;
    }
    proof {
        lemma_trim_leading_slashes(v@, k as int);
    }
    let mut rest: Vec<char> = Vec::new();
    let mut i: usize = k;
    while i < v.len()
        invariant
            k <= i <= v@.len(),
            rest@ == v@.subrange(k as int, i as int),
        decreases v@.len() - i,
    {
        rest.push(v[i]);
        i = i + 1;
        assert(rest@ =~= v@.subrange(k as int, i as int));
    }
    string_of(&rest)
}

/// The step that makes an installed openbox script run under
/// `/programs/bash`, when the script exists.
pub fn rewrite_openbox_script(sysroot: &str, rel: &str) -> (r: Step)
    ensures
        r@ == StepView::EditFileIfExists(
            join_path(sysroot@, trim_leading_slashes(rel@)),
            TextEdit::OpenboxScript,
        ),
{
    let trimmed = trim_slashes(rel);
    Step::EditFileIfExists { path: join(sysroot, trimmed.as_str()), edit: TextEdit::OpenboxScript }
}

/// The step that starts openbox's session without the session manager.
pub fn patch_openbox_session(sysroot: &str) -> (r: Step)
    ensures
        r@ == StepView::EditFileIfExists(join_path(sysroot@, "programs/openbox-session"@), TextEdit::OpenboxSession),
{
    Step::EditFileIfExists { path: join(sysroot, "programs/openbox-session"), edit: TextEdit::OpenboxSession }
}

/// The step that runs the XDG autostart only where python and the script
/// are there.
pub fn patch_openbox_autostart(sysroot: &str) -> (r: Step)
    ensures
        r@ == StepView::EditFileIfExists(join_path(sysroot@, "libexec/openbox-autostart"@), TextEdit::OpenboxAutostart),
{
    Step::EditFileIfExists { path: join(sysroot, "libexec/openbox-autostart"), edit: TextEdit::OpenboxAutostart }
}

/// The step that leaves the session without an input method.
pub fn patch_openbox_environment(sysroot: &str) -> (r: Step)
    ensures
        r@ == StepView::EditFileIfExists(
            join_path(sysroot@, "etc/xdg/openbox/environment"@),
            TextEdit::OpenboxEnvironment,
        ),
{
    Step::EditFileIfExists { path: join(sysroot, "etc/xdg/openbox/environment"), edit: TextEdit::OpenboxEnvironment }
}

/// The step that starts a visible client with the session.
pub fn patch_openbox_global_autostart(sysroot: &str) -> (r: Step)
    ensures
        r@ == StepView::EditFileIfExists(
            join_path(sysroot@, "etc/xdg/openbox/autostart"@),
            TextEdit::OpenboxGlobalAutostart,
        ),
{
    Step::EditFileIfExists {
        path: join(sysroot, "etc/xdg/openbox/autostart"),
        edit: TextEdit::OpenboxGlobalAutostart,
    }
}

/// The installed openbox scripts that run under the system's shell.
pub open spec fn openbox_scripts_of() -> Seq<Seq<char>> {
    seq![
        "/programs/openbox-session"@,
        "/programs/openbox-gnome-session"@,
        "/programs/openbox-kde-session"@,
        "/libexec/openbox-autostart"@,
    ]
}

/// The steps that adapt openbox's installed files to SeeleOS, given the
/// sysroot.
pub open spec fn openbox_hook_steps(sysroot: Seq<char>) -> Seq<StepView> {
    openbox_scripts_of().map_values(
        |rel: Seq<char>|
            StepView::EditFileIfExists(
                join_path(sysroot, trim_leading_slashes(rel)),
                TextEdit::OpenboxScript,
            ),
    ) + seq![
        StepView::EditFileIfExists(join_path(sysroot, "programs/openbox-session"@), TextEdit::OpenboxSession),
        StepView::EditFileIfExists(join_path(sysroot, "libexec/openbox-autostart"@), TextEdit::OpenboxAutostart),
        StepView::EditFileIfExists(
            join_path(sysroot, "etc/xdg/openbox/environment"@),
            TextEdit::OpenboxEnvironment,
        ),
        StepView::EditFileIfExists(
            join_path(sysroot, "etc/xdg/openbox/autostart"@),
            TextEdit::OpenboxGlobalAutostart,
        ),
    ]
}

/// The steps that adapt openbox's installed files to SeeleOS.
pub open spec fn openbox_hook_plan(ctx: Context) -> Result<Seq<StepView>, Error> {
    match parent_path(ctx.install_dir@) {
        Some(sysroot) => Ok(openbox_hook_steps(sysroot)),
        None => Err(Error::InstallDirHasNoParent),
    }
}

/// The steps that adapt openbox's installed files to SeeleOS: its scripts run under the system's shell, the
/// session starts without the session manager, the XDG autostart runs only
/// where it can, and the session has no input method and a visible client.
pub fn openbox_install_hook(ctx: &Context) -> (r: Result<Vec<Step>, Error>)
    ensures
        match r {
            Ok(v) => openbox_hook_plan(*ctx) == Ok::<Seq<StepView>, Error>(steps_view(v@)),
            Err(e) => openbox_hook_plan(*ctx) == Err::<Seq<StepView>, Error>(e),
        },
{
    let sysroot = match sysroot_dir(ctx) {
        Ok(s) => s,
        Err(e) => return Err(e),
    };
    let s = sysroot.as_str();
    let mut r: Vec<Step> = Vec::new();
    push_step(&mut r, rewrite_openbox_script(s, "/programs/openbox-session"));
    push_step(&mut r, rewrite_openbox_script(s, "/programs/openbox-gnome-session"));
    push_step(&mut r, rewrite_openbox_script(s, "/programs/openbox-kde-session"));
    push_step(&mut r, rewrite_openbox_script(s, "/libexec/openbox-autostart"));
    push_step(&mut r, patch_openbox_session(s));
    push_step(&mut r, patch_openbox_autostart(s));
    push_step(&mut r, patch_openbox_environment(s));
    push_step(&mut r, patch_openbox_global_autostart(s));
    assert(steps_view(r@) =~= openbox_hook_steps(sysroot@));
    Ok(r)
}

/// The meta package `openbox-stack`: glib2, libxml2, pango and openbox.
pub struct OpenboxStackPackage;

impl OpenboxStackPackage {
    /// The package's name.
    pub fn name(&self) -> (r: &'static str)
        ensures
            r@ == "openbox-stack"@,
    {
        "openbox-stack"
    }

    /// The names of the packages it groups, in the order they are made.
    pub fn package_names(&self) -> (r: Vec<&'static str>)
        ensures
            r@.map_values(|n: &'static str| n@) == seq!["glib2"@, "libxml2"@, "pango"@, "openbox"@],
    {
        let r = vec!["glib2", "libxml2", "pango", "openbox"];
        assert(r@.map_values(|n: &'static str| n@) =~= seq!["glib2"@, "libxml2"@, "pango"@, "openbox"@]);
        r
    }
}

} // verus!
