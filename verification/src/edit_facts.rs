//! That the lines which the source edits look for, and the markers they
//! leave, cannot overlap the lines that other edits replace, offset range
//! by offset range.
use vstd::prelude::*;
use crate::desktop::{openbox_debug_edits_of, openbox_script_edits_of};
use crate::text::{can_overlap, lemma_apart_on};

verus! {

/// The renderer's colormap line cannot overlap the line of its first edit.
pub proof fn lemma_renderer_anchor_apart_from_first_edit()
    ensures
        !can_overlap("    definst->colormap = DefaultColormap(display, screen);\n"@, "#include \"instance.h\"\n"@),
{
    reveal_strlit("    definst->colormap = DefaultColormap(display, screen);\n");
    reveal_strlit("#include \"instance.h\"\n");
    let x = "    definst->colormap = DefaultColormap(display, screen);\n"@;
    let r = "#include \"instance.h\"\n"@;
    lemma_apart_on(x, r, -57, -37, 57);
    lemma_apart_on(x, r, -36, -15, 36);
    lemma_apart_on(x, r, -14, 7, 14);
    lemma_apart_on(x, r, 8, 20, 1);
    lemma_apart_on(x, r, 21, 21, 0);
}

/// The renderer's colormap line cannot overlap the line of its second edit.
pub proof fn lemma_renderer_anchor_apart_from_second_edit()
    ensures
        !can_overlap("    definst->colormap = DefaultColormap(display, screen);\n"@, "    definst->depth = DefaultDepth(display, screen);\n"@),
{
    reveal_strlit("    definst->colormap = DefaultColormap(display, screen);\n");
    reveal_strlit("    definst->depth = DefaultDepth(display, screen);\n");
    let x = "    definst->colormap = DefaultColormap(display, screen);\n"@;
    let r = "    definst->depth = DefaultDepth(display, screen);\n"@;
    lemma_apart_on(x, r, -57, -7, 57);
    lemma_apart_on(x, r, -6, 37, 14);
    lemma_apart_on(x, r, 38, 47, 4);
    lemma_apart_on(x, r, 48, 51, 0);
}

/// The renderer's marker cannot overlap the line of its fourth edit.
pub proof fn lemma_renderer_marker_apart_from_fourth_edit()
    ensures
        !can_overlap("RR: before pango_xft_get_context"@, "    definst->pango = pango_xft_get_context(display, screen);\n"@),
{
    reveal_strlit("RR: before pango_xft_get_context");
    reveal_strlit("    definst->pango = pango_xft_get_context(display, screen);\n");
    let x = "RR: before pango_xft_get_context"@;
    let r = "    definst->pango = pango_xft_get_context(display, screen);\n"@;
    lemma_apart_on(x, r, -31, -22, 31);
    lemma_apart_on(x, r, -21, 9, 25);
    lemma_apart_on(x, r, 10, 60, 0);
}

/// The renderer's marker cannot overlap the line of its fifth edit.
pub proof fn lemma_renderer_marker_apart_from_fifth_edit()
    ensures
        !can_overlap("RR: before pango_xft_get_context"@, "    definst->color_hash = g_hash_table_new_full(g_int_hash, g_int_equal,\n                                                NULL, dest);\n"@),
{
    reveal_strlit("RR: before pango_xft_get_context");
    reveal_strlit("    definst->color_hash = g_hash_table_new_full(g_int_hash, g_int_equal,\n                                                NULL, dest);\n");
    let x = "RR: before pango_xft_get_context"@;
    let r = "    definst->color_hash = g_hash_table_new_full(g_int_hash, g_int_equal,\n                                                NULL, dest);\n"@;
    lemma_apart_on(x, r, -31, -22, 31);
    lemma_apart_on(x, r, -21, 103, 30);
    lemma_apart_on(x, r, 104, 133, 0);
}

/// The renderer's marker cannot overlap the line of its sixth edit.
pub proof fn lemma_renderer_marker_apart_from_sixth_edit()
    ensures
        !can_overlap("RR: before pango_xft_get_context"@, "    switch (definst->visual->class) {\n"@),
{
    reveal_strlit("RR: before pango_xft_get_context");
    reveal_strlit("    switch (definst->visual->class) {\n");
    let x = "RR: before pango_xft_get_context"@;
    let r = "    switch (definst->visual->class) {\n"@;
    lemma_apart_on(x, r, -31, -25, 31);
    lemma_apart_on(x, r, -24, 13, 24);
    lemma_apart_on(x, r, 14, 37, 0);
}

/// The renderer's marker cannot overlap the line of its seventh edit.
pub proof fn lemma_renderer_marker_apart_from_seventh_edit()
    ensures
        !can_overlap("RR: before pango_xft_get_context"@, "    return definst;\n"@),
{
    reveal_strlit("RR: before pango_xft_get_context");
    reveal_strlit("    return definst;\n");
    let x = "RR: before pango_xft_get_context"@;
    let r = "    return definst;\n"@;
    lemma_apart_on(x, r, -31, -26, 31);
    lemma_apart_on(x, r, -25, -6, 25);
    lemma_apart_on(x, r, -5, 12, 7);
    lemma_apart_on(x, r, 13, 19, 0);
}

/// The Xft font map's context line cannot overlap the line of its first edit.
pub proof fn lemma_xft_anchor_apart_from_first_edit()
    ensures
        !can_overlap("  return pango_font_map_create_context (pango_xft_get_font_map (display, screen));\n"@, "#include <string.h>\n"@),
{
    reveal_strlit("  return pango_font_map_create_context (pango_xft_get_font_map (display, screen));\n");
    reveal_strlit("#include <string.h>\n");
    let x = "  return pango_font_map_create_context (pango_xft_get_font_map (display, screen));\n"@;
    let r = "#include <string.h>\n"@;
    lemma_apart_on(x, r, -82, -64, 82);
    lemma_apart_on(x, r, -63, -44, 63);
    lemma_apart_on(x, r, -43, -25, 44);
    lemma_apart_on(x, r, -24, -8, 27);
    lemma_apart_on(x, r, -7, 10, 9);
    lemma_apart_on(x, r, 11, 19, 0);
}

/// The Xft font map's context line cannot overlap the line of its second edit.
pub proof fn lemma_xft_anchor_apart_from_second_edit()
    ensures
        !can_overlap("  return pango_font_map_create_context (pango_xft_get_font_map (display, screen));\n"@, "  fontmap = pango_xft_find_font_map (display, screen);\n"@),
{
    reveal_strlit("  return pango_font_map_create_context (pango_xft_get_font_map (display, screen));\n");
    reveal_strlit("  fontmap = pango_xft_find_font_map (display, screen);\n");
    let x = "  return pango_font_map_create_context (pango_xft_get_font_map (display, screen));\n"@;
    let r = "  fontmap = pango_xft_find_font_map (display, screen);\n"@;
    lemma_apart_on(x, r, -82, -29, 82);
    lemma_apart_on(x, r, -28, 19, 29);
    lemma_apart_on(x, r, 20, 49, 5);
    lemma_apart_on(x, r, 50, 54, 0);
}

/// The Xft font map's context line cannot overlap the line of its third edit.
pub proof fn lemma_xft_anchor_apart_from_third_edit()
    ensures
        !can_overlap("  return pango_font_map_create_context (pango_xft_get_font_map (display, screen));\n"@, "  if (fontmap)\n    return fontmap;\n"@),
{
    reveal_strlit("  return pango_font_map_create_context (pango_xft_get_font_map (display, screen));\n");
    reveal_strlit("  if (fontmap)\n    return fontmap;\n");
    let x = "  return pango_font_map_create_context (pango_xft_get_font_map (display, screen));\n"@;
    let r = "  if (fontmap)\n    return fontmap;\n"@;
    lemma_apart_on(x, r, -82, -69, 82);
    lemma_apart_on(x, r, -68, -34, 68);
    lemma_apart_on(x, r, -33, -2, 36);
    lemma_apart_on(x, r, -1, 22, 12);
    lemma_apart_on(x, r, 23, 32, 2);
    lemma_apart_on(x, r, 33, 34, 0);
}

/// The Xft font map's context line cannot overlap the line of its fourth edit.
pub proof fn lemma_xft_anchor_apart_from_fourth_edit()
    ensures
        !can_overlap("  return pango_font_map_create_context (pango_xft_get_font_map (display, screen));\n"@, "  xftfontmap = (PangoXftFontMap *)g_object_new (PANGO_TYPE_XFT_FONT_MAP, NULL);\n"@),
{
    reveal_strlit("  return pango_font_map_create_context (pango_xft_get_font_map (display, screen));\n");
    reveal_strlit("  xftfontmap = (PangoXftFontMap *)g_object_new (PANGO_TYPE_XFT_FONT_MAP, NULL);\n");
    let x = "  return pango_font_map_create_context (pango_xft_get_font_map (display, screen));\n"@;
    let r = "  xftfontmap = (PangoXftFontMap *)g_object_new (PANGO_TYPE_XFT_FONT_MAP, NULL);\n"@;
    lemma_apart_on(x, r, -82, -4, 82);
    lemma_apart_on(x, r, -3, 74, 5);
    lemma_apart_on(x, r, 75, 79, 0);
}

/// The Xft font map's context line cannot overlap the line of its fifth edit.
pub proof fn lemma_xft_anchor_apart_from_fifth_edit()
    ensures
        !can_overlap("  return pango_font_map_create_context (pango_xft_get_font_map (display, screen));\n"@, "  register_display (display);\n"@),
{
    reveal_strlit("  return pango_font_map_create_context (pango_xft_get_font_map (display, screen));\n");
    reveal_strlit("  register_display (display);\n");
    let x = "  return pango_font_map_create_context (pango_xft_get_font_map (display, screen));\n"@;
    let r = "  register_display (display);\n"@;
    lemma_apart_on(x, r, -82, -54, 82);
    lemma_apart_on(x, r, -53, -25, 54);
    lemma_apart_on(x, r, -24, 5, 24);
    lemma_apart_on(x, r, 6, 26, 3);
    lemma_apart_on(x, r, 27, 29, 0);
}

/// The Xft font map's context line cannot overlap the line of its sixth edit.
pub proof fn lemma_xft_anchor_apart_from_sixth_edit()
    ensures
        !can_overlap("  return pango_font_map_create_context (pango_xft_get_font_map (display, screen));\n"@, "  return PANGO_FONT_MAP (xftfontmap);\n"@),
{
    reveal_strlit("  return pango_font_map_create_context (pango_xft_get_font_map (display, screen));\n");
    reveal_strlit("  return PANGO_FONT_MAP (xftfontmap);\n");
    let x = "  return pango_font_map_create_context (pango_xft_get_font_map (display, screen));\n"@;
    let r = "  return PANGO_FONT_MAP (xftfontmap);\n"@;
    lemma_apart_on(x, r, -82, -46, 82);
    lemma_apart_on(x, r, -45, -13, 50);
    lemma_apart_on(x, r, -12, 25, 12);
    lemma_apart_on(x, r, 26, 37, 0);
}

/// The fontconfig font map's init line cannot overlap the line of its first edit.
pub proof fn lemma_fc_anchor_apart_from_first_edit()
    ensures
        !can_overlap("static void\npango_fc_font_map_init (PangoFcFontMap *fcfontmap)\n{\n"@, "#include <hb-ft.h>\n"@),
{
    reveal_strlit("static void\npango_fc_font_map_init (PangoFcFontMap *fcfontmap)\n{\n");
    reveal_strlit("#include <hb-ft.h>\n");
    let x = "static void\npango_fc_font_map_init (PangoFcFontMap *fcfontmap)\n{\n"@;
    let r = "#include <hb-ft.h>\n"@;
    lemma_apart_on(x, r, -64, -47, 64);
    lemma_apart_on(x, r, -46, -29, 47);
    lemma_apart_on(x, r, -28, -10, 28);
    lemma_apart_on(x, r, -9, 6, 11);
    lemma_apart_on(x, r, 7, 18, 0);
}

/// The fontconfig font map's init line cannot overlap the line of its second edit.
pub proof fn lemma_fc_anchor_apart_from_second_edit()
    ensures
        !can_overlap("static void\npango_fc_font_map_init (PangoFcFontMap *fcfontmap)\n{\n"@, "static void\nstart_fontconfig_thread (PangoFcFontMap *fcfontmap)\n{\n"@),
{
    reveal_strlit("static void\npango_fc_font_map_init (PangoFcFontMap *fcfontmap)\n{\n");
    reveal_strlit("static void\nstart_fontconfig_thread (PangoFcFontMap *fcfontmap)\n{\n");
    let x = "static void\npango_fc_font_map_init (PangoFcFontMap *fcfontmap)\n{\n"@;
    let r = "static void\nstart_fontconfig_thread (PangoFcFontMap *fcfontmap)\n{\n"@;
    lemma_apart_on(x, r, -64, -54, 64);
    lemma_apart_on(x, r, -53, 0, 58);
    lemma_apart_on(x, r, 1, 58, 7);
    lemma_apart_on(x, r, 59, 65, 0);
}

/// The fontconfig font map's init line cannot overlap the line of its third edit.
pub proof fn lemma_fc_anchor_apart_from_third_edit()
    ensures
        !can_overlap("static void\npango_fc_font_map_init (PangoFcFontMap *fcfontmap)\n{\n"@, "  thread = g_thread_new (\"[pango] fontconfig\", fc_thread_func, g_async_queue_ref (fcfontmap->priv->queue));\n"@),
{
    reveal_strlit("static void\npango_fc_font_map_init (PangoFcFontMap *fcfontmap)\n{\n");
    reveal_strlit("  thread = g_thread_new (\"[pango] fontconfig\", fc_thread_func, g_async_queue_ref (fcfontmap->priv->queue));\n");
    let x = "static void\npango_fc_font_map_init (PangoFcFontMap *fcfontmap)\n{\n"@;
    let r = "  thread = g_thread_new (\"[pango] fontconfig\", fc_thread_func, g_async_queue_ref (fcfontmap->priv->queue));\n"@;
    lemma_apart_on(x, r, -64, 42, 64);
    lemma_apart_on(x, r, 43, 95, 11);
    lemma_apart_on(x, r, 96, 107, 0);
}

/// The fontconfig font map's init line cannot overlap the line of its fourth edit.
pub proof fn lemma_fc_anchor_apart_from_fourth_edit()
    ensures
        !can_overlap("static void\npango_fc_font_map_init (PangoFcFontMap *fcfontmap)\n{\n"@, "      g_async_queue_push (fcfontmap->priv->queue, thread_data_new (FC_INIT, NULL));\n"@),
{
    reveal_strlit("static void\npango_fc_font_map_init (PangoFcFontMap *fcfontmap)\n{\n");
    reveal_strlit("      g_async_queue_push (fcfontmap->priv->queue, thread_data_new (FC_INIT, NULL));\n");
    let x = "static void\npango_fc_font_map_init (PangoFcFontMap *fcfontmap)\n{\n"@;
    let r = "      g_async_queue_push (fcfontmap->priv->queue, thread_data_new (FC_INIT, NULL));\n"@;
    lemma_apart_on(x, r, -64, 18, 64);
    lemma_apart_on(x, r, 19, 71, 11);
    lemma_apart_on(x, r, 72, 83, 0);
}

/// The fontconfig font map's init line cannot overlap the line of its fifth edit.
pub proof fn lemma_fc_anchor_apart_from_fifth_edit()
    ensures
        !can_overlap("static void\npango_fc_font_map_init (PangoFcFontMap *fcfontmap)\n{\n"@, "  g_mutex_unlock (&fc_init_mutex);\n}\n"@),
{
    reveal_strlit("static void\npango_fc_font_map_init (PangoFcFontMap *fcfontmap)\n{\n");
    reveal_strlit("  g_mutex_unlock (&fc_init_mutex);\n}\n");
    let x = "static void\npango_fc_font_map_init (PangoFcFontMap *fcfontmap)\n{\n"@;
    let r = "  g_mutex_unlock (&fc_init_mutex);\n}\n"@;
    lemma_apart_on(x, r, -64, -31, 64);
    lemma_apart_on(x, r, -30, 0, 36);
    lemma_apart_on(x, r, 1, 36, 0);
}

/// The fontconfig font map's marker cannot overlap the line of its seventh edit.
pub proof fn lemma_fc_marker_apart_from_seventh_edit()
    ensures
        !can_overlap("PANGOFC: init enter"@, "  priv = fcfontmap->priv = pango_fc_font_map_get_instance_private (fcfontmap);\n"@),
{
    reveal_strlit("PANGOFC: init enter");
    reveal_strlit("  priv = fcfontmap->priv = pango_fc_font_map_get_instance_private (fcfontmap);\n");
    let x = "PANGOFC: init enter"@;
    let r = "  priv = fcfontmap->priv = pango_fc_font_map_get_instance_private (fcfontmap);\n"@;
    lemma_apart_on(x, r, -18, -16, 18);
    lemma_apart_on(x, r, -15, 28, 17);
    lemma_apart_on(x, r, 29, 78, 0);
}

/// The fontconfig font map's marker cannot overlap the line of its eighth edit.
pub proof fn lemma_fc_marker_apart_from_eighth_edit()
    ensures
        !can_overlap("PANGOFC: init enter"@, "  priv->font_hash = g_hash_table_new ((GHashFunc)pango_fc_font_key_hash,\n"@),
{
    reveal_strlit("PANGOFC: init enter");
    reveal_strlit("  priv->font_hash = g_hash_table_new ((GHashFunc)pango_fc_font_key_hash,\n");
    let x = "PANGOFC: init enter"@;
    let r = "  priv->font_hash = g_hash_table_new ((GHashFunc)pango_fc_font_key_hash,\n"@;
    lemma_apart_on(x, r, -18, -16, 18);
    lemma_apart_on(x, r, -15, 13, 17);
    lemma_apart_on(x, r, 14, 72, 0);
}

/// The fontconfig font map's marker cannot overlap the line of its ninth edit.
pub proof fn lemma_fc_marker_apart_from_ninth_edit()
    ensures
        !can_overlap("PANGOFC: init enter"@, "  priv->queue = g_async_queue_new ();\n\n  start_fontconfig_thread (fcfontmap);\n"@),
{
    reveal_strlit("PANGOFC: init enter");
    reveal_strlit("  priv->queue = g_async_queue_new ();\n\n  start_fontconfig_thread (fcfontmap);\n");
    let x = "PANGOFC: init enter"@;
    let r = "  priv->queue = g_async_queue_new ();\n\n  start_fontconfig_thread (fcfontmap);\n"@;
    lemma_apart_on(x, r, -18, -16, 18);
    lemma_apart_on(x, r, -15, 25, 16);
    lemma_apart_on(x, r, 26, 77, 0);
}

/// The fontconfig font map's marker cannot overlap the line of its tenth edit.
pub proof fn lemma_fc_marker_apart_from_tenth_edit()
    ensures
        !can_overlap("PANGOFC: init enter"@, "static void\npango_fc_font_map_class_init (PangoFcFontMapClass *class)\n{\n"@),
{
    reveal_strlit("PANGOFC: init enter");
    reveal_strlit("static void\npango_fc_font_map_class_init (PangoFcFontMapClass *class)\n{\n");
    let x = "PANGOFC: init enter"@;
    let r = "static void\npango_fc_font_map_class_init (PangoFcFontMapClass *class)\n{\n"@;
    lemma_apart_on(x, r, -18, 53, 18);
    lemma_apart_on(x, r, 54, 71, 0);
}

/// The fontconfig font map's marker cannot overlap the line of its eleventh edit.
pub proof fn lemma_fc_marker_apart_from_eleventh_edit()
    ensures
        !can_overlap("PANGOFC: init enter"@, "  pclass->add_font_file = pango_fc_font_map_add_font_file;\n}\n"@),
{
    reveal_strlit("PANGOFC: init enter");
    reveal_strlit("  pclass->add_font_file = pango_fc_font_map_add_font_file;\n}\n");
    let x = "PANGOFC: init enter"@;
    let r = "  pclass->add_font_file = pango_fc_font_map_add_font_file;\n}\n"@;
    lemma_apart_on(x, r, -18, 42, 18);
    lemma_apart_on(x, r, 43, 60, 0);
}

/// openbox's declaration of its start-up command cannot overlap the locale line.
pub proof fn lemma_openbox_anchor_apart_from_locale_line()
    ensures
        !can_overlap("static void run_startup_cmd(void);\n"@, "    if (!XSetLocaleModifiers(\"\"))\n"@),
{
    reveal_strlit("static void run_startup_cmd(void);\n");
    reveal_strlit("    if (!XSetLocaleModifiers(\"\"))\n");
    let x = "static void run_startup_cmd(void);\n"@;
    let r = "    if (!XSetLocaleModifiers(\"\"))\n"@;
    lemma_apart_on(x, r, -34, -2, 34);
    lemma_apart_on(x, r, -1, 26, 7);
    lemma_apart_on(x, r, 27, 32, 1);
    lemma_apart_on(x, r, 33, 33, 0);
}

/// openbox's report marker cannot overlap the locale line.
pub proof fn lemma_openbox_marker_apart_from_locale_line()
    ensures
        !can_overlap("seele_debug_stage("@, "    if (!XSetLocaleModifiers(\"\"))\n"@),
{
    reveal_strlit("seele_debug_stage(");
    reveal_strlit("    if (!XSetLocaleModifiers(\"\"))\n");
    let x = "seele_debug_stage("@;
    let r = "    if (!XSetLocaleModifiers(\"\"))\n"@;
    lemma_apart_on(x, r, -17, -11, 17);
    lemma_apart_on(x, r, -10, 23, 10);
    lemma_apart_on(x, r, 24, 31, 2);
    lemma_apart_on(x, r, 32, 33, 0);
}

/// The locale line cannot overlap the line that replaces it.
pub proof fn lemma_locale_line_apart_from_its_replacement()
    ensures
        !can_overlap("    if (!XSetLocaleModifiers(\"\"))\n"@, "    if (!XSetLocaleModifiers(\"@im=none\"))\n"@),
{
    reveal_strlit("    if (!XSetLocaleModifiers(\"\"))\n");
    reveal_strlit("    if (!XSetLocaleModifiers(\"@im=none\"))\n");
    let x = "    if (!XSetLocaleModifiers(\"\"))\n"@;
    let r = "    if (!XSetLocaleModifiers(\"@im=none\"))\n"@;
    lemma_apart_on(x, r, -33, 7, 33);
    lemma_apart_on(x, r, 8, 41, 0);
}

/// openbox's report marker cannot overlap the line of its second edit.
proof fn lemma_openbox_marker_apart_from_second_edit()
    ensures
        !can_overlap("seele_debug_stage("@, "    if (!remote_control)\n        session_startup(argc, argv);\n\n    if (!obt_display_open(NULL))\n"@),
{
    reveal_strlit("seele_debug_stage(");
    reveal_strlit("    if (!remote_control)\n        session_startup(argc, argv);\n\n    if (!obt_display_open(NULL))\n");
    let x = "seele_debug_stage("@;
    let r = "    if (!remote_control)\n        session_startup(argc, argv);\n\n    if (!obt_display_open(NULL))\n"@;
    lemma_apart_on(x, r, -17, -11, 17);
    lemma_apart_on(x, r, -10, 40, 10);
    lemma_apart_on(x, r, 41, 86, 9);
    lemma_apart_on(x, r, 87, 95, 0);
}

/// openbox's report marker cannot overlap the line of its third edit.
proof fn lemma_openbox_marker_apart_from_third_edit()
    ensures
        !can_overlap("seele_debug_stage("@, "    ob_main_loop = g_main_loop_new(NULL, FALSE);\n"@),
{
    reveal_strlit("seele_debug_stage(");
    reveal_strlit("    ob_main_loop = g_main_loop_new(NULL, FALSE);\n");
    let x = "seele_debug_stage("@;
    let r = "    ob_main_loop = g_main_loop_new(NULL, FALSE);\n"@;
    lemma_apart_on(x, r, -17, 16, 17);
    lemma_apart_on(x, r, 17, 48, 0);
}

/// openbox's report marker cannot overlap the line of its fourth edit.
proof fn lemma_openbox_marker_apart_from_fourth_edit()
    ensures
        !can_overlap("seele_debug_stage("@, "    ob_rr_inst = RrInstanceNew(obt_display, ob_screen);\n"@),
{
    reveal_strlit("seele_debug_stage(");
    reveal_strlit("    ob_rr_inst = RrInstanceNew(obt_display, ob_screen);\n");
    let x = "seele_debug_stage("@;
    let r = "    ob_rr_inst = RrInstanceNew(obt_display, ob_screen);\n"@;
    lemma_apart_on(x, r, -17, 12, 17);
    lemma_apart_on(x, r, 13, 46, 9);
    lemma_apart_on(x, r, 47, 52, 3);
    lemma_apart_on(x, r, 53, 55, 0);
}

/// openbox's report marker cannot overlap the line of its fifth edit.
proof fn lemma_openbox_marker_apart_from_fifth_edit()
    ensures
        !can_overlap("seele_debug_stage("@, "    if (screen_annex()) { /* it will be ours! */\n"@),
{
    reveal_strlit("seele_debug_stage(");
    reveal_strlit("    if (screen_annex()) { /* it will be ours! */\n");
    let x = "seele_debug_stage("@;
    let r = "    if (screen_annex()) { /* it will be ours! */\n"@;
    lemma_apart_on(x, r, -17, -11, 17);
    lemma_apart_on(x, r, -10, 38, 10);
    lemma_apart_on(x, r, 39, 47, 1);
    lemma_apart_on(x, r, 48, 48, 0);
}

/// openbox's report marker cannot overlap the line of its sixth edit.
proof fn lemma_openbox_marker_apart_from_sixth_edit()
    ensures
        !can_overlap("seele_debug_stage("@, "        do {\n"@),
{
    reveal_strlit("seele_debug_stage(");
    reveal_strlit("        do {\n");
    let x = "seele_debug_stage("@;
    let r = "        do {\n"@;
    lemma_apart_on(x, r, -17, -5, 17);
    lemma_apart_on(x, r, -4, 8, 4);
    lemma_apart_on(x, r, 9, 12, 0);
}

/// openbox's report marker cannot overlap the line of its seventh edit.
proof fn lemma_openbox_marker_apart_from_seventh_edit()
    ensures
        !can_overlap("seele_debug_stage("@, "                /* register all the available actions */\n                actions_startup(reconfigure);\n"@),
{
    reveal_strlit("seele_debug_stage(");
    reveal_strlit("                /* register all the available actions */\n                actions_startup(reconfigure);\n");
    let x = "seele_debug_stage("@;
    let r = "                /* register all the available actions */\n                actions_startup(reconfigure);\n"@;
    lemma_apart_on(x, r, -17, 70, 17);
    lemma_apart_on(x, r, 71, 99, 3);
    lemma_apart_on(x, r, 100, 102, 0);
}

/// openbox's report marker cannot overlap the line of its eighth edit.
proof fn lemma_openbox_marker_apart_from_eighth_edit()
    ensures
        !can_overlap("seele_debug_stage("@, "            {\n                RrTheme *theme;\n"@),
{
    reveal_strlit("seele_debug_stage(");
    reveal_strlit("            {\n                RrTheme *theme;\n");
    let x = "seele_debug_stage("@;
    let r = "            {\n                RrTheme *theme;\n"@;
    lemma_apart_on(x, r, -17, 28, 17);
    lemma_apart_on(x, r, 29, 45, 0);
}

/// openbox's report marker cannot overlap the line of its ninth edit.
proof fn lemma_openbox_marker_apart_from_ninth_edit()
    ensures
        !can_overlap("seele_debug_stage("@, "            event_startup(reconfigure);\n"@),
{
    reveal_strlit("seele_debug_stage(");
    reveal_strlit("            event_startup(reconfigure);\n");
    let x = "seele_debug_stage("@;
    let r = "            event_startup(reconfigure);\n"@;
    lemma_apart_on(x, r, -17, 7, 17);
    lemma_apart_on(x, r, 8, 36, 3);
    lemma_apart_on(x, r, 37, 39, 0);
}

/// openbox's report marker cannot overlap the line of its tenth edit.
proof fn lemma_openbox_marker_apart_from_tenth_edit()
    ensures
        !can_overlap("seele_debug_stage("@, "            sn_startup(reconfigure);\n"@),
{
    reveal_strlit("seele_debug_stage(");
    reveal_strlit("            sn_startup(reconfigure);\n");
    let x = "seele_debug_stage("@;
    let r = "            sn_startup(reconfigure);\n"@;
    lemma_apart_on(x, r, -17, 4, 17);
    lemma_apart_on(x, r, 5, 33, 3);
    lemma_apart_on(x, r, 34, 36, 0);
}

/// openbox's report marker cannot overlap the line of its eleventh edit.
proof fn lemma_openbox_marker_apart_from_eleventh_edit()
    ensures
        !can_overlap("seele_debug_stage("@, "            window_startup(reconfigure);\n"@),
{
    reveal_strlit("seele_debug_stage(");
    reveal_strlit("            window_startup(reconfigure);\n");
    let x = "seele_debug_stage("@;
    let r = "            window_startup(reconfigure);\n"@;
    lemma_apart_on(x, r, -17, 8, 17);
    lemma_apart_on(x, r, 9, 37, 3);
    lemma_apart_on(x, r, 38, 40, 0);
}

/// openbox's report marker cannot overlap the line of its twelfth edit.
proof fn lemma_openbox_marker_apart_from_twelfth_edit()
    ensures
        !can_overlap("seele_debug_stage("@, "            focus_startup(reconfigure);\n"@),
{
    reveal_strlit("seele_debug_stage(");
    reveal_strlit("            focus_startup(reconfigure);\n");
    let x = "seele_debug_stage("@;
    let r = "            focus_startup(reconfigure);\n"@;
    lemma_apart_on(x, r, -17, 7, 17);
    lemma_apart_on(x, r, 8, 36, 3);
    lemma_apart_on(x, r, 37, 39, 0);
}

/// openbox's report marker cannot overlap the line of its thirteenth edit.
proof fn lemma_openbox_marker_apart_from_thirteenth_edit()
    ensures
        !can_overlap("seele_debug_stage("@, "            screen_startup(reconfigure);\n"@),
{
    reveal_strlit("seele_debug_stage(");
    reveal_strlit("            screen_startup(reconfigure);\n");
    let x = "seele_debug_stage("@;
    let r = "            screen_startup(reconfigure);\n"@;
    lemma_apart_on(x, r, -17, 8, 17);
    lemma_apart_on(x, r, 9, 37, 3);
    lemma_apart_on(x, r, 38, 40, 0);
}

/// openbox's report marker cannot overlap the line of its fourteenth edit.
proof fn lemma_openbox_marker_apart_from_fourteenth_edit()
    ensures
        !can_overlap("seele_debug_stage("@, "            grab_startup(reconfigure);\n"@),
{
    reveal_strlit("seele_debug_stage(");
    reveal_strlit("            grab_startup(reconfigure);\n");
    let x = "seele_debug_stage("@;
    let r = "            grab_startup(reconfigure);\n"@;
    lemma_apart_on(x, r, -17, 6, 17);
    lemma_apart_on(x, r, 7, 35, 3);
    lemma_apart_on(x, r, 36, 38, 0);
}

/// openbox's report marker cannot overlap the line of its fifteenth edit.
proof fn lemma_openbox_marker_apart_from_fifteenth_edit()
    ensures
        !can_overlap("seele_debug_stage("@, "            client_startup(reconfigure);\n"@),
{
    reveal_strlit("seele_debug_stage(");
    reveal_strlit("            client_startup(reconfigure);\n");
    let x = "seele_debug_stage("@;
    let r = "            client_startup(reconfigure);\n"@;
    lemma_apart_on(x, r, -17, 8, 17);
    lemma_apart_on(x, r, 9, 34, 6);
    lemma_apart_on(x, r, 35, 40, 0);
}

/// openbox's report marker cannot overlap the line of its sixteenth edit.
proof fn lemma_openbox_marker_apart_from_sixteenth_edit()
    ensures
        !can_overlap("seele_debug_stage("@, "            dock_startup(reconfigure);\n"@),
{
    reveal_strlit("seele_debug_stage(");
    reveal_strlit("            dock_startup(reconfigure);\n");
    let x = "seele_debug_stage("@;
    let r = "            dock_startup(reconfigure);\n"@;
    lemma_apart_on(x, r, -17, 6, 17);
    lemma_apart_on(x, r, 7, 35, 3);
    lemma_apart_on(x, r, 36, 38, 0);
}

/// openbox's report marker cannot overlap the line of its seventeenth edit.
proof fn lemma_openbox_marker_apart_from_seventeenth_edit()
    ensures
        !can_overlap("seele_debug_stage("@, "            keyboard_startup(reconfigure);\n"@),
{
    reveal_strlit("seele_debug_stage(");
    reveal_strlit("            keyboard_startup(reconfigure);\n");
    let x = "seele_debug_stage("@;
    let r = "            keyboard_startup(reconfigure);\n"@;
    lemma_apart_on(x, r, -17, 10, 17);
    lemma_apart_on(x, r, 11, 39, 3);
    lemma_apart_on(x, r, 40, 42, 0);
}

/// openbox's report marker cannot overlap the line of its eighteenth edit.
proof fn lemma_openbox_marker_apart_from_eighteenth_edit()
    ensures
        !can_overlap("seele_debug_stage("@, "            mouse_startup(reconfigure);\n"@),
{
    reveal_strlit("seele_debug_stage(");
    reveal_strlit("            mouse_startup(reconfigure);\n");
    let x = "seele_debug_stage("@;
    let r = "            mouse_startup(reconfigure);\n"@;
    lemma_apart_on(x, r, -17, 7, 17);
    lemma_apart_on(x, r, 8, 36, 3);
    lemma_apart_on(x, r, 37, 39, 0);
}

/// openbox's report marker cannot overlap the line of its nineteenth edit.
proof fn lemma_openbox_marker_apart_from_nineteenth_edit()
    ensures
        !can_overlap("seele_debug_stage("@, "            menu_startup(reconfigure);\n"@),
{
    reveal_strlit("seele_debug_stage(");
    reveal_strlit("            menu_startup(reconfigure);\n");
    let x = "seele_debug_stage("@;
    let r = "            menu_startup(reconfigure);\n"@;
    lemma_apart_on(x, r, -17, 6, 17);
    lemma_apart_on(x, r, 7, 35, 3);
    lemma_apart_on(x, r, 36, 38, 0);
}

/// openbox's report marker cannot overlap the line of its twentieth edit.
proof fn lemma_openbox_marker_apart_from_twentieth_edit()
    ensures
        !can_overlap("seele_debug_stage("@, "            prompt_startup(reconfigure);\n"@),
{
    reveal_strlit("seele_debug_stage(");
    reveal_strlit("            prompt_startup(reconfigure);\n");
    let x = "seele_debug_stage("@;
    let r = "            prompt_startup(reconfigure);\n"@;
    lemma_apart_on(x, r, -17, 8, 17);
    lemma_apart_on(x, r, 9, 37, 3);
    lemma_apart_on(x, r, 38, 40, 0);
}

/// openbox's report marker cannot overlap the line of its twenty-first edit.
proof fn lemma_openbox_marker_apart_from_twenty_first_edit()
    ensures
        !can_overlap("seele_debug_stage("@, "                xqueue_listen();\n"@),
{
    reveal_strlit("seele_debug_stage(");
    reveal_strlit("                xqueue_listen();\n");
    let x = "seele_debug_stage("@;
    let r = "                xqueue_listen();\n"@;
    lemma_apart_on(x, r, -17, 11, 17);
    lemma_apart_on(x, r, 12, 26, 6);
    lemma_apart_on(x, r, 27, 32, 0);
}

/// openbox's report marker cannot overlap the line of its twenty-second edit.
proof fn lemma_openbox_marker_apart_from_twenty_second_edit()
    ensures
        !can_overlap("seele_debug_stage("@, "                window_manage_all();\n"@),
{
    reveal_strlit("seele_debug_stage(");
    reveal_strlit("                window_manage_all();\n");
    let x = "seele_debug_stage("@;
    let r = "                window_manage_all();\n"@;
    lemma_apart_on(x, r, -17, 15, 17);
    lemma_apart_on(x, r, 16, 36, 0);
}

/// openbox's report marker cannot overlap the line of its twenty-third edit.
proof fn lemma_openbox_marker_apart_from_twenty_third_edit()
    ensures
        !can_overlap("seele_debug_stage("@, "            ob_set_state(OB_STATE_RUNNING);\n"@),
{
    reveal_strlit("seele_debug_stage(");
    reveal_strlit("            ob_set_state(OB_STATE_RUNNING);\n");
    let x = "seele_debug_stage("@;
    let r = "            ob_set_state(OB_STATE_RUNNING);\n"@;
    lemma_apart_on(x, r, -17, 6, 17);
    lemma_apart_on(x, r, 7, 40, 3);
    lemma_apart_on(x, r, 41, 43, 0);
}

/// openbox's report marker cannot overlap the line of its twenty-fourth edit.
proof fn lemma_openbox_marker_apart_from_twenty_fourth_edit()
    ensures
        !can_overlap("seele_debug_stage("@, "            g_main_loop_run(ob_main_loop);\n"@),
{
    reveal_strlit("seele_debug_stage(");
    reveal_strlit("            g_main_loop_run(ob_main_loop);\n");
    let x = "seele_debug_stage("@;
    let r = "            g_main_loop_run(ob_main_loop);\n"@;
    lemma_apart_on(x, r, -17, 9, 17);
    lemma_apart_on(x, r, 10, 42, 0);
}

/// The locale line cannot overlap the replacement of openbox's first edit.
proof fn lemma_locale_line_apart_from_first_report()
    ensures
        !can_overlap("    if (!XSetLocaleModifiers(\"\"))\n"@, "static void run_startup_cmd(void);\nstatic void seele_debug_stage(const char *stage)\n{\nwrite(2, stage, strlen(stage));\nwrite(2, \"\\n\", 1);\n}\n"@),
{
    reveal_strlit("    if (!XSetLocaleModifiers(\"\"))\n");
    reveal_strlit("static void run_startup_cmd(void);\nstatic void seele_debug_stage(const char *stage)\n{\nwrite(2, stage, strlen(stage));\nwrite(2, \"\\n\", 1);\n}\n");
    let x = "    if (!XSetLocaleModifiers(\"\"))\n"@;
    let r = "static void run_startup_cmd(void);\nstatic void seele_debug_stage(const char *stage)\n{\nwrite(2, stage, strlen(stage));\nwrite(2, \"\\n\", 1);\n}\n"@;
    lemma_apart_on(x, r, -33, 0, 33);
    lemma_apart_on(x, r, 1, 133, 5);
    lemma_apart_on(x, r, 134, 138, 0);
}

/// The locale line cannot overlap the replacement of openbox's second edit.
proof fn lemma_locale_line_apart_from_second_report()
    ensures
        !can_overlap("    if (!XSetLocaleModifiers(\"\"))\n"@, "    if (!remote_control)\n        session_startup(argc, argv);\n\n    seele_debug_stage(\"OB: before obt_display_open\");\n    if (!obt_display_open(NULL))\n"@),
{
    reveal_strlit("    if (!XSetLocaleModifiers(\"\"))\n");
    reveal_strlit("    if (!remote_control)\n        session_startup(argc, argv);\n\n    seele_debug_stage(\"OB: before obt_display_open\");\n    if (!obt_display_open(NULL))\n");
    let x = "    if (!XSetLocaleModifiers(\"\"))\n"@;
    let r = "    if (!remote_control)\n        session_startup(argc, argv);\n\n    seele_debug_stage(\"OB: before obt_display_open\");\n    if (!obt_display_open(NULL))\n"@;
    lemma_apart_on(x, r, -33, -10, 33);
    lemma_apart_on(x, r, -9, 140, 9);
    lemma_apart_on(x, r, 141, 149, 0);
}

/// The locale line cannot overlap the replacement of openbox's third edit.
proof fn lemma_locale_line_apart_from_third_report()
    ensures
        !can_overlap("    if (!XSetLocaleModifiers(\"\"))\n"@, "    seele_debug_stage(\"OB: display open ok\");\n    ob_main_loop = g_main_loop_new(NULL, FALSE);\n"@),
{
    reveal_strlit("    if (!XSetLocaleModifiers(\"\"))\n");
    reveal_strlit("    seele_debug_stage(\"OB: display open ok\");\n    ob_main_loop = g_main_loop_new(NULL, FALSE);\n");
    let x = "    if (!XSetLocaleModifiers(\"\"))\n"@;
    let r = "    seele_debug_stage(\"OB: display open ok\");\n    ob_main_loop = g_main_loop_new(NULL, FALSE);\n"@;
    lemma_apart_on(x, r, -33, 11, 33);
    lemma_apart_on(x, r, 12, 89, 5);
    lemma_apart_on(x, r, 90, 94, 0);
}

/// The locale line cannot overlap the replacement of openbox's fourth edit.
proof fn lemma_locale_line_apart_from_fourth_report()
    ensures
        !can_overlap("    if (!XSetLocaleModifiers(\"\"))\n"@, "    seele_debug_stage(\"OB: before RrInstanceNew\");\n    ob_rr_inst = RrInstanceNew(obt_display, ob_screen);\n"@),
{
    reveal_strlit("    if (!XSetLocaleModifiers(\"\"))\n");
    reveal_strlit("    seele_debug_stage(\"OB: before RrInstanceNew\");\n    ob_rr_inst = RrInstanceNew(obt_display, ob_screen);\n");
    let x = "    if (!XSetLocaleModifiers(\"\"))\n"@;
    let r = "    seele_debug_stage(\"OB: before RrInstanceNew\");\n    ob_rr_inst = RrInstanceNew(obt_display, ob_screen);\n"@;
    lemma_apart_on(x, r, -33, 16, 33);
    lemma_apart_on(x, r, 17, 98, 8);
    lemma_apart_on(x, r, 99, 106, 0);
}

/// The locale line cannot overlap the replacement of openbox's fifth edit.
proof fn lemma_locale_line_apart_from_fifth_report()
    ensures
        !can_overlap("    if (!XSetLocaleModifiers(\"\"))\n"@, "    seele_debug_stage(\"OB: before screen_annex\");\n    if (screen_annex()) { /* it will be ours! */\n"@),
{
    reveal_strlit("    if (!XSetLocaleModifiers(\"\"))\n");
    reveal_strlit("    seele_debug_stage(\"OB: before screen_annex\");\n    if (screen_annex()) { /* it will be ours! */\n");
    let x = "    if (!XSetLocaleModifiers(\"\"))\n"@;
    let r = "    seele_debug_stage(\"OB: before screen_annex\");\n    if (screen_annex()) { /* it will be ours! */\n"@;
    lemma_apart_on(x, r, -33, 15, 33);
    lemma_apart_on(x, r, 16, 89, 9);
    lemma_apart_on(x, r, 90, 94, 0);
    lemma_apart_on(x, r, 95, 97, 1);
    lemma_apart_on(x, r, 98, 98, 0);
}

/// The locale line cannot overlap the replacement of openbox's sixth edit.
proof fn lemma_locale_line_apart_from_sixth_report()
    ensures
        !can_overlap("    if (!XSetLocaleModifiers(\"\"))\n"@, "        seele_debug_stage(\"OB: screen_annex ok\");\n        do {\n"@),
{
    reveal_strlit("    if (!XSetLocaleModifiers(\"\"))\n");
    reveal_strlit("        seele_debug_stage(\"OB: screen_annex ok\");\n        do {\n");
    let x = "    if (!XSetLocaleModifiers(\"\"))\n"@;
    let r = "        seele_debug_stage(\"OB: screen_annex ok\");\n        do {\n"@;
    lemma_apart_on(x, r, -33, 15, 33);
    lemma_apart_on(x, r, 16, 58, 4);
    lemma_apart_on(x, r, 59, 60, 2);
    lemma_apart_on(x, r, 61, 62, 0);
}

/// The locale line cannot overlap the replacement of openbox's seventh edit.
proof fn lemma_locale_line_apart_from_seventh_report()
    ensures
        !can_overlap("    if (!XSetLocaleModifiers(\"\"))\n"@, "                seele_debug_stage(\"OB: actions_startup\");\n                /* register all the available actions */\n                actions_startup(reconfigure);\n"@),
{
    reveal_strlit("    if (!XSetLocaleModifiers(\"\"))\n");
    reveal_strlit("                seele_debug_stage(\"OB: actions_startup\");\n                /* register all the available actions */\n                actions_startup(reconfigure);\n");
    let x = "    if (!XSetLocaleModifiers(\"\"))\n"@;
    let r = "                seele_debug_stage(\"OB: actions_startup\");\n                /* register all the available actions */\n                actions_startup(reconfigure);\n"@;
    lemma_apart_on(x, r, -33, 23, 33);
    lemma_apart_on(x, r, 24, 152, 8);
    lemma_apart_on(x, r, 153, 160, 0);
}

/// The locale line cannot overlap the replacement of openbox's eighth edit.
proof fn lemma_locale_line_apart_from_eighth_report()
    ensures
        !can_overlap("    if (!XSetLocaleModifiers(\"\"))\n"@, "            seele_debug_stage(\"OB: config loaded\");\n            {\n                RrTheme *theme;\n"@),
{
    reveal_strlit("    if (!XSetLocaleModifiers(\"\"))\n");
    reveal_strlit("            seele_debug_stage(\"OB: config loaded\");\n            {\n                RrTheme *theme;\n");
    let x = "    if (!XSetLocaleModifiers(\"\"))\n"@;
    let r = "            seele_debug_stage(\"OB: config loaded\");\n            {\n                RrTheme *theme;\n"@;
    lemma_apart_on(x, r, -33, 17, 33);
    lemma_apart_on(x, r, 18, 89, 8);
    lemma_apart_on(x, r, 90, 97, 0);
}

/// The locale line cannot overlap the replacement of openbox's ninth edit.
proof fn lemma_locale_line_apart_from_ninth_report()
    ensures
        !can_overlap("    if (!XSetLocaleModifiers(\"\"))\n"@, "            seele_debug_stage(\"OB: theme loaded\");\n            seele_debug_stage(\"OB: event_startup\");\n            event_startup(reconfigure);\n"@),
{
    reveal_strlit("    if (!XSetLocaleModifiers(\"\"))\n");
    reveal_strlit("            seele_debug_stage(\"OB: theme loaded\");\n            seele_debug_stage(\"OB: event_startup\");\n            event_startup(reconfigure);\n");
    let x = "    if (!XSetLocaleModifiers(\"\"))\n"@;
    let r = "            seele_debug_stage(\"OB: theme loaded\");\n            seele_debug_stage(\"OB: event_startup\");\n            event_startup(reconfigure);\n"@;
    lemma_apart_on(x, r, -33, 16, 33);
    lemma_apart_on(x, r, 17, 134, 8);
    lemma_apart_on(x, r, 135, 142, 0);
}

/// The locale line cannot overlap the replacement of openbox's tenth edit.
proof fn lemma_locale_line_apart_from_tenth_report()
    ensures
        !can_overlap("    if (!XSetLocaleModifiers(\"\"))\n"@, "            seele_debug_stage(\"OB: sn_startup\");\n            sn_startup(reconfigure);\n"@),
{
    reveal_strlit("    if (!XSetLocaleModifiers(\"\"))\n");
    reveal_strlit("            seele_debug_stage(\"OB: sn_startup\");\n            sn_startup(reconfigure);\n");
    let x = "    if (!XSetLocaleModifiers(\"\"))\n"@;
    let r = "            seele_debug_stage(\"OB: sn_startup\");\n            sn_startup(reconfigure);\n"@;
    lemma_apart_on(x, r, -33, 14, 33);
    lemma_apart_on(x, r, 15, 77, 8);
    lemma_apart_on(x, r, 78, 85, 0);
}

/// The locale line cannot overlap the replacement of openbox's eleventh edit.
proof fn lemma_locale_line_apart_from_eleventh_report()
    ensures
        !can_overlap("    if (!XSetLocaleModifiers(\"\"))\n"@, "            seele_debug_stage(\"OB: window_startup\");\n            window_startup(reconfigure);\n"@),
{
    reveal_strlit("    if (!XSetLocaleModifiers(\"\"))\n");
    reveal_strlit("            seele_debug_stage(\"OB: window_startup\");\n            window_startup(reconfigure);\n");
    let x = "    if (!XSetLocaleModifiers(\"\"))\n"@;
    let r = "            seele_debug_stage(\"OB: window_startup\");\n            window_startup(reconfigure);\n"@;
    lemma_apart_on(x, r, -33, 18, 33);
    lemma_apart_on(x, r, 19, 85, 8);
    lemma_apart_on(x, r, 86, 93, 0);
}

/// The locale line cannot overlap the replacement of openbox's twelfth edit.
proof fn lemma_locale_line_apart_from_twelfth_report()
    ensures
        !can_overlap("    if (!XSetLocaleModifiers(\"\"))\n"@, "            seele_debug_stage(\"OB: focus_startup\");\n            focus_startup(reconfigure);\n"@),
{
    reveal_strlit("    if (!XSetLocaleModifiers(\"\"))\n");
    reveal_strlit("            seele_debug_stage(\"OB: focus_startup\");\n            focus_startup(reconfigure);\n");
    let x = "    if (!XSetLocaleModifiers(\"\"))\n"@;
    let r = "            seele_debug_stage(\"OB: focus_startup\");\n            focus_startup(reconfigure);\n"@;
    lemma_apart_on(x, r, -33, 17, 33);
    lemma_apart_on(x, r, 18, 83, 8);
    lemma_apart_on(x, r, 84, 91, 0);
}

/// The locale line cannot overlap the replacement of openbox's thirteenth edit.
proof fn lemma_locale_line_apart_from_thirteenth_report()
    ensures
        !can_overlap("    if (!XSetLocaleModifiers(\"\"))\n"@, "            seele_debug_stage(\"OB: screen_startup\");\n            screen_startup(reconfigure);\n"@),
{
    reveal_strlit("    if (!XSetLocaleModifiers(\"\"))\n");
    reveal_strlit("            seele_debug_stage(\"OB: screen_startup\");\n            screen_startup(reconfigure);\n");
    let x = "    if (!XSetLocaleModifiers(\"\"))\n"@;
    let r = "            seele_debug_stage(\"OB: screen_startup\");\n            screen_startup(reconfigure);\n"@;
    lemma_apart_on(x, r, -33, 18, 33);
    lemma_apart_on(x, r, 19, 85, 8);
    lemma_apart_on(x, r, 86, 93, 0);
}

/// The locale line cannot overlap the replacement of openbox's fourteenth edit.
proof fn lemma_locale_line_apart_from_fourteenth_report()
    ensures
        !can_overlap("    if (!XSetLocaleModifiers(\"\"))\n"@, "            seele_debug_stage(\"OB: grab_startup\");\n            grab_startup(reconfigure);\n"@),
{
    reveal_strlit("    if (!XSetLocaleModifiers(\"\"))\n");
    reveal_strlit("            seele_debug_stage(\"OB: grab_startup\");\n            grab_startup(reconfigure);\n");
    let x = "    if (!XSetLocaleModifiers(\"\"))\n"@;
    let r = "            seele_debug_stage(\"OB: grab_startup\");\n            grab_startup(reconfigure);\n"@;
    lemma_apart_on(x, r, -33, 16, 33);
    lemma_apart_on(x, r, 17, 81, 8);
    lemma_apart_on(x, r, 82, 89, 0);
}

/// The locale line cannot overlap the replacement of openbox's fifteenth edit.
proof fn lemma_locale_line_apart_from_fifteenth_report()
    ensures
        !can_overlap("    if (!XSetLocaleModifiers(\"\"))\n"@, "            seele_debug_stage(\"OB: client_startup\");\n            client_startup(reconfigure);\n"@),
{
    reveal_strlit("    if (!XSetLocaleModifiers(\"\"))\n");
    reveal_strlit("            seele_debug_stage(\"OB: client_startup\");\n            client_startup(reconfigure);\n");
    let x = "    if (!XSetLocaleModifiers(\"\"))\n"@;
    let r = "            seele_debug_stage(\"OB: client_startup\");\n            client_startup(reconfigure);\n"@;
    lemma_apart_on(x, r, -33, 18, 33);
    lemma_apart_on(x, r, 19, 85, 8);
    lemma_apart_on(x, r, 86, 93, 0);
}

/// The locale line cannot overlap the replacement of openbox's sixteenth edit.
proof fn lemma_locale_line_apart_from_sixteenth_report()
    ensures
        !can_overlap("    if (!XSetLocaleModifiers(\"\"))\n"@, "            seele_debug_stage(\"OB: dock_startup\");\n            dock_startup(reconfigure);\n"@),
{
    reveal_strlit("    if (!XSetLocaleModifiers(\"\"))\n");
    reveal_strlit("            seele_debug_stage(\"OB: dock_startup\");\n            dock_startup(reconfigure);\n");
    let x = "    if (!XSetLocaleModifiers(\"\"))\n"@;
    let r = "            seele_debug_stage(\"OB: dock_startup\");\n            dock_startup(reconfigure);\n"@;
    lemma_apart_on(x, r, -33, 16, 33);
    lemma_apart_on(x, r, 17, 81, 8);
    lemma_apart_on(x, r, 82, 89, 0);
}

/// The locale line cannot overlap the replacement of openbox's seventeenth edit.
proof fn lemma_locale_line_apart_from_seventeenth_report()
    ensures
        !can_overlap("    if (!XSetLocaleModifiers(\"\"))\n"@, "            seele_debug_stage(\"OB: keyboard_startup\");\n            keyboard_startup(reconfigure);\n"@),
{
    reveal_strlit("    if (!XSetLocaleModifiers(\"\"))\n");
    reveal_strlit("            seele_debug_stage(\"OB: keyboard_startup\");\n            keyboard_startup(reconfigure);\n");
    let x = "    if (!XSetLocaleModifiers(\"\"))\n"@;
    let r = "            seele_debug_stage(\"OB: keyboard_startup\");\n            keyboard_startup(reconfigure);\n"@;
    lemma_apart_on(x, r, -33, 20, 33);
    lemma_apart_on(x, r, 21, 89, 8);
    lemma_apart_on(x, r, 90, 97, 0);
}

/// The locale line cannot overlap the replacement of openbox's eighteenth edit.
proof fn lemma_locale_line_apart_from_eighteenth_report()
    ensures
        !can_overlap("    if (!XSetLocaleModifiers(\"\"))\n"@, "            seele_debug_stage(\"OB: mouse_startup\");\n            mouse_startup(reconfigure);\n"@),
{
    reveal_strlit("    if (!XSetLocaleModifiers(\"\"))\n");
    reveal_strlit("            seele_debug_stage(\"OB: mouse_startup\");\n            mouse_startup(reconfigure);\n");
    let x = "    if (!XSetLocaleModifiers(\"\"))\n"@;
    let r = "            seele_debug_stage(\"OB: mouse_startup\");\n            mouse_startup(reconfigure);\n"@;
    lemma_apart_on(x, r, -33, 17, 33);
    lemma_apart_on(x, r, 18, 83, 8);
    lemma_apart_on(x, r, 84, 91, 0);
}

/// The locale line cannot overlap the replacement of openbox's nineteenth edit.
proof fn lemma_locale_line_apart_from_nineteenth_report()
    ensures
        !can_overlap("    if (!XSetLocaleModifiers(\"\"))\n"@, "            seele_debug_stage(\"OB: menu_startup\");\n            menu_startup(reconfigure);\n"@),
{
    reveal_strlit("    if (!XSetLocaleModifiers(\"\"))\n");
    reveal_strlit("            seele_debug_stage(\"OB: menu_startup\");\n            menu_startup(reconfigure);\n");
    let x = "    if (!XSetLocaleModifiers(\"\"))\n"@;
    let r = "            seele_debug_stage(\"OB: menu_startup\");\n            menu_startup(reconfigure);\n"@;
    lemma_apart_on(x, r, -33, 16, 33);
    lemma_apart_on(x, r, 17, 81, 8);
    lemma_apart_on(x, r, 82, 89, 0);
}

/// The locale line cannot overlap the replacement of openbox's twentieth edit.
proof fn lemma_locale_line_apart_from_twentieth_report()
    ensures
        !can_overlap("    if (!XSetLocaleModifiers(\"\"))\n"@, "            seele_debug_stage(\"OB: prompt_startup\");\n            prompt_startup(reconfigure);\n"@),
{
    reveal_strlit("    if (!XSetLocaleModifiers(\"\"))\n");
    reveal_strlit("            seele_debug_stage(\"OB: prompt_startup\");\n            prompt_startup(reconfigure);\n");
    let x = "    if (!XSetLocaleModifiers(\"\"))\n"@;
    let r = "            seele_debug_stage(\"OB: prompt_startup\");\n            prompt_startup(reconfigure);\n"@;
    lemma_apart_on(x, r, -33, 18, 33);
    lemma_apart_on(x, r, 19, 85, 8);
    lemma_apart_on(x, r, 86, 93, 0);
}

/// The locale line cannot overlap the replacement of openbox's twenty-first edit.
proof fn lemma_locale_line_apart_from_twenty_first_report()
    ensures
        !can_overlap("    if (!XSetLocaleModifiers(\"\"))\n"@, "                seele_debug_stage(\"OB: xqueue_listen\");\n                xqueue_listen();\n"@),
{
    reveal_strlit("    if (!XSetLocaleModifiers(\"\"))\n");
    reveal_strlit("                seele_debug_stage(\"OB: xqueue_listen\");\n                xqueue_listen();\n");
    let x = "    if (!XSetLocaleModifiers(\"\"))\n"@;
    let r = "                seele_debug_stage(\"OB: xqueue_listen\");\n                xqueue_listen();\n"@;
    lemma_apart_on(x, r, -33, 21, 33);
    lemma_apart_on(x, r, 22, 83, 5);
    lemma_apart_on(x, r, 84, 88, 0);
}

/// The locale line cannot overlap the replacement of openbox's twenty-second edit.
proof fn lemma_locale_line_apart_from_twenty_second_report()
    ensures
        !can_overlap("    if (!XSetLocaleModifiers(\"\"))\n"@, "                seele_debug_stage(\"OB: window_manage_all\");\n                window_manage_all();\n"@),
{
    reveal_strlit("    if (!XSetLocaleModifiers(\"\"))\n");
    reveal_strlit("                seele_debug_stage(\"OB: window_manage_all\");\n                window_manage_all();\n");
    let x = "    if (!XSetLocaleModifiers(\"\"))\n"@;
    let r = "                seele_debug_stage(\"OB: window_manage_all\");\n                window_manage_all();\n"@;
    lemma_apart_on(x, r, -33, 25, 33);
    lemma_apart_on(x, r, 26, 91, 5);
    lemma_apart_on(x, r, 92, 96, 0);
}

/// The locale line cannot overlap the replacement of openbox's twenty-third edit.
proof fn lemma_locale_line_apart_from_twenty_third_report()
    ensures
        !can_overlap("    if (!XSetLocaleModifiers(\"\"))\n"@, "            seele_debug_stage(\"OB: entering running state\");\n            ob_set_state(OB_STATE_RUNNING);\n"@),
{
    reveal_strlit("    if (!XSetLocaleModifiers(\"\"))\n");
    reveal_strlit("            seele_debug_stage(\"OB: entering running state\");\n            ob_set_state(OB_STATE_RUNNING);\n");
    let x = "    if (!XSetLocaleModifiers(\"\"))\n"@;
    let r = "            seele_debug_stage(\"OB: entering running state\");\n            ob_set_state(OB_STATE_RUNNING);\n"@;
    lemma_apart_on(x, r, -33, 26, 33);
    lemma_apart_on(x, r, 27, 99, 5);
    lemma_apart_on(x, r, 100, 104, 0);
}

/// The locale line cannot overlap the replacement of openbox's twenty-fourth edit.
proof fn lemma_locale_line_apart_from_twenty_fourth_report()
    ensures
        !can_overlap("    if (!XSetLocaleModifiers(\"\"))\n"@, "            seele_debug_stage(\"OB: entering main loop\");\n            g_main_loop_run(ob_main_loop);\n"@),
{
    reveal_strlit("    if (!XSetLocaleModifiers(\"\"))\n");
    reveal_strlit("            seele_debug_stage(\"OB: entering main loop\");\n            g_main_loop_run(ob_main_loop);\n");
    let x = "    if (!XSetLocaleModifiers(\"\"))\n"@;
    let r = "            seele_debug_stage(\"OB: entering main loop\");\n            g_main_loop_run(ob_main_loop);\n"@;
    lemma_apart_on(x, r, -33, 22, 33);
    lemma_apart_on(x, r, 23, 94, 5);
    lemma_apart_on(x, r, 95, 99, 0);
}

/// openbox's report marker cannot overlap the line of any edit after its
/// first.
pub proof fn lemma_openbox_marker_apart_from_later_edits()
    ensures
        forall|j: int|
            1 <= j < openbox_debug_edits_of().len() ==> openbox_debug_edits_of()[j].0.len() > 0
                && !can_overlap("seele_debug_stage("@, #[trigger] openbox_debug_edits_of()[j].0),
{
    reveal_strlit("    if (!remote_control)\n        session_startup(argc, argv);\n\n    if (!obt_display_open(NULL))\n");
    reveal_strlit("    ob_main_loop = g_main_loop_new(NULL, FALSE);\n");
    reveal_strlit("    ob_rr_inst = RrInstanceNew(obt_display, ob_screen);\n");
    reveal_strlit("    if (screen_annex()) { /* it will be ours! */\n");
    reveal_strlit("        do {\n");
    reveal_strlit("                /* register all the available actions */\n                actions_startup(reconfigure);\n");
    reveal_strlit("            {\n                RrTheme *theme;\n");
    reveal_strlit("            event_startup(reconfigure);\n");
    reveal_strlit("            sn_startup(reconfigure);\n");
    reveal_strlit("            window_startup(reconfigure);\n");
    reveal_strlit("            focus_startup(reconfigure);\n");
    reveal_strlit("            screen_startup(reconfigure);\n");
    reveal_strlit("            grab_startup(reconfigure);\n");
    reveal_strlit("            client_startup(reconfigure);\n");
    reveal_strlit("            dock_startup(reconfigure);\n");
    reveal_strlit("            keyboard_startup(reconfigure);\n");
    reveal_strlit("            mouse_startup(reconfigure);\n");
    reveal_strlit("            menu_startup(reconfigure);\n");
    reveal_strlit("            prompt_startup(reconfigure);\n");
    reveal_strlit("                xqueue_listen();\n");
    reveal_strlit("                window_manage_all();\n");
    reveal_strlit("            ob_set_state(OB_STATE_RUNNING);\n");
    reveal_strlit("            g_main_loop_run(ob_main_loop);\n");
    lemma_openbox_marker_apart_from_second_edit();
    lemma_openbox_marker_apart_from_third_edit();
    lemma_openbox_marker_apart_from_fourth_edit();
    lemma_openbox_marker_apart_from_fifth_edit();
    lemma_openbox_marker_apart_from_sixth_edit();
    lemma_openbox_marker_apart_from_seventh_edit();
    lemma_openbox_marker_apart_from_eighth_edit();
    lemma_openbox_marker_apart_from_ninth_edit();
    lemma_openbox_marker_apart_from_tenth_edit();
    lemma_openbox_marker_apart_from_eleventh_edit();
    lemma_openbox_marker_apart_from_twelfth_edit();
    lemma_openbox_marker_apart_from_thirteenth_edit();
    lemma_openbox_marker_apart_from_fourteenth_edit();
    lemma_openbox_marker_apart_from_fifteenth_edit();
    lemma_openbox_marker_apart_from_sixteenth_edit();
    lemma_openbox_marker_apart_from_seventeenth_edit();
    lemma_openbox_marker_apart_from_eighteenth_edit();
    lemma_openbox_marker_apart_from_nineteenth_edit();
    lemma_openbox_marker_apart_from_twentieth_edit();
    lemma_openbox_marker_apart_from_twenty_first_edit();
    lemma_openbox_marker_apart_from_twenty_second_edit();
    lemma_openbox_marker_apart_from_twenty_third_edit();
    lemma_openbox_marker_apart_from_twenty_fourth_edit();
}

/// The locale line cannot overlap the replacement of any of openbox's
/// edits, and each edit's line and replacement are not empty.
pub proof fn lemma_locale_line_apart_from_reports()
    ensures
        forall|j: int|
            0 <= j < openbox_debug_edits_of().len() ==> openbox_debug_edits_of()[j].0.len() > 0
                && openbox_debug_edits_of()[j].1.len() > 0
                && !can_overlap("    if (!XSetLocaleModifiers(\"\"))\n"@, #[trigger] openbox_debug_edits_of()[j].1),
{
    reveal_strlit("static void run_startup_cmd(void);\n");
    reveal_strlit("static void run_startup_cmd(void);\nstatic void seele_debug_stage(const char *stage)\n{\nwrite(2, stage, strlen(stage));\nwrite(2, \"\\n\", 1);\n}\n");
    reveal_strlit("    if (!remote_control)\n        session_startup(argc, argv);\n\n    if (!obt_display_open(NULL))\n");
    reveal_strlit("    if (!remote_control)\n        session_startup(argc, argv);\n\n    seele_debug_stage(\"OB: before obt_display_open\");\n    if (!obt_display_open(NULL))\n");
    reveal_strlit("    ob_main_loop = g_main_loop_new(NULL, FALSE);\n");
    reveal_strlit("    seele_debug_stage(\"OB: display open ok\");\n    ob_main_loop = g_main_loop_new(NULL, FALSE);\n");
    reveal_strlit("    ob_rr_inst = RrInstanceNew(obt_display, ob_screen);\n");
    reveal_strlit("    seele_debug_stage(\"OB: before RrInstanceNew\");\n    ob_rr_inst = RrInstanceNew(obt_display, ob_screen);\n");
    reveal_strlit("    if (screen_annex()) { /* it will be ours! */\n");
    reveal_strlit("    seele_debug_stage(\"OB: before screen_annex\");\n    if (screen_annex()) { /* it will be ours! */\n");
    reveal_strlit("        do {\n");
    reveal_strlit("        seele_debug_stage(\"OB: screen_annex ok\");\n        do {\n");
    reveal_strlit("                /* register all the available actions */\n                actions_startup(reconfigure);\n");
    reveal_strlit("                seele_debug_stage(\"OB: actions_startup\");\n                /* register all the available actions */\n                actions_startup(reconfigure);\n");
    reveal_strlit("            {\n                RrTheme *theme;\n");
    reveal_strlit("            seele_debug_stage(\"OB: config loaded\");\n            {\n                RrTheme *theme;\n");
    reveal_strlit("            event_startup(reconfigure);\n");
    reveal_strlit("            seele_debug_stage(\"OB: theme loaded\");\n            seele_debug_stage(\"OB: event_startup\");\n            event_startup(reconfigure);\n");
    reveal_strlit("            sn_startup(reconfigure);\n");
    reveal_strlit("            seele_debug_stage(\"OB: sn_startup\");\n            sn_startup(reconfigure);\n");
    reveal_strlit("            window_startup(reconfigure);\n");
    reveal_strlit("            seele_debug_stage(\"OB: window_startup\");\n            window_startup(reconfigure);\n");
    reveal_strlit("            focus_startup(reconfigure);\n");
    reveal_strlit("            seele_debug_stage(\"OB: focus_startup\");\n            focus_startup(reconfigure);\n");
    reveal_strlit("            screen_startup(reconfigure);\n");
    reveal_strlit("            seele_debug_stage(\"OB: screen_startup\");\n            screen_startup(reconfigure);\n");
    reveal_strlit("            grab_startup(reconfigure);\n");
    reveal_strlit("            seele_debug_stage(\"OB: grab_startup\");\n            grab_startup(reconfigure);\n");
    reveal_strlit("            client_startup(reconfigure);\n");
    reveal_strlit("            seele_debug_stage(\"OB: client_startup\");\n            client_startup(reconfigure);\n");
    reveal_strlit("            dock_startup(reconfigure);\n");
    reveal_strlit("            seele_debug_stage(\"OB: dock_startup\");\n            dock_startup(reconfigure);\n");
    reveal_strlit("            keyboard_startup(reconfigure);\n");
    reveal_strlit("            seele_debug_stage(\"OB: keyboard_startup\");\n            keyboard_startup(reconfigure);\n");
    reveal_strlit("            mouse_startup(reconfigure);\n");
    reveal_strlit("            seele_debug_stage(\"OB: mouse_startup\");\n            mouse_startup(reconfigure);\n");
    reveal_strlit("            menu_startup(reconfigure);\n");
    reveal_strlit("            seele_debug_stage(\"OB: menu_startup\");\n            menu_startup(reconfigure);\n");
    reveal_strlit("            prompt_startup(reconfigure);\n");
    reveal_strlit("            seele_debug_stage(\"OB: prompt_startup\");\n            prompt_startup(reconfigure);\n");
    reveal_strlit("                xqueue_listen();\n");
    reveal_strlit("                seele_debug_stage(\"OB: xqueue_listen\");\n                xqueue_listen();\n");
    reveal_strlit("                window_manage_all();\n");
    reveal_strlit("                seele_debug_stage(\"OB: window_manage_all\");\n                window_manage_all();\n");
    reveal_strlit("            ob_set_state(OB_STATE_RUNNING);\n");
    reveal_strlit("            seele_debug_stage(\"OB: entering running state\");\n            ob_set_state(OB_STATE_RUNNING);\n");
    reveal_strlit("            g_main_loop_run(ob_main_loop);\n");
    reveal_strlit("            seele_debug_stage(\"OB: entering main loop\");\n            g_main_loop_run(ob_main_loop);\n");
    lemma_locale_line_apart_from_first_report();
    lemma_locale_line_apart_from_second_report();
    lemma_locale_line_apart_from_third_report();
    lemma_locale_line_apart_from_fourth_report();
    lemma_locale_line_apart_from_fifth_report();
    lemma_locale_line_apart_from_sixth_report();
    lemma_locale_line_apart_from_seventh_report();
    lemma_locale_line_apart_from_eighth_report();
    lemma_locale_line_apart_from_ninth_report();
    lemma_locale_line_apart_from_tenth_report();
    lemma_locale_line_apart_from_eleventh_report();
    lemma_locale_line_apart_from_twelfth_report();
    lemma_locale_line_apart_from_thirteenth_report();
    lemma_locale_line_apart_from_fourteenth_report();
    lemma_locale_line_apart_from_fifteenth_report();
    lemma_locale_line_apart_from_sixteenth_report();
    lemma_locale_line_apart_from_seventeenth_report();
    lemma_locale_line_apart_from_eighteenth_report();
    lemma_locale_line_apart_from_nineteenth_report();
    lemma_locale_line_apart_from_twentieth_report();
    lemma_locale_line_apart_from_twenty_first_report();
    lemma_locale_line_apart_from_twenty_second_report();
    lemma_locale_line_apart_from_twenty_third_report();
    lemma_locale_line_apart_from_twenty_fourth_report();
}

/// openbox's input method set-up cannot overlap the code that replaces it.
pub proof fn lemma_keyboard_setup_apart_from_its_replacement()
    ensures
        !can_overlap("    GSList *it;\n    gchar *aname, *aclass;\n\n    aname = g_strdup(g_get_prgname());\n    if (!aname) aname = g_strdup(\"obt\");\n\n    aclass = g_strdup(aname);\n    if (g_ascii_islower(aclass[0]))\n        aclass[0] = g_ascii_toupper(aclass[0]);\n\n    xim = XOpenIM(obt_display, NULL, aname, aclass);\n\n    if (!xim)\n        g_message(\"Failed to open an Input Method\");\n    else {\n        XIMStyles *xim_styles = NULL;\n        char *r;\n\n        /* get the input method styles */\n        r = XGetIMValues(xim, XNQueryInputStyle, &xim_styles, NULL);\n        if (r || !xim_styles)\n            g_message(\"Input Method does not support any styles\");\n        if (xim_styles) {\n            int i;\n\n            /* find a style that doesnt need preedit or status */\n            for (i = 0; i < xim_styles->count_styles; ++i) {\n                if (xim_styles->supported_styles[i] == \n                    (XIMPreeditNothing | XIMStatusNothing))\n                {\n                    xim_style = xim_styles->supported_styles[i];\n                    break;\n                }\n            }\n            XFree(xim_styles);\n        }\n\n        if (!xim_style) {\n            g_message(\"Input Method does not support a usable style\");\n\n            XCloseIM(xim);\n            xim = NULL;\n        }\n    }\n\n    /* any existing contexts need to be recreated for the new input method */\n    for (it = xic_all; it; it = g_slist_next(it))\n        obt_keyboard_context_renew(it->data);\n\n    g_free(aclass);\n    g_free(aname);\n"@, "    GSList *it;\n\n    /* SeeleOS does not provide a working XIM stack yet. */\n    xim = NULL;\n    xim_style = 0;\n\n    /* any existing contexts need to be recreated for the new input method */\n    for (it = xic_all; it; it = g_slist_next(it))\n        obt_keyboard_context_renew(it->data);\n"@),
{
    reveal_strlit("    GSList *it;\n    gchar *aname, *aclass;\n\n    aname = g_strdup(g_get_prgname());\n    if (!aname) aname = g_strdup(\"obt\");\n\n    aclass = g_strdup(aname);\n    if (g_ascii_islower(aclass[0]))\n        aclass[0] = g_ascii_toupper(aclass[0]);\n\n    xim = XOpenIM(obt_display, NULL, aname, aclass);\n\n    if (!xim)\n        g_message(\"Failed to open an Input Method\");\n    else {\n        XIMStyles *xim_styles = NULL;\n        char *r;\n\n        /* get the input method styles */\n        r = XGetIMValues(xim, XNQueryInputStyle, &xim_styles, NULL);\n        if (r || !xim_styles)\n            g_message(\"Input Method does not support any styles\");\n        if (xim_styles) {\n            int i;\n\n            /* find a style that doesnt need preedit or status */\n            for (i = 0; i < xim_styles->count_styles; ++i) {\n                if (xim_styles->supported_styles[i] == \n                    (XIMPreeditNothing | XIMStatusNothing))\n                {\n                    xim_style = xim_styles->supported_styles[i];\n                    break;\n                }\n            }\n            XFree(xim_styles);\n        }\n\n        if (!xim_style) {\n            g_message(\"Input Method does not support a usable style\");\n\n            XCloseIM(xim);\n            xim = NULL;\n        }\n    }\n\n    /* any existing contexts need to be recreated for the new input method */\n    for (it = xic_all; it; it = g_slist_next(it))\n        obt_keyboard_context_renew(it->data);\n\n    g_free(aclass);\n    g_free(aname);\n");
    reveal_strlit("    GSList *it;\n\n    /* SeeleOS does not provide a working XIM stack yet. */\n    xim = NULL;\n    xim_style = 0;\n\n    /* any existing contexts need to be recreated for the new input method */\n    for (it = xic_all; it; it = g_slist_next(it))\n        obt_keyboard_context_renew(it->data);\n");
    let x = "    GSList *it;\n    gchar *aname, *aclass;\n\n    aname = g_strdup(g_get_prgname());\n    if (!aname) aname = g_strdup(\"obt\");\n\n    aclass = g_strdup(aname);\n    if (g_ascii_islower(aclass[0]))\n        aclass[0] = g_ascii_toupper(aclass[0]);\n\n    xim = XOpenIM(obt_display, NULL, aname, aclass);\n\n    if (!xim)\n        g_message(\"Failed to open an Input Method\");\n    else {\n        XIMStyles *xim_styles = NULL;\n        char *r;\n\n        /* get the input method styles */\n        r = XGetIMValues(xim, XNQueryInputStyle, &xim_styles, NULL);\n        if (r || !xim_styles)\n            g_message(\"Input Method does not support any styles\");\n        if (xim_styles) {\n            int i;\n\n            /* find a style that doesnt need preedit or status */\n            for (i = 0; i < xim_styles->count_styles; ++i) {\n                if (xim_styles->supported_styles[i] == \n                    (XIMPreeditNothing | XIMStatusNothing))\n                {\n                    xim_style = xim_styles->supported_styles[i];\n                    break;\n                }\n            }\n            XFree(xim_styles);\n        }\n\n        if (!xim_style) {\n            g_message(\"Input Method does not support a usable style\");\n\n            XCloseIM(xim);\n            xim = NULL;\n        }\n    }\n\n    /* any existing contexts need to be recreated for the new input method */\n    for (it = xic_all; it; it = g_slist_next(it))\n        obt_keyboard_context_renew(it->data);\n\n    g_free(aclass);\n    g_free(aname);\n"@;
    let r = "    GSList *it;\n\n    /* SeeleOS does not provide a working XIM stack yet. */\n    xim = NULL;\n    xim_style = 0;\n\n    /* any existing contexts need to be recreated for the new input method */\n    for (it = xic_all; it; it = g_slist_next(it))\n        obt_keyboard_context_renew(it->data);\n"@;
    lemma_apart_on(x, r, -1488, -1474, 1488);
    lemma_apart_on(x, r, -1473, -1249, 1486);
    lemma_apart_on(x, r, -1248, -980, 1266);
    lemma_apart_on(x, r, -979, -708, 985);
    lemma_apart_on(x, r, -707, -488, 774);
    lemma_apart_on(x, r, -487, -202, 488);
    lemma_apart_on(x, r, -201, 81, 205);
    lemma_apart_on(x, r, 82, 282, 4);
    lemma_apart_on(x, r, 283, 286, 0);
}

/// The start of `openbox-session` cannot overlap the line that replaces it.
pub proof fn lemma_session_start_apart_from_its_replacement()
    ensures
        !can_overlap("exec /programs/openbox --startup \"//libexec/openbox-autostart OPENBOX\" \"$@\""@, "exec /programs/openbox --sm-disable --startup \"/libexec/openbox-autostart OPENBOX\" \"$@\""@),
{
    reveal_strlit("exec /programs/openbox --startup \"//libexec/openbox-autostart OPENBOX\" \"$@\"");
    reveal_strlit("exec /programs/openbox --sm-disable --startup \"/libexec/openbox-autostart OPENBOX\" \"$@\"");
    let x = "exec /programs/openbox --startup \"//libexec/openbox-autostart OPENBOX\" \"$@\""@;
    let r = "exec /programs/openbox --sm-disable --startup \"/libexec/openbox-autostart OPENBOX\" \"$@\""@;
    lemma_apart_on(x, r, -74, -29, 74);
    lemma_apart_on(x, r, -28, 12, 30);
    lemma_apart_on(x, r, 13, 77, 9);
    lemma_apart_on(x, r, 78, 86, 0);
}

/// The XDG autostart line cannot overlap the lines that replace it.
pub proof fn lemma_xdg_autostart_apart_from_its_replacement()
    ensures
        !can_overlap("//libexec/openbox-xdg-autostart \"$@\""@, "if test -x /programs/python && test -f /libexec/openbox-xdg-autostart; then\n    /programs/python /libexec/openbox-xdg-autostart \"$@\"\nfi"@),
{
    reveal_strlit("//libexec/openbox-xdg-autostart \"$@\"");
    reveal_strlit("if test -x /programs/python && test -f /libexec/openbox-xdg-autostart; then\n    /programs/python /libexec/openbox-xdg-autostart \"$@\"\nfi");
    let x = "//libexec/openbox-xdg-autostart \"$@\""@;
    let r = "if test -x /programs/python && test -f /libexec/openbox-xdg-autostart; then\n    /programs/python /libexec/openbox-xdg-autostart \"$@\"\nfi"@;
    lemma_apart_on(x, r, -35, 92, 35);
    lemma_apart_on(x, r, 93, 96, 0);
    lemma_apart_on(x, r, 97, 132, 2);
    lemma_apart_on(x, r, 133, 134, 0);
}

/// The first pattern of the script edits cannot overlap their first replacement.
proof fn lemma_script_first_pattern_apart_from_first_replacement()
    ensures
        !can_overlap("#!/bin/sh"@, "#!/programs/bash"@),
{
    reveal_strlit("#!/bin/sh");
    reveal_strlit("#!/programs/bash");
    let x = "#!/bin/sh"@;
    let r = "#!/programs/bash"@;
    lemma_apart_on(x, r, -8, 6, 8);
    lemma_apart_on(x, r, 7, 15, 0);
}

/// The first pattern of the script edits cannot overlap their second replacement.
proof fn lemma_script_first_pattern_apart_from_second_replacement()
    ensures
        !can_overlap("#!/bin/sh"@, "\n    /programs/bash "@),
{
    reveal_strlit("#!/bin/sh");
    reveal_strlit("\n    /programs/bash ");
    let x = "#!/bin/sh"@;
    let r = "\n    /programs/bash "@;
    lemma_apart_on(x, r, -8, 9, 8);
    lemma_apart_on(x, r, 10, 19, 0);
}

/// The first pattern of the script edits cannot overlap their third replacement.
proof fn lemma_script_first_pattern_apart_from_third_replacement()
    ensures
        !can_overlap("#!/bin/sh"@, "\n    /programs/bash\t"@),
{
    reveal_strlit("#!/bin/sh");
    reveal_strlit("\n    /programs/bash\t");
    let x = "#!/bin/sh"@;
    let r = "\n    /programs/bash\t"@;
    lemma_apart_on(x, r, -8, 9, 8);
    lemma_apart_on(x, r, 10, 19, 0);
}

/// The first pattern of the script edits cannot overlap their fourth replacement.
proof fn lemma_script_first_pattern_apart_from_fourth_replacement()
    ensures
        !can_overlap("#!/bin/sh"@, "\n    /programs/bash$"@),
{
    reveal_strlit("#!/bin/sh");
    reveal_strlit("\n    /programs/bash$");
    let x = "#!/bin/sh"@;
    let r = "\n    /programs/bash$"@;
    lemma_apart_on(x, r, -8, 9, 8);
    lemma_apart_on(x, r, 10, 19, 0);
}

/// The second pattern of the script edits cannot overlap their second replacement.
proof fn lemma_script_second_pattern_apart_from_second_replacement()
    ensures
        !can_overlap("\n    sh "@, "\n    /programs/bash "@),
{
    reveal_strlit("\n    sh ");
    reveal_strlit("\n    /programs/bash ");
    let x = "\n    sh "@;
    let r = "\n    /programs/bash "@;
    lemma_apart_on(x, r, -7, -7, 7);
    lemma_apart_on(x, r, -6, 11, 6);
    lemma_apart_on(x, r, 12, 19, 0);
}

/// The second pattern of the script edits cannot overlap their third replacement.
proof fn lemma_script_second_pattern_apart_from_third_replacement()
    ensures
        !can_overlap("\n    sh "@, "\n    /programs/bash\t"@),
{
    reveal_strlit("\n    sh ");
    reveal_strlit("\n    /programs/bash\t");
    let x = "\n    sh "@;
    let r = "\n    /programs/bash\t"@;
    lemma_apart_on(x, r, -7, -7, 7);
    lemma_apart_on(x, r, -6, 11, 6);
    lemma_apart_on(x, r, 12, 19, 0);
}

/// The second pattern of the script edits cannot overlap their fourth replacement.
proof fn lemma_script_second_pattern_apart_from_fourth_replacement()
    ensures
        !can_overlap("\n    sh "@, "\n    /programs/bash$"@),
{
    reveal_strlit("\n    sh ");
    reveal_strlit("\n    /programs/bash$");
    let x = "\n    sh "@;
    let r = "\n    /programs/bash$"@;
    lemma_apart_on(x, r, -7, -7, 7);
    lemma_apart_on(x, r, -6, 11, 6);
    lemma_apart_on(x, r, 12, 19, 0);
}

/// The third pattern of the script edits cannot overlap their third replacement.
proof fn lemma_script_third_pattern_apart_from_third_replacement()
    ensures
        !can_overlap("\n    sh\t"@, "\n    /programs/bash\t"@),
{
    reveal_strlit("\n    sh\t");
    reveal_strlit("\n    /programs/bash\t");
    let x = "\n    sh\t"@;
    let r = "\n    /programs/bash\t"@;
    lemma_apart_on(x, r, -7, 11, 7);
    lemma_apart_on(x, r, 12, 19, 0);
}

/// The third pattern of the script edits cannot overlap their fourth replacement.
proof fn lemma_script_third_pattern_apart_from_fourth_replacement()
    ensures
        !can_overlap("\n    sh\t"@, "\n    /programs/bash$"@),
{
    reveal_strlit("\n    sh\t");
    reveal_strlit("\n    /programs/bash$");
    let x = "\n    sh\t"@;
    let r = "\n    /programs/bash$"@;
    lemma_apart_on(x, r, -7, 12, 7);
    lemma_apart_on(x, r, 13, 19, 0);
}

/// The fourth pattern of the script edits cannot overlap their fourth replacement.
proof fn lemma_script_fourth_pattern_apart_from_fourth_replacement()
    ensures
        !can_overlap("\n    sh$"@, "\n    /programs/bash$"@),
{
    reveal_strlit("\n    sh$");
    reveal_strlit("\n    /programs/bash$");
    let x = "\n    sh$"@;
    let r = "\n    /programs/bash$"@;
    lemma_apart_on(x, r, -7, 11, 7);
    lemma_apart_on(x, r, 12, 19, 0);
}

/// No pattern of the script edits can overlap its own replacement or a
/// later one, and none of their texts is empty.
pub proof fn lemma_script_patterns_apart_from_replacements()
    ensures
        forall|j: int|
            0 <= j < openbox_script_edits_of().len() ==> openbox_script_edits_of()[j].0.len() > 0
                && openbox_script_edits_of()[j].1.len() > 0,
        forall|k: int, j: int|
            0 <= k <= j < openbox_script_edits_of().len() ==> !can_overlap(
                #[trigger] openbox_script_edits_of()[k].0,
                #[trigger] openbox_script_edits_of()[j].1,
            ),
{
    reveal_strlit("#!/bin/sh");
    reveal_strlit("#!/programs/bash");
    reveal_strlit("\n    sh ");
    reveal_strlit("\n    /programs/bash ");
    reveal_strlit("\n    sh\t");
    reveal_strlit("\n    /programs/bash\t");
    reveal_strlit("\n    sh$");
    reveal_strlit("\n    /programs/bash$");
    lemma_script_first_pattern_apart_from_first_replacement();
    lemma_script_first_pattern_apart_from_second_replacement();
    lemma_script_first_pattern_apart_from_third_replacement();
    lemma_script_first_pattern_apart_from_fourth_replacement();
    lemma_script_second_pattern_apart_from_second_replacement();
    lemma_script_second_pattern_apart_from_third_replacement();
    lemma_script_second_pattern_apart_from_fourth_replacement();
    lemma_script_third_pattern_apart_from_third_replacement();
    lemma_script_third_pattern_apart_from_fourth_replacement();
    lemma_script_fourth_pattern_apart_from_fourth_replacement();
}

} // verus!
