use palette_core::color::Color;
use palette_core::css::{css_name, fallback_slot, to_css_custom_properties, write_section};
use palette_core::manifest::{ManifestSection, PaletteManifest, PlatformSections};
use palette_core::palette::Palette;
use palette_core::presets::preset_toml;

fn load_preset(name: &str) -> PaletteManifest {
    PaletteManifest::from_toml(preset_toml(name).unwrap()).unwrap()
}

fn manifest_with_base(entries: &[(&str, &str)]) -> PaletteManifest {
    let mut base = ManifestSection::new();
    for (k, v) in entries {
        base.insert((*k).to_owned(), (*v).to_owned());
    }
    PaletteManifest {
        meta: None,
        base,
        semantic: ManifestSection::new(),
        diff: ManifestSection::new(),
        surface: ManifestSection::new(),
        typography: ManifestSection::new(),
        syntax: ManifestSection::new(),
        editor: ManifestSection::new(),
        terminal: ManifestSection::new(),
        platform: PlatformSections::new(),
    }
}

#[test]
fn no_prefix_produces_bare_variables() {
    let manifest = load_preset("tokyonight");
    let palette = Palette::from_manifest(&manifest).unwrap();
    let css = to_css_custom_properties(&palette, None);

    assert!(
        css.contains("--bg: #"),
        "expected bare --bg variable, got:\n{css}",
    );
}

#[test]
fn prefix_prepended_to_all_variables() {
    let manifest = load_preset("tokyonight");
    let palette = Palette::from_manifest(&manifest).unwrap();
    let css = to_css_custom_properties(&palette, Some("mx"));

    assert!(
        css.contains("--mx-bg: #"),
        "expected prefixed --mx-bg variable, got:\n{css}",
    );

    let var_lines: Vec<&str> = css.lines().filter(|l| l.trim_start().starts_with("--")).collect();
    assert!(
        var_lines.iter().all(|l| l.trim_start().starts_with("--mx-")),
        "all variables should have --mx- prefix, got:\n{}",
        var_lines.join("\n"),
    );
}

#[test]
fn all_populated_slots_present() {
    let manifest = load_preset("tokyonight");
    let palette = Palette::from_manifest(&manifest).unwrap();
    let css = to_css_custom_properties(&palette, None);

    let populated_count = palette.base.populated_slots().len()
        + palette.semantic.populated_slots().len()
        + palette.diff.populated_slots().len()
        + palette.surface.populated_slots().len()
        + palette.typography.populated_slots().len()
        + palette.syntax.populated_slots().len()
        + palette.editor.populated_slots().len()
        + palette.terminal_ansi.populated_slots().len();

    let css_line_count = css.lines().filter(|l| l.contains("--")).count();
    assert_eq!(css_line_count, populated_count);
}

#[test]
fn none_slots_absent() {
    let manifest = manifest_with_base(&[("background", "#000000")]);
    let palette = Palette::from_manifest(&manifest).unwrap();
    let css = to_css_custom_properties(&palette, None);

    assert!(css.contains("--bg:"));
    assert!(!css.contains("--fg"));
    assert!(!css.contains("--success"));
    assert!(!css.contains("--ansi-"));
}

#[test]
fn field_names_map_to_short_css_names() {
    let manifest = manifest_with_base(&[("background_dark", "#111111")]);
    let palette = Palette::from_manifest(&manifest).unwrap();
    let css = to_css_custom_properties(&palette, None);

    assert!(
        css.contains("--bg-dark:"),
        "background_dark should map to --bg-dark, got:\n{css}",
    );
    assert!(!css.contains("background_dark"), "raw field names should not appear in CSS output");
}

#[test]
fn all_css_names_match_design_spec() {
    let manifest = load_preset("tokyonight");
    let palette = Palette::from_manifest(&manifest).unwrap();
    let css = to_css_custom_properties(&palette, None);

    // Spot-check one variable from each section
    assert!(css.contains("--bg:"), "base: --bg");
    assert!(css.contains("--error:"), "semantic: --error");
    assert!(css.contains("--syn-keyword:"), "syntax: --syn-keyword");
    assert!(css.contains("--ed-cursor:"), "editor: --ed-cursor");
    assert!(css.contains("--diff-added:"), "diff: --diff-added");
    assert!(css.contains("--ansi-red:"), "terminal: --ansi-red");
    assert!(css.contains("--ui-menu:"), "surface: --ui-menu");
    assert!(css.contains("--text-comment:"), "typography: --text-comment");
}

#[test]
fn css_text_is_exact() {
    let mut manifest = manifest_with_base(&[("foreground", "#c0caf5"), ("background", "#1a1b2a")]);
    manifest.semantic.insert("error".to_owned(), "#db4b4b".to_owned());
    manifest.terminal.insert("bright_red".to_owned(), "#ff0000".to_owned());
    manifest.syntax.insert("keywords_fn".to_owned(), "#010203".to_owned());
    let palette = Palette::from_manifest(&manifest).unwrap();
    assert_eq!(
        palette.to_css(None),
        "  --bg: #1A1B2A;\n  --fg: #C0CAF5;\n  --error: #DB4B4B;\n  --syn-keyword-fn: #010203;\n  --ansi-bright-red: #FF0000;\n"
    );
    assert_eq!(
        palette.to_css(Some("mx")),
        "  --mx-bg: #1A1B2A;\n  --mx-fg: #C0CAF5;\n  --mx-error: #DB4B4B;\n  --mx-syn-keyword-fn: #010203;\n  --mx-ansi-bright-red: #FF0000;\n"
    );
    assert_eq!(to_css_custom_properties(&palette, Some("")), palette.to_css(Some("")));
    assert!(palette.to_css(Some("")).starts_with("  ---bg: #1A1B2A;\n"));
}

#[test]
fn css_of_a_palette_without_colors_is_empty() {
    let palette = Palette::from_manifest(&manifest_with_base(&[])).unwrap();
    assert_eq!(palette.to_css(None), "");
    assert_eq!(palette.to_css(Some("p")), "");
}

#[test]
fn css_name_follows_the_alias_table() {
    assert_eq!(css_name("base", "background"), Some("bg"));
    assert_eq!(css_name("base", "border_highlight"), Some("border-hi"));
    assert_eq!(css_name("semantic", "hint"), Some("hint"));
    assert_eq!(css_name("surface", "selection"), Some("ui-sel"));
    assert_eq!(css_name("typography", "line_number"), Some("text-line-num"));
    assert_eq!(css_name("syntax", "keywords"), Some("syn-keyword"));
    assert_eq!(css_name("syntax", "comments"), Some("syn-comment"));
    assert_eq!(css_name("editor", "diagnostic_underline_hint"), Some("ed-diag-ul-hint"));
    assert_eq!(css_name("diff", "text_bg"), Some("diff-text-bg"));
    assert_eq!(css_name("terminal", "red"), Some("ansi-red"));
    assert_eq!(css_name("terminal", "bright_white"), Some("ansi-bright-white"));
    assert_eq!(css_name("terminal_ansi", "red"), None);
    assert_eq!(css_name("base", "red"), None);
    assert_eq!(css_name("", ""), None);
    assert_eq!(css_name("background", "base"), None);
}

#[test]
fn fallback_slot_hyphenates() {
    assert_eq!(fallback_slot("extra", "some_new_slot"), "extra-some-new-slot");
    assert_eq!(fallback_slot("extra", "plain"), "extra-plain");
    assert_eq!(fallback_slot("", ""), "-");
    assert_eq!(fallback_slot("a_b", "_c_"), "a_b--c-");
    assert_eq!(fallback_slot("s", "caf\u{e9}_x"), "s-caf\u{e9}-x");
}

#[test]
fn write_section_appends_and_falls_back() {
    let mut out = String::from("head\n");
    let slots = vec![("background", Color { r: 1, g: 2, b: 3 }), ("new_slot", Color { r: 255, g: 0, b: 16 })];
    write_section(&mut out, Some("x"), "base", &slots);
    assert_eq!(out, "head\n  --x-bg: #010203;\n  --x-base-new-slot: #FF0010;\n");
    write_section(&mut out, None, "other", &slots);
    assert_eq!(
        out,
        "head\n  --x-bg: #010203;\n  --x-base-new-slot: #FF0010;\n  --other-background: #010203;\n  --other-new-slot: #FF0010;\n"
    );
    let before = out.clone();
    write_section(&mut out, None, "base", &Vec::new());
    assert_eq!(out, before);
}
