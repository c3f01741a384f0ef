use palette_core::color::Color;
use palette_core::error::PaletteError;
use palette_core::groups::{BaseColors, SemanticColors, SyntaxColors, TerminalAnsiColors};
use palette_core::manifest::{ManifestSection, PaletteManifest, PlatformSections};
use palette_core::merge::merge_manifests;
use palette_core::palette::Palette;
use palette_core::presets::preset_toml;
use palette_core::slots::resolve_color;

fn load_preset(name: &str) -> PaletteManifest {
    PaletteManifest::from_toml(preset_toml(name).unwrap()).unwrap()
}

fn section(entries: &[(&str, &str)]) -> ManifestSection {
    let mut s = ManifestSection::new();
    for (k, v) in entries {
        s.insert((*k).to_owned(), (*v).to_owned());
    }
    s
}

fn manifest_with_base(base: ManifestSection) -> PaletteManifest {
    PaletteManifest {
        meta: None,
        base,
        semantic: ManifestSection::new(),
        diff: ManifestSection::new(),
        surface: ManifestSection::new(),
        typography: ManifestSection::new(),
        syntax: ManifestSection::new(),
        editor: ManifestSection::new(),
        terminal: ManifestSection::new(),
        platform: PlatformSections::new(),
    }
}

#[test]
fn full_base_resolves_all_colors() {
    let manifest = load_preset("tokyonight");
    let palette = Palette::from_manifest(&manifest).unwrap();

    assert!(palette.base.background.is_some());
    assert!(palette.base.background_dark.is_some());
    assert!(palette.base.background_highlight.is_some());
    assert!(palette.base.foreground.is_some());
    assert!(palette.base.foreground_dark.is_some());
    assert!(palette.base.border.is_some());
    assert!(palette.base.border_highlight.is_some());
}

#[test]
fn merged_variant_inherits() {
    let base = load_preset("tokyonight");
    let storm = load_preset("tokyonight_storm");
    let merged = merge_manifests(&storm, &base);
    let palette = Palette::from_manifest(&merged).unwrap();

    // Storm overrides background
    assert_eq!(palette.base.background.unwrap().to_hex(), "#24283B",);
    // Inherits terminal colors from base (except black)
    assert_eq!(palette.terminal_ansi.red.unwrap().to_hex(), "#F7768E",);
}

#[test]
fn sparse_section_yields_none() {
    let toml = r##"
[base]
background = "#000000"
"##;
    let manifest = PaletteManifest::from_toml(toml).unwrap();
    let palette = Palette::from_manifest(&manifest).unwrap();

    assert!(palette.base.background.is_some());
    assert!(palette.base.foreground.is_none());
    assert!(palette.syntax.keywords.is_none());
    assert!(palette.terminal_ansi.red.is_none());
}

#[test]
fn invalid_hex_returns_error() {
    let toml = r##"
[base]
background = "not-a-color"
"##;
    let manifest = PaletteManifest::from_toml(toml).unwrap();
    let err = Palette::from_manifest(&manifest).unwrap_err();

    assert!(
        matches!(
            &err,
            PaletteError::InvalidHex { section, field, value }
                if section.as_str() == "base"
                && field.as_str() == "background"
                && value.as_str() == "not-a-color"
        ),
        "expected InvalidHex with context, got: {err:?}",
    );
}

#[test]
fn meta_propagates() {
    let manifest = load_preset("tokyonight");
    let palette = Palette::from_manifest(&manifest).unwrap();
    let meta = palette.meta.unwrap();

    assert_eq!(meta.name.as_str(), "TokyoNight (Night)");
    assert_eq!(meta.preset_id.as_str(), "tokyonight");
    assert_eq!(meta.style.as_str(), "night");
}

#[test]
fn no_meta_yields_none() {
    let manifest = manifest_with_base(section(&[("background", "#000000")]));
    let palette = Palette::from_manifest(&manifest).unwrap();
    assert!(palette.meta.is_none());
}

#[test]
fn default_has_legible_base_colors() {
    let palette = Palette::default();
    assert!(palette.meta.is_none());
    assert!(palette.base.background.is_some());
    assert!(palette.base.foreground.is_some());
    assert!(palette.base.border.is_some());
}

#[test]
fn default_has_semantic_colors() {
    let palette = Palette::default();
    assert!(palette.semantic.error.is_some());
    assert!(palette.semantic.warning.is_some());
    assert!(palette.semantic.success.is_some());
    assert!(palette.semantic.info.is_some());
}

#[test]
fn default_produces_valid_css() {
    let palette = Palette::default();
    let css = palette.to_css(None);
    assert!(css.contains("--bg:"));
    assert!(css.contains("--fg:"));
    assert!(css.contains("--error:"));
}

#[test]
fn default_has_exactly_its_fourteen_colors() {
    let palette = Palette::default();
    assert_eq!(palette.base.background, Some(Color { r: 0x1a, g: 0x1a, b: 0x2e }));
    assert_eq!(palette.base.border_highlight, Some(Color { r: 0x50, g: 0x50, b: 0x68 }));
    assert_eq!(palette.semantic.hint, Some(Color { r: 0x70, g: 0x70, b: 0x88 }));
    assert_eq!(palette.surface.highlight, Some(Color { r: 0x2a, g: 0x2a, b: 0x44 }));
    assert_eq!(palette.surface.selection, Some(Color { r: 0x30, g: 0x30, b: 0x50 }));
    assert_eq!(palette.base.populated_slots().len(), 7);
    assert_eq!(palette.semantic.populated_slots().len(), 5);
    assert_eq!(palette.surface.populated_slots().len(), 2);
    assert!(palette.diff.populated_slots().is_empty());
    assert!(palette.typography.populated_slots().is_empty());
    assert!(palette.syntax.populated_slots().is_empty());
    assert!(palette.editor.populated_slots().is_empty());
    assert!(palette.terminal_ansi.populated_slots().is_empty());
    assert!(palette.platform.is_empty());
}

#[test]
fn every_slot_reads_the_key_of_its_own_name() {
    let names = SyntaxColors::slot_names();
    assert_eq!(names.len(), 26);
    for (i, name) in names.iter().enumerate() {
        let mut manifest = manifest_with_base(ManifestSection::new());
        manifest.syntax.insert((*name).to_owned(), "#0000ff".to_owned());
        let palette = Palette::from_manifest(&manifest).unwrap();
        let slots = palette.syntax.slot_values();
        for (j, slot) in slots.iter().enumerate() {
            if i == j {
                assert_eq!(*slot, Some(Color { r: 0, g: 0, b: 255 }));
            } else {
                assert_eq!(*slot, None);
            }
        }
        assert_eq!(palette.syntax.populated_slots(), vec![(*name, Color { r: 0, g: 0, b: 255 })]);
    }
}

#[test]
fn group_slot_names_match_the_vocabulary() {
    assert_eq!(
        BaseColors::slot_names(),
        vec![
            "background",
            "background_dark",
            "background_highlight",
            "foreground",
            "foreground_dark",
            "border",
            "border_highlight"
        ]
    );
    assert_eq!(SemanticColors::slot_names(), vec!["success", "warning", "error", "info", "hint"]);
    let ansi = TerminalAnsiColors::slot_names();
    assert_eq!(ansi.len(), 16);
    assert_eq!(ansi[0], "black");
    assert_eq!(ansi[7], "white");
    assert_eq!(ansi[8], "bright_black");
    assert_eq!(ansi[15], "bright_white");
}

#[test]
fn populated_slots_keep_declaration_order() {
    let mut manifest = manifest_with_base(section(&[
        ("border", "#030303"),
        ("background", "#010101"),
        ("foreground", "#020202"),
    ]));
    manifest.base.insert("unknown_slot".to_owned(), "ignored, not even hex".to_owned());
    let palette = Palette::from_manifest(&manifest).unwrap();
    assert_eq!(
        palette.base.populated_slots(),
        vec![
            ("background", Color { r: 1, g: 1, b: 1 }),
            ("foreground", Color { r: 2, g: 2, b: 2 }),
            ("border", Color { r: 3, g: 3, b: 3 }),
        ]
    );
}

#[test]
fn first_invalid_slot_in_declaration_order_is_reported() {
    let mut manifest = manifest_with_base(section(&[
        ("foreground", "bad-fg"),
        ("background_dark", "bad-dark"),
        ("background", "#000000"),
    ]));
    manifest.semantic.insert("success".to_owned(), "bad-success".to_owned());
    let err = Palette::from_manifest(&manifest).unwrap_err();
    match err {
        PaletteError::InvalidHex { section, field, value } => {
            assert_eq!(section, "base");
            assert_eq!(field, "background_dark");
            assert_eq!(value, "bad-dark");
        }
        other => panic!("expected InvalidHex, got {other:?}"),
    }
}

#[test]
fn sections_are_resolved_in_their_fixed_order() {
    let order = ["semantic", "diff", "surface", "typography", "syntax", "editor", "terminal"];
    let slot = ["hint", "ignored", "search", "title", "comments", "cursor", "bright_white"];
    for first in 0..order.len() {
        let mut manifest = manifest_with_base(ManifestSection::new());
        for k in first..order.len() {
            let target = match order[k] {
                "semantic" => &mut manifest.semantic,
                "diff" => &mut manifest.diff,
                "surface" => &mut manifest.surface,
                "typography" => &mut manifest.typography,
                "syntax" => &mut manifest.syntax,
                "editor" => &mut manifest.editor,
                _ => &mut manifest.terminal,
            };
            target.insert(slot[k].to_owned(), format!("bad-{k}"));
        }
        let mut platform = ManifestSection::new();
        platform.insert("background".to_owned(), "bad-platform".to_owned());
        manifest.platform.insert("web".to_owned(), platform);
        match Palette::from_manifest(&manifest).unwrap_err() {
            PaletteError::InvalidHex { section, field, value } => {
                assert_eq!(section, order[first]);
                assert_eq!(field, slot[first]);
                assert_eq!(value, format!("bad-{first}"));
            }
            other => panic!("expected InvalidHex, got {other:?}"),
        }
    }
}

#[test]
fn resolve_color_tells_absent_from_invalid() {
    let s = section(&[("good", "#0a0B0c"), ("bad", "#0a0B0")]);
    assert_eq!(resolve_color(&s, "base", "good").unwrap(), Some(Color { r: 10, g: 11, b: 12 }));
    assert_eq!(resolve_color(&s, "base", "absent").unwrap(), None);
    match resolve_color(&s, "editor", "bad").unwrap_err() {
        PaletteError::InvalidHex { section, field, value } => {
            assert_eq!(section, "editor");
            assert_eq!(field, "bad");
            assert_eq!(value, "#0a0B0");
        }
        other => panic!("expected InvalidHex, got {other:?}"),
    }
}

#[test]
fn variant_over_base_gives_variant_background_and_base_success() {
    let variant = PaletteManifest::from_toml("[base]\nbackground = \"#222222\"\n").unwrap();
    let base = PaletteManifest::from_toml(
        "[base]\nbackground = \"#111111\"\n[semantic]\nsuccess = \"#00ff00\"\n",
    )
    .unwrap();
    let palette = Palette::from_manifest(&merge_manifests(&variant, &base)).unwrap();
    assert_eq!(palette.base.background, Some(Color { r: 0x22, g: 0x22, b: 0x22 }));
    assert_eq!(palette.semantic.success, Some(Color { r: 0, g: 255, b: 0 }));
}

#[test]
fn terminal_section_fills_the_ansi_group() {
    let manifest = PaletteManifest::from_toml("[base]\n[terminal]\nbright_cyan = \"#00FFFF\"\n").unwrap();
    let palette = Palette::from_manifest(&manifest).unwrap();
    assert_eq!(palette.terminal_ansi.bright_cyan, Some(Color { r: 0, g: 255, b: 255 }));
    assert_eq!(palette.terminal_ansi.cyan, None);
}
