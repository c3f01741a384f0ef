use palette_core::color::Color;
use palette_core::error::PaletteError;
use palette_core::manifest::PaletteManifest;
use palette_core::presets::{builtin_info, preset_toml};
use palette_core::registry::{
    extract_theme_info, load_preset, resolve_parent, resolve_with_inheritance,
};
use palette_core::{preset_ids, Registry, ThemeInfo};

#[test]
fn all_presets_load_with_background() {
    for id in preset_ids() {
        let palette = load_preset(id).unwrap_or_else(|e| panic!("preset {id} failed: {e:?}"));
        assert!(
            palette.base.background.is_some(),
            "preset {id} missing base.background"
        );
    }
}

#[test]
fn variant_inherits_parent_colors() {
    let storm = load_preset("tokyonight_storm").unwrap();

    assert_eq!(
        storm.base.background,
        Some(Color::from_hex("#24283b").unwrap()),
        "storm should use its own background"
    );
    assert_eq!(
        storm.semantic.success,
        Some(Color::from_hex("#73daca").unwrap()),
        "storm should inherit success from tokyonight base"
    );
}

#[test]
fn unknown_preset_returns_error() {
    let result = load_preset("nonexistent");
    assert!(matches!(result, Err(PaletteError::UnknownPreset(_))));
}

#[test]
fn preset_ids_list_is_complete() {
    assert_eq!(preset_ids().len(), 28);
}

const MINIMAL_TOML: &str = r##"
[meta]
name = "Test Theme"
preset_id = "test_theme"
schema_version = "1"
style = "dark"
kind = "preset-base"

[base]
background = "#1a1b2a"
foreground = "#c0caf5"
"##;

const BASE_TOML: &str = r##"
[meta]
name = "Sibling Base"
preset_id = "sibling_base"
schema_version = "1"
style = "dark"
kind = "preset-base"

[base]
background = "#111111"
foreground = "#eeeeee"

[semantic]
success = "#00ff00"
"##;

const VARIANT_SIBLING_TOML: &str = r##"
[meta]
name = "Sibling Variant"
preset_id = "sibling_variant"
schema_version = "1"
style = "dark"
kind = "preset-variant"
inherits = "sibling_base"

[base]
background = "#222222"
"##;

const VARIANT_EMBEDDED_TOML: &str = r##"
[meta]
name = "Embedded Variant"
preset_id = "embedded_variant"
schema_version = "1"
style = "night"
kind = "preset-variant"
inherits = "tokyonight"

[base]
background = "#333333"
"##;

const VARIANT_MISSING_PARENT_TOML: &str = r##"
[meta]
name = "Orphan Variant"
preset_id = "orphan"
schema_version = "1"
style = "dark"
kind = "preset-variant"
inherits = "no_such_preset"

[base]
background = "#000000"
"##;

const REPLACEMENT_TOML: &str = r##"
[meta]
name = "Custom Dracula"
preset_id = "dracula"
schema_version = "1"
style = "custom-dark"
kind = "preset-base"

[base]
background = "#aabbcc"
foreground = "#112233"
"##;

#[test]
fn registry_lists_all_builtins() {
    let reg = Registry::new();
    let themes = reg.list();
    assert_eq!(themes.len(), 28);
    for info in themes {
        assert!(!info.id.is_empty());
        assert!(!info.name.is_empty());
        assert!(!info.style.is_empty());
    }
}

#[test]
fn registry_load_builtin() {
    let reg = Registry::new();
    let palette = reg.load("tokyonight").unwrap();
    assert_eq!(
        palette.base.background,
        Some(Color::from_hex("#1a1b2a").unwrap()),
    );
}

#[test]
fn registry_load_unknown_returns_error() {
    let reg = Registry::new();
    let result = reg.load("nonexistent");
    assert!(matches!(result, Err(PaletteError::UnknownPreset(_))));
}

#[test]
fn registry_by_style_returns_matching_themes() {
    let reg = Registry::new();
    let dark = reg.by_style("dark");
    assert!(!dark.is_empty());
    assert!(dark.iter().all(|t| t.style.as_str() == "dark"));
}

#[test]
fn registry_by_style_nonexistent_returns_empty() {
    let reg = Registry::new();
    assert_eq!(reg.by_style("nonexistent").len(), 0);
}

#[test]
fn registry_add_toml_registers_custom_theme() {
    let mut reg = Registry::new();
    reg.add_toml(MINIMAL_TOML.to_owned()).unwrap();
    assert_eq!(reg.list().len(), 29);

    let list = reg.list();
    let last = list.last().unwrap();
    assert_eq!(last.id.as_str(), "test_theme");
}

#[test]
fn registry_builtin_metadata_matches_expected() {
    let reg = Registry::new();
    let list = reg.list();
    let tokyonight = list.iter().find(|t| t.id.as_str() == "tokyonight").unwrap();
    assert_eq!(
        **tokyonight,
        ThemeInfo {
            id: "tokyonight".to_owned(),
            name: "TokyoNight (Night)".to_owned(),
            style: "night".to_owned(),
        }
    );
}

#[test]
fn registry_parent_may_be_registered_after_the_child() {
    let mut reg = Registry::new();
    reg.add_toml(VARIANT_SIBLING_TOML.to_owned()).unwrap();
    match reg.load("sibling_variant") {
        Err(PaletteError::UnknownPreset(id)) => assert_eq!(id, "sibling_base"),
        other => panic!("expected UnknownPreset, got {other:?}"),
    }
    reg.add_toml(BASE_TOML.to_owned()).unwrap();
    assert!(reg.load("sibling_variant").is_ok());
}

#[test]
fn registry_missing_parent_is_unknown_preset() {
    let mut reg = Registry::new();
    reg.add_toml(VARIANT_MISSING_PARENT_TOML.to_owned()).unwrap();
    match reg.load("orphan") {
        Err(PaletteError::UnknownPreset(id)) => assert_eq!(id, "no_such_preset"),
        other => panic!("expected UnknownPreset, got {other:?}"),
    }
    match reg.load("nonexistent") {
        Err(PaletteError::UnknownPreset(id)) => assert_eq!(id, "nonexistent"),
        other => panic!("expected UnknownPreset, got {other:?}"),
    }
}

#[test]
fn registry_same_id_keeps_every_position() {
    let mut reg = Registry::new();
    let before: Vec<String> = reg.list().iter().map(|t| t.id.clone()).collect();
    let position = before.iter().position(|id| id == "dracula").unwrap();
    reg.add_toml(REPLACEMENT_TOML.to_owned()).unwrap();

    assert_eq!(reg.list().len(), 28);
    let after: Vec<String> = reg.list().iter().map(|t| t.id.clone()).collect();
    assert_eq!(after, before);
    let list = reg.list();
    assert_eq!(list[position].name.as_str(), "Custom Dracula");
    assert_eq!(list[position].style.as_str(), "custom-dark");

    let palette = reg.load("dracula").unwrap();
    assert_eq!(palette.base.background, Some(Color::from_hex("#aabbcc").unwrap()));
    assert_eq!(palette.semantic.success, None);
    assert_eq!(reg.by_style("custom-dark").len(), 1);
}

#[test]
fn registry_same_id_replaces_custom_in_place() {
    let mut reg = Registry::new();
    reg.add_toml(MINIMAL_TOML.to_owned()).unwrap();
    reg.add_toml(BASE_TOML.to_owned()).unwrap();
    let changed = MINIMAL_TOML.replace("#1a1b2a", "#010203").replace("Test Theme", "Second");
    reg.add_toml(changed).unwrap();
    let list = reg.list();
    assert_eq!(list.len(), 30);
    assert_eq!(list[28].id, "test_theme");
    assert_eq!(list[28].name, "Second");
    assert_eq!(list[29].id, "sibling_base");
    assert_eq!(reg.load("test_theme").unwrap().base.background, Some(Color { r: 1, g: 2, b: 3 }));
}

#[test]
fn registry_add_toml_failure_changes_nothing() {
    let mut reg = Registry::new();
    let err = reg.add_toml("[base]\nbackground = \"#000000\"\n".to_owned()).unwrap_err();
    assert!(matches!(err, PaletteError::MissingMeta), "got {err:?}");
    let err = reg.add_toml("[meta]\nname = \"x\"\n".to_owned()).unwrap_err();
    assert!(matches!(err, PaletteError::Parse(_)), "got {err:?}");
    let err = reg.add_toml("not toml at all [".to_owned()).unwrap_err();
    assert!(matches!(err, PaletteError::Parse(_)), "got {err:?}");
    let without_base = MINIMAL_TOML.replace("[base]", "[semantic]").replace("background", "success").replace("foreground", "error");
    let err = reg.add_toml(without_base).unwrap_err();
    assert!(matches!(err, PaletteError::MissingBase), "got {err:?}");
    assert_eq!(reg.list().len(), 28);
    assert_eq!(reg.list(), Registry::new().list());
}

#[test]
fn registry_add_toml_takes_a_theme_with_bad_colors_and_load_fails() {
    let mut reg = Registry::new();
    reg.add_toml(MINIMAL_TOML.replace("#c0caf5", "c0caf5")).unwrap();
    match reg.load("test_theme") {
        Err(PaletteError::InvalidHex { section, field, value }) => {
            assert_eq!(section, "base");
            assert_eq!(field, "foreground");
            assert_eq!(value, "c0caf5");
        }
        other => panic!("expected InvalidHex, got {other:?}"),
    }
}

#[test]
fn registry_list_is_builtins_in_table_order() {
    let reg = Registry::default();
    let list = reg.list();
    let table = builtin_info();
    assert_eq!(list.len(), table.len());
    for (info, row) in list.iter().zip(table.iter()) {
        assert_eq!(info.id, row.0);
        assert_eq!(info.name, row.1);
        assert_eq!(info.style, row.2);
    }
    let ids: Vec<&str> = list.iter().map(|t| t.id.as_str()).collect();
    assert_eq!(ids, preset_ids());
    assert_eq!(ids[0], "ayu_dark");
    assert_eq!(ids[27], "tokyonight_storm");
}

#[test]
fn registry_by_style_keeps_listing_order() {
    let mut reg = Registry::new();
    reg.add_toml(MINIMAL_TOML.to_owned()).unwrap();
    let moon: Vec<&str> = reg.by_style("moon").iter().map(|t| t.id.as_str()).collect();
    assert_eq!(moon, vec!["rose_pine_moon", "tokyonight_moon"]);
    let dark = reg.by_style("dark");
    assert_eq!(dark.first().unwrap().id, "ayu_dark");
    assert_eq!(dark.last().unwrap().id, "test_theme");
    assert_eq!(dark.len(), 12);
    assert_eq!(reg.by_style("Dark").len(), 0);
}

#[test]
fn every_builtin_manifest_names_itself() {
    for row in builtin_info() {
        let text = preset_toml(row.0).unwrap();
        let info = extract_theme_info(text).unwrap();
        assert_eq!(info.id, row.0);
        assert_eq!(info.name, row.1);
        assert_eq!(info.style, row.2);
        let manifest = PaletteManifest::from_toml(text).unwrap();
        if let Some(parent) = manifest.inherits_from() {
            assert!(preset_toml(parent).is_some(), "{} inherits unknown {parent}", row.0);
        }
    }
    assert!(preset_toml("nonexistent").is_none());
    assert!(preset_toml("").is_none());
    assert!(preset_toml("Tokyonight").is_none());
}

#[test]
fn extract_theme_info_needs_meta() {
    let info = extract_theme_info(MINIMAL_TOML).unwrap();
    assert_eq!(
        info,
        ThemeInfo { id: "test_theme".to_owned(), name: "Test Theme".to_owned(), style: "dark".to_owned() }
    );
    assert!(matches!(extract_theme_info("[base]\n"), Err(PaletteError::MissingMeta)));
    assert!(matches!(extract_theme_info(""), Err(PaletteError::MissingBase)));
    assert!(matches!(extract_theme_info("]"), Err(PaletteError::Parse(_))));
}

#[test]
fn resolve_with_inheritance_calls_the_resolver_for_the_parent_only() {
    let palette = resolve_with_inheritance(MINIMAL_TOML, |_| panic!("no parent to resolve")).unwrap();
    assert_eq!(palette.base.foreground, Some(Color::from_hex("#c0caf5").unwrap()));

    let palette = resolve_with_inheritance(VARIANT_SIBLING_TOML, |id| {
        assert_eq!(id, "sibling_base");
        PaletteManifest::from_toml(BASE_TOML)
    })
    .unwrap();
    assert_eq!(palette.base.background, Some(Color::from_hex("#222222").unwrap()));
    assert_eq!(palette.base.foreground, Some(Color::from_hex("#eeeeee").unwrap()));
    assert_eq!(palette.meta.unwrap().preset_id, "sibling_variant");

    let err = resolve_with_inheritance(VARIANT_SIBLING_TOML, |id| {
        Err(PaletteError::UnknownPreset(id.to_owned()))
    })
    .unwrap_err();
    assert!(matches!(err, PaletteError::UnknownPreset(id) if id == "sibling_base"));

    let err = resolve_with_inheritance("[meta", |_| panic!("not reached")).unwrap_err();
    assert!(matches!(err, PaletteError::Parse(_)));
}

#[test]
fn inheritance_is_one_level_deep() {
    let grandchild = VARIANT_SIBLING_TOML
        .replace("sibling_variant", "grandchild")
        .replace("inherits = \"sibling_base\"", "inherits = \"sibling_variant\"")
        .replace("#222222", "#444444");
    let mut reg = Registry::new();
    reg.add_toml(BASE_TOML.to_owned()).unwrap();
    reg.add_toml(VARIANT_SIBLING_TOML.to_owned()).unwrap();
    reg.add_toml(grandchild).unwrap();
    let palette = reg.load("grandchild").unwrap();
    assert_eq!(palette.base.background, Some(Color::from_hex("#444444").unwrap()));
    assert_eq!(palette.base.foreground, None);
    assert_eq!(palette.semantic.success, None);
}

#[test]
fn load_preset_unknown_delegates_to_registry() {
    assert!(load_preset("nonexistent").is_err());
}

#[test]
fn resolve_parent_prefers_the_sibling_text() {
    let sibling = "[base]\nbackground = \"#010203\"\n";
    let m = resolve_parent(Some(sibling), "tokyonight").unwrap();
    assert_eq!(m.base.get("background").map(|s| s.as_str()), Some("#010203"));
    assert!(m.meta.is_none());
    let m = resolve_parent(None, "tokyonight").unwrap();
    assert_eq!(m.base.get("background").map(|s| s.as_str()), Some("#1a1b2a"));
    assert_eq!(m.meta.unwrap().preset_id, "tokyonight");
    match resolve_parent(None, "no_such_preset") {
        Err(PaletteError::UnknownPreset(id)) => assert_eq!(id, "no_such_preset"),
        other => panic!("expected UnknownPreset, got {other:?}"),
    }
    assert!(matches!(resolve_parent(Some("[semantic]\n"), "tokyonight"), Err(PaletteError::MissingBase)));
    assert!(resolve_parent(Some(sibling), "no_such_preset").is_ok());
}

// The texts below stand for files: a theme file's text is read by the
// caller and handed over, and so is the text of a sibling file.

fn sibling_text(files: &[(&str, &str)], parent_id: &str) -> Option<String> {
    let name = format!("{parent_id}.toml");
    files.iter().find(|(file, _)| *file == name).map(|(_, text)| (*text).to_owned())
}

fn load_from(files: &[(&str, &str)], name: &str) -> Result<palette_core::Palette, PaletteError> {
    let text = files.iter().find(|(file, _)| *file == name).map(|(_, text)| *text).unwrap();
    resolve_with_inheritance(text, |parent_id| {
        resolve_parent(sibling_text(files, parent_id).as_deref(), parent_id)
    })
}

#[test]
fn file_preset_loads_from_disk() {
    let files = [("test_theme.toml", MINIMAL_TOML)];

    let palette = load_from(&files, "test_theme.toml").unwrap();
    assert_eq!(
        palette.base.background,
        Some(Color::from_hex("#1a1b2a").unwrap()),
    );
}

#[test]
fn file_preset_inherits_from_sibling() {
    let files = [("sibling_base.toml", BASE_TOML), ("sibling_variant.toml", VARIANT_SIBLING_TOML)];

    let palette = load_from(&files, "sibling_variant.toml").unwrap();
    assert_eq!(
        palette.base.background,
        Some(Color::from_hex("#222222").unwrap()),
        "variant overrides base background"
    );
    assert_eq!(
        palette.base.foreground,
        Some(Color::from_hex("#eeeeee").unwrap()),
        "variant inherits foreground from sibling base"
    );
    assert_eq!(
        palette.semantic.success,
        Some(Color::from_hex("#00ff00").unwrap()),
        "variant inherits semantic.success from sibling base"
    );
}

#[test]
fn file_preset_inherits_from_embedded() {
    let files = [("embedded_variant.toml", VARIANT_EMBEDDED_TOML)];

    let palette = load_from(&files, "embedded_variant.toml").unwrap();
    assert_eq!(
        palette.base.background,
        Some(Color::from_hex("#333333").unwrap()),
        "variant uses its own background"
    );
    assert_eq!(
        palette.semantic.success,
        Some(Color::from_hex("#73daca").unwrap()),
        "variant inherits success from embedded tokyonight"
    );
}

#[test]
fn file_preset_missing_parent_returns_error() {
    let files = [("orphan.toml", VARIANT_MISSING_PARENT_TOML)];

    let result = load_from(&files, "orphan.toml");
    assert!(matches!(result, Err(PaletteError::UnknownPreset(_))));
}

#[test]
fn file_preset_sibling_shadows_embedded() {
    let own_tokyonight = BASE_TOML.replace("sibling_base", "tokyonight");
    let files = [("embedded_variant.toml", VARIANT_EMBEDDED_TOML), ("tokyonight.toml", own_tokyonight.as_str())];
    let palette = load_from(&files, "embedded_variant.toml").unwrap();
    assert_eq!(palette.semantic.success, Some(Color::from_hex("#00ff00").unwrap()));
    assert_eq!(palette.base.foreground, Some(Color::from_hex("#eeeeee").unwrap()));
}

#[test]
fn registry_add_file_custom_theme() {
    let mut reg = Registry::new();
    reg.add_toml(MINIMAL_TOML.to_owned()).unwrap();

    assert_eq!(reg.list().len(), 29);

    let list = reg.list();
    let last = list.last().unwrap();
    assert_eq!(last.id.as_str(), "test_theme");
    assert_eq!(last.name.as_str(), "Test Theme");
    assert_eq!(last.style.as_str(), "dark");

    let palette = reg.load("test_theme").unwrap();
    assert_eq!(
        palette.base.background,
        Some(Color::from_hex("#1a1b2a").unwrap()),
    );
}

#[test]
fn registry_add_file_with_builtin_inheritance() {
    let mut reg = Registry::new();
    reg.add_toml(VARIANT_EMBEDDED_TOML.to_owned()).unwrap();

    let palette = reg.load("embedded_variant").unwrap();
    assert_eq!(
        palette.base.background,
        Some(Color::from_hex("#333333").unwrap()),
        "custom variant uses its own background"
    );
    assert_eq!(
        palette.semantic.success,
        Some(Color::from_hex("#73daca").unwrap()),
        "custom variant inherits success from builtin tokyonight"
    );
}

#[test]
fn registry_add_file_with_custom_inheritance() {
    let mut reg = Registry::new();
    reg.add_toml(BASE_TOML.to_owned()).unwrap();
    reg.add_toml(VARIANT_SIBLING_TOML.to_owned()).unwrap();

    let palette = reg.load("sibling_variant").unwrap();
    assert_eq!(
        palette.base.background,
        Some(Color::from_hex("#222222").unwrap()),
        "variant overrides background"
    );
    assert_eq!(
        palette.base.foreground,
        Some(Color::from_hex("#eeeeee").unwrap()),
        "variant inherits foreground from custom parent"
    );
    assert_eq!(
        palette.semantic.success,
        Some(Color::from_hex("#00ff00").unwrap()),
        "variant inherits success from custom parent"
    );
}

#[test]
fn registry_duplicate_id_replaces_entry() {
    let mut reg = Registry::new();
    reg.add_toml(REPLACEMENT_TOML.to_owned()).unwrap();

    // Count should stay 28 (replaced, not appended)
    assert_eq!(reg.list().len(), 28);

    let list = reg.list();
    let dracula = list.iter().find(|t| t.id.as_str() == "dracula").unwrap();
    assert_eq!(dracula.name.as_str(), "Custom Dracula");
    assert_eq!(dracula.style.as_str(), "custom-dark");

    let palette = reg.load("dracula").unwrap();
    assert_eq!(
        palette.base.background,
        Some(Color::from_hex("#aabbcc").unwrap()),
    );
}

#[test]
fn builtin_variant_inherits_from_custom_replacement() {
    let mut reg = Registry::new();
    let before = reg.load("tokyonight_storm").unwrap();
    assert_eq!(before.semantic.success, Some(Color::from_hex("#73daca").unwrap()));
    let own = BASE_TOML.replace("sibling_base", "tokyonight");
    reg.add_toml(own).unwrap();
    assert_eq!(reg.list().len(), 28);
    let after = reg.load("tokyonight_storm").unwrap();
    assert_eq!(after.base.background, Some(Color::from_hex("#24283b").unwrap()));
    assert_eq!(after.base.foreground, Some(Color::from_hex("#eeeeee").unwrap()));
    assert_eq!(after.semantic.success, Some(Color::from_hex("#00ff00").unwrap()));
    assert_eq!(after.meta.unwrap().preset_id, "tokyonight_storm");
    let standalone = load_preset("tokyonight_storm").unwrap();
    assert_eq!(standalone.semantic.success, Some(Color::from_hex("#73daca").unwrap()));
}
