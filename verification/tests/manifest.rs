use palette_core::error::PaletteError;
use palette_core::manifest::{ManifestSection, PaletteManifest, PlatformSections};
use palette_core::merge::{merge_manifests, merge_platform_sections, merge_sections};

fn section(entries: &[(&str, &str)]) -> ManifestSection {
    let mut s = ManifestSection::new();
    for (k, v) in entries {
        s.insert((*k).to_owned(), (*v).to_owned());
    }
    s
}

fn manifest_with_base(base: ManifestSection) -> PaletteManifest {
    PaletteManifest {
        meta: None,
        base,
        semantic: ManifestSection::new(),
        diff: ManifestSection::new(),
        surface: ManifestSection::new(),
        typography: ManifestSection::new(),
        syntax: ManifestSection::new(),
        editor: ManifestSection::new(),
        terminal: ManifestSection::new(),
        platform: PlatformSections::new(),
    }
}

const FULL: &str = r##"
title = "ignored"
answer = 42

[meta]
name = "Test Theme"
preset_id = "test_theme"
schema_version = "1"
style = "dark"
kind = "preset-variant"
inherits = "tokyonight"
upstream_repo = "https://example.org/theme"
extra = 7

[base]
background = "#1a1b2a"
foreground = "#c0caf5"

[semantic]
success = "#00ff00"

[terminal]
red = "not checked here"

[platform.macos]
background = "#000001"

[platform.web]
foreground = "#000002"
other = "kept"
"##;

#[test]
fn from_toml_reads_every_part() {
    let m = PaletteManifest::from_toml(FULL).unwrap();
    let meta = m.meta.as_ref().unwrap();
    assert_eq!(meta.name, "Test Theme");
    assert_eq!(meta.preset_id, "test_theme");
    assert_eq!(meta.schema_version, "1");
    assert_eq!(meta.style, "dark");
    assert_eq!(meta.kind, "preset-variant");
    assert_eq!(meta.inherits.as_deref(), Some("tokyonight"));
    assert_eq!(meta.upstream_repo.as_deref(), Some("https://example.org/theme"));
    assert_eq!(m.base.len(), 2);
    assert_eq!(m.base.get("background").map(|s| s.as_str()), Some("#1a1b2a"));
    assert_eq!(m.base.get("foreground").map(|s| s.as_str()), Some("#c0caf5"));
    assert_eq!(m.semantic.get("success").map(|s| s.as_str()), Some("#00ff00"));
    assert_eq!(m.terminal.get("red").map(|s| s.as_str()), Some("not checked here"));
    assert!(m.diff.is_empty());
    assert!(m.surface.is_empty());
    assert!(m.typography.is_empty());
    assert!(m.syntax.is_empty());
    assert!(m.editor.is_empty());
    assert_eq!(m.platform.len(), 2);
    assert_eq!(m.platform.key_at(0), "macos");
    assert_eq!(m.platform.key_at(1), "web");
    let web = m.platform.get("web").unwrap();
    assert_eq!(web.get("other").map(|s| s.as_str()), Some("kept"));
    assert_eq!(web.get("foreground").map(|s| s.as_str()), Some("#000002"));
    assert_eq!(m.inherits_from(), Some("tokyonight"));
}

#[test]
fn from_toml_without_base_is_missing_base() {
    let err = PaletteManifest::from_toml("[semantic]\nsuccess = \"#00ff00\"\n").unwrap_err();
    assert!(matches!(err, PaletteError::MissingBase), "got {err:?}");
    let err = PaletteManifest::from_toml("").unwrap_err();
    assert!(matches!(err, PaletteError::MissingBase), "got {err:?}");
}

#[test]
fn from_toml_with_empty_base_is_a_manifest() {
    let m = PaletteManifest::from_toml("[base]\n").unwrap();
    assert!(m.meta.is_none());
    assert!(m.base.is_empty());
    assert!(m.platform.is_empty());
    assert_eq!(m.inherits_from(), None);
}

#[test]
fn from_toml_rejects_text_that_is_no_toml() {
    for text in ["[base", "[base]\nbackground = ", "[base]\na = 1\na = 2\n", "= 3"] {
        let err = PaletteManifest::from_toml(text).unwrap_err();
        assert!(matches!(err, PaletteError::Parse(_)), "{text:?} gave {err:?}");
    }
}

#[test]
fn from_toml_rejects_wrong_shapes() {
    let cases = [
        "base = 3\n",
        "base = \"text\"\n",
        "[[base]]\nbackground = \"#000000\"\n",
        "[base]\nbackground = 5\n",
        "[base]\nbackground = true\n",
        "[base]\nbackground = [\"#000000\"]\n",
        "[base.background]\nvalue = \"#000000\"\n",
        "[base]\n[syntax]\nkeywords = 1.5\n",
        "[base]\n[platform]\nmacos = \"#000000\"\n",
        "[base]\n[platform.macos]\nbackground = 1\n",
        "platform = 1\n[base]\n",
        "meta = \"m\"\n[base]\n",
    ];
    for text in cases {
        let err = PaletteManifest::from_toml(text).unwrap_err();
        assert!(matches!(err, PaletteError::Parse(_)), "{text:?} gave {err:?}");
    }
}

#[test]
fn wrong_shape_comes_before_missing_base() {
    let err = PaletteManifest::from_toml("[semantic]\nsuccess = 1\n").unwrap_err();
    assert!(matches!(err, PaletteError::Parse(_)), "got {err:?}");
}

#[test]
fn meta_needs_its_five_texts() {
    let fields = ["name", "preset_id", "schema_version", "style", "kind"];
    for missing in fields {
        let mut text = String::from("[meta]\n");
        for f in fields {
            if f != missing {
                text.push_str(&format!("{f} = \"x\"\n"));
            }
        }
        text.push_str("[base]\n");
        let err = PaletteManifest::from_toml(&text).unwrap_err();
        assert!(matches!(err, PaletteError::Parse(_)), "without {missing}: {err:?}");
    }
    let mut text = String::from("[meta]\n");
    for f in fields {
        text.push_str(&format!("{f} = \"x\"\n"));
    }
    text.push_str("[base]\n");
    let m = PaletteManifest::from_toml(&text).unwrap();
    let meta = m.meta.unwrap();
    assert_eq!(meta.inherits, None);
    assert_eq!(meta.upstream_repo, None);
    assert_eq!(meta.kind, "x");
}

#[test]
fn meta_optional_keys_must_be_texts() {
    let head = "[meta]\nname = \"n\"\npreset_id = \"p\"\nschema_version = \"1\"\nstyle = \"s\"\nkind = \"k\"\n";
    for tail in ["inherits = 1\n", "upstream_repo = false\n", "name = 2\n"] {
        let text = if tail.starts_with("name") {
            format!("[meta]\n{tail}preset_id = \"p\"\nschema_version = \"1\"\nstyle = \"s\"\nkind = \"k\"\n[base]\n")
        } else {
            format!("{head}{tail}[base]\n")
        };
        let err = PaletteManifest::from_toml(&text).unwrap_err();
        assert!(matches!(err, PaletteError::Parse(_)), "{tail:?} gave {err:?}");
    }
}

#[test]
fn from_table_reads_a_table_built_by_hand() {
    let mut base = toml::Table::new();
    base.insert("background".to_owned(), toml::Value::String("#010203".to_owned()));
    let mut doc = toml::Table::new();
    doc.insert("base".to_owned(), toml::Value::Table(base));
    doc.insert("unknown".to_owned(), toml::Value::Integer(1));
    let m = PaletteManifest::from_table(&doc).unwrap();
    assert_eq!(m.base.get("background").map(|s| s.as_str()), Some("#010203"));
    assert!(m.meta.is_none());

    let mut bad = toml::Table::new();
    bad.insert("base".to_owned(), toml::Value::Boolean(true));
    assert!(matches!(PaletteManifest::from_table(&bad), Err(PaletteError::Parse(_))));
    let empty = toml::Table::new();
    assert!(matches!(PaletteManifest::from_table(&empty), Err(PaletteError::MissingBase)));
}

#[test]
fn inherits_from_reads_meta() {
    let m = manifest_with_base(section(&[("background", "#000000")]));
    assert_eq!(m.inherits_from(), None);
    let text = "[meta]\nname = \"n\"\npreset_id = \"p\"\nschema_version = \"1\"\nstyle = \"s\"\nkind = \"k\"\n[base]\n";
    assert_eq!(PaletteManifest::from_toml(text).unwrap().inherits_from(), None);
}

#[test]
fn merge_sections_primary_wins() {
    let primary = section(&[("a", "P"), ("c", "P")]);
    let fallback = section(&[("a", "F"), ("b", "F")]);
    let merged = merge_sections(&primary, &fallback);
    assert_eq!(merged.len(), 3);
    assert_eq!(merged.get("a").map(|s| s.as_str()), Some("P"));
    assert_eq!(merged.get("b").map(|s| s.as_str()), Some("F"));
    assert_eq!(merged.get("c").map(|s| s.as_str()), Some("P"));
    assert_eq!(merged.key_at(0), "a");
    assert_eq!(merged.key_at(1), "b");
    assert_eq!(merged.key_at(2), "c");
}

#[test]
fn merge_sections_with_empty_sides() {
    let one = section(&[("a", "1")]);
    let none = ManifestSection::new();
    assert_eq!(merge_sections(&one, &none), one);
    assert_eq!(merge_sections(&none, &one), one);
    assert!(merge_sections(&none, &none).is_empty());
}

#[test]
fn merge_platform_sections_merges_per_platform() {
    let mut primary = PlatformSections::new();
    primary.insert("terminal".to_owned(), section(&[("background", "P")]));
    primary.insert("web".to_owned(), section(&[("background", "PW")]));
    let mut fallback = PlatformSections::new();
    fallback.insert("terminal".to_owned(), section(&[("background", "F"), ("foreground", "F")]));
    fallback.insert("macos".to_owned(), section(&[("foreground", "FM")]));
    let merged = merge_platform_sections(&primary, &fallback);
    assert_eq!(merged.len(), 3);
    assert_eq!(merged.key_at(0), "macos");
    assert_eq!(merged.key_at(1), "terminal");
    assert_eq!(merged.key_at(2), "web");
    let terminal = merged.get("terminal").unwrap();
    assert_eq!(terminal.get("background").map(|s| s.as_str()), Some("P"));
    assert_eq!(terminal.get("foreground").map(|s| s.as_str()), Some("F"));
    assert_eq!(merged.get("macos").unwrap(), &section(&[("foreground", "FM")]));
    assert_eq!(merged.get("web").unwrap(), &section(&[("background", "PW")]));
}

#[test]
fn merge_manifests_keeps_the_variants_meta() {
    let variant = PaletteManifest::from_toml(FULL).unwrap();
    let base_text = "[meta]\nname = \"Base\"\npreset_id = \"base\"\nschema_version = \"1\"\nstyle = \"light\"\nkind = \"preset-base\"\ninherits = \"grandparent\"\n[base]\nbackground = \"#ffffff\"\nborder = \"#eeeeee\"\n[diff]\nadded = \"#00aa00\"\n";
    let base = PaletteManifest::from_toml(base_text).unwrap();
    let merged = merge_manifests(&variant, &base);
    let meta = merged.meta.as_ref().unwrap();
    assert_eq!(meta.preset_id, "test_theme");
    assert_eq!(meta.name, "Test Theme");
    assert_eq!(meta.inherits.as_deref(), Some("tokyonight"));
    assert_eq!(merged.base.get("background").map(|s| s.as_str()), Some("#1a1b2a"));
    assert_eq!(merged.base.get("border").map(|s| s.as_str()), Some("#eeeeee"));
    assert_eq!(merged.diff.get("added").map(|s| s.as_str()), Some("#00aa00"));
    assert_eq!(merged.semantic.get("success").map(|s| s.as_str()), Some("#00ff00"));
    assert_eq!(merged.platform.len(), 2);

    let other_way = merge_manifests(&base, &variant);
    assert_eq!(other_way.meta.as_ref().unwrap().preset_id, "base");
    assert_eq!(other_way.base.get("background").map(|s| s.as_str()), Some("#ffffff"));
    assert_eq!(other_way.base.get("foreground").map(|s| s.as_str()), Some("#c0caf5"));
}

#[test]
fn merge_manifests_without_meta_on_the_variant() {
    let variant = manifest_with_base(section(&[("background", "#000000")]));
    let base = PaletteManifest::from_toml(FULL).unwrap();
    let merged = merge_manifests(&variant, &base);
    assert!(merged.meta.is_none());
    assert_eq!(merged.base.get("foreground").map(|s| s.as_str()), Some("#c0caf5"));
}
