//! Unresolved theme manifests: named sections of raw hex texts, read from TOML.

use vstd::prelude::*;
use vstd::string::*;
use crate::document::{
    parse_table, shape_error, table_child, table_has, table_keys, table_nodes, table_text,
    toml_document, Node,
};
use crate::error::{is_outcome, ErrorModel, PaletteError};
use crate::sorted_map::SortedMap;

verus! {

/// One section: slot names with their hex texts.
pub type ManifestSection = SortedMap<String>;

/// Platform sections by platform name, as in `[platform.macos]`.
pub type PlatformSections = SortedMap<ManifestSection>;

/// A section as a map from slot name to hex text.
pub type SectionModel = Map<Seq<char>, Seq<char>>;

/// The `meta` section of a manifest.
#[derive(Debug, Clone)]
pub struct ManifestMeta {
    pub name: String,
    pub preset_id: String,
    pub schema_version: String,
    pub style: String,
    pub kind: String,
    pub inherits: Option<String>,
    pub upstream_repo: Option<String>,
}

/// A `meta` section with its texts as character sequences.
pub struct MetaModel {
    pub name: Seq<char>,
    pub preset_id: Seq<char>,
    pub schema_version: Seq<char>,
    pub style: Seq<char>,
    pub kind: Seq<char>,
    pub inherits: Option<Seq<char>>,
    pub upstream_repo: Option<Seq<char>>,
}

/// The view of an optional borrowed text.
pub open spec fn optional_str(text: Option<&str>) -> Option<Seq<char>> {
    match text {
        Some(s) => Some(s@),
        None => None,
    }
}

/// The view of an optional text.
pub open spec fn optional_text(text: Option<String>) -> Option<Seq<char>> {
    match text {
        Some(s) => Some(s@),
        None => None,
    }
}

impl View for ManifestMeta {
    type V = MetaModel;

    open spec fn view(&self) -> MetaModel {
        MetaModel {
            name: self.name@,
            preset_id: self.preset_id@,
            schema_version: self.schema_version@,
            style: self.style@,
            kind: self.kind@,
            inherits: optional_text(self.inherits),
            upstream_repo: optional_text(self.upstream_repo),
        }
    }
}

/// Parsed but unresolved theme manifest: raw hex texts grouped by section.
#[derive(Debug, Clone)]
pub struct PaletteManifest {
    pub meta: Option<ManifestMeta>,
    pub base: ManifestSection,
    pub semantic: ManifestSection,
    pub diff: ManifestSection,
    pub surface: ManifestSection,
    pub typography: ManifestSection,
    pub syntax: ManifestSection,
    pub editor: ManifestSection,
    pub terminal: ManifestSection,
    pub platform: PlatformSections,
}

/// A manifest with its sections as maps.
pub struct ManifestModel {
    pub meta: Option<MetaModel>,
    pub base: SectionModel,
    pub semantic: SectionModel,
    pub diff: SectionModel,
    pub surface: SectionModel,
    pub typography: SectionModel,
    pub syntax: SectionModel,
    pub editor: SectionModel,
    pub terminal: SectionModel,
    pub platform: Map<Seq<char>, SectionModel>,
}

/// The view of an optional `meta` section.
pub open spec fn optional_meta(meta: Option<ManifestMeta>) -> Option<MetaModel> {
    match meta {
        Some(m) => Some(m@),
        None => None,
    }
}

impl View for PaletteManifest {
    type V = ManifestModel;

    open spec fn view(&self) -> ManifestModel {
        ManifestModel {
            meta: optional_meta(self.meta),
            base: self.base@,
            semantic: self.semantic@,
            diff: self.diff@,
            surface: self.surface@,
            typography: self.typography@,
            syntax: self.syntax@,
            editor: self.editor@,
            terminal: self.terminal@,
            platform: self.platform@,
        }
    }
}

/// Whether every key of the table holds a string.
pub open spec fn texts_only(table: Map<Seq<char>, Node>) -> bool {
    forall|k: Seq<char>| table.contains_key(k) ==> #[trigger] table[k] is Text
}

/// The section that a table of strings stands for.
pub open spec fn texts_of(table: Map<Seq<char>, Node>) -> SectionModel {
    Map::new(|k: Seq<char>| table.contains_key(k), |k: Seq<char>| table[k]->Text_0)
}

/// Whether `name` is absent from the document or holds a table of strings.
pub open spec fn section_ok(doc: Map<Seq<char>, Node>, name: Seq<char>) -> bool {
    doc.contains_key(name) ==> doc[name] is Table && texts_only(doc[name]->Table_0)
}

/// The section under `name`; empty where the document has none.
pub open spec fn section_of(doc: Map<Seq<char>, Node>, name: Seq<char>) -> SectionModel {
    if doc.contains_key(name) {
        texts_of(doc[name]->Table_0)
    } else {
        Map::empty()
    }
}

/// Whether a key is absent from the table or holds a string.
pub open spec fn optional_text_ok(table: Map<Seq<char>, Node>, key: Seq<char>) -> bool {
    table.contains_key(key) ==> table[key] is Text
}

/// Whether a key holds a string.
pub open spec fn required_text_ok(table: Map<Seq<char>, Node>, key: Seq<char>) -> bool {
    table.contains_key(key) && table[key] is Text
}

/// The string under a key, if the table has the key.
pub open spec fn optional_text_of(table: Map<Seq<char>, Node>, key: Seq<char>) -> Option<Seq<char>> {
    if table.contains_key(key) {
        Some(table[key]->Text_0)
    } else {
        None
    }
}

/// Whether a table has what a `meta` section needs: five required
/// strings, and strings wherever the two optional keys are present.
pub open spec fn meta_table_ok(table: Map<Seq<char>, Node>) -> bool {
    &&& required_text_ok(table, "name"@)
    &&& required_text_ok(table, "preset_id"@)
    &&& required_text_ok(table, "schema_version"@)
    &&& required_text_ok(table, "style"@)
    &&& required_text_ok(table, "kind"@)
    &&& optional_text_ok(table, "inherits"@)
    &&& optional_text_ok(table, "upstream_repo"@)
}

/// The `meta` section that a table stands for.
pub open spec fn meta_table_of(table: Map<Seq<char>, Node>) -> MetaModel {
    MetaModel {
        name: table["name"@]->Text_0,
        preset_id: table["preset_id"@]->Text_0,
        schema_version: table["schema_version"@]->Text_0,
        style: table["style"@]->Text_0,
        kind: table["kind"@]->Text_0,
        inherits: optional_text_of(table, "inherits"@),
        upstream_repo: optional_text_of(table, "upstream_repo"@),
    }
}

/// Whether `meta` is absent or a well-formed `meta` table.
pub open spec fn meta_ok(doc: Map<Seq<char>, Node>) -> bool {
    doc.contains_key("meta"@) ==> doc["meta"@] is Table && meta_table_ok(doc["meta"@]->Table_0)
}

/// The `meta` section of the document, if it has one.
pub open spec fn meta_of(doc: Map<Seq<char>, Node>) -> Option<MetaModel> {
    if doc.contains_key("meta"@) {
        Some(meta_table_of(doc["meta"@]->Table_0))
    } else {
        None
    }
}

/// Whether every key of the table holds a table of strings.
pub open spec fn sections_only(table: Map<Seq<char>, Node>) -> bool {
    forall|k: Seq<char>|
        table.contains_key(k) ==> (#[trigger] table[k]) is Table && texts_only(table[k]->Table_0)
}

/// The platform sections that a table of tables stands for.
pub open spec fn sections_of(table: Map<Seq<char>, Node>) -> Map<Seq<char>, SectionModel> {
    Map::new(|k: Seq<char>| table.contains_key(k), |k: Seq<char>| texts_of(table[k]->Table_0))
}

/// Whether `platform` is absent or a table of tables of strings.
pub open spec fn platform_ok(doc: Map<Seq<char>, Node>) -> bool {
    doc.contains_key("platform"@) ==> doc["platform"@] is Table && sections_only(
        doc["platform"@]->Table_0,
    )
}

/// The platform sections of the document; none where it has no `platform`.
pub open spec fn platform_of(doc: Map<Seq<char>, Node>) -> Map<Seq<char>, SectionModel> {
    if doc.contains_key("platform"@) {
        sections_of(doc["platform"@]->Table_0)
    } else {
        Map::empty()
    }
}

/// Whether every part of the document that a manifest reads has the shape
/// it must have. Keys that a manifest does not read may hold anything.
pub open spec fn shape_ok(doc: Map<Seq<char>, Node>) -> bool {
    &&& meta_ok(doc)
    &&& section_ok(doc, "base"@)
    &&& section_ok(doc, "semantic"@)
    &&& section_ok(doc, "diff"@)
    &&& section_ok(doc, "surface"@)
    &&& section_ok(doc, "typography"@)
    &&& section_ok(doc, "syntax"@)
    &&& section_ok(doc, "editor"@)
    &&& section_ok(doc, "terminal"@)
    &&& platform_ok(doc)
}

/// The manifest that a well-shaped document stands for.
pub open spec fn manifest_of(doc: Map<Seq<char>, Node>) -> ManifestModel {
    ManifestModel {
        meta: meta_of(doc),
        base: section_of(doc, "base"@),
        semantic: section_of(doc, "semantic"@),
        diff: section_of(doc, "diff"@),
        surface: section_of(doc, "surface"@),
        typography: section_of(doc, "typography"@),
        syntax: section_of(doc, "syntax"@),
        editor: section_of(doc, "editor"@),
        terminal: section_of(doc, "terminal"@),
        platform: platform_of(doc),
    }
}

/// What reading a document as a manifest gives: a parse failure where a
/// part has the wrong shape, else `MissingBase` where there is no `base`
/// section, else the manifest.
pub open spec fn manifest_outcome(doc: Map<Seq<char>, Node>) -> Result<ManifestModel, ErrorModel> {
    if !shape_ok(doc) {
        Err(ErrorModel::Parse)
    } else if !doc.contains_key("base"@) {
        Err(ErrorModel::MissingBase)
    } else {
        Ok(manifest_of(doc))
    }
}

/// What reading a text as a manifest gives.
pub open spec fn text_outcome(text: Seq<char>) -> Result<ManifestModel, ErrorModel> {
    match toml_document(text) {
        Some(doc) => manifest_outcome(doc),
        None => Err(ErrorModel::Parse),
    }
}

/// The id of the parent that a manifest names, if it names one.
pub open spec fn parent_id(m: ManifestModel) -> Option<Seq<char>> {
    match m.meta {
        Some(meta) => meta.inherits,
        None => None,
    }
}

/// Reads a table of strings as a section; `None` where a key holds
/// anything but a string.
fn read_texts(table: &toml::Table) -> (r: Option<ManifestSection>)
    ensures
        match r {
            Some(section) => texts_only(table_nodes(*table)) && section@ == texts_of(
                table_nodes(*table),
            ),
            None => !texts_only(table_nodes(*table)),
        },
{
    let ghost nodes = table_nodes(*table);
    let keys = table_keys(table);
    let mut section = ManifestSection::new();
    let n = keys.len();
    let mut i: usize = 0;
    assert(section@ =~= Map::<Seq<char>, Seq<char>>::empty());
    while i < n
        invariant
            nodes == table_nodes(*table),
            n == keys@.len(),
            i <= n,
            forall|k: Seq<char>|
                nodes.contains_key(k) <==> exists|j: int|
                    0 <= j < keys@.len() && (#[trigger] keys@[j])@ == k,
            forall|j: int| 0 <= j < i ==> nodes[(#[trigger] keys@[j])@] is Text,
            forall|k: Seq<char>|
                section@.contains_key(k) <==> exists|j: int|
                    0 <= j < i && (#[trigger] keys@[j])@ == k,
            forall|k: Seq<char>| section@.contains_key(k) ==> section@[k] == nodes[k]->Text_0,
        decreases n - i,
    {
        let key = &keys[i];
        assert(nodes.contains_key(keys@[i as int]@));
        match table_text(table, key.as_str()) {
            Some(text) => {
                let ghost before = section@;
                section.insert(key.clone(), text.to_owned());
                assert forall|k: Seq<char>| section@.contains_key(k) <==> exists|j: int|
                    0 <= j < i + 1 && (#[trigger] keys@[j])@ == k by {
                    if section@.contains_key(k) {
                        if k != key@ {
                            assert(before.contains_key(k));
                        }
                    }
                    if exists|j: int| 0 <= j < i + 1 && (#[trigger] keys@[j])@ == k {
                        let j = choose|j: int| 0 <= j < i + 1 && (#[trigger] keys@[j])@ == k;
                        if j < i {
                            assert(before.contains_key(k));
                        }
                    }
                }
            },
            None => {
                return None;
            },
        }
        i = i + 1;
    }
    proof {
        assert forall|k: Seq<char>| nodes.contains_key(k) implies #[trigger] nodes[k] is Text by {
            let j = choose|j: int| 0 <= j < keys@.len() && (#[trigger] keys@[j])@ == k;
        }
        assert(section@ =~= texts_of(nodes));
    }
    Some(section)
}

/// Reads the section under `name`: empty where the document has none,
/// `None` where the key holds anything but a table of strings.
fn read_section(doc: &toml::Table, name: &str) -> (r: Option<ManifestSection>)
    ensures
        match r {
            Some(section) => section_ok(table_nodes(*doc), name@) && section@ == section_of(
                table_nodes(*doc),
                name@,
            ),
            None => !section_ok(table_nodes(*doc), name@),
        },
{
    if !table_has(doc, name) {
        let section = ManifestSection::new();
        assert(section@ =~= Map::<Seq<char>, Seq<char>>::empty());
        return Some(section);
    }
    match table_child(doc, name) {
        Some(child) => read_texts(child),
        None => None,
    }
}

/// Reads a table of tables of strings as platform sections; `None` where
/// a key holds anything else.
fn read_sections(table: &toml::Table) -> (r: Option<PlatformSections>)
    ensures
        match r {
            Some(sections) => sections_only(table_nodes(*table)) && sections@ == sections_of(
                table_nodes(*table),
            ),
            None => !sections_only(table_nodes(*table)),
        },
{
    let ghost nodes = table_nodes(*table);
    let keys = table_keys(table);
    let mut sections = PlatformSections::new();
    let n = keys.len();
    let mut i: usize = 0;
    assert(sections@ =~= Map::<Seq<char>, SectionModel>::empty());
    while i < n
        invariant
            nodes == table_nodes(*table),
            n == keys@.len(),
            i <= n,
            forall|k: Seq<char>|
                nodes.contains_key(k) <==> exists|j: int|
                    0 <= j < keys@.len() && (#[trigger] keys@[j])@ == k,
            forall|j: int|
                0 <= j < i ==> nodes[(#[trigger] keys@[j])@] is Table && texts_only(
                    nodes[keys@[j]@]->Table_0,
                ),
            forall|k: Seq<char>|
                sections@.contains_key(k) <==> exists|j: int|
                    0 <= j < i && (#[trigger] keys@[j])@ == k,
            forall|k: Seq<char>|
                sections@.contains_key(k) ==> sections@[k] == texts_of(nodes[k]->Table_0),
        decreases n - i,
    {
        let key = &keys[i];
        assert(nodes.contains_key(keys@[i as int]@));
        let section = match table_child(table, key.as_str()) {
            Some(child) => read_texts(child),
            None => None,
        };
        match section {
            Some(section) => {
                let ghost before = sections@;
                sections.insert(key.clone(), section);
                assert forall|k: Seq<char>| sections@.contains_key(k) <==> exists|j: int|
                    0 <= j < i + 1 && (#[trigger] keys@[j])@ == k by {
                    if sections@.contains_key(k) {
                        if k != key@ {
                            assert(before.contains_key(k));
                        }
                    }
                    if exists|j: int| 0 <= j < i + 1 && (#[trigger] keys@[j])@ == k {
                        let j = choose|j: int| 0 <= j < i + 1 && (#[trigger] keys@[j])@ == k;
                        if j < i {
                            assert(before.contains_key(k));
                        }
                    }
                }
            },
            None => {
                return None;
            },
        }
        i = i + 1;
    }
    proof {
        assert forall|k: Seq<char>| nodes.contains_key(k) implies (#[trigger] nodes[k]) is Table
            && texts_only(nodes[k]->Table_0) by {
            let j = choose|j: int| 0 <= j < keys@.len() && (#[trigger] keys@[j])@ == k;
        }
        assert(sections@ =~= sections_of(nodes));
    }
    Some(sections)
}

/// Reads the platform sections of a document: none where it has no
/// `platform` key, `None` where the key holds anything but a table of
/// tables of strings.
fn read_platform(doc: &toml::Table) -> (r: Option<PlatformSections>)
    ensures
        match r {
            Some(sections) => platform_ok(table_nodes(*doc)) && sections@ == platform_of(
                table_nodes(*doc),
            ),
            None => !platform_ok(table_nodes(*doc)),
        },
{
    if !table_has(doc, "platform") {
        let sections = PlatformSections::new();
        assert(sections@ =~= Map::<Seq<char>, SectionModel>::empty());
        return Some(sections);
    }
    match table_child(doc, "platform") {
        Some(child) => read_sections(child),
        None => None,
    }
}

/// Reads a string that may be absent. The outer `None` says that the key
/// holds something else.
fn read_optional_text(table: &toml::Table, key: &str) -> (r: Option<Option<String>>)
    ensures
        match r {
            Some(text) => optional_text_ok(table_nodes(*table), key@) && optional_text(text)
                == optional_text_of(table_nodes(*table), key@),
            None => !optional_text_ok(table_nodes(*table), key@),
        },
{
    if !table_has(table, key) {
        return Some(None);
    }
    match table_text(table, key) {
        Some(text) => Some(Some(text.to_owned())),
        None => None,
    }
}

/// Reads a table as a `meta` section; `None` where a required string is
/// missing or a key holds something else.
fn read_meta_table(table: &toml::Table) -> (r: Option<ManifestMeta>)
    ensures
        match r {
            Some(meta) => meta_table_ok(table_nodes(*table)) && meta@ == meta_table_of(
                table_nodes(*table),
            ),
            None => !meta_table_ok(table_nodes(*table)),
        },
{
    let name = table_text(table, "name");
    let preset_id = table_text(table, "preset_id");
    let schema_version = table_text(table, "schema_version");
    let style = table_text(table, "style");
    let kind = table_text(table, "kind");
    let inherits = read_optional_text(table, "inherits");
    let upstream_repo = read_optional_text(table, "upstream_repo");
    match (name, preset_id, schema_version, style, kind, inherits, upstream_repo) {
        (
            Some(name),
            Some(preset_id),
            Some(schema_version),
            Some(style),
            Some(kind),
            Some(inherits),
            Some(upstream_repo),
        ) => Some(
            ManifestMeta {
                name: name.to_owned(),
                preset_id: preset_id.to_owned(),
                schema_version: schema_version.to_owned(),
                style: style.to_owned(),
                kind: kind.to_owned(),
                inherits,
                upstream_repo,
            },
        ),
        _ => None,
    }
}

/// Reads the `meta` section of a document. The outer `None` says that
/// the key is there and is no well-formed `meta` table.
fn read_meta(doc: &toml::Table) -> (r: Option<Option<ManifestMeta>>)
    ensures
        match r {
            Some(meta) => meta_ok(table_nodes(*doc)) && optional_meta(meta) == meta_of(
                table_nodes(*doc),
            ),
            None => !meta_ok(table_nodes(*doc)),
        },
{
    if !table_has(doc, "meta") {
        return Some(None);
    }
    match table_child(doc, "meta") {
        Some(child) => match read_meta_table(child) {
            Some(meta) => Some(Some(meta)),
            None => None,
        },
        None => None,
    }
}

impl PaletteManifest {
    /// Parses a TOML text into a manifest.
    ///
    /// Fails with `Parse` where the text is no TOML document or a part
    /// that a manifest reads has the wrong shape, and with `MissingBase`
    /// where all is well-shaped but there is no `base` section.
    pub fn from_toml(s: &str) -> (r: Result<PaletteManifest, PaletteError>)
        ensures
            is_outcome(r, text_outcome(s@)),
    {
        match parse_table(s) {
            Ok(table) => PaletteManifest::from_table(&table),
            Err(e) => Err(PaletteError::Parse(e)),
        }
    }

    /// Reads a parsed TOML document as a manifest.
    pub fn from_table(doc: &toml::Table) -> (r: Result<PaletteManifest, PaletteError>)
        ensures
            is_outcome(r, manifest_outcome(table_nodes(*doc))),
    {
        let meta = read_meta(doc);
        let base = read_section(doc, "base");
        let semantic = read_section(doc, "semantic");
        let diff = read_section(doc, "diff");
        let surface = read_section(doc, "surface");
        let typography = read_section(doc, "typography");
        let syntax = read_section(doc, "syntax");
        let editor = read_section(doc, "editor");
        let terminal = read_section(doc, "terminal");
        let platform = read_platform(doc);
        match (meta, base, semantic, diff, surface, typography, syntax, editor, terminal, platform) {
            (
                Some(meta),
                Some(base),
                Some(semantic),
                Some(diff),
                Some(surface),
                Some(typography),
                Some(syntax),
                Some(editor),
                Some(terminal),
                Some(platform),
            ) => {
                if !table_has(doc, "base") {
                    return Err(PaletteError::MissingBase);
                }
                Ok(
                    PaletteManifest {
                        meta,
                        base,
                        semantic,
                        diff,
                        surface,
                        typography,
                        syntax,
                        editor,
                        terminal,
                        platform,
                    },
                )
            },
            _ => Err(PaletteError::Parse(shape_error("manifest section has the wrong shape"))),
        }
    }

    /// The parent preset id, where the manifest names one.
    pub fn inherits_from(&self) -> (r: Option<&str>)
        ensures
            optional_str(r) == parent_id(self@),
    {
        match &self.meta {
            Some(meta) => match &meta.inherits {
                Some(id) => Some(id.as_str()),
                None => None,
            },
            None => None,
        }
    }
}

} // verus!
