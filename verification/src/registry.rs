//! The theme registry: built-in themes and custom ones under one list,
//! looked up by id, with one level of inheritance.

use vstd::prelude::*;
use vstd::string::*;
use crate::css::rows;
use crate::error::{is_outcome, outcome_of, ErrorModel, PaletteError};
use crate::manifest::{optional_str, parent_id, text_outcome, ManifestModel, PaletteManifest};
use crate::merge::{merge_manifests, merged_manifest};
use crate::palette::{resolve_outcome, Palette, PaletteModel};
use crate::presets::{
    builtin_ids, builtin_info, builtin_table, lemma_builtin_ids_distinct, preset_text, preset_toml,
};
use crate::text::str_eq;

verus! {

/// Display metadata of a theme.
#[derive(Debug, Clone, PartialEq, Eq, Hash)]
pub struct ThemeInfo {
    pub id: String,
    pub name: String,
    pub style: String,
}

/// Display metadata with its texts as character sequences.
pub struct ThemeInfoModel {
    pub id: Seq<char>,
    pub name: Seq<char>,
    pub style: Seq<char>,
}

impl View for ThemeInfo {
    type V = ThemeInfoModel;

    open spec fn view(&self) -> ThemeInfoModel {
        ThemeInfoModel { id: self.id@, name: self.name@, style: self.style@ }
    }
}

/// One registered theme: its metadata, and its manifest text if it is a
/// custom theme (`None` for a built-in one).
pub struct EntryModel {
    pub info: ThemeInfoModel,
    pub custom: Option<Seq<char>>,
}

/// What resolving a manifest gives once the lookup of its parent has
/// given `parent`: the lookup's error, or the manifest laid over the
/// parent and resolved.
pub open spec fn over_parent(
    m: ManifestModel,
    parent: Result<ManifestModel, ErrorModel>,
) -> Result<PaletteModel, ErrorModel> {
    match parent {
        Err(e) => Err(e),
        Ok(p) => resolve_outcome(merged_manifest(m, p)),
    }
}

/// What resolving a manifest text gives, where `parent_of` says what
/// looking up a parent id gives: the text is read as a manifest; if it
/// names a parent, the parent is looked up and the manifest laid over
/// it; the result is resolved. A parent's own parent is not followed.
pub open spec fn inheritance_outcome(
    text: Seq<char>,
    parent_of: spec_fn(Seq<char>) -> Result<ManifestModel, ErrorModel>,
) -> Result<PaletteModel, ErrorModel> {
    match text_outcome(text) {
        Err(e) => Err(e),
        Ok(m) => match parent_id(m) {
            None => resolve_outcome(m),
            Some(id) => over_parent(m, parent_of(id)),
        },
    }
}

/// Resolves a manifest text into a palette, with one level of
/// inheritance. A text that is no manifest fails as reading it fails. A
/// manifest that names no parent is resolved as it is. For one that names
/// a parent, `resolve_parent` is called with the parent's id, and what it
/// returns decides: its error, or the manifest laid over the parent and
/// resolved.
pub fn resolve_with_inheritance<F>(toml_str: &str, resolve_parent: F) -> (r: Result<
    Palette,
    PaletteError,
>) where F: FnOnce(&str) -> Result<PaletteManifest, PaletteError>
    requires
        forall|id: &str| call_requires(resolve_parent, (id,)),
    ensures
        match text_outcome(toml_str@) {
            Err(e) => is_outcome(r, Err::<PaletteModel, ErrorModel>(e)),
            Ok(m) => match parent_id(m) {
                None => is_outcome(r, resolve_outcome(m)),
                Some(parent) => exists|id: &str, p: Result<PaletteManifest, PaletteError>|
                    id@ == parent && call_ensures(resolve_parent, (id,), p) && is_outcome(
                        r,
                        over_parent(m, outcome_of(p)),
                    ),
            },
        },
{
    let manifest = match PaletteManifest::from_toml(toml_str) {
        Ok(manifest) => manifest,
        Err(e) => {
            return Err(e);
        },
    };
    match manifest.inherits_from() {
        None => Palette::from_manifest(&manifest),
        Some(parent_id) => {
            let found = resolve_parent(parent_id);
            let ghost seen = found;
            let r = match found {
                Ok(parent) => {
                    let merged = merge_manifests(&manifest, &parent);
                    Palette::from_manifest(&merged)
                },
                Err(e) => Err(e),
            };
            proof {
                assert(call_ensures(resolve_parent, (parent_id,), seen));
                assert(is_outcome(r, over_parent(manifest@, outcome_of(seen))));
            }
            r
        },
    }
}

/// What reading a built-in theme's manifest gives; `UnknownPreset` for
/// an id that no built-in theme has.
pub open spec fn preset_manifest(id: Seq<char>) -> Result<ManifestModel, ErrorModel> {
    match preset_text(id) {
        Some(text) => text_outcome(text),
        None => Err(ErrorModel::UnknownPreset(id)),
    }
}

/// What loading a built-in theme gives: a parent is looked up among the
/// built-in themes.
pub open spec fn preset_outcome(id: Seq<char>) -> Result<PaletteModel, ErrorModel> {
    match preset_text(id) {
        Some(text) => inheritance_outcome(text, |parent: Seq<char>| preset_manifest(parent)),
        None => Err(ErrorModel::UnknownPreset(id)),
    }
}

/// Reads the manifest of a built-in theme.
fn builtin_manifest(id: &str) -> (r: Result<PaletteManifest, PaletteError>)
    ensures
        is_outcome(r, preset_manifest(id@)),
{
    match preset_toml(id) {
        Some(text) => PaletteManifest::from_toml(text),
        None => Err(PaletteError::UnknownPreset(id.to_owned())),
    }
}

/// Loads a built-in theme by id, resolving one level of inheritance
/// among the built-in themes.
pub fn load_preset(id: &str) -> (r: Result<Palette, PaletteError>)
    ensures
        is_outcome(r, preset_outcome(id@)),
{
    match preset_toml(id) {
        Some(text) => {
            let resolve_parent = |parent: &str| -> (p: Result<PaletteManifest, PaletteError>)
                ensures
                    is_outcome(p, preset_manifest(parent@)),
                { builtin_manifest(parent) };
            resolve_with_inheritance(text, resolve_parent)
        },
        None => Err(PaletteError::UnknownPreset(id.to_owned())),
    }
}

/// Reads the manifest of a parent for a theme that was loaded from a
/// file: from the text of the sibling file named after the parent, where
/// there is one, else from the built-in themes.
pub fn resolve_parent(sibling: Option<&str>, parent_id: &str) -> (r: Result<
    PaletteManifest,
    PaletteError,
>)
    ensures
        is_outcome(
            r,
            match optional_str(sibling) {
                Some(text) => text_outcome(text),
                None => preset_manifest(parent_id@),
            },
        ),
{
    match sibling {
        Some(text) => PaletteManifest::from_toml(text),
        None => builtin_manifest(parent_id),
    }
}

/// The metadata that a manifest text gives a custom theme: the id, name
/// and style of its `meta` section; `MissingMeta` where it has none.
pub open spec fn info_outcome(text: Seq<char>) -> Result<ThemeInfoModel, ErrorModel> {
    match text_outcome(text) {
        Err(e) => Err(e),
        Ok(m) => match m.meta {
            Some(meta) => Ok(ThemeInfoModel { id: meta.preset_id, name: meta.name, style: meta.style }),
            None => Err(ErrorModel::MissingMeta),
        },
    }
}

/// Reads the metadata of a custom theme from its manifest text.
pub fn extract_theme_info(toml_str: &str) -> (r: Result<ThemeInfo, PaletteError>)
    ensures
        is_outcome(r, info_outcome(toml_str@)),
{
    let manifest = match PaletteManifest::from_toml(toml_str) {
        Ok(manifest) => manifest,
        Err(e) => {
            return Err(e);
        },
    };
    match manifest.meta {
        Some(meta) => Ok(ThemeInfo { id: meta.preset_id, name: meta.name, style: meta.style }),
        None => Err(PaletteError::MissingMeta),
    }
}

/// Whether no two entries share an id.
pub open spec fn distinct_ids(entries: Seq<EntryModel>) -> bool {
    forall|i: int, j: int|
        0 <= i < j < entries.len() ==> (#[trigger] entries[i]).info.id != (#[trigger] entries[j]).info.id
}

/// The entries of a fresh registry: the built-in themes in listing order.
pub open spec fn builtin_entries() -> Seq<EntryModel> {
    Seq::new(
        28,
        |i: int|
            EntryModel {
                info: ThemeInfoModel {
                    id: builtin_table()[i].0,
                    name: builtin_table()[i].1,
                    style: builtin_table()[i].2,
                },
                custom: None,
            },
    )
}

/// The position of the first entry with the id.
pub open spec fn first_with(entries: Seq<EntryModel>, id: Seq<char>) -> Option<int>
    decreases entries.len(),
{
    if entries.len() == 0 {
        None
    } else if entries.last().info.id == id && first_with(entries.drop_last(), id) is None {
        Some(entries.len() - 1)
    } else {
        first_with(entries.drop_last(), id)
    }
}

/// The position of the last entry with the id.
pub open spec fn last_with(entries: Seq<EntryModel>, id: Seq<char>) -> Option<int>
    decreases entries.len(),
{
    if entries.len() == 0 {
        None
    } else if entries.last().info.id == id {
        Some(entries.len() - 1)
    } else {
        last_with(entries.drop_last(), id)
    }
}

/// The entries after registering `entry`: it takes the place of the
/// first entry with its id, or goes to the end if there is none.
pub open spec fn put(entries: Seq<EntryModel>, entry: EntryModel) -> Seq<EntryModel> {
    match first_with(entries, entry.info.id) {
        Some(i) => entries.update(i, entry),
        None => entries.push(entry),
    }
}

/// The manifest text of the theme that `id` names: that of the last
/// entry with the id, a custom entry's own text or a built-in entry's
/// embedded text; `UnknownPreset` where there is none.
pub open spec fn source_outcome(entries: Seq<EntryModel>, id: Seq<char>) -> Result<
    Seq<char>,
    ErrorModel,
> {
    match last_with(entries, id) {
        None => Err(ErrorModel::UnknownPreset(id)),
        Some(i) => match entries[i].custom {
            Some(text) => Ok(text),
            None => match preset_text(id) {
                Some(text) => Ok(text),
                None => Err(ErrorModel::UnknownPreset(id)),
            },
        },
    }
}

/// What reading the manifest of the theme that `id` names gives.
pub open spec fn manifest_for(entries: Seq<EntryModel>, id: Seq<char>) -> Result<
    ManifestModel,
    ErrorModel,
> {
    match source_outcome(entries, id) {
        Ok(text) => text_outcome(text),
        Err(e) => Err(e),
    }
}

/// What loading the theme that `id` names gives: a parent is looked up in
/// the same entries.
pub open spec fn load_outcome(entries: Seq<EntryModel>, id: Seq<char>) -> Result<
    PaletteModel,
    ErrorModel,
> {
    match source_outcome(entries, id) {
        Ok(text) => inheritance_outcome(text, |parent: Seq<char>| manifest_for(entries, parent)),
        Err(e) => Err(e),
    }
}

/// The entries whose style is `style`, in order.
pub open spec fn with_style(entries: Seq<EntryModel>, style: Seq<char>) -> Seq<ThemeInfoModel>
    decreases entries.len(),
{
    if entries.len() == 0 {
        Seq::empty()
    } else if entries.last().info.style == style {
        with_style(entries.drop_last(), style).push(entries.last().info)
    } else {
        with_style(entries.drop_last(), style)
    }
}

/// The metadata of every entry, in order.
pub open spec fn infos(entries: Seq<EntryModel>) -> Seq<ThemeInfoModel> {
    Seq::new(entries.len(), |i: int| entries[i].info)
}

/// The views of a list of metadata.
pub open spec fn info_views(list: Seq<&ThemeInfo>) -> Seq<ThemeInfoModel> {
    Seq::new(list.len(), |i: int| list[i]@)
}

enum Source {
    Builtin,
    Custom(String),
}

struct Entry {
    info: ThemeInfo,
    source: Source,
}

impl Entry {
    spec fn model(self) -> EntryModel {
        EntryModel {
            info: self.info@,
            custom: match self.source {
                Source::Builtin => None,
                Source::Custom(text) => Some(text@),
            },
        }
    }
}

spec fn models(entries: Seq<Entry>) -> Seq<EntryModel> {
    Seq::new(entries.len(), |i: int| entries[i].model())
}

/// Unified theme registry: the built-in themes, then custom themes in
/// the order of their registration. No two entries share an id.
pub struct Registry {
    entries: Vec<Entry>,
}

impl View for Registry {
    type V = Seq<EntryModel>;

    closed spec fn view(&self) -> Seq<EntryModel> {
        models(self.entries@)
    }
}

impl Registry {
    #[verifier::type_invariant]
    spec fn valid(&self) -> bool {
        distinct_ids(models(self.entries@))
    }

    /// Creates a registry that holds all built-in themes.
    pub fn new() -> (registry: Self)
        ensures
            registry@ == builtin_entries(),
    {
        let table = builtin_info();
        let mut entries: Vec<Entry> = Vec::new();
        let mut i: usize = 0;
        while i < 28
            invariant
                rows(table@) == builtin_table(),
                table@.len() == 28,
                i <= 28,
                entries@.len() == i,
                forall|j: int| 0 <= j < i ==> (#[trigger] entries@[j]).model() == builtin_entries()[j],
            decreases 28 - i,
        {
            let row = &table[i];
            assert(rows(table@)[i as int] == (row.0@, row.1@, row.2@));
            entries.push(
                Entry {
                    info: ThemeInfo {
                        id: row.0.to_owned(),
                        name: row.1.to_owned(),
                        style: row.2.to_owned(),
                    },
                    source: Source::Builtin,
                },
            );
            i = i + 1;
        }
        proof {
            assert(models(entries@) =~= builtin_entries());
            lemma_builtin_entries_distinct();
        }
        Registry { entries }
    }

    /// All registered themes in listing order: the built-in ones first,
    /// then the custom ones.
    pub fn list(&self) -> (list: Vec<&ThemeInfo>)
        ensures
            info_views(list@) == infos(self@),
            distinct_ids(self@),
    {
        proof {
            use_type_invariant(self);
        }
        let n = self.entries.len();
        let mut list: Vec<&ThemeInfo> = Vec::new();
        let mut i: usize = 0;
        while i < n
            invariant
                n == self.entries@.len(),
                i <= n,
                list@.len() == i,
                forall|j: int| 0 <= j < i ==> (#[trigger] list@[j])@ == self.entries@[j].info@,
            decreases n - i,
        {
            list.push(&self.entries[i].info);
            i = i + 1;
        }
        proof {
            assert(info_views(list@) =~= infos(self@));
        }
        list
    }

    /// The registered themes whose style is `style`, in listing order.
    pub fn by_style(&self, style: &str) -> (list: Vec<&ThemeInfo>)
        ensures
            info_views(list@) == with_style(self@, style@),
    {
        let ghost all = self@;
        let n = self.entries.len();
        let mut list: Vec<&ThemeInfo> = Vec::new();
        let mut i: usize = 0;
        proof {
            assert(all.take(0) =~= Seq::<EntryModel>::empty());
            assert(info_views(list@) =~= with_style(all.take(0), style@));
        }
        while i < n
            invariant
                all == self@,
                n == self.entries@.len(),
                i <= n,
                info_views(list@) == with_style(all.take(i as int), style@),
            decreases n - i,
        {
            let ghost before = info_views(list@);
            proof {
                assert(all.take(i + 1).drop_last() =~= all.take(i as int));
                assert(all.take(i + 1).last() == all[i as int]);
            }
            if str_eq(self.entries[i].info.style.as_str(), style) {
                list.push(&self.entries[i].info);
                proof {
                    assert(info_views(list@) =~= before.push(all[i as int].info));
                }
            }
            i = i + 1;
        }
        proof {
            assert(all.take(n as int) =~= all);
        }
        list
    }

    /// The last entry with the id.
    fn find_entry(&self, id: &str) -> (r: Result<&Entry, PaletteError>)
        ensures
            match r {
                Ok(entry) => last_with(self@, id@) matches Some(i) && entry.model() == self@[i],
                Err(e) => last_with(self@, id@) is None && e@ == ErrorModel::UnknownPreset(id@),
            },
    {
        let ghost all = self@;
        let n = self.entries.len();
        let mut i: usize = n;
        proof {
            assert(all.take(n as int) =~= all);
        }
        while i > 0
            invariant
                all == self@,
                n == self.entries@.len(),
                i <= n,
                last_with(all, id@) == last_with(all.take(i as int), id@),
            decreases i,
        {
            proof {
                assert(all.take(i as int).drop_last() =~= all.take(i - 1));
                assert(all.take(i as int).last() == all[i - 1]);
            }
            if str_eq(self.entries[i - 1].info.id.as_str(), id) {
                return Ok(&self.entries[i - 1]);
            }
            i = i - 1;
        }
        Err(PaletteError::UnknownPreset(id.to_owned()))
    }

    /// The manifest text of the theme that `id` names.
    fn toml_for(&self, id: &str) -> (r: Result<&str, PaletteError>)
        ensures
            match source_outcome(self@, id@) {
                Ok(text) => r matches Ok(t) && t@ == text,
                Err(e) => r matches Err(x) && x@ == e,
            },
    {
        let entry = match self.find_entry(id) {
            Ok(entry) => entry,
            Err(e) => {
                return Err(e);
            },
        };
        match &entry.source {
            Source::Builtin => match preset_toml(id) {
                Some(text) => Ok(text),
                None => Err(PaletteError::UnknownPreset(id.to_owned())),
            },
            Source::Custom(text) => Ok(text.as_str()),
        }
    }

    /// Reads the manifest of the theme that `id` names.
    fn resolve_manifest(&self, id: &str) -> (r: Result<PaletteManifest, PaletteError>)
        ensures
            is_outcome(r, manifest_for(self@, id@)),
    {
        match self.toml_for(id) {
            Ok(text) => PaletteManifest::from_toml(text),
            Err(e) => Err(e),
        }
    }

    /// Loads a palette by id. The last entry with the id gives the
    /// manifest text; a parent that the manifest names is looked up in
    /// this registry, once. An id that no entry has, the theme's or its
    /// parent's, fails with `UnknownPreset`.
    pub fn load(&self, id: &str) -> (r: Result<Palette, PaletteError>)
        ensures
            is_outcome(r, load_outcome(self@, id@)),
    {
        let text = match self.toml_for(id) {
            Ok(text) => text,
            Err(e) => {
                return Err(e);
            },
        };
        let resolve_parent = |parent: &str| -> (p: Result<PaletteManifest, PaletteError>)
            ensures
                is_outcome(p, manifest_for(self@, parent@)),
            { self.resolve_manifest(parent) };
        resolve_with_inheritance(text, resolve_parent)
    }

    /// Registers a custom theme from its manifest text. The text must
    /// parse and have a `meta` section, which gives id, name and style.
    /// An entry with the same id is replaced where it stands; otherwise
    /// the theme goes to the end of the list. On failure nothing changes.
    pub fn add_toml(&mut self, toml: String) -> (r: Result<(), PaletteError>)
        ensures
            match info_outcome(toml@) {
                Ok(info) => r is Ok && final(self)@ == put(
                    old(self)@,
                    EntryModel { info, custom: Some(toml@) },
                ),
                Err(e) => r matches Err(x) && x@ == e && final(self)@ == old(self)@,
            },
            distinct_ids(final(self)@),
    {
        proof {
            use_type_invariant(&*self);
        }
        let info = match extract_theme_info(toml.as_str()) {
            Ok(info) => info,
            Err(e) => {
                return Err(e);
            },
        };
        let ghost all = self@;
        let ghost entry = EntryModel { info: info@, custom: Some(toml@) };
        let n = self.entries.len();
        let mut i: usize = 0;
        let mut found = false;
        while i < n
            invariant_except_break
                !found,
            invariant
                all == self@,
                n == self.entries@.len(),
                i <= n,
                forall|j: int| 0 <= j < i ==> all[j].info.id != info.id@,
            ensures
                found ==> i < n && all[i as int].info.id == info.id@,
                !found ==> i == n,
            decreases n - i,
        {
            if str_eq(self.entries[i].info.id.as_str(), info.id.as_str()) {
                found = true;
                break ;
            }
            i = i + 1;
        }
        let mut entries: Vec<Entry> = Vec::new();
        proof {
            assert(models(entries@) =~= Seq::<EntryModel>::empty());
        }
        std::mem::swap(&mut entries, &mut self.entries);
        let item = Entry { info, source: Source::Custom(toml) };
        if found {
            entries.set(i, item);
            proof {
                lemma_first_with(all, entry.info.id, i as int);
                assert(models(entries@) =~= all.update(i as int, entry));
                lemma_put_distinct(all, entry);
            }
        } else {
            entries.push(item);
            proof {
                lemma_first_with_none(all, entry.info.id);
                assert(models(entries@) =~= all.push(entry));
                lemma_put_distinct(all, entry);
            }
        }
        self.entries = entries;
        Ok(())
    }
}

impl Default for Registry {
    /// A registry that holds all built-in themes.
    fn default() -> (registry: Self)
        ensures
            registry@ == builtin_entries(),
    {
        Registry::new()
    }
}

/// The built-in entries have distinct ids.
pub proof fn lemma_builtin_entries_distinct()
    ensures
        distinct_ids(builtin_entries()),
{
    lemma_builtin_ids_distinct();
    assert forall|i: int, j: int| 0 <= i < j < 28 implies (#[trigger] builtin_entries()[i]).info.id
        != (#[trigger] builtin_entries()[j]).info.id by {
        assert(builtin_entries()[i].info.id == builtin_ids()[i]);
        assert(builtin_entries()[j].info.id == builtin_ids()[j]);
    }
}

/// An entry with the id before which no entry has the id is the first with it.
pub proof fn lemma_first_with(entries: Seq<EntryModel>, id: Seq<char>, i: int)
    requires
        0 <= i < entries.len(),
        entries[i].info.id == id,
        forall|j: int| 0 <= j < i ==> entries[j].info.id != id,
    ensures
        first_with(entries, id) == Some(i),
    decreases entries.len(),
{
    if entries.len() - 1 == i {
        lemma_first_with_none(entries.drop_last(), id);
    } else {
        lemma_first_with(entries.drop_last(), id, i);
    }
}

/// Where no entry has the id, there is no first entry with it.
pub proof fn lemma_first_with_none(entries: Seq<EntryModel>, id: Seq<char>)
    requires
        forall|j: int| 0 <= j < entries.len() ==> entries[j].info.id != id,
    ensures
        first_with(entries, id) is None,
    decreases entries.len(),
{
    if entries.len() > 0 {
        lemma_first_with_none(entries.drop_last(), id);
    }
}

/// What `first_with` finds has the id, and nothing before it has.
pub proof fn lemma_first_with_found(entries: Seq<EntryModel>, id: Seq<char>)
    ensures
        match first_with(entries, id) {
            Some(i) => 0 <= i < entries.len() && entries[i].info.id == id && forall|j: int|
                0 <= j < i ==> entries[j].info.id != id,
            None => forall|j: int| 0 <= j < entries.len() ==> entries[j].info.id != id,
        },
    decreases entries.len(),
{
    if entries.len() > 0 {
        let front = entries.drop_last();
        lemma_first_with_found(front, id);
        assert forall|j: int| 0 <= j < front.len() implies front[j] == entries[j] by {}
        match first_with(entries, id) {
            Some(i) => {
                assert forall|j: int| 0 <= j < i implies entries[j].info.id != id by {
                    assert(front[j] == entries[j]);
                }
            },
            None => {
                assert forall|j: int| 0 <= j < entries.len() implies entries[j].info.id != id by {
                    if j < front.len() {
                        assert(front[j] == entries[j]);
                    }
                }
            },
        }
    }
}

/// What `last_with` finds has the id, and nothing after it has.
pub proof fn lemma_last_with_found(entries: Seq<EntryModel>, id: Seq<char>)
    ensures
        match last_with(entries, id) {
            Some(i) => 0 <= i < entries.len() && entries[i].info.id == id && forall|j: int|
                i < j < entries.len() ==> entries[j].info.id != id,
            None => forall|j: int| 0 <= j < entries.len() ==> entries[j].info.id != id,
        },
    decreases entries.len(),
{
    if entries.len() > 0 {
        let front = entries.drop_last();
        lemma_last_with_found(front, id);
        match last_with(entries, id) {
            Some(i) => {
                assert forall|j: int| i < j < entries.len() implies entries[j].info.id != id by {
                    if j < front.len() {
                        assert(front[j] == entries[j]);
                    }
                }
            },
            None => {
                assert forall|j: int| 0 <= j < entries.len() implies entries[j].info.id != id by {
                    if j < front.len() {
                        assert(front[j] == entries[j]);
                    }
                }
            },
        }
    }
}

/// Registering a custom theme under an id that an entry already has
/// replaces that entry where it stands, so the list keeps its length;
/// under a new id the theme goes to the end. Either way the text that a
/// later load reads for the id is the registered one.
pub proof fn lemma_registration_shadows(entries: Seq<EntryModel>, info: ThemeInfoModel, text: Seq<char>)
    requires
        distinct_ids(entries),
    ensures
        ({
            let entry = EntryModel { info, custom: Some(text) };
            let after = put(entries, entry);
            &&& match first_with(entries, info.id) {
                Some(i) => 0 <= i < entries.len() && entries[i].info.id == info.id && after
                    == entries.update(i, entry),
                None => after == entries.push(entry),
            }
            &&& source_outcome(after, info.id) == Ok::<Seq<char>, ErrorModel>(text)
            &&& load_outcome(after, info.id) == inheritance_outcome(
                text,
                |parent: Seq<char>| manifest_for(after, parent),
            )
        }),
{
    let entry = EntryModel { info, custom: Some(text) };
    let after = put(entries, entry);
    lemma_first_with_found(entries, info.id);
    lemma_put_distinct(entries, entry);
    lemma_last_with_found(after, info.id);
    match first_with(entries, info.id) {
        Some(i) => {
            assert(after[i] == entry);
            if last_with(after, info.id) != Some(i) {
                let k = last_with(after, info.id)->0;
                if last_with(after, info.id) is Some {
                    if i < k {
                        assert(after[i].info.id != after[k].info.id);
                    } else {
                        assert(after[k].info.id != after[i].info.id);
                    }
                }
            }
        },
        None => {
            let n = entries.len() as int;
            assert(after[n] == entry);
            if last_with(after, info.id) != Some(n) {
                let k = last_with(after, info.id)->0;
                if last_with(after, info.id) is Some {
                    assert(after[k].info.id != after[n].info.id);
                }
            }
        },
    }
}

/// Registering keeps ids distinct.
pub proof fn lemma_put_distinct(entries: Seq<EntryModel>, entry: EntryModel)
    requires
        distinct_ids(entries),
    ensures
        distinct_ids(put(entries, entry)),
{
    lemma_first_with_found(entries, entry.info.id);
    let after = put(entries, entry);
    assert forall|i: int, j: int| 0 <= i < j < after.len() implies (#[trigger] after[i]).info.id != (
    #[trigger] after[j]).info.id by {
        match first_with(entries, entry.info.id) {
            Some(k) => {
                if i != k && j != k {
                    assert(entries[i].info.id != entries[j].info.id);
                } else if i == k {
                    assert(entries[k].info.id != entries[j].info.id);
                } else {
                    assert(entries[i].info.id != entries[k].info.id);
                }
            },
            None => {
                if j < entries.len() {
                    assert(entries[i].info.id != entries[j].info.id);
                }
            },
        }
    }
}

} // verus!
