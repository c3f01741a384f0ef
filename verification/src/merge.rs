//! Single-level inheritance: a variant manifest laid over its parent.

use vstd::prelude::*;
use vstd::string::*;
use crate::manifest::{
    optional_meta, optional_text, ManifestMeta, ManifestModel, ManifestSection, PaletteManifest,
    PlatformSections, SectionModel,
};
use crate::sorted_map::{among_first, lemma_entries_map_at};

verus! {

/// Platform sections merged per platform: a platform of both sides has
/// its sections merged, the primary's entries winning; a platform of one
/// side keeps its section.
pub open spec fn merged_platforms(
    primary: Map<Seq<char>, SectionModel>,
    fallback: Map<Seq<char>, SectionModel>,
) -> Map<Seq<char>, SectionModel> {
    Map::new(
        |k: Seq<char>| primary.contains_key(k) || fallback.contains_key(k),
        |k: Seq<char>|
            if primary.contains_key(k) && fallback.contains_key(k) {
                fallback[k].union_prefer_right(primary[k])
            } else if primary.contains_key(k) {
                primary[k]
            } else {
                fallback[k]
            },
    )
}

/// The variant laid over the base: the variant's `meta`, and in every
/// section the base's entries overridden by the variant's.
pub open spec fn merged_manifest(variant: ManifestModel, base: ManifestModel) -> ManifestModel {
    ManifestModel {
        meta: variant.meta,
        base: base.base.union_prefer_right(variant.base),
        semantic: base.semantic.union_prefer_right(variant.semantic),
        diff: base.diff.union_prefer_right(variant.diff),
        surface: base.surface.union_prefer_right(variant.surface),
        typography: base.typography.union_prefer_right(variant.typography),
        syntax: base.syntax.union_prefer_right(variant.syntax),
        editor: base.editor.union_prefer_right(variant.editor),
        terminal: base.terminal.union_prefer_right(variant.terminal),
        platform: merged_platforms(variant.platform, base.platform),
    }
}

/// Writes every entry of `source` into `target`, over what is there.
fn extend_section(target: &mut ManifestSection, source: &ManifestSection)
    ensures
        final(target)@ == old(target)@.union_prefer_right(source@),
{
    let n = source.len();
    let mut i: usize = 0;
    while i < n
        invariant
            n == source.keys().len(),
            source.well_ordered(),
            i <= n,
            forall|k: Seq<char>|
                target@.contains_key(k) <==> old(target)@.contains_key(k) || exists|j: int|
                    0 <= j < i && #[trigger] source.keys()[j] == k,
            forall|k: Seq<char>|
                target@.contains_key(k) ==> target@[k] == if exists|j: int|
                    0 <= j < i && #[trigger] source.keys()[j] == k {
                    source@[k]
                } else {
                    old(target)@[k]
                },
        decreases n - i,
    {
        let key = source.key_at(i);
        let value = source.value_at(i);
        let ghost before = target@;
        proof {
            lemma_entries_map_at(source.keys(), source.vals(), i as int);
        }
        target.insert(key.to_owned(), value.as_str().to_owned());
        proof {
            assert forall|k: Seq<char>|
                target@.contains_key(k) <==> old(target)@.contains_key(k) || exists|j: int|
                    0 <= j < i + 1 && #[trigger] source.keys()[j] == k by {
                if target@.contains_key(k) && k != key@ {
                    assert(before.contains_key(k));
                }
                if exists|j: int| 0 <= j < i + 1 && #[trigger] source.keys()[j] == k {
                    let j = choose|j: int| 0 <= j < i + 1 && #[trigger] source.keys()[j] == k;
                    if j < i {
                        assert(before.contains_key(k));
                    }
                }
            }
            assert forall|k: Seq<char>| target@.contains_key(k) implies target@[k] == if exists|
                j: int,
            |
                0 <= j < i + 1 && #[trigger] source.keys()[j] == k {
                source@[k]
            } else {
                old(target)@[k]
            } by {
                if k == key@ {
                    assert(source.keys()[i as int] == k);
                } else {
                    assert(before.contains_key(k));
                    if exists|j: int| 0 <= j < i + 1 && #[trigger] source.keys()[j] == k {
                        let j = choose|j: int| 0 <= j < i + 1 && #[trigger] source.keys()[j] == k;
                        assert(j < i);
                    }
                }
            }
        }
        i = i + 1;
    }
    proof {
        assert forall|k: Seq<char>| source@.contains_key(k) <==> exists|j: int|
            0 <= j < n && #[trigger] source.keys()[j] == k by {
            if source@.contains_key(k) {
                let j = source.keys().index_of(k);
                assert(source.keys()[j] == k);
            }
            if exists|j: int| 0 <= j < n && #[trigger] source.keys()[j] == k {
                let j = choose|j: int| 0 <= j < n && #[trigger] source.keys()[j] == k;
                lemma_entries_map_at(source.keys(), source.vals(), j);
            }
        }
        assert(target@ =~= old(target)@.union_prefer_right(source@));
    }
}

/// The fallback's entries, overridden by the primary's.
pub fn merge_sections(primary: &ManifestSection, fallback: &ManifestSection) -> (merged:
    ManifestSection)
    ensures
        merged@ == fallback@.union_prefer_right(primary@),
{
    let mut merged = ManifestSection::new();
    assert(merged@ =~= Map::<Seq<char>, Seq<char>>::empty());
    extend_section(&mut merged, fallback);
    assert(merged@ =~= fallback@);
    extend_section(&mut merged, primary);
    merged
}

/// A copy of a section.
fn copy_section(section: &ManifestSection) -> (copy: ManifestSection)
    ensures
        copy@ == section@,
{
    let mut copy = ManifestSection::new();
    assert(copy@ =~= Map::<Seq<char>, Seq<char>>::empty());
    extend_section(&mut copy, section);
    assert(copy@ =~= section@);
    copy
}

/// Platform sections merged per platform, the primary's entries winning.
pub fn merge_platform_sections(primary: &PlatformSections, fallback: &PlatformSections) -> (merged:
    PlatformSections)
    ensures
        merged@ == merged_platforms(primary@, fallback@),
{
    let ghost goal = merged_platforms(primary@, fallback@);
    let mut merged = PlatformSections::new();
    assert(merged@ =~= Map::<Seq<char>, SectionModel>::empty());
    let n = fallback.len();
    let mut i: usize = 0;
    while i < n
        invariant
            n == fallback.keys().len(),
            fallback.well_ordered(),
            i <= n,
            goal == merged_platforms(primary@, fallback@),
            forall|k: Seq<char>|
                merged@.contains_key(k) <==> among_first(fallback.keys(), i as int, k),
            forall|k: Seq<char>| merged@.contains_key(k) ==> merged@[k] == goal[k],
        decreases n - i,
    {
        let key = fallback.key_at(i);
        let under = fallback.value_at(i);
        proof {
            lemma_entries_map_at(fallback.keys(), fallback.vals(), i as int);
        }
        let section = match primary.get(key) {
            Some(over) => merge_sections(over, under),
            None => copy_section(under),
        };
        let ghost before = merged@;
        merged.insert(key.to_owned(), section);
        proof {
            assert forall|k: Seq<char>| merged@.contains_key(k) <==> among_first(
                fallback.keys(),
                i + 1,
                k,
            ) by {
                if merged@.contains_key(k) {
                    if k == key@ {
                        assert(fallback.keys()[i as int] == k);
                    } else {
                        assert(before.contains_key(k));
                        assert(among_first(fallback.keys(), i as int, k));
                        let j = choose|j: int| 0 <= j < i && #[trigger] fallback.keys()[j] == k;
                        assert(fallback.keys()[j] == k);
                    }
                }
                if among_first(fallback.keys(), i + 1, k) {
                    let j = choose|j: int| 0 <= j < i + 1 && #[trigger] fallback.keys()[j] == k;
                    if j < i {
                        assert(among_first(fallback.keys(), i as int, k));
                    }
                }
            }
        }
        i = i + 1;
    }
    proof {
        assert forall|k: Seq<char>| fallback@.contains_key(k) <==> among_first(
            fallback.keys(),
            n as int,
            k,
        ) by {
            if fallback@.contains_key(k) {
                let j = fallback.keys().index_of(k);
                assert(fallback.keys()[j] == k);
            }
            if among_first(fallback.keys(), n as int, k) {
                let j = choose|j: int| 0 <= j < n && #[trigger] fallback.keys()[j] == k;
                lemma_entries_map_at(fallback.keys(), fallback.vals(), j);
            }
        }
    }
    let m = primary.len();
    let mut i: usize = 0;
    while i < m
        invariant
            m == primary.keys().len(),
            primary.well_ordered(),
            i <= m,
            goal == merged_platforms(primary@, fallback@),
            forall|k: Seq<char>|
                merged@.contains_key(k) <==> fallback@.contains_key(k) || among_first(
                    primary.keys(),
                    i as int,
                    k,
                ),
            forall|k: Seq<char>| merged@.contains_key(k) ==> merged@[k] == goal[k],
        decreases m - i,
    {
        let key = primary.key_at(i);
        let over = primary.value_at(i);
        proof {
            lemma_entries_map_at(primary.keys(), primary.vals(), i as int);
        }
        let ghost before = merged@;
        if !fallback.contains_key(key) {
            assert(!fallback@.contains_key(key@));
            merged.insert(key.to_owned(), copy_section(over));
        } else {
            assert(fallback@.contains_key(key@));
        }
        proof {
            assert forall|k: Seq<char>|
                merged@.contains_key(k) <==> fallback@.contains_key(k) || among_first(
                    primary.keys(),
                    i + 1,
                    k,
                ) by {
                if merged@.contains_key(k) && !fallback@.contains_key(k) {
                    if k == key@ {
                        assert(primary.keys()[i as int] == k);
                    } else {
                        assert(before.contains_key(k));
                        assert(among_first(primary.keys(), i as int, k));
                        let j = choose|j: int| 0 <= j < i && #[trigger] primary.keys()[j] == k;
                        assert(primary.keys()[j] == k);
                    }
                }
                if among_first(primary.keys(), i + 1, k) {
                    let j = choose|j: int| 0 <= j < i + 1 && #[trigger] primary.keys()[j] == k;
                    if j < i {
                        assert(among_first(primary.keys(), i as int, k));
                    }
                }
            }
        }
        i = i + 1;
    }
    proof {
        assert forall|k: Seq<char>| primary@.contains_key(k) <==> among_first(
            primary.keys(),
            m as int,
            k,
        ) by {
            if primary@.contains_key(k) {
                let j = primary.keys().index_of(k);
                assert(primary.keys()[j] == k);
            }
            if among_first(primary.keys(), m as int, k) {
                let j = choose|j: int| 0 <= j < m && #[trigger] primary.keys()[j] == k;
                lemma_entries_map_at(primary.keys(), primary.vals(), j);
            }
        }
        assert(merged@ =~= goal);
    }
    merged
}

/// A copy of an optional text.
fn copy_optional_text(text: &Option<String>) -> (copy: Option<String>)
    ensures
        optional_text(copy) == optional_text(*text),
{
    match text {
        Some(s) => Some(s.clone()),
        None => None,
    }
}

/// A copy of an optional `meta` section.
fn copy_meta(meta: &Option<ManifestMeta>) -> (copy: Option<ManifestMeta>)
    ensures
        optional_meta(copy) == optional_meta(*meta),
{
    match meta {
        Some(m) => Some(
            ManifestMeta {
                name: m.name.clone(),
                preset_id: m.preset_id.clone(),
                schema_version: m.schema_version.clone(),
                style: m.style.clone(),
                kind: m.kind.clone(),
                inherits: copy_optional_text(&m.inherits),
                upstream_repo: copy_optional_text(&m.upstream_repo),
            },
        ),
        None => None,
    }
}

/// Lays a variant over its base: in every section the base supplies the
/// keys that the variant omits and the variant wins where both have a key;
/// `meta` is the variant's. A parent that the base names is not followed.
pub fn merge_manifests(variant: &PaletteManifest, base: &PaletteManifest) -> (merged:
    PaletteManifest)
    ensures
        merged@ == merged_manifest(variant@, base@),
{
    PaletteManifest {
        meta: copy_meta(&variant.meta),
        base: merge_sections(&variant.base, &base.base),
        semantic: merge_sections(&variant.semantic, &base.semantic),
        diff: merge_sections(&variant.diff, &base.diff),
        surface: merge_sections(&variant.surface, &base.surface),
        typography: merge_sections(&variant.typography, &base.typography),
        syntax: merge_sections(&variant.syntax, &base.syntax),
        editor: merge_sections(&variant.editor, &base.editor),
        terminal: merge_sections(&variant.terminal, &base.terminal),
        platform: merge_platform_sections(&variant.platform, &base.platform),
    }
}

} // verus!
