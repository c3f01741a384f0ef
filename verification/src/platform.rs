//! Platform-specific color overrides, such as for a terminal or the web.

use vstd::prelude::*;
use vstd::string::*;
use crate::color::Color;
use crate::error::{ErrorModel, PaletteError};
use crate::manifest::{PlatformSections, SectionModel};
use crate::slots::{group_error, resolve_slots, slot_color, texts};
use crate::sorted_map::{
    among_first, lemma_entries_map_at, lemma_keys_of_view, sorted_keys, SortedMap,
};

verus! {

/// Background and foreground overrides for one platform.
#[derive(Debug, Clone, Copy, PartialEq, Eq)]
pub struct PlatformOverride {
    pub background: Option<Color>,
    pub foreground: Option<Color>,
}

impl View for PlatformOverride {
    type V = PlatformOverride;

    open spec fn view(&self) -> PlatformOverride {
        *self
    }
}

/// Overrides by platform name.
pub type PlatformOverrides = SortedMap<PlatformOverride>;

/// The two slots that a platform section is read for.
pub open spec fn override_names() -> Seq<Seq<char>> {
    seq!["background"@, "foreground"@]
}

/// The section name that errors give for a platform: `platform.` and its name.
pub open spec fn platform_label(name: Seq<char>) -> Seq<char> {
    "platform."@ + name
}

/// The overrides that a platform section stands for; other keys are ignored.
pub open spec fn override_of(section: SectionModel) -> PlatformOverride {
    PlatformOverride {
        background: slot_color(section, "background"@),
        foreground: slot_color(section, "foreground"@),
    }
}

/// The error of the first platform, in the order of `names`, that has an
/// invalid background or, failing that, an invalid foreground.
pub open spec fn sections_error(
    names: Seq<Seq<char>>,
    sections: Map<Seq<char>, SectionModel>,
) -> Option<ErrorModel>
    decreases names.len(),
{
    if names.len() == 0 {
        None
    } else {
        match group_error(platform_label(names[0]), sections[names[0]], override_names()) {
            Some(e) => Some(e),
            None => sections_error(names.drop_first(), sections),
        }
    }
}

/// The overrides of every platform.
pub open spec fn overrides_of(sections: Map<Seq<char>, SectionModel>) -> Map<
    Seq<char>,
    PlatformOverride,
> {
    Map::new(|k: Seq<char>| sections.contains_key(k), |k: Seq<char>| override_of(sections[k]))
}

/// The error that resolving the platform sections ends with: platforms
/// are taken in ascending order of their names.
pub open spec fn platform_error(sections: Map<Seq<char>, SectionModel>) -> Option<ErrorModel> {
    sections_error(sorted_keys(sections.dom()), sections)
}

/// Resolves platform sections into typed overrides. Platforms are taken
/// in ascending order of their names, background before foreground; the
/// first text that is no hex color ends the resolution with its error.
pub fn from_sections(sections: &PlatformSections) -> (r: Result<PlatformOverrides, PaletteError>)
    ensures
        match r {
            Ok(overrides) => platform_error(sections@) is None && overrides@ == overrides_of(
                sections@,
            ),
            Err(e) => platform_error(sections@) == Some(e@),
        },
{
    let ghost names = sections.keys();
    let n = sections.len();
    let slots = vec!["background", "foreground"];
    proof {
        lemma_keys_of_view(sections.keys(), sections.vals());
        assert(texts(slots@) =~= override_names());
        assert(names.skip(0) =~= names);
    }
    let mut overrides = PlatformOverrides::new();
    assert(overrides@ =~= Map::<Seq<char>, PlatformOverride>::empty());
    let mut i: usize = 0;
    while i < n
        invariant
            names == sections.keys(),
            n == names.len(),
            sections.well_ordered(),
            i <= n,
            texts(slots@) == override_names(),
            sorted_keys(sections@.dom()) == names,
            sections_error(names, sections@) == sections_error(names.skip(i as int), sections@),
            forall|k: Seq<char>| overrides@.contains_key(k) <==> among_first(names, i as int, k),
            forall|k: Seq<char>|
                overrides@.contains_key(k) ==> overrides@[k] == override_of(sections@[k]),
        decreases n - i,
    {
        let name = sections.key_at(i);
        let section = sections.value_at(i);
        proof {
            lemma_entries_map_at(sections.keys(), sections.vals(), i as int);
            assert(names.skip(i as int)[0] == name@);
            assert(names.skip(i as int).drop_first() =~= names.skip(i + 1));
        }
        let label = String::from_str("platform.").concat(name);
        match resolve_slots(section, label.as_str(), &slots) {
            Ok(colors) => {
                let ghost before = overrides@;
                proof {
                    assert(override_names()[0] == "background"@);
                    assert(override_names()[1] == "foreground"@);
                    assert(colors@[0] == slot_color(section@, "background"@));
                    assert(colors@[1] == slot_color(section@, "foreground"@));
                }
                overrides.insert(
                    name.to_owned(),
                    PlatformOverride { background: colors[0], foreground: colors[1] },
                );
                proof {
                    assert forall|k: Seq<char>| overrides@.contains_key(k) <==> among_first(
                        names,
                        i + 1,
                        k,
                    ) by {
                        if overrides@.contains_key(k) {
                            if k == name@ {
                                assert(names[i as int] == k);
                            } else {
                                assert(before.contains_key(k));
                                assert(among_first(names, i as int, k));
                                let j = choose|j: int| 0 <= j < i && #[trigger] names[j] == k;
                                assert(names[j] == k);
                            }
                        }
                        if among_first(names, i + 1, k) {
                            let j = choose|j: int| 0 <= j < i + 1 && #[trigger] names[j] == k;
                            if j < i {
                                assert(among_first(names, i as int, k));
                            }
                        }
                    }
                }
            },
            Err(e) => {
                return Err(e);
            },
        }
        i = i + 1;
    }
    proof {
        assert(names.skip(n as int) =~= Seq::<Seq<char>>::empty());
        assert forall|k: Seq<char>| sections@.contains_key(k) <==> among_first(
            names,
            n as int,
            k,
        ) by {
            if sections@.contains_key(k) {
                let j = names.index_of(k);
                assert(names[j] == k);
            }
            if among_first(names, n as int, k) {
                let j = choose|j: int| 0 <= j < n && #[trigger] names[j] == k;
                lemma_entries_map_at(sections.keys(), sections.vals(), j);
            }
        }
        assert forall|k: Seq<char>| overrides@.contains_key(k) <==> overrides_of(
            sections@,
        ).contains_key(k) by {
            assert(overrides@.contains_key(k) <==> among_first(names, n as int, k));
        }
        assert(overrides@ =~= overrides_of(sections@));
    }
    Ok(overrides)
}

} // verus!
