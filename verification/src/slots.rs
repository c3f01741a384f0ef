//! Resolving the named slots of a section into colors.

use vstd::prelude::*;
use vstd::string::*;
use crate::color::{hex_color, is_hex_color, Color};
use crate::error::{ErrorModel, PaletteError};
use crate::manifest::{ManifestSection, SectionModel};

verus! {

/// Whether the section gives the slot a text that is no hex color.
pub open spec fn slot_invalid(section: SectionModel, name: Seq<char>) -> bool {
    section.contains_key(name) && !is_hex_color(section[name])
}

/// The color of a slot: `None` where the section does not name the slot.
pub open spec fn slot_color(section: SectionModel, name: Seq<char>) -> Option<Color> {
    if section.contains_key(name) && is_hex_color(section[name]) {
        Some(hex_color(section[name]))
    } else {
        None
    }
}

/// The first of `names` whose slot is invalid in the section.
pub open spec fn first_invalid(section: SectionModel, names: Seq<Seq<char>>) -> Option<Seq<char>>
    decreases names.len(),
{
    if names.len() == 0 {
        None
    } else if slot_invalid(section, names[0]) {
        Some(names[0])
    } else {
        first_invalid(section, names.drop_first())
    }
}

/// The error that resolving `names` in the section ends with: that of the
/// first invalid slot, with the section's name, the slot and the text.
pub open spec fn group_error(
    section_name: Seq<char>,
    section: SectionModel,
    names: Seq<Seq<char>>,
) -> Option<ErrorModel> {
    match first_invalid(section, names) {
        Some(name) => Some(
            ErrorModel::InvalidHex { section: section_name, field: name, value: section[name] },
        ),
        None => None,
    }
}

/// The colors of `names` in the section, in the order of `names`.
pub open spec fn group_colors(section: SectionModel, names: Seq<Seq<char>>) -> Seq<Option<Color>> {
    Seq::new(names.len(), |i: int| slot_color(section, names[i]))
}

/// The texts of a list of names.
pub open spec fn texts(names: Seq<&'static str>) -> Seq<Seq<char>> {
    Seq::new(names.len(), |i: int| names[i]@)
}

/// The populated ones among the first `n` slots, each with its name, in
/// slot order.
pub open spec fn populated_upto(names: Seq<Seq<char>>, slots: Seq<Option<Color>>, n: nat) -> Seq<
    (Seq<char>, Color),
>
    decreases n,
{
    if n == 0 {
        Seq::empty()
    } else {
        let rest = populated_upto(names, slots, (n - 1) as nat);
        match slots[n - 1] {
            Some(color) => rest.push((names[n - 1], color)),
            None => rest,
        }
    }
}

/// The populated slots, each with its name, in slot order.
pub open spec fn populated(names: Seq<Seq<char>>, slots: Seq<Option<Color>>) -> Seq<
    (Seq<char>, Color),
> {
    populated_upto(names, slots, slots.len())
}

/// A list of named colors with the names as texts.
pub open spec fn named_colors(list: Seq<(&'static str, Color)>) -> Seq<(Seq<char>, Color)> {
    Seq::new(list.len(), |i: int| (list[i].0@, list[i].1))
}

/// Where no slot of `names` is invalid, none of them is.
pub proof fn lemma_none_invalid(section: SectionModel, names: Seq<Seq<char>>, i: int)
    requires
        first_invalid(section, names) is None,
        0 <= i < names.len(),
    ensures
        !slot_invalid(section, names[i]),
    decreases names.len(),
{
    if i > 0 {
        lemma_none_invalid(section, names.drop_first(), i - 1);
    }
}

/// In a section laid over another, a slot has the color that the upper
/// section gives it, and the lower section's color where the upper
/// section does not name the slot.
pub proof fn lemma_merged_slot(upper: SectionModel, lower: SectionModel, name: Seq<char>)
    ensures
        slot_color(lower.union_prefer_right(upper), name) == if upper.contains_key(name) {
            slot_color(upper, name)
        } else {
            slot_color(lower, name)
        },
        slot_invalid(lower.union_prefer_right(upper), name) == if upper.contains_key(name) {
            slot_invalid(upper, name)
        } else {
            slot_invalid(lower, name)
        },
{
}

/// Resolves one slot: absent from the section it is `None`; present, its
/// text must be a hex color, else the error names section, slot and text.
pub fn resolve_color(section: &ManifestSection, section_name: &str, field: &str) -> (r: Result<
    Option<Color>,
    PaletteError,
>)
    ensures
        match r {
            Ok(color) => !slot_invalid(section@, field@) && color == slot_color(section@, field@),
            Err(e) => slot_invalid(section@, field@) && e@ == (ErrorModel::InvalidHex {
                section: section_name@,
                field: field@,
                value: section@[field@],
            }),
        },
{
    match section.get(field) {
        None => Ok(None),
        Some(hex) => match Color::from_hex(hex.as_str()) {
            Ok(color) => Ok(Some(color)),
            Err(invalid) => Err(
                PaletteError::InvalidHex {
                    section: section_name.to_owned(),
                    field: field.to_owned(),
                    value: invalid.value,
                },
            ),
        },
    }
}

/// Resolves the slots `names` of a section in order, stopping at the
/// first invalid one.
pub fn resolve_slots(section: &ManifestSection, section_name: &str, names: &Vec<&'static str>) -> (r:
    Result<Vec<Option<Color>>, PaletteError>)
    ensures
        match r {
            Ok(colors) => group_error(section_name@, section@, texts(names@)) is None && colors@
                == group_colors(section@, texts(names@)),
            Err(e) => group_error(section_name@, section@, texts(names@)) == Some(e@),
        },
{
    let ghost all = texts(names@);
    let n = names.len();
    let mut colors: Vec<Option<Color>> = Vec::new();
    let mut i: usize = 0;
    proof {
        assert(all.skip(0) =~= all);
    }
    while i < n
        invariant
            all == texts(names@),
            n == names@.len(),
            i <= n,
            colors@.len() == i,
            first_invalid(section@, all) == first_invalid(section@, all.skip(i as int)),
            forall|j: int| 0 <= j < i ==> colors@[j] == slot_color(section@, all[j]),
        decreases n - i,
    {
        proof {
            assert(all.skip(i as int)[0] == names@[i as int]@);
            assert(all.skip(i as int).drop_first() =~= all.skip(i + 1));
        }
        match resolve_color(section, section_name, names[i]) {
            Ok(color) => {
                colors.push(color);
            },
            Err(e) => {
                return Err(e);
            },
        }
        i = i + 1;
    }
    proof {
        assert(all.skip(n as int) =~= Seq::<Seq<char>>::empty());
        assert(colors@ =~= group_colors(section@, all));
    }
    Ok(colors)
}

/// The populated slots among `slots`, each with its name, in slot order.
pub fn populated_of(names: &Vec<&'static str>, slots: &Vec<Option<Color>>) -> (list: Vec<
    (&'static str, Color),
>)
    requires
        names@.len() == slots@.len(),
    ensures
        named_colors(list@) == populated(texts(names@), slots@),
{
    let n = slots.len();
    let mut list: Vec<(&'static str, Color)> = Vec::new();
    let mut i: usize = 0;
    proof {
        assert(named_colors(list@) =~= populated_upto(texts(names@), slots@, 0));
    }
    while i < n
        invariant
            n == slots@.len(),
            n == names@.len(),
            i <= n,
            named_colors(list@) == populated_upto(texts(names@), slots@, i as nat),
        decreases n - i,
    {
        let ghost before = named_colors(list@);
        match slots[i] {
            Some(color) => {
                list.push((names[i], color));
                proof {
                    assert(named_colors(list@) =~= before.push((names@[i as int]@, color)));
                }
            },
            None => {},
        }
        i = i + 1;
    }
    list
}

} // verus!
