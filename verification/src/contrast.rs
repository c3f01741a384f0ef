//! WCAG conformance levels and the pairs of slots whose contrast is checked.

use vstd::prelude::*;
use vstd::string::*;
use crate::color::Color;
use crate::groups::{SemanticColors, SyntaxColors};
use crate::palette::{Palette, PaletteModel};
use crate::slots::texts;
use crate::text::str_eq;

verus! {

/// WCAG 2.1 conformance level for contrast checking.
#[derive(Debug, Clone, Copy, PartialEq, Eq, Hash, Structural)]
pub enum ContrastLevel {
    AaNormal,
    AaLarge,
    AaaNormal,
    AaaLarge,
}

impl ContrastLevel {
    /// Ten times the minimum contrast ratio of the level: 4.5 for
    /// AA-normal and AAA-large, 3.0 for AA-large, 7.0 for AAA-normal.
    pub open spec fn tenths(self) -> int {
        match self {
            ContrastLevel::AaNormal => 45,
            ContrastLevel::AaLarge => 30,
            ContrastLevel::AaaNormal => 70,
            ContrastLevel::AaaLarge => 45,
        }
    }

    /// Ten times the minimum contrast ratio required for this level.
    pub fn threshold_tenths(self) -> (t: u32)
        ensures
            t == self.tenths(),
    {
        match self {
            ContrastLevel::AaNormal => 45,
            ContrastLevel::AaLarge => 30,
            ContrastLevel::AaaNormal => 70,
            ContrastLevel::AaaLarge => 45,
        }
    }
}

/// The level that a name stands for: `aa`, `aa-large`, `aaa` or `aaa-large`.
pub open spec fn level_named(name: Seq<char>) -> Option<ContrastLevel> {
    if name == "aa"@ {
        Some(ContrastLevel::AaNormal)
    } else if name == "aa-large"@ {
        Some(ContrastLevel::AaLarge)
    } else if name == "aaa"@ {
        Some(ContrastLevel::AaaNormal)
    } else if name == "aaa-large"@ {
        Some(ContrastLevel::AaaLarge)
    } else {
        None
    }
}

/// Reads a level from its name. Any other text is an error whose message
/// is `unknown contrast level: ` followed by the text.
pub fn parse_contrast_level(s: &str) -> (r: Result<ContrastLevel, String>)
    ensures
        match r {
            Ok(level) => level_named(s@) == Some(level),
            Err(message) => level_named(s@) is None && message@ == "unknown contrast level: "@
                + s@,
        },
{
    if str_eq(s, "aa") {
        Ok(ContrastLevel::AaNormal)
    } else if str_eq(s, "aa-large") {
        Ok(ContrastLevel::AaLarge)
    } else if str_eq(s, "aaa") {
        Ok(ContrastLevel::AaaNormal)
    } else if str_eq(s, "aaa-large") {
        Ok(ContrastLevel::AaaLarge)
    } else {
        Err(String::from_str("unknown contrast level: ").concat(s))
    }
}

/// A foreground and a background that are both populated, with the
/// labels (`section.slot`) of the slots they come from.
#[derive(Debug, Clone, PartialEq, Eq)]
pub struct ContrastPair {
    pub foreground_label: String,
    pub background_label: String,
    pub foreground: Color,
    pub background: Color,
}

/// A pair with its labels as character sequences.
pub struct PairModel {
    pub foreground_label: Seq<char>,
    pub background_label: Seq<char>,
    pub foreground: Color,
    pub background: Color,
}

impl View for ContrastPair {
    type V = PairModel;

    open spec fn view(&self) -> PairModel {
        PairModel {
            foreground_label: self.foreground_label@,
            background_label: self.background_label@,
            foreground: self.foreground,
            background: self.background,
        }
    }
}

/// The views of a list of pairs.
pub open spec fn pair_views(pairs: Seq<ContrastPair>) -> Seq<PairModel> {
    Seq::new(pairs.len(), |i: int| pairs[i]@)
}

/// The label of a slot: its section, a dot, its name.
pub open spec fn label(section: Seq<char>, name: Seq<char>) -> Seq<char> {
    section + "."@ + name
}

/// The pair of two slots if both are populated, else nothing.
pub open spec fn pair_if(
    fg_section: Seq<char>,
    fg_name: Seq<char>,
    bg_section: Seq<char>,
    bg_name: Seq<char>,
    fg: Option<Color>,
    bg: Option<Color>,
) -> Seq<PairModel> {
    match (fg, bg) {
        (Some(f), Some(b)) => seq![
            PairModel {
                foreground_label: label(fg_section, fg_name),
                background_label: label(bg_section, bg_name),
                foreground: f,
                background: b,
            },
        ],
        _ => Seq::empty(),
    }
}

/// The pairs of the first `n` slots of a group, each against the base
/// background, in slot order.
pub open spec fn over_background(
    section: Seq<char>,
    names: Seq<Seq<char>>,
    slots: Seq<Option<Color>>,
    background: Option<Color>,
    n: nat,
) -> Seq<PairModel>
    decreases n,
{
    if n == 0 {
        Seq::empty()
    } else {
        over_background(section, names, slots, background, (n - 1) as nat) + pair_if(
            section,
            names[n - 1],
            "base"@,
            "background"@,
            slots[n - 1],
            background,
        )
    }
}

/// The pairs that a palette is checked on, in checking order: the base
/// foregrounds on the base backgrounds, every semantic color on the base
/// background, the editor's and the diff's foreground/background pairs,
/// comments and line numbers on the base background, and every syntax
/// color on the base background. A pair with an unpopulated side is left out.
pub open spec fn checked_pairs(p: PaletteModel) -> Seq<PairModel> {
    pair_if("base"@, "foreground"@, "base"@, "background"@, p.base.foreground, p.base.background)
        + pair_if(
        "base"@,
        "foreground_dark"@,
        "base"@,
        "background"@,
        p.base.foreground_dark,
        p.base.background,
    ) + pair_if(
        "base"@,
        "foreground"@,
        "base"@,
        "background_dark"@,
        p.base.foreground,
        p.base.background_dark,
    ) + pair_if(
        "base"@,
        "foreground"@,
        "base"@,
        "background_highlight"@,
        p.base.foreground,
        p.base.background_highlight,
    ) + over_background(
        "semantic"@,
        SemanticColors::names(),
        p.semantic.slots(),
        p.base.background,
        5,
    ) + pair_if(
        "editor"@,
        "selection_fg"@,
        "editor"@,
        "selection_bg"@,
        p.editor.selection_fg,
        p.editor.selection_bg,
    ) + pair_if(
        "editor"@,
        "inlay_hint_fg"@,
        "editor"@,
        "inlay_hint_bg"@,
        p.editor.inlay_hint_fg,
        p.editor.inlay_hint_bg,
    ) + pair_if(
        "editor"@,
        "search_fg"@,
        "editor"@,
        "search_bg"@,
        p.editor.search_fg,
        p.editor.search_bg,
    ) + pair_if(
        "editor"@,
        "cursor_text"@,
        "editor"@,
        "cursor"@,
        p.editor.cursor_text,
        p.editor.cursor,
    ) + pair_if("diff"@, "added_fg"@, "diff"@, "added_bg"@, p.diff.added_fg, p.diff.added_bg)
        + pair_if(
        "diff"@,
        "modified_fg"@,
        "diff"@,
        "modified_bg"@,
        p.diff.modified_fg,
        p.diff.modified_bg,
    ) + pair_if(
        "diff"@,
        "removed_fg"@,
        "diff"@,
        "removed_bg"@,
        p.diff.removed_fg,
        p.diff.removed_bg,
    ) + pair_if(
        "typography"@,
        "comment"@,
        "base"@,
        "background"@,
        p.typography.comment,
        p.base.background,
    ) + pair_if(
        "typography"@,
        "line_number"@,
        "base"@,
        "background"@,
        p.typography.line_number,
        p.base.background,
    ) + over_background("syntax"@, SyntaxColors::names(), p.syntax.slots(), p.base.background, 26)
}

/// Appends the pair of two slots to `pairs` if both are populated.
fn push_pair(
    pairs: &mut Vec<ContrastPair>,
    fg_section: &str,
    fg_name: &str,
    bg_section: &str,
    bg_name: &str,
    fg: Option<Color>,
    bg: Option<Color>,
)
    ensures
        pair_views(final(pairs)@) == pair_views(old(pairs)@) + pair_if(
            fg_section@,
            fg_name@,
            bg_section@,
            bg_name@,
            fg,
            bg,
        ),
{
    match (fg, bg) {
        (Some(f), Some(b)) => {
            let mut foreground_label = String::from_str(fg_section);
            foreground_label.append(".");
            foreground_label.append(fg_name);
            let mut background_label = String::from_str(bg_section);
            background_label.append(".");
            background_label.append(bg_name);
            let pair = ContrastPair {
                foreground_label,
                background_label,
                foreground: f,
                background: b,
            };
            pairs.push(pair);
            assert(pair_views(pairs@) =~= pair_views(old(pairs)@) + seq![pair@]);
        },
        _ => {
            assert(pair_views(pairs@) =~= pair_views(old(pairs)@) + Seq::<PairModel>::empty());
        },
    }
}

/// Appends the pairs of a group's slots, each against the base background.
fn push_over_background(
    pairs: &mut Vec<ContrastPair>,
    section: &str,
    names: &Vec<&'static str>,
    slots: &Vec<Option<Color>>,
    background: Option<Color>,
)
    requires
        names@.len() == slots@.len(),
    ensures
        pair_views(final(pairs)@) == pair_views(old(pairs)@) + over_background(
            section@,
            texts(names@),
            slots@,
            background,
            slots@.len(),
        ),
{
    let n = slots.len();
    let mut i: usize = 0;
    proof {
        assert(pair_views(pairs@) =~= pair_views(old(pairs)@) + Seq::<PairModel>::empty());
    }
    while i < n
        invariant
            n == slots@.len(),
            n == names@.len(),
            i <= n,
            pair_views(pairs@) == pair_views(old(pairs)@) + over_background(
                section@,
                texts(names@),
                slots@,
                background,
                i as nat,
            ),
        decreases n - i,
    {
        let ghost before = pair_views(pairs@);
        let ghost sofar = over_background(section@, texts(names@), slots@, background, i as nat);
        push_pair(pairs, section, names[i], "base", "background", slots[i], background);
        proof {
            let step = pair_if(
                section@,
                names@[i as int]@,
                "base"@,
                "background"@,
                slots@[i as int],
                background,
            );
            assert(pair_views(pairs@) =~= pair_views(old(pairs)@) + (sofar + step));
        }
        i = i + 1;
    }
}

/// The pairs of slots that a palette is checked on, in checking order.
/// Only pairs with both sides populated are listed.
pub fn contrast_pairs(palette: &Palette) -> (pairs: Vec<ContrastPair>)
    ensures
        pair_views(pairs@) == checked_pairs(palette@),
{
    let mut pairs: Vec<ContrastPair> = Vec::new();
    assert(pair_views(pairs@) =~= Seq::<PairModel>::empty());
    let background = palette.base.background;
    push_pair(
        &mut pairs,
        "base",
        "foreground",
        "base",
        "background",
        palette.base.foreground,
        background,
    );
    push_pair(
        &mut pairs,
        "base",
        "foreground_dark",
        "base",
        "background",
        palette.base.foreground_dark,
        background,
    );
    push_pair(
        &mut pairs,
        "base",
        "foreground",
        "base",
        "background_dark",
        palette.base.foreground,
        palette.base.background_dark,
    );
    push_pair(
        &mut pairs,
        "base",
        "foreground",
        "base",
        "background_highlight",
        palette.base.foreground,
        palette.base.background_highlight,
    );
    push_over_background(
        &mut pairs,
        "semantic",
        &SemanticColors::slot_names(),
        &palette.semantic.slot_values(),
        background,
    );
    push_pair(
        &mut pairs,
        "editor",
        "selection_fg",
        "editor",
        "selection_bg",
        palette.editor.selection_fg,
        palette.editor.selection_bg,
    );
    push_pair(
        &mut pairs,
        "editor",
        "inlay_hint_fg",
        "editor",
        "inlay_hint_bg",
        palette.editor.inlay_hint_fg,
        palette.editor.inlay_hint_bg,
    );
    push_pair(
        &mut pairs,
        "editor",
        "search_fg",
        "editor",
        "search_bg",
        palette.editor.search_fg,
        palette.editor.search_bg,
    );
    push_pair(
        &mut pairs,
        "editor",
        "cursor_text",
        "editor",
        "cursor",
        palette.editor.cursor_text,
        palette.editor.cursor,
    );
    push_pair(
        &mut pairs,
        "diff",
        "added_fg",
        "diff",
        "added_bg",
        palette.diff.added_fg,
        palette.diff.added_bg,
    );
    push_pair(
        &mut pairs,
        "diff",
        "modified_fg",
        "diff",
        "modified_bg",
        palette.diff.modified_fg,
        palette.diff.modified_bg,
    );
    push_pair(
        &mut pairs,
        "diff",
        "removed_fg",
        "diff",
        "removed_bg",
        palette.diff.removed_fg,
        palette.diff.removed_bg,
    );
    push_pair(
        &mut pairs,
        "typography",
        "comment",
        "base",
        "background",
        palette.typography.comment,
        background,
    );
    push_pair(
        &mut pairs,
        "typography",
        "line_number",
        "base",
        "background",
        palette.typography.line_number,
        background,
    );
    push_over_background(
        &mut pairs,
        "syntax",
        &SyntaxColors::slot_names(),
        &palette.syntax.slot_values(),
        background,
    );
    assert(pair_views(pairs@) =~= checked_pairs(palette@));
    pairs
}

} // verus!
