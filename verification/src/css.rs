//! CSS custom properties for a palette: one declaration per populated slot.

use vstd::prelude::*;
use vstd::string::*;
use crate::color::{hex_text, Color};
use crate::manifest::optional_str;
use crate::groups::{
    BaseColors, DiffColors, EditorColors, SemanticColors, SurfaceColors, SyntaxColors,
    TerminalAnsiColors, TypographyColors,
};
use crate::palette::{Palette, PaletteModel};
use crate::slots::{named_colors, populated};
use crate::text::str_eq;

verus! {

/// The short names of slots in CSS: section, slot, CSS name.
pub open spec fn alias_table() -> Seq<(Seq<char>, Seq<char>, Seq<char>)> {
    seq![
        ("base"@, "background"@, "bg"@),
        ("base"@, "background_dark"@, "bg-dark"@),
        ("base"@, "background_highlight"@, "bg-hi"@),
        ("base"@, "foreground"@, "fg"@),
        ("base"@, "foreground_dark"@, "fg-dark"@),
        ("base"@, "border"@, "border"@),
        ("base"@, "border_highlight"@, "border-hi"@),
        ("semantic"@, "success"@, "success"@),
        ("semantic"@, "warning"@, "warning"@),
        ("semantic"@, "error"@, "error"@),
        ("semantic"@, "info"@, "info"@),
        ("semantic"@, "hint"@, "hint"@),
        ("surface"@, "menu"@, "ui-menu"@),
        ("surface"@, "sidebar"@, "ui-sidebar"@),
        ("surface"@, "statusline"@, "ui-statusline"@),
        ("surface"@, "float"@, "ui-float"@),
        ("surface"@, "popup"@, "ui-popup"@),
        ("surface"@, "overlay"@, "ui-overlay"@),
        ("surface"@, "highlight"@, "ui-hi"@),
        ("surface"@, "selection"@, "ui-sel"@),
        ("surface"@, "focus"@, "ui-focus"@),
        ("surface"@, "search"@, "ui-search"@),
        ("typography"@, "comment"@, "text-comment"@),
        ("typography"@, "gutter"@, "text-gutter"@),
        ("typography"@, "line_number"@, "text-line-num"@),
        ("typography"@, "selection_text"@, "text-sel"@),
        ("typography"@, "link"@, "text-link"@),
        ("typography"@, "title"@, "text-title"@),
        ("syntax"@, "keywords"@, "syn-keyword"@),
        ("syntax"@, "keywords_fn"@, "syn-keyword-fn"@),
        ("syntax"@, "functions"@, "syn-fn"@),
        ("syntax"@, "variables"@, "syn-var"@),
        ("syntax"@, "variables_builtin"@, "syn-var-builtin"@),
        ("syntax"@, "parameters"@, "syn-param"@),
        ("syntax"@, "properties"@, "syn-prop"@),
        ("syntax"@, "types"@, "syn-type"@),
        ("syntax"@, "types_builtin"@, "syn-type-builtin"@),
        ("syntax"@, "constants"@, "syn-const"@),
        ("syntax"@, "numbers"@, "syn-number"@),
        ("syntax"@, "booleans"@, "syn-bool"@),
        ("syntax"@, "strings"@, "syn-string"@),
        ("syntax"@, "strings_doc"@, "syn-string-doc"@),
        ("syntax"@, "strings_escape"@, "syn-string-esc"@),
        ("syntax"@, "strings_regex"@, "syn-string-re"@),
        ("syntax"@, "operators"@, "syn-op"@),
        ("syntax"@, "punctuation"@, "syn-punct"@),
        ("syntax"@, "punctuation_bracket"@, "syn-punct-bracket"@),
        ("syntax"@, "annotations"@, "syn-annotation"@),
        ("syntax"@, "attributes"@, "syn-attr"@),
        ("syntax"@, "constructor"@, "syn-ctor"@),
        ("syntax"@, "tag"@, "syn-tag"@),
        ("syntax"@, "tag_delimiter"@, "syn-tag-delim"@),
        ("syntax"@, "tag_attribute"@, "syn-tag-attr"@),
        ("syntax"@, "comments"@, "syn-comment"@),
        ("editor"@, "cursor"@, "ed-cursor"@),
        ("editor"@, "cursor_text"@, "ed-cursor-text"@),
        ("editor"@, "match_paren"@, "ed-match-paren"@),
        ("editor"@, "selection_bg"@, "ed-sel-bg"@),
        ("editor"@, "selection_fg"@, "ed-sel-fg"@),
        ("editor"@, "inlay_hint_bg"@, "ed-hint-bg"@),
        ("editor"@, "inlay_hint_fg"@, "ed-hint-fg"@),
        ("editor"@, "search_bg"@, "ed-search-bg"@),
        ("editor"@, "search_fg"@, "ed-search-fg"@),
        ("editor"@, "diagnostic_error"@, "ed-diag-error"@),
        ("editor"@, "diagnostic_warn"@, "ed-diag-warn"@),
        ("editor"@, "diagnostic_info"@, "ed-diag-info"@),
        ("editor"@, "diagnostic_hint"@, "ed-diag-hint"@),
        ("editor"@, "diagnostic_underline_error"@, "ed-diag-ul-error"@),
        ("editor"@, "diagnostic_underline_warn"@, "ed-diag-ul-warn"@),
        ("editor"@, "diagnostic_underline_info"@, "ed-diag-ul-info"@),
        ("editor"@, "diagnostic_underline_hint"@, "ed-diag-ul-hint"@),
        ("diff"@, "added"@, "diff-added"@),
        ("diff"@, "added_bg"@, "diff-added-bg"@),
        ("diff"@, "added_fg"@, "diff-added-fg"@),
        ("diff"@, "modified"@, "diff-modified"@),
        ("diff"@, "modified_bg"@, "diff-modified-bg"@),
        ("diff"@, "modified_fg"@, "diff-modified-fg"@),
        ("diff"@, "removed"@, "diff-removed"@),
        ("diff"@, "removed_bg"@, "diff-removed-bg"@),
        ("diff"@, "removed_fg"@, "diff-removed-fg"@),
        ("diff"@, "text_bg"@, "diff-text-bg"@),
        ("diff"@, "ignored"@, "diff-ignored"@),
        ("terminal"@, "black"@, "ansi-black"@),
        ("terminal"@, "red"@, "ansi-red"@),
        ("terminal"@, "green"@, "ansi-green"@),
        ("terminal"@, "yellow"@, "ansi-yellow"@),
        ("terminal"@, "blue"@, "ansi-blue"@),
        ("terminal"@, "magenta"@, "ansi-magenta"@),
        ("terminal"@, "cyan"@, "ansi-cyan"@),
        ("terminal"@, "white"@, "ansi-white"@),
        ("terminal"@, "bright_black"@, "ansi-bright-black"@),
        ("terminal"@, "bright_red"@, "ansi-bright-red"@),
        ("terminal"@, "bright_green"@, "ansi-bright-green"@),
        ("terminal"@, "bright_yellow"@, "ansi-bright-yellow"@),
        ("terminal"@, "bright_blue"@, "ansi-bright-blue"@),
        ("terminal"@, "bright_magenta"@, "ansi-bright-magenta"@),
        ("terminal"@, "bright_cyan"@, "ansi-bright-cyan"@),
        ("terminal"@, "bright_white"@, "ansi-bright-white"@),
    ]
}

/// The CSS name that the first matching row of `table` gives the slot.
pub open spec fn alias_in(
    table: Seq<(Seq<char>, Seq<char>, Seq<char>)>,
    section: Seq<char>,
    field: Seq<char>,
) -> Option<Seq<char>>
    decreases table.len(),
{
    if table.len() == 0 {
        None
    } else if table[0].0 == section && table[0].1 == field {
        Some(table[0].2)
    } else {
        alias_in(table.drop_first(), section, field)
    }
}

/// The short CSS name of a slot, where the table has one.
pub open spec fn css_alias(section: Seq<char>, field: Seq<char>) -> Option<Seq<char>> {
    alias_in(alias_table(), section, field)
}

/// The name of a slot without a short name: the section, a hyphen, and
/// the slot with each underscore turned into a hyphen.
pub open spec fn fallback_text(section: Seq<char>, field: Seq<char>) -> Seq<char> {
    section + seq!['-'] + Seq::new(field.len(), |i: int| if field[i] == '_' { '-' } else { field[i] })
}

/// The CSS name of a slot: its short name, else the fallback.
pub open spec fn css_slot(section: Seq<char>, field: Seq<char>) -> Seq<char> {
    match css_alias(section, field) {
        Some(alias) => alias,
        None => fallback_text(section, field),
    }
}

/// One declaration: two spaces, `--`, the prefix and a hyphen if there
/// is a prefix, the slot's CSS name, `: `, the color, `;` and a newline.
pub open spec fn css_line(
    prefix: Option<Seq<char>>,
    section: Seq<char>,
    field: Seq<char>,
    color: Color,
) -> Seq<char> {
    match prefix {
        Some(p) => "  --"@ + p + "-"@ + css_slot(section, field) + ": "@ + hex_text(color) + ";\n"@,
        None => "  --"@ + css_slot(section, field) + ": "@ + hex_text(color) + ";\n"@,
    }
}

/// The declarations of a section's populated slots, in order.
pub open spec fn css_lines(
    prefix: Option<Seq<char>>,
    section: Seq<char>,
    slots: Seq<(Seq<char>, Color)>,
) -> Seq<char>
    decreases slots.len(),
{
    if slots.len() == 0 {
        Seq::empty()
    } else {
        css_lines(prefix, section, slots.drop_last()) + css_line(
            prefix,
            section,
            slots.last().0,
            slots.last().1,
        )
    }
}

/// The declarations of a whole palette: sections in the order base,
/// semantic, diff, surface, typography, syntax, editor, terminal.
pub open spec fn css_text(prefix: Option<Seq<char>>, p: PaletteModel) -> Seq<char> {
    css_lines(prefix, "base"@, populated(BaseColors::names(), p.base.slots())) + css_lines(
        prefix,
        "semantic"@,
        populated(SemanticColors::names(), p.semantic.slots()),
    ) + css_lines(prefix, "diff"@, populated(DiffColors::names(), p.diff.slots())) + css_lines(
        prefix,
        "surface"@,
        populated(SurfaceColors::names(), p.surface.slots()),
    ) + css_lines(
        prefix,
        "typography"@,
        populated(TypographyColors::names(), p.typography.slots()),
    ) + css_lines(prefix, "syntax"@, populated(SyntaxColors::names(), p.syntax.slots()))
        + css_lines(prefix, "editor"@, populated(EditorColors::names(), p.editor.slots()))
        + css_lines(
        prefix,
        "terminal"@,
        populated(TerminalAnsiColors::names(), p.terminal_ansi.slots()),
    )
}

/// The rows of a table with their texts as character sequences.
pub open spec fn rows(table: Seq<(&'static str, &'static str, &'static str)>) -> Seq<
    (Seq<char>, Seq<char>, Seq<char>),
> {
    Seq::new(table.len(), |i: int| (table[i].0@, table[i].1@, table[i].2@))
}

fn alias_rows() -> (table: Vec<(&'static str, &'static str, &'static str)>)
    ensures
        rows(table@) == alias_table(),
{
    let table = vec![
        ("base", "background", "bg"),
        ("base", "background_dark", "bg-dark"),
        ("base", "background_highlight", "bg-hi"),
        ("base", "foreground", "fg"),
        ("base", "foreground_dark", "fg-dark"),
        ("base", "border", "border"),
        ("base", "border_highlight", "border-hi"),
        ("semantic", "success", "success"),
        ("semantic", "warning", "warning"),
        ("semantic", "error", "error"),
        ("semantic", "info", "info"),
        ("semantic", "hint", "hint"),
        ("surface", "menu", "ui-menu"),
        ("surface", "sidebar", "ui-sidebar"),
        ("surface", "statusline", "ui-statusline"),
        ("surface", "float", "ui-float"),
        ("surface", "popup", "ui-popup"),
        ("surface", "overlay", "ui-overlay"),
        ("surface", "highlight", "ui-hi"),
        ("surface", "selection", "ui-sel"),
        ("surface", "focus", "ui-focus"),
        ("surface", "search", "ui-search"),
        ("typography", "comment", "text-comment"),
        ("typography", "gutter", "text-gutter"),
        ("typography", "line_number", "text-line-num"),
        ("typography", "selection_text", "text-sel"),
        ("typography", "link", "text-link"),
        ("typography", "title", "text-title"),
        ("syntax", "keywords", "syn-keyword"),
        ("syntax", "keywords_fn", "syn-keyword-fn"),
        ("syntax", "functions", "syn-fn"),
        ("syntax", "variables", "syn-var"),
        ("syntax", "variables_builtin", "syn-var-builtin"),
        ("syntax", "parameters", "syn-param"),
        ("syntax", "properties", "syn-prop"),
        ("syntax", "types", "syn-type"),
        ("syntax", "types_builtin", "syn-type-builtin"),
        ("syntax", "constants", "syn-const"),
        ("syntax", "numbers", "syn-number"),
        ("syntax", "booleans", "syn-bool"),
        ("syntax", "strings", "syn-string"),
        ("syntax", "strings_doc", "syn-string-doc"),
        ("syntax", "strings_escape", "syn-string-esc"),
        ("syntax", "strings_regex", "syn-string-re"),
        ("syntax", "operators", "syn-op"),
        ("syntax", "punctuation", "syn-punct"),
        ("syntax", "punctuation_bracket", "syn-punct-bracket"),
        ("syntax", "annotations", "syn-annotation"),
        ("syntax", "attributes", "syn-attr"),
        ("syntax", "constructor", "syn-ctor"),
        ("syntax", "tag", "syn-tag"),
        ("syntax", "tag_delimiter", "syn-tag-delim"),
        ("syntax", "tag_attribute", "syn-tag-attr"),
        ("syntax", "comments", "syn-comment"),
        ("editor", "cursor", "ed-cursor"),
        ("editor", "cursor_text", "ed-cursor-text"),
        ("editor", "match_paren", "ed-match-paren"),
        ("editor", "selection_bg", "ed-sel-bg"),
        ("editor", "selection_fg", "ed-sel-fg"),
        ("editor", "inlay_hint_bg", "ed-hint-bg"),
        ("editor", "inlay_hint_fg", "ed-hint-fg"),
        ("editor", "search_bg", "ed-search-bg"),
        ("editor", "search_fg", "ed-search-fg"),
        ("editor", "diagnostic_error", "ed-diag-error"),
        ("editor", "diagnostic_warn", "ed-diag-warn"),
        ("editor", "diagnostic_info", "ed-diag-info"),
        ("editor", "diagnostic_hint", "ed-diag-hint"),
        ("editor", "diagnostic_underline_error", "ed-diag-ul-error"),
        ("editor", "diagnostic_underline_warn", "ed-diag-ul-warn"),
        ("editor", "diagnostic_underline_info", "ed-diag-ul-info"),
        ("editor", "diagnostic_underline_hint", "ed-diag-ul-hint"),
        ("diff", "added", "diff-added"),
        ("diff", "added_bg", "diff-added-bg"),
        ("diff", "added_fg", "diff-added-fg"),
        ("diff", "modified", "diff-modified"),
        ("diff", "modified_bg", "diff-modified-bg"),
        ("diff", "modified_fg", "diff-modified-fg"),
        ("diff", "removed", "diff-removed"),
        ("diff", "removed_bg", "diff-removed-bg"),
        ("diff", "removed_fg", "diff-removed-fg"),
        ("diff", "text_bg", "diff-text-bg"),
        ("diff", "ignored", "diff-ignored"),
        ("terminal", "black", "ansi-black"),
        ("terminal", "red", "ansi-red"),
        ("terminal", "green", "ansi-green"),
        ("terminal", "yellow", "ansi-yellow"),
        ("terminal", "blue", "ansi-blue"),
        ("terminal", "magenta", "ansi-magenta"),
        ("terminal", "cyan", "ansi-cyan"),
        ("terminal", "white", "ansi-white"),
        ("terminal", "bright_black", "ansi-bright-black"),
        ("terminal", "bright_red", "ansi-bright-red"),
        ("terminal", "bright_green", "ansi-bright-green"),
        ("terminal", "bright_yellow", "ansi-bright-yellow"),
        ("terminal", "bright_blue", "ansi-bright-blue"),
        ("terminal", "bright_magenta", "ansi-bright-magenta"),
        ("terminal", "bright_cyan", "ansi-bright-cyan"),
        ("terminal", "bright_white", "ansi-bright-white"),
    ];
    assert(rows(table@) =~= alias_table());
    table
}

/// The CSS name that the first matching row of `table` gives the slot.
fn find_alias(
    table: &Vec<(&'static str, &'static str, &'static str)>,
    section: &str,
    field: &str,
) -> (r: Option<&'static str>)
    ensures
        optional_str(r) == alias_in(rows(table@), section@, field@),
{
    let ghost all = rows(table@);
    let n = table.len();
    let mut i: usize = 0;
    proof {
        assert(all.skip(0) =~= all);
    }
    while i < n
        invariant
            all == rows(table@),
            n == table@.len(),
            i <= n,
            alias_in(all, section@, field@) == alias_in(all.skip(i as int), section@, field@),
        decreases n - i,
    {
        proof {
            assert(all.skip(i as int)[0] == all[i as int]);
            assert(all.skip(i as int).drop_first() =~= all.skip(i + 1));
        }
        if str_eq(table[i].0, section) && str_eq(table[i].1, field) {
            return Some(table[i].2);
        }
        i = i + 1;
    }
    proof {
        assert(all.skip(n as int) =~= Seq::<(Seq<char>, Seq<char>, Seq<char>)>::empty());
    }
    None
}

/// The short CSS name of a slot, where the table has one.
pub fn css_name(section: &str, field: &str) -> (r: Option<&'static str>)
    ensures
        optional_str(r) == css_alias(section@, field@),
{
    let table = alias_rows();
    find_alias(&table, section, field)
}

/// The name of a slot without a short name: the section, a hyphen, and
/// the slot with each underscore turned into a hyphen.
pub fn fallback_slot(section: &str, field: &str) -> (r: String)
    ensures
        r@ == fallback_text(section@, field@),
{
    let mut out = String::from_str(section);
    out.append("-");
    proof {
        reveal_strlit("-");
        assert(out@ =~= section@ + seq!['-']);
    }
    let n = field.unicode_len();
    let mut i: usize = 0;
    while i < n
        invariant
            n == field@.len(),
            i <= n,
            out@ == section@ + seq!['-'] + Seq::new(
                i as nat,
                |j: int| if field@[j] == '_' { '-' } else { field@[j] },
            ),
        decreases n - i,
    {
        let ghost before = out@;
        if field.get_char(i) == '_' {
            out.append("-");
            proof {
                reveal_strlit("-");
            }
        } else {
            out.append(field.substring_char(i, i + 1));
        }
        proof {
            let ch = if field@[i as int] == '_' { '-' } else { field@[i as int] };
            assert(out@ =~= before + seq![ch]);
            assert(out@ =~= section@ + seq!['-'] + Seq::new(
                (i + 1) as nat,
                |j: int| if field@[j] == '_' { '-' } else { field@[j] },
            ));
        }
        i = i + 1;
    }
    out
}

/// Appends the declarations of one section's populated slots to `out`.
pub fn write_section(
    out: &mut String,
    prefix: Option<&str>,
    section: &str,
    slots: &Vec<(&'static str, Color)>,
)
    ensures
        final(out)@ == old(out)@ + css_lines(optional_str(prefix), section@, named_colors(slots@)),
{
    let ghost all = named_colors(slots@);
    let ghost p = optional_str(prefix);
    let table = alias_rows();
    let n = slots.len();
    let mut i: usize = 0;
    proof {
        assert(all.take(0) =~= Seq::<(Seq<char>, Color)>::empty());
        assert(out@ =~= old(out)@ + css_lines(p, section@, all.take(0)));
    }
    while i < n
        invariant
            all == named_colors(slots@),
            p == optional_str(prefix),
            rows(table@) == alias_table(),
            n == slots@.len(),
            i <= n,
            out@ == old(out)@ + css_lines(p, section@, all.take(i as int)),
        decreases n - i,
    {
        let field = slots[i].0;
        let color = slots[i].1;
        let ghost before = out@;
        out.append("  --");
        match prefix {
            Some(text) => {
                out.append(text);
                out.append("-");
            },
            None => {},
        }
        match find_alias(&table, section, field) {
            Some(alias) => {
                out.append(alias);
            },
            None => {
                let name = fallback_slot(section, field);
                out.append(name.as_str());
            },
        }
        out.append(": ");
        let hex = color.to_hex();
        out.append(hex.as_str());
        out.append(";\n");
        proof {
            assert(all.take(i + 1).drop_last() =~= all.take(i as int));
            assert(all.take(i + 1).last() == all[i as int]);
            assert(out@ =~= before + css_line(p, section@, field@, color));
            assert(out@ =~= old(out)@ + css_lines(p, section@, all.take(i + 1)));
        }
        i = i + 1;
    }
    proof {
        assert(all.take(n as int) =~= all);
    }
}

/// A row that names the slot gives it a CSS name.
pub proof fn lemma_alias_in_some(
    table: Seq<(Seq<char>, Seq<char>, Seq<char>)>,
    section: Seq<char>,
    field: Seq<char>,
    k: int,
)
    requires
        0 <= k < table.len(),
        table[k].0 == section,
        table[k].1 == field,
    ensures
        alias_in(table, section, field) is Some,
    decreases table.len(),
{
    if k > 0 {
        lemma_alias_in_some(table.drop_first(), section, field, k - 1);
    }
}

/// Every slot of every group has a short CSS name, so no declaration of
/// a palette falls back to the long form.
pub proof fn lemma_every_slot_has_alias()
    ensures
        forall|i: int| 0 <= i < 7 ==> css_alias("base"@, #[trigger] BaseColors::names()[i]) is Some,
        forall|i: int|
            0 <= i < 5 ==> css_alias("semantic"@, #[trigger] SemanticColors::names()[i]) is Some,
        forall|i: int| 0 <= i < 11 ==> css_alias("diff"@, #[trigger] DiffColors::names()[i]) is Some,
        forall|i: int|
            0 <= i < 10 ==> css_alias("surface"@, #[trigger] SurfaceColors::names()[i]) is Some,
        forall|i: int|
            0 <= i < 6 ==> css_alias("typography"@, #[trigger] TypographyColors::names()[i]) is Some,
        forall|i: int|
            0 <= i < 26 ==> css_alias("syntax"@, #[trigger] SyntaxColors::names()[i]) is Some,
        forall|i: int|
            0 <= i < 17 ==> css_alias("editor"@, #[trigger] EditorColors::names()[i]) is Some,
        forall|i: int|
            0 <= i < 16 ==> css_alias("terminal"@, #[trigger] TerminalAnsiColors::names()[i]) is Some,
{
    let table = alias_table();
    assert forall|i: int| 0 <= i < 7 implies css_alias(
        "base"@,
        #[trigger] BaseColors::names()[i],
    ) is Some by {
        lemma_alias_in_some(table, "base"@, BaseColors::names()[i], i);
    }
    assert forall|i: int| 0 <= i < 5 implies css_alias(
        "semantic"@,
        #[trigger] SemanticColors::names()[i],
    ) is Some by {
        lemma_alias_in_some(table, "semantic"@, SemanticColors::names()[i], 7 + i);
    }
    assert forall|i: int| 0 <= i < 10 implies css_alias(
        "surface"@,
        #[trigger] SurfaceColors::names()[i],
    ) is Some by {
        lemma_alias_in_some(table, "surface"@, SurfaceColors::names()[i], 12 + i);
    }
    assert forall|i: int| 0 <= i < 6 implies css_alias(
        "typography"@,
        #[trigger] TypographyColors::names()[i],
    ) is Some by {
        lemma_alias_in_some(table, "typography"@, TypographyColors::names()[i], 22 + i);
    }
    assert forall|i: int| 0 <= i < 26 implies css_alias(
        "syntax"@,
        #[trigger] SyntaxColors::names()[i],
    ) is Some by {
        lemma_alias_in_some(table, "syntax"@, SyntaxColors::names()[i], 28 + i);
    }
    assert forall|i: int| 0 <= i < 17 implies css_alias(
        "editor"@,
        #[trigger] EditorColors::names()[i],
    ) is Some by {
        lemma_alias_in_some(table, "editor"@, EditorColors::names()[i], 54 + i);
    }
    assert forall|i: int| 0 <= i < 11 implies css_alias(
        "diff"@,
        #[trigger] DiffColors::names()[i],
    ) is Some by {
        lemma_alias_in_some(table, "diff"@, DiffColors::names()[i], 71 + i);
    }
    assert forall|i: int| 0 <= i < 16 implies css_alias(
        "terminal"@,
        #[trigger] TerminalAnsiColors::names()[i],
    ) is Some by {
        lemma_alias_in_some(table, "terminal"@, TerminalAnsiColors::names()[i], 82 + i);
    }
}

/// The CSS custom properties of a palette: one declaration per populated
/// slot, sections in the order base, semantic, diff, surface, typography,
/// syntax, editor, terminal.
pub fn to_css_custom_properties(palette: &Palette, prefix: Option<&str>) -> (css: String)
    ensures
        css@ == css_text(optional_str(prefix), palette@),
{
    let mut out = String::new();
    write_section(&mut out, prefix, "base", &palette.base.populated_slots());
    write_section(&mut out, prefix, "semantic", &palette.semantic.populated_slots());
    write_section(&mut out, prefix, "diff", &palette.diff.populated_slots());
    write_section(&mut out, prefix, "surface", &palette.surface.populated_slots());
    write_section(&mut out, prefix, "typography", &palette.typography.populated_slots());
    write_section(&mut out, prefix, "syntax", &palette.syntax.populated_slots());
    write_section(&mut out, prefix, "editor", &palette.editor.populated_slots());
    write_section(&mut out, prefix, "terminal", &palette.terminal_ansi.populated_slots());
    assert(out@ =~= css_text(optional_str(prefix), palette@));
    out
}

impl Palette {
    /// The CSS custom properties of the palette.
    pub fn to_css(&self, prefix: Option<&str>) -> (css: String)
        ensures
            css@ == css_text(optional_str(prefix), self@),
    {
        to_css_custom_properties(self, prefix)
    }
}

} // verus!
