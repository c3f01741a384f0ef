//! The fixed color groups of a palette. Each group is a closed list of
//! named slots; a slot without a color leaves the choice to the renderer.

use vstd::prelude::*;
use vstd::string::*;
use crate::color::Color;
use crate::error::PaletteError;
use crate::manifest::ManifestSection;
use crate::slots::{
    group_colors, group_error, named_colors, populated, populated_of, resolve_slots, texts,
};

verus! {

/// Core background, foreground, and border colors.
#[derive(Debug, Clone, Copy, PartialEq, Eq)]
pub struct BaseColors {
    pub background: Option<Color>,
    pub background_dark: Option<Color>,
    pub background_highlight: Option<Color>,
    pub foreground: Option<Color>,
    pub foreground_dark: Option<Color>,
    pub border: Option<Color>,
    pub border_highlight: Option<Color>,
}

impl BaseColors {
    /// The slot names, in declaration order.
    pub open spec fn names() -> Seq<Seq<char>> {
        seq![
            "background"@,
            "background_dark"@,
            "background_highlight"@,
            "foreground"@,
            "foreground_dark"@,
            "border"@,
            "border_highlight"@,
        ]
    }

    /// The slots, in declaration order.
    pub open spec fn slots(&self) -> Seq<Option<Color>> {
        seq![
            self.background,
            self.background_dark,
            self.background_highlight,
            self.foreground,
            self.foreground_dark,
            self.border,
            self.border_highlight,
        ]
    }

    /// The group whose slots are `slots`, in declaration order.
    pub open spec fn of_slots(slots: Seq<Option<Color>>) -> BaseColors {
        BaseColors {
            background: slots[0],
            background_dark: slots[1],
            background_highlight: slots[2],
            foreground: slots[3],
            foreground_dark: slots[4],
            border: slots[5],
            border_highlight: slots[6],
        }
    }

    /// The slot names, in declaration order.
    pub fn slot_names() -> (names: Vec<&'static str>)
        ensures
            texts(names@) == Self::names(),
            names@.len() == 7,
    {
        let names = vec![
            "background",
            "background_dark",
            "background_highlight",
            "foreground",
            "foreground_dark",
            "border",
            "border_highlight",
        ];
        assert(texts(names@) =~= Self::names());
        names
    }

    /// The slots, in declaration order.
    pub fn slot_values(&self) -> (slots: Vec<Option<Color>>)
        ensures
            slots@ == self.slots(),
            slots@.len() == 7,
    {
        let slots = vec![
            self.background,
            self.background_dark,
            self.background_highlight,
            self.foreground,
            self.foreground_dark,
            self.border,
            self.border_highlight,
        ];
        assert(slots@ =~= self.slots());
        slots
    }

    /// The group whose slots are `slots`, in declaration order.
    pub fn from_slots(slots: &Vec<Option<Color>>) -> (group: Self)
        requires
            slots@.len() == 7,
        ensures
            group == Self::of_slots(slots@),
    {
        BaseColors {
            background: slots[0],
            background_dark: slots[1],
            background_highlight: slots[2],
            foreground: slots[3],
            foreground_dark: slots[4],
            border: slots[5],
            border_highlight: slots[6],
        }
    }

    /// Resolves every slot of the group from a section, in declaration
    /// order, and fails on the first text that is no hex color.
    pub fn from_section(section: &ManifestSection, section_name: &str) -> (r: Result<
        Self,
        PaletteError,
    >)
        ensures
            match r {
                Ok(group) => group_error(section_name@, section@, Self::names()) is None && group
                    == Self::of_slots(group_colors(section@, Self::names())),
                Err(e) => group_error(section_name@, section@, Self::names()) == Some(e@),
            },
    {
        let names = Self::slot_names();
        match resolve_slots(section, section_name, &names) {
            Ok(colors) => Ok(Self::from_slots(&colors)),
            Err(e) => Err(e),
        }
    }

    /// The slots that have a color, each with its name, in declaration order.
    pub fn populated_slots(&self) -> (list: Vec<(&'static str, Color)>)
        ensures
            named_colors(list@) == populated(Self::names(), self.slots()),
    {
        let names = Self::slot_names();
        let slots = self.slot_values();
        populated_of(&names, &slots)
    }
}

impl Default for BaseColors {
    /// The group with no slot populated.
    fn default() -> (group: Self)
        ensures
            group == Self::of_slots(Seq::new(7, |i: int| None)),
    {
        BaseColors {
            background: None,
            background_dark: None,
            background_highlight: None,
            foreground: None,
            foreground_dark: None,
            border: None,
            border_highlight: None,
        }
    }
}

/// Status colors: success, warning, error, info, hint.
#[derive(Debug, Clone, Copy, PartialEq, Eq)]
pub struct SemanticColors {
    pub success: Option<Color>,
    pub warning: Option<Color>,
    pub error: Option<Color>,
    pub info: Option<Color>,
    pub hint: Option<Color>,
}

impl SemanticColors {
    /// The slot names, in declaration order.
    pub open spec fn names() -> Seq<Seq<char>> {
        seq![
            "success"@,
            "warning"@,
            "error"@,
            "info"@,
            "hint"@,
        ]
    }

    /// The slots, in declaration order.
    pub open spec fn slots(&self) -> Seq<Option<Color>> {
        seq![
            self.success,
            self.warning,
            self.error,
            self.info,
            self.hint,
        ]
    }

    /// The group whose slots are `slots`, in declaration order.
    pub open spec fn of_slots(slots: Seq<Option<Color>>) -> SemanticColors {
        SemanticColors {
            success: slots[0],
            warning: slots[1],
            error: slots[2],
            info: slots[3],
            hint: slots[4],
        }
    }

    /// The slot names, in declaration order.
    pub fn slot_names() -> (names: Vec<&'static str>)
        ensures
            texts(names@) == Self::names(),
            names@.len() == 5,
    {
        let names = vec![
            "success",
            "warning",
            "error",
            "info",
            "hint",
        ];
        assert(texts(names@) =~= Self::names());
        names
    }

    /// The slots, in declaration order.
    pub fn slot_values(&self) -> (slots: Vec<Option<Color>>)
        ensures
            slots@ == self.slots(),
            slots@.len() == 5,
    {
        let slots = vec![
            self.success,
            self.warning,
            self.error,
            self.info,
            self.hint,
        ];
        assert(slots@ =~= self.slots());
        slots
    }

    /// The group whose slots are `slots`, in declaration order.
    pub fn from_slots(slots: &Vec<Option<Color>>) -> (group: Self)
        requires
            slots@.len() == 5,
        ensures
            group == Self::of_slots(slots@),
    {
        SemanticColors {
            success: slots[0],
            warning: slots[1],
            error: slots[2],
            info: slots[3],
            hint: slots[4],
        }
    }

    /// Resolves every slot of the group from a section, in declaration
    /// order, and fails on the first text that is no hex color.
    pub fn from_section(section: &ManifestSection, section_name: &str) -> (r: Result<
        Self,
        PaletteError,
    >)
        ensures
            match r {
                Ok(group) => group_error(section_name@, section@, Self::names()) is None && group
                    == Self::of_slots(group_colors(section@, Self::names())),
                Err(e) => group_error(section_name@, section@, Self::names()) == Some(e@),
            },
    {
        let names = Self::slot_names();
        match resolve_slots(section, section_name, &names) {
            Ok(colors) => Ok(Self::from_slots(&colors)),
            Err(e) => Err(e),
        }
    }

    /// The slots that have a color, each with its name, in declaration order.
    pub fn populated_slots(&self) -> (list: Vec<(&'static str, Color)>)
        ensures
            named_colors(list@) == populated(Self::names(), self.slots()),
    {
        let names = Self::slot_names();
        let slots = self.slot_values();
        populated_of(&names, &slots)
    }
}

impl Default for SemanticColors {
    /// The group with no slot populated.
    fn default() -> (group: Self)
        ensures
            group == Self::of_slots(Seq::new(5, |i: int| None)),
    {
        SemanticColors {
            success: None,
            warning: None,
            error: None,
            info: None,
            hint: None,
        }
    }
}

/// Version-control diff highlighting: added, modified, removed.
#[derive(Debug, Clone, Copy, PartialEq, Eq)]
pub struct DiffColors {
    pub added: Option<Color>,
    pub added_bg: Option<Color>,
    pub added_fg: Option<Color>,
    pub modified: Option<Color>,
    pub modified_bg: Option<Color>,
    pub modified_fg: Option<Color>,
    pub removed: Option<Color>,
    pub removed_bg: Option<Color>,
    pub removed_fg: Option<Color>,
    pub text_bg: Option<Color>,
    pub ignored: Option<Color>,
}

impl DiffColors {
    /// The slot names, in declaration order.
    pub open spec fn names() -> Seq<Seq<char>> {
        seq![
            "added"@,
            "added_bg"@,
            "added_fg"@,
            "modified"@,
            "modified_bg"@,
            "modified_fg"@,
            "removed"@,
            "removed_bg"@,
            "removed_fg"@,
            "text_bg"@,
            "ignored"@,
        ]
    }

    /// The slots, in declaration order.
    pub open spec fn slots(&self) -> Seq<Option<Color>> {
        seq![
            self.added,
            self.added_bg,
            self.added_fg,
            self.modified,
            self.modified_bg,
            self.modified_fg,
            self.removed,
            self.removed_bg,
            self.removed_fg,
            self.text_bg,
            self.ignored,
        ]
    }

    /// The group whose slots are `slots`, in declaration order.
    pub open spec fn of_slots(slots: Seq<Option<Color>>) -> DiffColors {
        DiffColors {
            added: slots[0],
            added_bg: slots[1],
            added_fg: slots[2],
            modified: slots[3],
            modified_bg: slots[4],
            modified_fg: slots[5],
            removed: slots[6],
            removed_bg: slots[7],
            removed_fg: slots[8],
            text_bg: slots[9],
            ignored: slots[10],
        }
    }

    /// The slot names, in declaration order.
    pub fn slot_names() -> (names: Vec<&'static str>)
        ensures
            texts(names@) == Self::names(),
            names@.len() == 11,
    {
        let names = vec![
            "added",
            "added_bg",
            "added_fg",
            "modified",
            "modified_bg",
            "modified_fg",
            "removed",
            "removed_bg",
            "removed_fg",
            "text_bg",
            "ignored",
        ];
        assert(texts(names@) =~= Self::names());
        names
    }

    /// The slots, in declaration order.
    pub fn slot_values(&self) -> (slots: Vec<Option<Color>>)
        ensures
            slots@ == self.slots(),
            slots@.len() == 11,
    {
        let slots = vec![
            self.added,
            self.added_bg,
            self.added_fg,
            self.modified,
            self.modified_bg,
            self.modified_fg,
            self.removed,
            self.removed_bg,
            self.removed_fg,
            self.text_bg,
            self.ignored,
        ];
        assert(slots@ =~= self.slots());
        slots
    }

    /// The group whose slots are `slots`, in declaration order.
    pub fn from_slots(slots: &Vec<Option<Color>>) -> (group: Self)
        requires
            slots@.len() == 11,
        ensures
            group == Self::of_slots(slots@),
    {
        DiffColors {
            added: slots[0],
            added_bg: slots[1],
            added_fg: slots[2],
            modified: slots[3],
            modified_bg: slots[4],
            modified_fg: slots[5],
            removed: slots[6],
            removed_bg: slots[7],
            removed_fg: slots[8],
            text_bg: slots[9],
            ignored: slots[10],
        }
    }

    /// Resolves every slot of the group from a section, in declaration
    /// order, and fails on the first text that is no hex color.
    pub fn from_section(section: &ManifestSection, section_name: &str) -> (r: Result<
        Self,
        PaletteError,
    >)
        ensures
            match r {
                Ok(group) => group_error(section_name@, section@, Self::names()) is None && group
                    == Self::of_slots(group_colors(section@, Self::names())),
                Err(e) => group_error(section_name@, section@, Self::names()) == Some(e@),
            },
    {
        let names = Self::slot_names();
        match resolve_slots(section, section_name, &names) {
            Ok(colors) => Ok(Self::from_slots(&colors)),
            Err(e) => Err(e),
        }
    }

    /// The slots that have a color, each with its name, in declaration order.
    pub fn populated_slots(&self) -> (list: Vec<(&'static str, Color)>)
        ensures
            named_colors(list@) == populated(Self::names(), self.slots()),
    {
        let names = Self::slot_names();
        let slots = self.slot_values();
        populated_of(&names, &slots)
    }
}

impl Default for DiffColors {
    /// The group with no slot populated.
    fn default() -> (group: Self)
        ensures
            group == Self::of_slots(Seq::new(11, |i: int| None)),
    {
        DiffColors {
            added: None,
            added_bg: None,
            added_fg: None,
            modified: None,
            modified_bg: None,
            modified_fg: None,
            removed: None,
            removed_bg: None,
            removed_fg: None,
            text_bg: None,
            ignored: None,
        }
    }
}

/// UI surface colors: menus, sidebars, popups, overlays.
#[derive(Debug, Clone, Copy, PartialEq, Eq)]
pub struct SurfaceColors {
    pub menu: Option<Color>,
    pub sidebar: Option<Color>,
    pub statusline: Option<Color>,
    pub float: Option<Color>,
    pub popup: Option<Color>,
    pub overlay: Option<Color>,
    pub highlight: Option<Color>,
    pub selection: Option<Color>,
    pub focus: Option<Color>,
    pub search: Option<Color>,
}

impl SurfaceColors {
    /// The slot names, in declaration order.
    pub open spec fn names() -> Seq<Seq<char>> {
        seq![
            "menu"@,
            "sidebar"@,
            "statusline"@,
            "float"@,
            "popup"@,
            "overlay"@,
            "highlight"@,
            "selection"@,
            "focus"@,
            "search"@,
        ]
    }

    /// The slots, in declaration order.
    pub open spec fn slots(&self) -> Seq<Option<Color>> {
        seq![
            self.menu,
            self.sidebar,
            self.statusline,
            self.float,
            self.popup,
            self.overlay,
            self.highlight,
            self.selection,
            self.focus,
            self.search,
        ]
    }

    /// The group whose slots are `slots`, in declaration order.
    pub open spec fn of_slots(slots: Seq<Option<Color>>) -> SurfaceColors {
        SurfaceColors {
            menu: slots[0],
            sidebar: slots[1],
            statusline: slots[2],
            float: slots[3],
            popup: slots[4],
            overlay: slots[5],
            highlight: slots[6],
            selection: slots[7],
            focus: slots[8],
            search: slots[9],
        }
    }

    /// The slot names, in declaration order.
    pub fn slot_names() -> (names: Vec<&'static str>)
        ensures
            texts(names@) == Self::names(),
            names@.len() == 10,
    {
        let names = vec![
            "menu",
            "sidebar",
            "statusline",
            "float",
            "popup",
            "overlay",
            "highlight",
            "selection",
            "focus",
            "search",
        ];
        assert(texts(names@) =~= Self::names());
        names
    }

    /// The slots, in declaration order.
    pub fn slot_values(&self) -> (slots: Vec<Option<Color>>)
        ensures
            slots@ == self.slots(),
            slots@.len() == 10,
    {
        let slots = vec![
            self.menu,
            self.sidebar,
            self.statusline,
            self.float,
            self.popup,
            self.overlay,
            self.highlight,
            self.selection,
            self.focus,
            self.search,
        ];
        assert(slots@ =~= self.slots());
        slots
    }

    /// The group whose slots are `slots`, in declaration order.
    pub fn from_slots(slots: &Vec<Option<Color>>) -> (group: Self)
        requires
            slots@.len() == 10,
        ensures
            group == Self::of_slots(slots@),
    {
        SurfaceColors {
            menu: slots[0],
            sidebar: slots[1],
            statusline: slots[2],
            float: slots[3],
            popup: slots[4],
            overlay: slots[5],
            highlight: slots[6],
            selection: slots[7],
            focus: slots[8],
            search: slots[9],
        }
    }

    /// Resolves every slot of the group from a section, in declaration
    /// order, and fails on the first text that is no hex color.
    pub fn from_section(section: &ManifestSection, section_name: &str) -> (r: Result<
        Self,
        PaletteError,
    >)
        ensures
            match r {
                Ok(group) => group_error(section_name@, section@, Self::names()) is None && group
                    == Self::of_slots(group_colors(section@, Self::names())),
                Err(e) => group_error(section_name@, section@, Self::names()) == Some(e@),
            },
    {
        let names = Self::slot_names();
        match resolve_slots(section, section_name, &names) {
            Ok(colors) => Ok(Self::from_slots(&colors)),
            Err(e) => Err(e),
        }
    }

    /// The slots that have a color, each with its name, in declaration order.
    pub fn populated_slots(&self) -> (list: Vec<(&'static str, Color)>)
        ensures
            named_colors(list@) == populated(Self::names(), self.slots()),
    {
        let names = Self::slot_names();
        let slots = self.slot_values();
        populated_of(&names, &slots)
    }
}

impl Default for SurfaceColors {
    /// The group with no slot populated.
    fn default() -> (group: Self)
        ensures
            group == Self::of_slots(Seq::new(10, |i: int| None)),
    {
        SurfaceColors {
            menu: None,
            sidebar: None,
            statusline: None,
            float: None,
            popup: None,
            overlay: None,
            highlight: None,
            selection: None,
            focus: None,
            search: None,
        }
    }
}

/// Text chrome: comments, gutter, line numbers, links.
#[derive(Debug, Clone, Copy, PartialEq, Eq)]
pub struct TypographyColors {
    pub comment: Option<Color>,
    pub gutter: Option<Color>,
    pub line_number: Option<Color>,
    pub selection_text: Option<Color>,
    pub link: Option<Color>,
    pub title: Option<Color>,
}

impl TypographyColors {
    /// The slot names, in declaration order.
    pub open spec fn names() -> Seq<Seq<char>> {
        seq![
            "comment"@,
            "gutter"@,
            "line_number"@,
            "selection_text"@,
            "link"@,
            "title"@,
        ]
    }

    /// The slots, in declaration order.
    pub open spec fn slots(&self) -> Seq<Option<Color>> {
        seq![
            self.comment,
            self.gutter,
            self.line_number,
            self.selection_text,
            self.link,
            self.title,
        ]
    }

    /// The group whose slots are `slots`, in declaration order.
    pub open spec fn of_slots(slots: Seq<Option<Color>>) -> TypographyColors {
        TypographyColors {
            comment: slots[0],
            gutter: slots[1],
            line_number: slots[2],
            selection_text: slots[3],
            link: slots[4],
            title: slots[5],
        }
    }

    /// The slot names, in declaration order.
    pub fn slot_names() -> (names: Vec<&'static str>)
        ensures
            texts(names@) == Self::names(),
            names@.len() == 6,
    {
        let names = vec![
            "comment",
            "gutter",
            "line_number",
            "selection_text",
            "link",
            "title",
        ];
        assert(texts(names@) =~= Self::names());
        names
    }

    /// The slots, in declaration order.
    pub fn slot_values(&self) -> (slots: Vec<Option<Color>>)
        ensures
            slots@ == self.slots(),
            slots@.len() == 6,
    {
        let slots = vec![
            self.comment,
            self.gutter,
            self.line_number,
            self.selection_text,
            self.link,
            self.title,
        ];
        assert(slots@ =~= self.slots());
        slots
    }

    /// The group whose slots are `slots`, in declaration order.
    pub fn from_slots(slots: &Vec<Option<Color>>) -> (group: Self)
        requires
            slots@.len() == 6,
        ensures
            group == Self::of_slots(slots@),
    {
        TypographyColors {
            comment: slots[0],
            gutter: slots[1],
            line_number: slots[2],
            selection_text: slots[3],
            link: slots[4],
            title: slots[5],
        }
    }

    /// Resolves every slot of the group from a section, in declaration
    /// order, and fails on the first text that is no hex color.
    pub fn from_section(section: &ManifestSection, section_name: &str) -> (r: Result<
        Self,
        PaletteError,
    >)
        ensures
            match r {
                Ok(group) => group_error(section_name@, section@, Self::names()) is None && group
                    == Self::of_slots(group_colors(section@, Self::names())),
                Err(e) => group_error(section_name@, section@, Self::names()) == Some(e@),
            },
    {
        let names = Self::slot_names();
        match resolve_slots(section, section_name, &names) {
            Ok(colors) => Ok(Self::from_slots(&colors)),
            Err(e) => Err(e),
        }
    }

    /// The slots that have a color, each with its name, in declaration order.
    pub fn populated_slots(&self) -> (list: Vec<(&'static str, Color)>)
        ensures
            named_colors(list@) == populated(Self::names(), self.slots()),
    {
        let names = Self::slot_names();
        let slots = self.slot_values();
        populated_of(&names, &slots)
    }
}

impl Default for TypographyColors {
    /// The group with no slot populated.
    fn default() -> (group: Self)
        ensures
            group == Self::of_slots(Seq::new(6, |i: int| None)),
    {
        TypographyColors {
            comment: None,
            gutter: None,
            line_number: None,
            selection_text: None,
            link: None,
            title: None,
        }
    }
}

/// Syntax-highlighting token colors.
#[derive(Debug, Clone, Copy, PartialEq, Eq)]
pub struct SyntaxColors {
    pub keywords: Option<Color>,
    pub keywords_fn: Option<Color>,
    pub functions: Option<Color>,
    pub variables: Option<Color>,
    pub variables_builtin: Option<Color>,
    pub parameters: Option<Color>,
    pub properties: Option<Color>,
    pub types: Option<Color>,
    pub types_builtin: Option<Color>,
    pub constants: Option<Color>,
    pub numbers: Option<Color>,
    pub booleans: Option<Color>,
    pub strings: Option<Color>,
    pub strings_doc: Option<Color>,
    pub strings_escape: Option<Color>,
    pub strings_regex: Option<Color>,
    pub operators: Option<Color>,
    pub punctuation: Option<Color>,
    pub punctuation_bracket: Option<Color>,
    pub annotations: Option<Color>,
    pub attributes: Option<Color>,
    pub constructor: Option<Color>,
    pub tag: Option<Color>,
    pub tag_delimiter: Option<Color>,
    pub tag_attribute: Option<Color>,
    pub comments: Option<Color>,
}

impl SyntaxColors {
    /// The slot names, in declaration order.
    pub open spec fn names() -> Seq<Seq<char>> {
        seq![
            "keywords"@,
            "keywords_fn"@,
            "functions"@,
            "variables"@,
            "variables_builtin"@,
            "parameters"@,
            "properties"@,
            "types"@,
            "types_builtin"@,
            "constants"@,
            "numbers"@,
            "booleans"@,
            "strings"@,
            "strings_doc"@,
            "strings_escape"@,
            "strings_regex"@,
            "operators"@,
            "punctuation"@,
            "punctuation_bracket"@,
            "annotations"@,
            "attributes"@,
            "constructor"@,
            "tag"@,
            "tag_delimiter"@,
            "tag_attribute"@,
            "comments"@,
        ]
    }

    /// The slots, in declaration order.
    pub open spec fn slots(&self) -> Seq<Option<Color>> {
        seq![
            self.keywords,
            self.keywords_fn,
            self.functions,
            self.variables,
            self.variables_builtin,
            self.parameters,
            self.properties,
            self.types,
            self.types_builtin,
            self.constants,
            self.numbers,
            self.booleans,
            self.strings,
            self.strings_doc,
            self.strings_escape,
            self.strings_regex,
            self.operators,
            self.punctuation,
            self.punctuation_bracket,
            self.annotations,
            self.attributes,
            self.constructor,
            self.tag,
            self.tag_delimiter,
            self.tag_attribute,
            self.comments,
        ]
    }

    /// The group whose slots are `slots`, in declaration order.
    pub open spec fn of_slots(slots: Seq<Option<Color>>) -> SyntaxColors {
        SyntaxColors {
            keywords: slots[0],
            keywords_fn: slots[1],
            functions: slots[2],
            variables: slots[3],
            variables_builtin: slots[4],
            parameters: slots[5],
            properties: slots[6],
            types: slots[7],
            types_builtin: slots[8],
            constants: slots[9],
            numbers: slots[10],
            booleans: slots[11],
            strings: slots[12],
            strings_doc: slots[13],
            strings_escape: slots[14],
            strings_regex: slots[15],
            operators: slots[16],
            punctuation: slots[17],
            punctuation_bracket: slots[18],
            annotations: slots[19],
            attributes: slots[20],
            constructor: slots[21],
            tag: slots[22],
            tag_delimiter: slots[23],
            tag_attribute: slots[24],
            comments: slots[25],
        }
    }

    /// The slot names, in declaration order.
    pub fn slot_names() -> (names: Vec<&'static str>)
        ensures
            texts(names@) == Self::names(),
            names@.len() == 26,
    {
        let names = vec![
            "keywords",
            "keywords_fn",
            "functions",
            "variables",
            "variables_builtin",
            "parameters",
            "properties",
            "types",
            "types_builtin",
            "constants",
            "numbers",
            "booleans",
            "strings",
            "strings_doc",
            "strings_escape",
            "strings_regex",
            "operators",
            "punctuation",
            "punctuation_bracket",
            "annotations",
            "attributes",
            "constructor",
            "tag",
            "tag_delimiter",
            "tag_attribute",
            "comments",
        ];
        assert(texts(names@) =~= Self::names());
        names
    }

    /// The slots, in declaration order.
    pub fn slot_values(&self) -> (slots: Vec<Option<Color>>)
        ensures
            slots@ == self.slots(),
            slots@.len() == 26,
    {
        let slots = vec![
            self.keywords,
            self.keywords_fn,
            self.functions,
            self.variables,
            self.variables_builtin,
            self.parameters,
            self.properties,
            self.types,
            self.types_builtin,
            self.constants,
            self.numbers,
            self.booleans,
            self.strings,
            self.strings_doc,
            self.strings_escape,
            self.strings_regex,
            self.operators,
            self.punctuation,
            self.punctuation_bracket,
            self.annotations,
            self.attributes,
            self.constructor,
            self.tag,
            self.tag_delimiter,
            self.tag_attribute,
            self.comments,
        ];
        assert(slots@ =~= self.slots());
        slots
    }

    /// The group whose slots are `slots`, in declaration order.
    pub fn from_slots(slots: &Vec<Option<Color>>) -> (group: Self)
        requires
            slots@.len() == 26,
        ensures
            group == Self::of_slots(slots@),
    {
        SyntaxColors {
            keywords: slots[0],
            keywords_fn: slots[1],
            functions: slots[2],
            variables: slots[3],
            variables_builtin: slots[4],
            parameters: slots[5],
            properties: slots[6],
            types: slots[7],
            types_builtin: slots[8],
            constants: slots[9],
            numbers: slots[10],
            booleans: slots[11],
            strings: slots[12],
            strings_doc: slots[13],
            strings_escape: slots[14],
            strings_regex: slots[15],
            operators: slots[16],
            punctuation: slots[17],
            punctuation_bracket: slots[18],
            annotations: slots[19],
            attributes: slots[20],
            constructor: slots[21],
            tag: slots[22],
            tag_delimiter: slots[23],
            tag_attribute: slots[24],
            comments: slots[25],
        }
    }

    /// Resolves every slot of the group from a section, in declaration
    /// order, and fails on the first text that is no hex color.
    pub fn from_section(section: &ManifestSection, section_name: &str) -> (r: Result<
        Self,
        PaletteError,
    >)
        ensures
            match r {
                Ok(group) => group_error(section_name@, section@, Self::names()) is None && group
                    == Self::of_slots(group_colors(section@, Self::names())),
                Err(e) => group_error(section_name@, section@, Self::names()) == Some(e@),
            },
    {
        let names = Self::slot_names();
        match resolve_slots(section, section_name, &names) {
            Ok(colors) => Ok(Self::from_slots(&colors)),
            Err(e) => Err(e),
        }
    }

    /// The slots that have a color, each with its name, in declaration order.
    pub fn populated_slots(&self) -> (list: Vec<(&'static str, Color)>)
        ensures
            named_colors(list@) == populated(Self::names(), self.slots()),
    {
        let names = Self::slot_names();
        let slots = self.slot_values();
        populated_of(&names, &slots)
    }
}

impl Default for SyntaxColors {
    /// The group with no slot populated.
    fn default() -> (group: Self)
        ensures
            group == Self::of_slots(Seq::new(26, |i: int| None)),
    {
        SyntaxColors {
            keywords: None,
            keywords_fn: None,
            functions: None,
            variables: None,
            variables_builtin: None,
            parameters: None,
            properties: None,
            types: None,
            types_builtin: None,
            constants: None,
            numbers: None,
            booleans: None,
            strings: None,
            strings_doc: None,
            strings_escape: None,
            strings_regex: None,
            operators: None,
            punctuation: None,
            punctuation_bracket: None,
            annotations: None,
            attributes: None,
            constructor: None,
            tag: None,
            tag_delimiter: None,
            tag_attribute: None,
            comments: None,
        }
    }
}

/// Editor chrome: cursor, selections, diagnostics, inlay hints.
#[derive(Debug, Clone, Copy, PartialEq, Eq)]
pub struct EditorColors {
    pub cursor: Option<Color>,
    pub cursor_text: Option<Color>,
    pub match_paren: Option<Color>,
    pub selection_bg: Option<Color>,
    pub selection_fg: Option<Color>,
    pub inlay_hint_bg: Option<Color>,
    pub inlay_hint_fg: Option<Color>,
    pub search_bg: Option<Color>,
    pub search_fg: Option<Color>,
    pub diagnostic_error: Option<Color>,
    pub diagnostic_warn: Option<Color>,
    pub diagnostic_info: Option<Color>,
    pub diagnostic_hint: Option<Color>,
    pub diagnostic_underline_error: Option<Color>,
    pub diagnostic_underline_warn: Option<Color>,
    pub diagnostic_underline_info: Option<Color>,
    pub diagnostic_underline_hint: Option<Color>,
}

impl EditorColors {
    /// The slot names, in declaration order.
    pub open spec fn names() -> Seq<Seq<char>> {
        seq![
            "cursor"@,
            "cursor_text"@,
            "match_paren"@,
            "selection_bg"@,
            "selection_fg"@,
            "inlay_hint_bg"@,
            "inlay_hint_fg"@,
            "search_bg"@,
            "search_fg"@,
            "diagnostic_error"@,
            "diagnostic_warn"@,
            "diagnostic_info"@,
            "diagnostic_hint"@,
            "diagnostic_underline_error"@,
            "diagnostic_underline_warn"@,
            "diagnostic_underline_info"@,
            "diagnostic_underline_hint"@,
        ]
    }

    /// The slots, in declaration order.
    pub open spec fn slots(&self) -> Seq<Option<Color>> {
        seq![
            self.cursor,
            self.cursor_text,
            self.match_paren,
            self.selection_bg,
            self.selection_fg,
            self.inlay_hint_bg,
            self.inlay_hint_fg,
            self.search_bg,
            self.search_fg,
            self.diagnostic_error,
            self.diagnostic_warn,
            self.diagnostic_info,
            self.diagnostic_hint,
            self.diagnostic_underline_error,
            self.diagnostic_underline_warn,
            self.diagnostic_underline_info,
            self.diagnostic_underline_hint,
        ]
    }

    /// The group whose slots are `slots`, in declaration order.
    pub open spec fn of_slots(slots: Seq<Option<Color>>) -> EditorColors {
        EditorColors {
            cursor: slots[0],
            cursor_text: slots[1],
            match_paren: slots[2],
            selection_bg: slots[3],
            selection_fg: slots[4],
            inlay_hint_bg: slots[5],
            inlay_hint_fg: slots[6],
            search_bg: slots[7],
            search_fg: slots[8],
            diagnostic_error: slots[9],
            diagnostic_warn: slots[10],
            diagnostic_info: slots[11],
            diagnostic_hint: slots[12],
            diagnostic_underline_error: slots[13],
            diagnostic_underline_warn: slots[14],
            diagnostic_underline_info: slots[15],
            diagnostic_underline_hint: slots[16],
        }
    }

    /// The slot names, in declaration order.
    pub fn slot_names() -> (names: Vec<&'static str>)
        ensures
            texts(names@) == Self::names(),
            names@.len() == 17,
    {
        let names = vec![
            "cursor",
            "cursor_text",
            "match_paren",
            "selection_bg",
            "selection_fg",
            "inlay_hint_bg",
            "inlay_hint_fg",
            "search_bg",
            "search_fg",
            "diagnostic_error",
            "diagnostic_warn",
            "diagnostic_info",
            "diagnostic_hint",
            "diagnostic_underline_error",
            "diagnostic_underline_warn",
            "diagnostic_underline_info",
            "diagnostic_underline_hint",
        ];
        assert(texts(names@) =~= Self::names());
        names
    }

    /// The slots, in declaration order.
    pub fn slot_values(&self) -> (slots: Vec<Option<Color>>)
        ensures
            slots@ == self.slots(),
            slots@.len() == 17,
    {
        let slots = vec![
            self.cursor,
            self.cursor_text,
            self.match_paren,
            self.selection_bg,
            self.selection_fg,
            self.inlay_hint_bg,
            self.inlay_hint_fg,
            self.search_bg,
            self.search_fg,
            self.diagnostic_error,
            self.diagnostic_warn,
            self.diagnostic_info,
            self.diagnostic_hint,
            self.diagnostic_underline_error,
            self.diagnostic_underline_warn,
            self.diagnostic_underline_info,
            self.diagnostic_underline_hint,
        ];
        assert(slots@ =~= self.slots());
        slots
    }

    /// The group whose slots are `slots`, in declaration order.
    pub fn from_slots(slots: &Vec<Option<Color>>) -> (group: Self)
        requires
            slots@.len() == 17,
        ensures
            group == Self::of_slots(slots@),
    {
        EditorColors {
            cursor: slots[0],
            cursor_text: slots[1],
            match_paren: slots[2],
            selection_bg: slots[3],
            selection_fg: slots[4],
            inlay_hint_bg: slots[5],
            inlay_hint_fg: slots[6],
            search_bg: slots[7],
            search_fg: slots[8],
            diagnostic_error: slots[9],
            diagnostic_warn: slots[10],
            diagnostic_info: slots[11],
            diagnostic_hint: slots[12],
            diagnostic_underline_error: slots[13],
            diagnostic_underline_warn: slots[14],
            diagnostic_underline_info: slots[15],
            diagnostic_underline_hint: slots[16],
        }
    }

    /// Resolves every slot of the group from a section, in declaration
    /// order, and fails on the first text that is no hex color.
    pub fn from_section(section: &ManifestSection, section_name: &str) -> (r: Result<
        Self,
        PaletteError,
    >)
        ensures
            match r {
                Ok(group) => group_error(section_name@, section@, Self::names()) is None && group
                    == Self::of_slots(group_colors(section@, Self::names())),
                Err(e) => group_error(section_name@, section@, Self::names()) == Some(e@),
            },
    {
        let names = Self::slot_names();
        match resolve_slots(section, section_name, &names) {
            Ok(colors) => Ok(Self::from_slots(&colors)),
            Err(e) => Err(e),
        }
    }

    /// The slots that have a color, each with its name, in declaration order.
    pub fn populated_slots(&self) -> (list: Vec<(&'static str, Color)>)
        ensures
            named_colors(list@) == populated(Self::names(), self.slots()),
    {
        let names = Self::slot_names();
        let slots = self.slot_values();
        populated_of(&names, &slots)
    }
}

impl Default for EditorColors {
    /// The group with no slot populated.
    fn default() -> (group: Self)
        ensures
            group == Self::of_slots(Seq::new(17, |i: int| None)),
    {
        EditorColors {
            cursor: None,
            cursor_text: None,
            match_paren: None,
            selection_bg: None,
            selection_fg: None,
            inlay_hint_bg: None,
            inlay_hint_fg: None,
            search_bg: None,
            search_fg: None,
            diagnostic_error: None,
            diagnostic_warn: None,
            diagnostic_info: None,
            diagnostic_hint: None,
            diagnostic_underline_error: None,
            diagnostic_underline_warn: None,
            diagnostic_underline_info: None,
            diagnostic_underline_hint: None,
        }
    }
}

/// Standard 16-color ANSI terminal palette.
#[derive(Debug, Clone, Copy, PartialEq, Eq)]
pub struct TerminalAnsiColors {
    pub black: Option<Color>,
    pub red: Option<Color>,
    pub green: Option<Color>,
    pub yellow: Option<Color>,
    pub blue: Option<Color>,
    pub magenta: Option<Color>,
    pub cyan: Option<Color>,
    pub white: Option<Color>,
    pub bright_black: Option<Color>,
    pub bright_red: Option<Color>,
    pub bright_green: Option<Color>,
    pub bright_yellow: Option<Color>,
    pub bright_blue: Option<Color>,
    pub bright_magenta: Option<Color>,
    pub bright_cyan: Option<Color>,
    pub bright_white: Option<Color>,
}

impl TerminalAnsiColors {
    /// The slot names, in declaration order.
    pub open spec fn names() -> Seq<Seq<char>> {
        seq![
            "black"@,
            "red"@,
            "green"@,
            "yellow"@,
            "blue"@,
            "magenta"@,
            "cyan"@,
            "white"@,
            "bright_black"@,
            "bright_red"@,
            "bright_green"@,
            "bright_yellow"@,
            "bright_blue"@,
            "bright_magenta"@,
            "bright_cyan"@,
            "bright_white"@,
        ]
    }

    /// The slots, in declaration order.
    pub open spec fn slots(&self) -> Seq<Option<Color>> {
        seq![
            self.black,
            self.red,
            self.green,
            self.yellow,
            self.blue,
            self.magenta,
            self.cyan,
            self.white,
            self.bright_black,
            self.bright_red,
            self.bright_green,
            self.bright_yellow,
            self.bright_blue,
            self.bright_magenta,
            self.bright_cyan,
            self.bright_white,
        ]
    }

    /// The group whose slots are `slots`, in declaration order.
    pub open spec fn of_slots(slots: Seq<Option<Color>>) -> TerminalAnsiColors {
        TerminalAnsiColors {
            black: slots[0],
            red: slots[1],
            green: slots[2],
            yellow: slots[3],
            blue: slots[4],
            magenta: slots[5],
            cyan: slots[6],
            white: slots[7],
            bright_black: slots[8],
            bright_red: slots[9],
            bright_green: slots[10],
            bright_yellow: slots[11],
            bright_blue: slots[12],
            bright_magenta: slots[13],
            bright_cyan: slots[14],
            bright_white: slots[15],
        }
    }

    /// The slot names, in declaration order.
    pub fn slot_names() -> (names: Vec<&'static str>)
        ensures
            texts(names@) == Self::names(),
            names@.len() == 16,
    {
        let names = vec![
            "black",
            "red",
            "green",
            "yellow",
            "blue",
            "magenta",
            "cyan",
            "white",
            "bright_black",
            "bright_red",
            "bright_green",
            "bright_yellow",
            "bright_blue",
            "bright_magenta",
            "bright_cyan",
            "bright_white",
        ];
        assert(texts(names@) =~= Self::names());
        names
    }

    /// The slots, in declaration order.
    pub fn slot_values(&self) -> (slots: Vec<Option<Color>>)
        ensures
            slots@ == self.slots(),
            slots@.len() == 16,
    {
        let slots = vec![
            self.black,
            self.red,
            self.green,
            self.yellow,
            self.blue,
            self.magenta,
            self.cyan,
            self.white,
            self.bright_black,
            self.bright_red,
            self.bright_green,
            self.bright_yellow,
            self.bright_blue,
            self.bright_magenta,
            self.bright_cyan,
            self.bright_white,
        ];
        assert(slots@ =~= self.slots());
        slots
    }

    /// The group whose slots are `slots`, in declaration order.
    pub fn from_slots(slots: &Vec<Option<Color>>) -> (group: Self)
        requires
            slots@.len() == 16,
        ensures
            group == Self::of_slots(slots@),
    {
        TerminalAnsiColors {
            black: slots[0],
            red: slots[1],
            green: slots[2],
            yellow: slots[3],
            blue: slots[4],
            magenta: slots[5],
            cyan: slots[6],
            white: slots[7],
            bright_black: slots[8],
            bright_red: slots[9],
            bright_green: slots[10],
            bright_yellow: slots[11],
            bright_blue: slots[12],
            bright_magenta: slots[13],
            bright_cyan: slots[14],
            bright_white: slots[15],
        }
    }

    /// Resolves every slot of the group from a section, in declaration
    /// order, and fails on the first text that is no hex color.
    pub fn from_section(section: &ManifestSection, section_name: &str) -> (r: Result<
        Self,
        PaletteError,
    >)
        ensures
            match r {
                Ok(group) => group_error(section_name@, section@, Self::names()) is None && group
                    == Self::of_slots(group_colors(section@, Self::names())),
                Err(e) => group_error(section_name@, section@, Self::names()) == Some(e@),
            },
    {
        let names = Self::slot_names();
        match resolve_slots(section, section_name, &names) {
            Ok(colors) => Ok(Self::from_slots(&colors)),
            Err(e) => Err(e),
        }
    }

    /// The slots that have a color, each with its name, in declaration order.
    pub fn populated_slots(&self) -> (list: Vec<(&'static str, Color)>)
        ensures
            named_colors(list@) == populated(Self::names(), self.slots()),
    {
        let names = Self::slot_names();
        let slots = self.slot_values();
        populated_of(&names, &slots)
    }
}

impl Default for TerminalAnsiColors {
    /// The group with no slot populated.
    fn default() -> (group: Self)
        ensures
            group == Self::of_slots(Seq::new(16, |i: int| None)),
    {
        TerminalAnsiColors {
            black: None,
            red: None,
            green: None,
            yellow: None,
            blue: None,
            magenta: None,
            cyan: None,
            white: None,
            bright_black: None,
            bright_red: None,
            bright_green: None,
            bright_yellow: None,
            bright_blue: None,
            bright_magenta: None,
            bright_cyan: None,
            bright_white: None,
        }
    }
}

} // verus!
