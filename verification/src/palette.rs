//! Resolved palettes: every slot of every group as an optional color.

use vstd::prelude::*;
use vstd::string::*;
use crate::color::{hex_color, is_hex_color, Color};
use crate::error::{is_outcome, ErrorModel, PaletteError};
use crate::groups::{
    BaseColors, DiffColors, EditorColors, SemanticColors, SurfaceColors, SyntaxColors,
    TerminalAnsiColors, TypographyColors,
};
use crate::manifest::{
    optional_meta, ManifestMeta, ManifestModel, MetaModel, PaletteManifest,
};
use crate::platform::{
    from_sections, overrides_of, platform_error, PlatformOverride, PlatformOverrides,
};
use crate::merge::merged_manifest;
use crate::slots::{group_colors, group_error, lemma_merged_slot, lemma_none_invalid, slot_color};

verus! {

/// Theme identity: name, preset id, and style tag such as "dark" or "light".
#[derive(Debug, Clone, PartialEq, Eq, Hash)]
pub struct PaletteMeta {
    pub name: String,
    pub preset_id: String,
    pub style: String,
}

/// A theme identity with its texts as character sequences.
pub struct PaletteMetaModel {
    pub name: Seq<char>,
    pub preset_id: Seq<char>,
    pub style: Seq<char>,
}

impl View for PaletteMeta {
    type V = PaletteMetaModel;

    open spec fn view(&self) -> PaletteMetaModel {
        PaletteMetaModel { name: self.name@, preset_id: self.preset_id@, style: self.style@ }
    }
}

/// Resolved color palette ready for rendering. A slot without a color
/// means that the theme leaves it to the renderer's default.
#[derive(Debug, Clone, PartialEq, Eq)]
pub struct Palette {
    pub meta: Option<PaletteMeta>,
    pub base: BaseColors,
    pub semantic: SemanticColors,
    pub diff: DiffColors,
    pub surface: SurfaceColors,
    pub typography: TypographyColors,
    pub syntax: SyntaxColors,
    pub editor: EditorColors,
    pub terminal_ansi: TerminalAnsiColors,
    pub platform: PlatformOverrides,
}

/// A palette with its texts as character sequences and its platform
/// overrides as a map.
pub struct PaletteModel {
    pub meta: Option<PaletteMetaModel>,
    pub base: BaseColors,
    pub semantic: SemanticColors,
    pub diff: DiffColors,
    pub surface: SurfaceColors,
    pub typography: TypographyColors,
    pub syntax: SyntaxColors,
    pub editor: EditorColors,
    pub terminal_ansi: TerminalAnsiColors,
    pub platform: Map<Seq<char>, PlatformOverride>,
}

/// The view of an optional theme identity.
pub open spec fn optional_identity(meta: Option<PaletteMeta>) -> Option<PaletteMetaModel> {
    match meta {
        Some(m) => Some(m@),
        None => None,
    }
}

impl View for Palette {
    type V = PaletteModel;

    open spec fn view(&self) -> PaletteModel {
        PaletteModel {
            meta: optional_identity(self.meta),
            base: self.base,
            semantic: self.semantic,
            diff: self.diff,
            surface: self.surface,
            typography: self.typography,
            syntax: self.syntax,
            editor: self.editor,
            terminal_ansi: self.terminal_ansi,
            platform: self.platform@,
        }
    }
}

/// The identity that a manifest's `meta` gives its palette: name, preset
/// id and style, unchanged.
pub open spec fn identity_of(meta: Option<MetaModel>) -> Option<PaletteMetaModel> {
    match meta {
        Some(m) => Some(PaletteMetaModel { name: m.name, preset_id: m.preset_id, style: m.style }),
        None => None,
    }
}

/// The error that resolving a manifest ends with, if any: sections are
/// taken in the order base, semantic, diff, surface, typography, syntax,
/// editor, terminal, platform, and within a section the slots in
/// declaration order.
pub open spec fn resolve_error(m: ManifestModel) -> Option<ErrorModel> {
    if group_error("base"@, m.base, BaseColors::names()) is Some {
        group_error("base"@, m.base, BaseColors::names())
    } else if group_error("semantic"@, m.semantic, SemanticColors::names()) is Some {
        group_error("semantic"@, m.semantic, SemanticColors::names())
    } else if group_error("diff"@, m.diff, DiffColors::names()) is Some {
        group_error("diff"@, m.diff, DiffColors::names())
    } else if group_error("surface"@, m.surface, SurfaceColors::names()) is Some {
        group_error("surface"@, m.surface, SurfaceColors::names())
    } else if group_error("typography"@, m.typography, TypographyColors::names()) is Some {
        group_error("typography"@, m.typography, TypographyColors::names())
    } else if group_error("syntax"@, m.syntax, SyntaxColors::names()) is Some {
        group_error("syntax"@, m.syntax, SyntaxColors::names())
    } else if group_error("editor"@, m.editor, EditorColors::names()) is Some {
        group_error("editor"@, m.editor, EditorColors::names())
    } else if group_error("terminal"@, m.terminal, TerminalAnsiColors::names()) is Some {
        group_error("terminal"@, m.terminal, TerminalAnsiColors::names())
    } else {
        platform_error(m.platform)
    }
}

/// The palette of a manifest whose texts are all hex colors: each slot
/// has the color of its key in the matching section, or none.
pub open spec fn resolved(m: ManifestModel) -> PaletteModel {
    PaletteModel {
        meta: identity_of(m.meta),
        base: BaseColors::of_slots(group_colors(m.base, BaseColors::names())),
        semantic: SemanticColors::of_slots(group_colors(m.semantic, SemanticColors::names())),
        diff: DiffColors::of_slots(group_colors(m.diff, DiffColors::names())),
        surface: SurfaceColors::of_slots(group_colors(m.surface, SurfaceColors::names())),
        typography: TypographyColors::of_slots(
            group_colors(m.typography, TypographyColors::names()),
        ),
        syntax: SyntaxColors::of_slots(group_colors(m.syntax, SyntaxColors::names())),
        editor: EditorColors::of_slots(group_colors(m.editor, EditorColors::names())),
        terminal_ansi: TerminalAnsiColors::of_slots(
            group_colors(m.terminal, TerminalAnsiColors::names()),
        ),
        platform: overrides_of(m.platform),
    }
}

/// What resolving a manifest gives: the first error, or the palette.
pub open spec fn resolve_outcome(m: ManifestModel) -> Result<PaletteModel, ErrorModel> {
    match resolve_error(m) {
        Some(e) => Err(e),
        None => Ok(resolved(m)),
    }
}

/// The identity that a `meta` section gives a palette.
fn identity(meta: &Option<ManifestMeta>) -> (r: Option<PaletteMeta>)
    ensures
        optional_identity(r) == identity_of(optional_meta(*meta)),
{
    match meta {
        Some(m) => Some(
            PaletteMeta {
                name: m.name.clone(),
                preset_id: m.preset_id.clone(),
                style: m.style.clone(),
            },
        ),
        None => None,
    }
}

impl Palette {
    /// Builds a palette from a manifest: every slot of every group is
    /// looked up in the matching section and its text parsed as a hex
    /// color. The first text that is no hex color aborts with
    /// `InvalidHex`, naming section, slot and text.
    pub fn from_manifest(manifest: &PaletteManifest) -> (r: Result<Palette, PaletteError>)
        ensures
            is_outcome(r, resolve_outcome(manifest@)),
    {
        let meta = identity(&manifest.meta);
        let base = match BaseColors::from_section(&manifest.base, "base") {
            Ok(group) => group,
            Err(e) => {
                return Err(e);
            },
        };
        let semantic = match SemanticColors::from_section(&manifest.semantic, "semantic") {
            Ok(group) => group,
            Err(e) => {
                return Err(e);
            },
        };
        let diff = match DiffColors::from_section(&manifest.diff, "diff") {
            Ok(group) => group,
            Err(e) => {
                return Err(e);
            },
        };
        let surface = match SurfaceColors::from_section(&manifest.surface, "surface") {
            Ok(group) => group,
            Err(e) => {
                return Err(e);
            },
        };
        let typography = match TypographyColors::from_section(&manifest.typography, "typography") {
            Ok(group) => group,
            Err(e) => {
                return Err(e);
            },
        };
        let syntax = match SyntaxColors::from_section(&manifest.syntax, "syntax") {
            Ok(group) => group,
            Err(e) => {
                return Err(e);
            },
        };
        let editor = match EditorColors::from_section(&manifest.editor, "editor") {
            Ok(group) => group,
            Err(e) => {
                return Err(e);
            },
        };
        let terminal_ansi = match TerminalAnsiColors::from_section(&manifest.terminal, "terminal") {
            Ok(group) => group,
            Err(e) => {
                return Err(e);
            },
        };
        let platform = match from_sections(&manifest.platform) {
            Ok(overrides) => overrides,
            Err(e) => {
                return Err(e);
            },
        };
        Ok(
            Palette {
                meta,
                base,
                semantic,
                diff,
                surface,
                typography,
                syntax,
                editor,
                terminal_ansi,
                platform,
            },
        )
    }
}

/// Where a variant that sets `base.background` is laid over a base that
/// sets `semantic.success`, which the variant leaves out, and the merged
/// manifest resolves, the palette has the variant's background and the
/// base's success color.
pub proof fn lemma_variant_overrides_base(variant: ManifestModel, base: ManifestModel)
    requires
        variant.base.contains_key("background"@),
        base.semantic.contains_key("success"@),
        !variant.semantic.contains_key("success"@),
        resolve_outcome(merged_manifest(variant, base)) is Ok,
    ensures
        is_hex_color(variant.base["background"@]),
        is_hex_color(base.semantic["success"@]),
        resolve_outcome(merged_manifest(variant, base))->Ok_0.base.background == Some(
            hex_color(variant.base["background"@]),
        ),
        resolve_outcome(merged_manifest(variant, base))->Ok_0.semantic.success == Some(
            hex_color(base.semantic["success"@]),
        ),
{
    let merged = merged_manifest(variant, base);
    lemma_none_invalid(merged.base, BaseColors::names(), 0);
    lemma_none_invalid(merged.semantic, SemanticColors::names(), 0);
    lemma_merged_slot(variant.base, base.base, "background"@);
    lemma_merged_slot(variant.semantic, base.semantic, "success"@);
    assert(BaseColors::names()[0] == "background"@);
    assert(SemanticColors::names()[0] == "success"@);
    assert(group_colors(merged.base, BaseColors::names())[0] == slot_color(
        merged.base,
        "background"@,
    ));
    assert(group_colors(merged.semantic, SemanticColors::names())[0] == slot_color(
        merged.semantic,
        "success"@,
    ));
}

/// A populated slot with the given channels.
pub open spec fn rgb(r: u8, g: u8, b: u8) -> Option<Color> {
    Some(Color { r, g, b })
}

/// The neutral dark palette: base, semantic and two surface slots have
/// colors; every other slot is left to the renderer.
pub open spec fn neutral_dark() -> PaletteModel {
    PaletteModel {
        meta: None,
        base: BaseColors {
            background: rgb(0x1a, 0x1a, 0x2e),
            background_dark: rgb(0x13, 0x13, 0x22),
            background_highlight: rgb(0x24, 0x24, 0x3e),
            foreground: rgb(0xd0, 0xd0, 0xd0),
            foreground_dark: rgb(0x80, 0x80, 0x90),
            border: rgb(0x3a, 0x3a, 0x4e),
            border_highlight: rgb(0x50, 0x50, 0x68),
        },
        semantic: SemanticColors {
            success: rgb(0x50, 0xc8, 0x78),
            warning: rgb(0xe0, 0xb0, 0x50),
            error: rgb(0xe0, 0x50, 0x50),
            info: rgb(0x50, 0x90, 0xe0),
            hint: rgb(0x70, 0x70, 0x88),
        },
        diff: DiffColors::of_slots(Seq::new(11, |i: int| None)),
        surface: SurfaceColors {
            menu: None,
            sidebar: None,
            statusline: None,
            float: None,
            popup: None,
            overlay: None,
            highlight: rgb(0x2a, 0x2a, 0x44),
            selection: rgb(0x30, 0x30, 0x50),
            focus: None,
            search: None,
        },
        typography: TypographyColors::of_slots(Seq::new(6, |i: int| None)),
        syntax: SyntaxColors::of_slots(Seq::new(26, |i: int| None)),
        editor: EditorColors::of_slots(Seq::new(17, |i: int| None)),
        terminal_ansi: TerminalAnsiColors::of_slots(Seq::new(16, |i: int| None)),
        platform: Map::empty(),
    }
}

fn c(r: u8, g: u8, b: u8) -> (color: Option<Color>)
    ensures
        color == rgb(r, g, b),
{
    Some(Color { r, g, b })
}

impl Default for Palette {
    /// Neutral dark palette with enough colors for legible rendering.
    fn default() -> (palette: Self)
        ensures
            palette@ == neutral_dark(),
    {
        let mut surface = SurfaceColors::default();
        surface.highlight = c(0x2a, 0x2a, 0x44);
        surface.selection = c(0x30, 0x30, 0x50);
        let platform = PlatformOverrides::new();
        assert(platform@ =~= Map::<Seq<char>, PlatformOverride>::empty());
        Palette {
            meta: None,
            base: BaseColors {
                background: c(0x1a, 0x1a, 0x2e),
                background_dark: c(0x13, 0x13, 0x22),
                background_highlight: c(0x24, 0x24, 0x3e),
                foreground: c(0xd0, 0xd0, 0xd0),
                foreground_dark: c(0x80, 0x80, 0x90),
                border: c(0x3a, 0x3a, 0x4e),
                border_highlight: c(0x50, 0x50, 0x68),
            },
            semantic: SemanticColors {
                success: c(0x50, 0xc8, 0x78),
                warning: c(0xe0, 0xb0, 0x50),
                error: c(0xe0, 0x50, 0x50),
                info: c(0x50, 0x90, 0xe0),
                hint: c(0x70, 0x70, 0x88),
            },
            surface,
            diff: DiffColors::default(),
            typography: TypographyColors::default(),
            syntax: SyntaxColors::default(),
            editor: EditorColors::default(),
            terminal_ansi: TerminalAnsiColors::default(),
            platform,
        }
    }
}

} // verus!
