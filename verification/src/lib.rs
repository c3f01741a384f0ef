//! Theme palettes with inheritance and CSS export.
//!
//! A theme is written as a TOML manifest: named sections, each a map from
//! slot name to a `#RRGGBB` text. A manifest may name one parent, whose
//! sections it is laid over. Resolving a manifest gives a [`Palette`]: a
//! typed color map covering base, semantic, diff, surface, typography,
//! syntax, editor and terminal-ANSI slots, with per-platform overrides.
//! A [`Registry`] holds the built-in themes and custom ones by id.

pub mod color;
pub mod contrast;
pub mod css;
pub mod document;
pub mod error;
pub mod groups;
pub mod manifest;
pub mod merge;
pub mod palette;
pub mod platform;
pub mod presets;
pub mod registry;
pub mod slots;
pub mod sorted_map;
pub mod text;

pub use color::Color;
pub use contrast::ContrastLevel;
pub use error::PaletteError;
pub use palette::{Palette, PaletteMeta};
pub use presets::preset_ids;
pub use registry::{load_preset, Registry, ThemeInfo};
