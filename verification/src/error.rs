//! What can go wrong while a theme is loaded.

use vstd::prelude::*;
use vstd::string::*;

verus! {

/// Errors produced when loading or resolving theme manifests.
#[derive(Debug)]
pub enum PaletteError {
    /// The source text is not a well-formed manifest.
    Parse(toml::de::Error),
    /// A file could not be read.
    Io { path: String, source: std::io::Error },
    /// The manifest has no `base` section.
    MissingBase,
    /// A theme to be registered has no `meta` section.
    MissingMeta,
    /// A slot holds a text that is not a `#RRGGBB` color.
    InvalidHex { section: String, field: String, value: String },
    /// No theme is known under this id.
    UnknownPreset(String),
}

/// What an error says, with texts as character sequences.
pub enum ErrorModel {
    Parse,
    Io { path: Seq<char> },
    MissingBase,
    MissingMeta,
    InvalidHex { section: Seq<char>, field: Seq<char>, value: Seq<char> },
    UnknownPreset(Seq<char>),
}

impl View for PaletteError {
    type V = ErrorModel;

    open spec fn view(&self) -> ErrorModel {
        match self {
            PaletteError::Parse(_) => ErrorModel::Parse,
            PaletteError::Io { path, .. } => ErrorModel::Io { path: path@ },
            PaletteError::MissingBase => ErrorModel::MissingBase,
            PaletteError::MissingMeta => ErrorModel::MissingMeta,
            PaletteError::InvalidHex { section, field, value } => ErrorModel::InvalidHex {
                section: section@,
                field: field@,
                value: value@,
            },
            PaletteError::UnknownPreset(id) => ErrorModel::UnknownPreset(id@),
        }
    }
}

/// A result with its value or its error as a view.
pub open spec fn outcome_of<T: View, E: View>(r: Result<T, E>) -> Result<T::V, E::V> {
    match r {
        Ok(t) => Ok(t@),
        Err(e) => Err(e@),
    }
}

/// Whether a result is the given outcome, values compared by their views.
pub open spec fn is_outcome<T: View, E: View>(r: Result<T, E>, outcome: Result<T::V, E::V>) -> bool {
    match outcome {
        Ok(v) => r matches Ok(t) && t@ == v,
        Err(e) => r matches Err(x) && x@ == e,
    }
}

} // verus!
