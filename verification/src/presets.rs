//! The built-in themes: their ids, display names and styles, and the
//! manifest text of each.

use vstd::prelude::*;
use vstd::string::*;
use crate::css::rows;
use crate::manifest::optional_str;
use crate::slots::texts;
use crate::text::str_eq;

verus! {

/// The manifest of `ayu_dark`.
pub const AYU_DARK: &'static str = r##"[meta]
name = "Ayu Dark"
preset_id = "ayu_dark"
schema_version = "1"
style = "dark"
kind = "preset-base"

[base]
background = "#0b0e14"
foreground = "#bfbdb6"

[semantic]
success = "#aad94c"
warning = "#ffb454"
error = "#f07178"
info = "#59c2ff"
"##;

/// The manifest of `ayu_light`.
pub const AYU_LIGHT: &'static str = r##"[meta]
name = "Ayu Light"
preset_id = "ayu_light"
schema_version = "1"
style = "light"
kind = "preset-base"

[base]
background = "#fcfcfc"
foreground = "#5c6166"

[semantic]
success = "#86b300"
warning = "#f2ae49"
error = "#f07171"
info = "#399ee6"
"##;

/// The manifest of `ayu_mirage`.
pub const AYU_MIRAGE: &'static str = r##"[meta]
name = "Ayu Mirage"
preset_id = "ayu_mirage"
schema_version = "1"
style = "mirage"
kind = "preset-base"

[base]
background = "#1f2430"
foreground = "#cccac2"

[semantic]
success = "#d5ff80"
warning = "#ffd173"
error = "#f28779"
info = "#73d0ff"
"##;

/// The manifest of `catppuccin`.
pub const CATPPUCCIN: &'static str = r##"[meta]
name = "Catppuccin Mocha"
preset_id = "catppuccin"
schema_version = "1"
style = "mocha"
kind = "preset-base"

[base]
background = "#1e1e2e"
foreground = "#cdd6f4"

[semantic]
success = "#a6e3a1"
warning = "#f9e2af"
error = "#f38ba8"
info = "#89b4fa"
"##;

/// The manifest of `catppuccin_frappe`.
pub const CATPPUCCIN_FRAPPE: &'static str = r##"[meta]
name = "Catppuccin Frappe"
preset_id = "catppuccin_frappe"
schema_version = "1"
style = "frappe"
kind = "preset-base"

[base]
background = "#303446"
foreground = "#c6d0f5"

[semantic]
success = "#a6d189"
warning = "#e5c890"
error = "#e78284"
info = "#8caaee"
"##;

/// The manifest of `catppuccin_latte`.
pub const CATPPUCCIN_LATTE: &'static str = r##"[meta]
name = "Catppuccin Latte"
preset_id = "catppuccin_latte"
schema_version = "1"
style = "latte"
kind = "preset-base"

[base]
background = "#eff1f5"
foreground = "#4c4f69"

[semantic]
success = "#40a02b"
warning = "#df8e1d"
error = "#d20f39"
info = "#1e66f5"
"##;

/// The manifest of `catppuccin_macchiato`.
pub const CATPPUCCIN_MACCHIATO: &'static str = r##"[meta]
name = "Catppuccin Macchiato"
preset_id = "catppuccin_macchiato"
schema_version = "1"
style = "macchiato"
kind = "preset-base"

[base]
background = "#24273a"
foreground = "#cad3f5"

[semantic]
success = "#a6da95"
warning = "#eed49f"
error = "#ed8796"
info = "#8aadf4"
"##;

/// The manifest of `dracula`.
pub const DRACULA: &'static str = r##"[meta]
name = "Dracula"
preset_id = "dracula"
schema_version = "1"
style = "dark"
kind = "preset-base"

[base]
background = "#282a36"
foreground = "#f8f8f2"

[semantic]
success = "#50fa7b"
warning = "#f1fa8c"
error = "#ff5555"
info = "#8be9fd"
"##;

/// The manifest of `everforest_dark`.
pub const EVERFOREST_DARK: &'static str = r##"[meta]
name = "Everforest Dark"
preset_id = "everforest_dark"
schema_version = "1"
style = "dark"
kind = "preset-base"

[base]
background = "#2d353b"
foreground = "#d3c6aa"

[semantic]
success = "#a7c080"
warning = "#dbbc7f"
error = "#e67e80"
info = "#7fbbb3"
"##;

/// The manifest of `everforest_light`.
pub const EVERFOREST_LIGHT: &'static str = r##"[meta]
name = "Everforest Light"
preset_id = "everforest_light"
schema_version = "1"
style = "light"
kind = "preset-base"

[base]
background = "#fdf6e3"
foreground = "#5c6a72"

[semantic]
success = "#8da101"
warning = "#dfa000"
error = "#f85552"
info = "#3a94c5"
"##;

/// The manifest of `github_dark`.
pub const GITHUB_DARK: &'static str = r##"[meta]
name = "GitHub Dark"
preset_id = "github_dark"
schema_version = "1"
style = "dark"
kind = "preset-base"

[base]
background = "#0d1117"
foreground = "#c9d1d9"

[semantic]
success = "#3fb950"
warning = "#d29922"
error = "#ff7b72"
info = "#58a6ff"
"##;

/// The manifest of `github_light`.
pub const GITHUB_LIGHT: &'static str = r##"[meta]
name = "GitHub Light"
preset_id = "github_light"
schema_version = "1"
style = "light"
kind = "preset-base"

[base]
background = "#ffffff"
foreground = "#24292f"

[semantic]
success = "#1a7f37"
warning = "#9a6700"
error = "#cf222e"
info = "#0969da"
"##;

/// The manifest of `gruvbox_dark`.
pub const GRUVBOX_DARK: &'static str = r##"[meta]
name = "Gruvbox Dark"
preset_id = "gruvbox_dark"
schema_version = "1"
style = "dark"
kind = "preset-base"

[base]
background = "#282828"
foreground = "#ebdbb2"

[semantic]
success = "#b8bb26"
warning = "#fabd2f"
error = "#fb4934"
info = "#83a598"
"##;

/// The manifest of `gruvbox_light`.
pub const GRUVBOX_LIGHT: &'static str = r##"[meta]
name = "Gruvbox Light"
preset_id = "gruvbox_light"
schema_version = "1"
style = "light"
kind = "preset-base"

[base]
background = "#fbf1c7"
foreground = "#3c3836"

[semantic]
success = "#79740e"
warning = "#b57614"
error = "#9d0006"
info = "#076678"
"##;

/// The manifest of `kanagawa`.
pub const KANAGAWA: &'static str = r##"[meta]
name = "Kanagawa"
preset_id = "kanagawa"
schema_version = "1"
style = "dark"
kind = "preset-base"

[base]
background = "#1f1f28"
foreground = "#dcd7ba"

[semantic]
success = "#98bb6c"
warning = "#e6c384"
error = "#e82424"
info = "#7e9cd8"
"##;

/// The manifest of `monokai`.
pub const MONOKAI: &'static str = r##"[meta]
name = "Monokai"
preset_id = "monokai"
schema_version = "1"
style = "dark"
kind = "preset-base"

[base]
background = "#272822"
foreground = "#f8f8f2"

[semantic]
success = "#a6e22e"
warning = "#e6db74"
error = "#f92672"
info = "#66d9ef"
"##;

/// The manifest of `nord`.
pub const NORD: &'static str = r##"[meta]
name = "Nord"
preset_id = "nord"
schema_version = "1"
style = "dark"
kind = "preset-base"

[base]
background = "#2e3440"
foreground = "#d8dee9"

[semantic]
success = "#a3be8c"
warning = "#ebcb8b"
error = "#bf616a"
info = "#81a1c1"
"##;

/// The manifest of `one_dark`.
pub const ONE_DARK: &'static str = r##"[meta]
name = "One Dark"
preset_id = "one_dark"
schema_version = "1"
style = "dark"
kind = "preset-base"

[base]
background = "#282c34"
foreground = "#abb2bf"

[semantic]
success = "#98c379"
warning = "#e5c07b"
error = "#e06c75"
info = "#61afef"
"##;

/// The manifest of `one_light`.
pub const ONE_LIGHT: &'static str = r##"[meta]
name = "One Light"
preset_id = "one_light"
schema_version = "1"
style = "light"
kind = "preset-base"

[base]
background = "#fafafa"
foreground = "#383a42"

[semantic]
success = "#50a14f"
warning = "#c18401"
error = "#e45649"
info = "#4078f2"
"##;

/// The manifest of `rose_pine`.
pub const ROSE_PINE: &'static str = r##"[meta]
name = "Rose Pine"
preset_id = "rose_pine"
schema_version = "1"
style = "dark"
kind = "preset-base"

[base]
background = "#191724"
foreground = "#e0def4"

[semantic]
success = "#31748f"
warning = "#f6c177"
error = "#eb6f92"
info = "#9ccfd8"
"##;

/// The manifest of `rose_pine_dawn`.
pub const ROSE_PINE_DAWN: &'static str = r##"[meta]
name = "Rose Pine Dawn"
preset_id = "rose_pine_dawn"
schema_version = "1"
style = "dawn"
kind = "preset-base"

[base]
background = "#faf4ed"
foreground = "#575279"

[semantic]
success = "#286983"
warning = "#ea9d34"
error = "#b4637a"
info = "#56949f"
"##;

/// The manifest of `rose_pine_moon`.
pub const ROSE_PINE_MOON: &'static str = r##"[meta]
name = "Rose Pine Moon"
preset_id = "rose_pine_moon"
schema_version = "1"
style = "moon"
kind = "preset-base"

[base]
background = "#232136"
foreground = "#e0def4"

[semantic]
success = "#3e8fb0"
warning = "#f6c177"
error = "#eb6f92"
info = "#9ccfd8"
"##;

/// The manifest of `solarized_dark`.
pub const SOLARIZED_DARK: &'static str = r##"[meta]
name = "Solarized Dark"
preset_id = "solarized_dark"
schema_version = "1"
style = "dark"
kind = "preset-base"

[base]
background = "#002b36"
foreground = "#839496"

[semantic]
success = "#859900"
warning = "#b58900"
error = "#dc322f"
info = "#268bd2"
"##;

/// The manifest of `solarized_light`.
pub const SOLARIZED_LIGHT: &'static str = r##"[meta]
name = "Solarized Light"
preset_id = "solarized_light"
schema_version = "1"
style = "light"
kind = "preset-base"

[base]
background = "#fdf6e3"
foreground = "#657b83"

[semantic]
success = "#859900"
warning = "#b58900"
error = "#dc322f"
info = "#268bd2"
"##;

/// The manifest of `tokyonight`.
pub const TOKYONIGHT: &'static str = r##"[meta]
name = "TokyoNight (Night)"
preset_id = "tokyonight"
schema_version = "1"
style = "night"
kind = "preset-base"

[base]
background = "#1a1b2a"
background_dark = "#16161e"
background_highlight = "#292e42"
foreground = "#c0caf5"
foreground_dark = "#a9b1d6"
border = "#15161e"
border_highlight = "#27a1b9"

[semantic]
success = "#73daca"
warning = "#e0af68"
error = "#db4b4b"
info = "#0db9d7"
hint = "#1abc9c"

[diff]
added = "#449dab"
added_bg = "#20303b"
modified = "#6183bb"
modified_bg = "#1f2231"
removed = "#914c54"
removed_bg = "#37222c"
text_bg = "#394b70"

[surface]
menu = "#16161e"
sidebar = "#16161e"
statusline = "#16161e"
float = "#16161e"
popup = "#16161e"
highlight = "#292e42"
selection = "#283457"
search = "#3d59a1"

[typography]
comment = "#565f89"
gutter = "#3b4261"
line_number = "#3b4261"
link = "#1abc9c"
title = "#7aa2f7"

[syntax]
keywords = "#bb9af7"
functions = "#7aa2f7"
variables = "#c0caf5"
parameters = "#e0af68"
properties = "#73daca"
types = "#2ac3de"
constants = "#ff9e64"
numbers = "#ff9e64"
booleans = "#ff9e64"
strings = "#9ece6a"
operators = "#89ddff"
punctuation = "#89ddff"
comments = "#565f89"

[editor]
cursor = "#c0caf5"
cursor_text = "#1a1b2a"
selection_bg = "#283457"
search_bg = "#3d59a1"
search_fg = "#c0caf5"
diagnostic_error = "#db4b4b"
diagnostic_warn = "#e0af68"
diagnostic_info = "#0db9d7"
diagnostic_hint = "#1abc9c"

[terminal]
black = "#15161e"
red = "#f7768e"
green = "#9ece6a"
yellow = "#e0af68"
blue = "#7aa2f7"
magenta = "#bb9af7"
cyan = "#7dcfff"
white = "#a9b1d6"
bright_black = "#414868"
bright_red = "#f7768e"
bright_green = "#9ece6a"
bright_yellow = "#e0af68"
bright_blue = "#7aa2f7"
bright_magenta = "#bb9af7"
bright_cyan = "#7dcfff"
bright_white = "#c0caf5"

[platform.terminal]
background = "#16161e"
foreground = "#c0caf5"

[platform.web]
background = "#1a1b2a"
foreground = "#c0caf5"
"##;

/// The manifest of `tokyonight_day`.
pub const TOKYONIGHT_DAY: &'static str = r##"[meta]
name = "TokyoNight Day"
preset_id = "tokyonight_day"
schema_version = "1"
style = "day"
kind = "preset-base"

[base]
background = "#e1e2e7"
foreground = "#3760bf"

[semantic]
success = "#387068"
warning = "#8c6c3e"
error = "#c64343"
info = "#07879d"
"##;

/// The manifest of `tokyonight_moon`.
pub const TOKYONIGHT_MOON: &'static str = r##"[meta]
name = "TokyoNight Moon"
preset_id = "tokyonight_moon"
schema_version = "1"
style = "moon"
kind = "preset-base"

[base]
background = "#222436"
foreground = "#c8d3f5"

[semantic]
success = "#4fd6be"
warning = "#ffc777"
error = "#c53b53"
info = "#0db9d7"
"##;

/// The manifest of `tokyonight_storm`.
pub const TOKYONIGHT_STORM: &'static str = r##"[meta]
name = "TokyoNight Storm"
preset_id = "tokyonight_storm"
schema_version = "1"
style = "storm"
kind = "preset-variant"
inherits = "tokyonight"

[base]
background = "#24283b"
background_dark = "#1f2335"

[terminal]
black = "#1d202f"

[platform.terminal]
background = "#1f2335"

[platform.web]
background = "#24283b"
"##;

/// The built-in themes in listing order: id, display name, style.
pub open spec fn builtin_table() -> Seq<(Seq<char>, Seq<char>, Seq<char>)> {
    seq![
        ("ayu_dark"@, "Ayu Dark"@, "dark"@),
        ("ayu_light"@, "Ayu Light"@, "light"@),
        ("ayu_mirage"@, "Ayu Mirage"@, "mirage"@),
        ("catppuccin"@, "Catppuccin Mocha"@, "mocha"@),
        ("catppuccin_frappe"@, "Catppuccin Frappe"@, "frappe"@),
        ("catppuccin_latte"@, "Catppuccin Latte"@, "latte"@),
        ("catppuccin_macchiato"@, "Catppuccin Macchiato"@, "macchiato"@),
        ("dracula"@, "Dracula"@, "dark"@),
        ("everforest_dark"@, "Everforest Dark"@, "dark"@),
        ("everforest_light"@, "Everforest Light"@, "light"@),
        ("github_dark"@, "GitHub Dark"@, "dark"@),
        ("github_light"@, "GitHub Light"@, "light"@),
        ("gruvbox_dark"@, "Gruvbox Dark"@, "dark"@),
        ("gruvbox_light"@, "Gruvbox Light"@, "light"@),
        ("kanagawa"@, "Kanagawa"@, "dark"@),
        ("monokai"@, "Monokai"@, "dark"@),
        ("nord"@, "Nord"@, "dark"@),
        ("one_dark"@, "One Dark"@, "dark"@),
        ("one_light"@, "One Light"@, "light"@),
        ("rose_pine"@, "Rose Pine"@, "dark"@),
        ("rose_pine_dawn"@, "Rose Pine Dawn"@, "dawn"@),
        ("rose_pine_moon"@, "Rose Pine Moon"@, "moon"@),
        ("solarized_dark"@, "Solarized Dark"@, "dark"@),
        ("solarized_light"@, "Solarized Light"@, "light"@),
        ("tokyonight"@, "TokyoNight (Night)"@, "night"@),
        ("tokyonight_day"@, "TokyoNight Day"@, "day"@),
        ("tokyonight_moon"@, "TokyoNight Moon"@, "moon"@),
        ("tokyonight_storm"@, "TokyoNight Storm"@, "storm"@),
    ]
}

/// The ids of the built-in themes, in listing order.
pub open spec fn builtin_ids() -> Seq<Seq<char>> {
    seq![
        "ayu_dark"@,
        "ayu_light"@,
        "ayu_mirage"@,
        "catppuccin"@,
        "catppuccin_frappe"@,
        "catppuccin_latte"@,
        "catppuccin_macchiato"@,
        "dracula"@,
        "everforest_dark"@,
        "everforest_light"@,
        "github_dark"@,
        "github_light"@,
        "gruvbox_dark"@,
        "gruvbox_light"@,
        "kanagawa"@,
        "monokai"@,
        "nord"@,
        "one_dark"@,
        "one_light"@,
        "rose_pine"@,
        "rose_pine_dawn"@,
        "rose_pine_moon"@,
        "solarized_dark"@,
        "solarized_light"@,
        "tokyonight"@,
        "tokyonight_day"@,
        "tokyonight_moon"@,
        "tokyonight_storm"@,
    ]
}

/// The manifest text of a built-in theme; `None` for any other id.
pub open spec fn preset_text(id: Seq<char>) -> Option<Seq<char>> {
    if id == "ayu_dark"@ {
        Some(AYU_DARK@)
    } else if id == "ayu_light"@ {
        Some(AYU_LIGHT@)
    } else if id == "ayu_mirage"@ {
        Some(AYU_MIRAGE@)
    } else if id == "catppuccin"@ {
        Some(CATPPUCCIN@)
    } else if id == "catppuccin_frappe"@ {
        Some(CATPPUCCIN_FRAPPE@)
    } else if id == "catppuccin_latte"@ {
        Some(CATPPUCCIN_LATTE@)
    } else if id == "catppuccin_macchiato"@ {
        Some(CATPPUCCIN_MACCHIATO@)
    } else if id == "dracula"@ {
        Some(DRACULA@)
    } else if id == "everforest_dark"@ {
        Some(EVERFOREST_DARK@)
    } else if id == "everforest_light"@ {
        Some(EVERFOREST_LIGHT@)
    } else if id == "github_dark"@ {
        Some(GITHUB_DARK@)
    } else if id == "github_light"@ {
        Some(GITHUB_LIGHT@)
    } else if id == "gruvbox_dark"@ {
        Some(GRUVBOX_DARK@)
    } else if id == "gruvbox_light"@ {
        Some(GRUVBOX_LIGHT@)
    } else if id == "kanagawa"@ {
        Some(KANAGAWA@)
    } else if id == "monokai"@ {
        Some(MONOKAI@)
    } else if id == "nord"@ {
        Some(NORD@)
    } else if id == "one_dark"@ {
        Some(ONE_DARK@)
    } else if id == "one_light"@ {
        Some(ONE_LIGHT@)
    } else if id == "rose_pine"@ {
        Some(ROSE_PINE@)
    } else if id == "rose_pine_dawn"@ {
        Some(ROSE_PINE_DAWN@)
    } else if id == "rose_pine_moon"@ {
        Some(ROSE_PINE_MOON@)
    } else if id == "solarized_dark"@ {
        Some(SOLARIZED_DARK@)
    } else if id == "solarized_light"@ {
        Some(SOLARIZED_LIGHT@)
    } else if id == "tokyonight"@ {
        Some(TOKYONIGHT@)
    } else if id == "tokyonight_day"@ {
        Some(TOKYONIGHT_DAY@)
    } else if id == "tokyonight_moon"@ {
        Some(TOKYONIGHT_MOON@)
    } else if id == "tokyonight_storm"@ {
        Some(TOKYONIGHT_STORM@)
    } else {
        None
    }
}

/// The built-in themes in listing order: id, display name, style.
pub fn builtin_info() -> (table: Vec<(&'static str, &'static str, &'static str)>)
    ensures
        rows(table@) == builtin_table(),
        table@.len() == 28,
{
    let table = vec![
        ("ayu_dark", "Ayu Dark", "dark"),
        ("ayu_light", "Ayu Light", "light"),
        ("ayu_mirage", "Ayu Mirage", "mirage"),
        ("catppuccin", "Catppuccin Mocha", "mocha"),
        ("catppuccin_frappe", "Catppuccin Frappe", "frappe"),
        ("catppuccin_latte", "Catppuccin Latte", "latte"),
        ("catppuccin_macchiato", "Catppuccin Macchiato", "macchiato"),
        ("dracula", "Dracula", "dark"),
        ("everforest_dark", "Everforest Dark", "dark"),
        ("everforest_light", "Everforest Light", "light"),
        ("github_dark", "GitHub Dark", "dark"),
        ("github_light", "GitHub Light", "light"),
        ("gruvbox_dark", "Gruvbox Dark", "dark"),
        ("gruvbox_light", "Gruvbox Light", "light"),
        ("kanagawa", "Kanagawa", "dark"),
        ("monokai", "Monokai", "dark"),
        ("nord", "Nord", "dark"),
        ("one_dark", "One Dark", "dark"),
        ("one_light", "One Light", "light"),
        ("rose_pine", "Rose Pine", "dark"),
        ("rose_pine_dawn", "Rose Pine Dawn", "dawn"),
        ("rose_pine_moon", "Rose Pine Moon", "moon"),
        ("solarized_dark", "Solarized Dark", "dark"),
        ("solarized_light", "Solarized Light", "light"),
        ("tokyonight", "TokyoNight (Night)", "night"),
        ("tokyonight_day", "TokyoNight Day", "day"),
        ("tokyonight_moon", "TokyoNight Moon", "moon"),
        ("tokyonight_storm", "TokyoNight Storm", "storm"),
    ];
    assert(rows(table@) =~= builtin_table());
    table
}

/// The ids of the built-in themes, in listing order.
pub fn preset_ids() -> (ids: Vec<&'static str>)
    ensures
        texts(ids@) == builtin_ids(),
        ids@.len() == 28,
{
    let ids = vec![
        "ayu_dark",
        "ayu_light",
        "ayu_mirage",
        "catppuccin",
        "catppuccin_frappe",
        "catppuccin_latte",
        "catppuccin_macchiato",
        "dracula",
        "everforest_dark",
        "everforest_light",
        "github_dark",
        "github_light",
        "gruvbox_dark",
        "gruvbox_light",
        "kanagawa",
        "monokai",
        "nord",
        "one_dark",
        "one_light",
        "rose_pine",
        "rose_pine_dawn",
        "rose_pine_moon",
        "solarized_dark",
        "solarized_light",
        "tokyonight",
        "tokyonight_day",
        "tokyonight_moon",
        "tokyonight_storm",
    ];
    assert(texts(ids@) =~= builtin_ids());
    ids
}

/// The manifest text of a built-in theme; `None` for any other id.
pub fn preset_toml(id: &str) -> (r: Option<&'static str>)
    ensures
        optional_str(r) == preset_text(id@),
{
    if str_eq(id, "ayu_dark") {
        Some(AYU_DARK)
    } else if str_eq(id, "ayu_light") {
        Some(AYU_LIGHT)
    } else if str_eq(id, "ayu_mirage") {
        Some(AYU_MIRAGE)
    } else if str_eq(id, "catppuccin") {
        Some(CATPPUCCIN)
    } else if str_eq(id, "catppuccin_frappe") {
        Some(CATPPUCCIN_FRAPPE)
    } else if str_eq(id, "catppuccin_latte") {
        Some(CATPPUCCIN_LATTE)
    } else if str_eq(id, "catppuccin_macchiato") {
        Some(CATPPUCCIN_MACCHIATO)
    } else if str_eq(id, "dracula") {
        Some(DRACULA)
    } else if str_eq(id, "everforest_dark") {
        Some(EVERFOREST_DARK)
    } else if str_eq(id, "everforest_light") {
        Some(EVERFOREST_LIGHT)
    } else if str_eq(id, "github_dark") {
        Some(GITHUB_DARK)
    } else if str_eq(id, "github_light") {
        Some(GITHUB_LIGHT)
    } else if str_eq(id, "gruvbox_dark") {
        Some(GRUVBOX_DARK)
    } else if str_eq(id, "gruvbox_light") {
        Some(GRUVBOX_LIGHT)
    } else if str_eq(id, "kanagawa") {
        Some(KANAGAWA)
    } else if str_eq(id, "monokai") {
        Some(MONOKAI)
    } else if str_eq(id, "nord") {
        Some(NORD)
    } else if str_eq(id, "one_dark") {
        Some(ONE_DARK)
    } else if str_eq(id, "one_light") {
        Some(ONE_LIGHT)
    } else if str_eq(id, "rose_pine") {
        Some(ROSE_PINE)
    } else if str_eq(id, "rose_pine_dawn") {
        Some(ROSE_PINE_DAWN)
    } else if str_eq(id, "rose_pine_moon") {
        Some(ROSE_PINE_MOON)
    } else if str_eq(id, "solarized_dark") {
        Some(SOLARIZED_DARK)
    } else if str_eq(id, "solarized_light") {
        Some(SOLARIZED_LIGHT)
    } else if str_eq(id, "tokyonight") {
        Some(TOKYONIGHT)
    } else if str_eq(id, "tokyonight_day") {
        Some(TOKYONIGHT_DAY)
    } else if str_eq(id, "tokyonight_moon") {
        Some(TOKYONIGHT_MOON)
    } else if str_eq(id, "tokyonight_storm") {
        Some(TOKYONIGHT_STORM)
    } else {
        None
    }
}

/// No two built-in themes share an id.
pub proof fn lemma_builtin_ids_distinct()
    ensures
        forall|i: int, j: int| 0 <= i < j < 28 ==> builtin_ids()[i] != builtin_ids()[j],
{
    reveal_strlit("ayu_dark");
    reveal_strlit("ayu_light");
    reveal_strlit("ayu_mirage");
    reveal_strlit("catppuccin");
    reveal_strlit("catppuccin_frappe");
    reveal_strlit("catppuccin_latte");
    reveal_strlit("catppuccin_macchiato");
    reveal_strlit("dracula");
    reveal_strlit("everforest_dark");
    reveal_strlit("everforest_light");
    reveal_strlit("github_dark");
    reveal_strlit("github_light");
    reveal_strlit("gruvbox_dark");
    reveal_strlit("gruvbox_light");
    reveal_strlit("kanagawa");
    reveal_strlit("monokai");
    reveal_strlit("nord");
    reveal_strlit("one_dark");
    reveal_strlit("one_light");
    reveal_strlit("rose_pine");
    reveal_strlit("rose_pine_dawn");
    reveal_strlit("rose_pine_moon");
    reveal_strlit("solarized_dark");
    reveal_strlit("solarized_light");
    reveal_strlit("tokyonight");
    reveal_strlit("tokyonight_day");
    reveal_strlit("tokyonight_moon");
    reveal_strlit("tokyonight_storm");
    // The lengths tell most ids apart; one character tells the others.
    assert("ayu_dark"@.len() == 8);
    assert("ayu_dark"@[0] == 'a');
    assert("ayu_light"@.len() == 9);
    assert("ayu_light"@[0] == 'a');
    assert("ayu_mirage"@.len() == 10);
    assert("ayu_mirage"@[0] == 'a');
    assert("catppuccin"@.len() == 10);
    assert("catppuccin"@[0] == 'c');
    assert("catppuccin_frappe"@.len() == 17);
    assert("catppuccin_latte"@.len() == 16);
    assert("catppuccin_latte"@[0] == 'c');
    assert("catppuccin_macchiato"@.len() == 20);
    assert("dracula"@.len() == 7);
    assert("dracula"@[0] == 'd');
    assert("everforest_dark"@.len() == 15);
    assert("everforest_dark"@[0] == 'e');
    assert("everforest_light"@.len() == 16);
    assert("everforest_light"@[0] == 'e');
    assert("github_dark"@.len() == 11);
    assert("github_light"@.len() == 12);
    assert("github_light"@[1] == 'i');
    assert("gruvbox_dark"@.len() == 12);
    assert("gruvbox_dark"@[1] == 'r');
    assert("gruvbox_light"@.len() == 13);
    assert("kanagawa"@.len() == 8);
    assert("kanagawa"@[0] == 'k');
    assert("monokai"@.len() == 7);
    assert("monokai"@[0] == 'm');
    assert("nord"@.len() == 4);
    assert("one_dark"@.len() == 8);
    assert("one_dark"@[0] == 'o');
    assert("one_light"@.len() == 9);
    assert("one_light"@[0] == 'o');
    assert("rose_pine"@.len() == 9);
    assert("rose_pine"@[0] == 'r');
    assert("rose_pine_dawn"@.len() == 14);
    assert("rose_pine_dawn"@[0] == 'r');
    assert("rose_pine_dawn"@[10] == 'd');
    assert("rose_pine_moon"@.len() == 14);
    assert("rose_pine_moon"@[0] == 'r');
    assert("rose_pine_moon"@[10] == 'm');
    assert("solarized_dark"@.len() == 14);
    assert("solarized_dark"@[0] == 's');
    assert("solarized_light"@.len() == 15);
    assert("solarized_light"@[0] == 's');
    assert("tokyonight"@.len() == 10);
    assert("tokyonight"@[0] == 't');
    assert("tokyonight_day"@.len() == 14);
    assert("tokyonight_day"@[0] == 't');
    assert("tokyonight_moon"@.len() == 15);
    assert("tokyonight_moon"@[0] == 't');
    assert("tokyonight_storm"@.len() == 16);
    assert("tokyonight_storm"@[0] == 't');
}

} // verus!
