//! The themes a user may pick: the built-in themes of the UI toolkit, in
//! the toolkit's own order, followed by the Fusion pair, which are custom
//! themes. A theme is either a built-in variant or a named custom palette.

use vstd::prelude::*;
use crate::app::config::UiThemePalette;

verus! {

/// The built-in themes of the UI toolkit, in the order of its theme list.
#[derive(Clone, Copy, PartialEq, Eq, Structural, Debug)]
pub enum BuiltinTheme {
    Light,
    Dark,
    Dracula,
    Nord,
    SolarizedLight,
    SolarizedDark,
    GruvboxLight,
    GruvboxDark,
    CatppuccinLatte,
    CatppuccinFrappe,
    CatppuccinMacchiato,
    CatppuccinMocha,
    TokyoNight,
    TokyoNightStorm,
    TokyoNightLight,
    KanagawaWave,
    KanagawaDragon,
    KanagawaLotus,
    Moonfly,
    Nightfly,
    Oxocarbon,
    Ferra,
}

/// Number of built-in themes.
pub const BUILTIN_COUNT: usize = 22;

/// A theme: a built-in variant, or a custom palette under a name.
#[derive(Clone, Debug, PartialEq)]
pub enum Theme {
    Builtin(BuiltinTheme),
    Custom { name: String, palette: UiThemePalette },
}

impl BuiltinTheme {
    /// Position in the toolkit's theme list.
    pub open spec fn spec_index(self) -> usize {
        match self {
            BuiltinTheme::Light => 0,
            BuiltinTheme::Dark => 1,
            BuiltinTheme::Dracula => 2,
            BuiltinTheme::Nord => 3,
            BuiltinTheme::SolarizedLight => 4,
            BuiltinTheme::SolarizedDark => 5,
            BuiltinTheme::GruvboxLight => 6,
            BuiltinTheme::GruvboxDark => 7,
            BuiltinTheme::CatppuccinLatte => 8,
            BuiltinTheme::CatppuccinFrappe => 9,
            BuiltinTheme::CatppuccinMacchiato => 10,
            BuiltinTheme::CatppuccinMocha => 11,
            BuiltinTheme::TokyoNight => 12,
            BuiltinTheme::TokyoNightStorm => 13,
            BuiltinTheme::TokyoNightLight => 14,
            BuiltinTheme::KanagawaWave => 15,
            BuiltinTheme::KanagawaDragon => 16,
            BuiltinTheme::KanagawaLotus => 17,
            BuiltinTheme::Moonfly => 18,
            BuiltinTheme::Nightfly => 19,
            BuiltinTheme::Oxocarbon => 20,
            BuiltinTheme::Ferra => 21,
        }
    }

    /// The built-in theme at position `i` of the toolkit's theme list.
    pub open spec fn spec_from_index(i: int) -> BuiltinTheme {
        if i == 0 { BuiltinTheme::Light }
        else if i == 1 { BuiltinTheme::Dark }
        else if i == 2 { BuiltinTheme::Dracula }
        else if i == 3 { BuiltinTheme::Nord }
        else if i == 4 { BuiltinTheme::SolarizedLight }
        else if i == 5 { BuiltinTheme::SolarizedDark }
        else if i == 6 { BuiltinTheme::GruvboxLight }
        else if i == 7 { BuiltinTheme::GruvboxDark }
        else if i == 8 { BuiltinTheme::CatppuccinLatte }
        else if i == 9 { BuiltinTheme::CatppuccinFrappe }
        else if i == 10 { BuiltinTheme::CatppuccinMacchiato }
        else if i == 11 { BuiltinTheme::CatppuccinMocha }
        else if i == 12 { BuiltinTheme::TokyoNight }
        else if i == 13 { BuiltinTheme::TokyoNightStorm }
        else if i == 14 { BuiltinTheme::TokyoNightLight }
        else if i == 15 { BuiltinTheme::KanagawaWave }
        else if i == 16 { BuiltinTheme::KanagawaDragon }
        else if i == 17 { BuiltinTheme::KanagawaLotus }
        else if i == 18 { BuiltinTheme::Moonfly }
        else if i == 19 { BuiltinTheme::Nightfly }
        else if i == 20 { BuiltinTheme::Oxocarbon }
        else { BuiltinTheme::Ferra }
    }

    pub fn index(self) -> (i: usize)
        ensures
            i == self.spec_index(),
            i < BUILTIN_COUNT,
    {
        match self {
            BuiltinTheme::Light => 0,
            BuiltinTheme::Dark => 1,
            BuiltinTheme::Dracula => 2,
            BuiltinTheme::Nord => 3,
            BuiltinTheme::SolarizedLight => 4,
            BuiltinTheme::SolarizedDark => 5,
            BuiltinTheme::GruvboxLight => 6,
            BuiltinTheme::GruvboxDark => 7,
            BuiltinTheme::CatppuccinLatte => 8,
            BuiltinTheme::CatppuccinFrappe => 9,
            BuiltinTheme::CatppuccinMacchiato => 10,
            BuiltinTheme::CatppuccinMocha => 11,
            BuiltinTheme::TokyoNight => 12,
            BuiltinTheme::TokyoNightStorm => 13,
            BuiltinTheme::TokyoNightLight => 14,
            BuiltinTheme::KanagawaWave => 15,
            BuiltinTheme::KanagawaDragon => 16,
            BuiltinTheme::KanagawaLotus => 17,
            BuiltinTheme::Moonfly => 18,
            BuiltinTheme::Nightfly => 19,
            BuiltinTheme::Oxocarbon => 20,
            BuiltinTheme::Ferra => 21,
        }
    }

    pub fn from_index(i: usize) -> (t: BuiltinTheme)
        requires
            i < BUILTIN_COUNT,
        ensures
            t == BuiltinTheme::spec_from_index(i as int),
            t.spec_index() == i,
    {
        if i == 0 { BuiltinTheme::Light }
        else if i == 1 { BuiltinTheme::Dark }
        else if i == 2 { BuiltinTheme::Dracula }
        else if i == 3 { BuiltinTheme::Nord }
        else if i == 4 { BuiltinTheme::SolarizedLight }
        else if i == 5 { BuiltinTheme::SolarizedDark }
        else if i == 6 { BuiltinTheme::GruvboxLight }
        else if i == 7 { BuiltinTheme::GruvboxDark }
        else if i == 8 { BuiltinTheme::CatppuccinLatte }
        else if i == 9 { BuiltinTheme::CatppuccinFrappe }
        else if i == 10 { BuiltinTheme::CatppuccinMacchiato }
        else if i == 11 { BuiltinTheme::CatppuccinMocha }
        else if i == 12 { BuiltinTheme::TokyoNight }
        else if i == 13 { BuiltinTheme::TokyoNightStorm }
        else if i == 14 { BuiltinTheme::TokyoNightLight }
        else if i == 15 { BuiltinTheme::KanagawaWave }
        else if i == 16 { BuiltinTheme::KanagawaDragon }
        else if i == 17 { BuiltinTheme::KanagawaLotus }
        else if i == 18 { BuiltinTheme::Moonfly }
        else if i == 19 { BuiltinTheme::Nightfly }
        else if i == 20 { BuiltinTheme::Oxocarbon }
        else { BuiltinTheme::Ferra }
    }
}

/// The display name the UI toolkit gives the built-in theme at position
/// `index` of its theme list (its `Display`).
pub open spec fn spec_builtin_theme_name(index: usize) -> Seq<char> {
    if index == 0 {
        "Light"@
    } else if index == 1 {
        "Dark"@
    } else if index == 2 {
        "Dracula"@
    } else if index == 3 {
        "Nord"@
    } else if index == 4 {
        "Solarized Light"@
    } else if index == 5 {
        "Solarized Dark"@
    } else if index == 6 {
        "Gruvbox Light"@
    } else if index == 7 {
        "Gruvbox Dark"@
    } else if index == 8 {
        "Catppuccin Latte"@
    } else if index == 9 {
        "Catppuccin Frapp\u{e9}"@
    } else if index == 10 {
        "Catppuccin Macchiato"@
    } else if index == 11 {
        "Catppuccin Mocha"@
    } else if index == 12 {
        "Tokyo Night"@
    } else if index == 13 {
        "Tokyo Night Storm"@
    } else if index == 14 {
        "Tokyo Night Light"@
    } else if index == 15 {
        "Kanagawa Wave"@
    } else if index == 16 {
        "Kanagawa Dragon"@
    } else if index == 17 {
        "Kanagawa Lotus"@
    } else if index == 18 {
        "Moonfly"@
    } else if index == 19 {
        "Nightfly"@
    } else if index == 20 {
        "Oxocarbon"@
    } else {
        "Ferra"@
    }
}

/// Calls `Display::to_string` on `iced::Theme::ALL[index]`: the display
/// name of the built-in theme at that position, as iced's name table gives
/// it. The list has 22 entries.
#[verifier::external_body]
fn builtin_theme_name(index: usize) -> (name: String)
    requires
        index < BUILTIN_COUNT,
    ensures
        name@ == spec_builtin_theme_name(index),
{
    iced::Theme::ALL[index].to_string()
}

impl Theme {
    /// The theme's display name.
    pub open spec fn spec_name(&self) -> Seq<char> {
        match self {
            Theme::Builtin(b) => spec_builtin_theme_name(b.spec_index()),
            Theme::Custom { name, .. } => name@,
        }
    }

    /// The theme's display name (`to_string`).
    pub fn name(&self) -> (n: String)
        ensures
            n@ == self.spec_name(),
    {
        match self {
            Theme::Builtin(b) => builtin_theme_name(b.index()),
            Theme::Custom { name, .. } => name.clone(),
        }
    }
}

} // verus!
