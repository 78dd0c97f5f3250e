//! The Fusion theme pair: black chrome around a white canvas, and its
//! inverse. Both are custom themes, named and coloured here; one accent
//! (a saturated blue) reads against both halves.

use vstd::prelude::*;
use crate::app::config::UiThemePalette;
use crate::app::theme::Theme;
use crate::text::{chars_of, seq_eq, string_from_chars};

verus! {

/// Display name of the black-chrome theme, persisted verbatim as the theme
/// name of the configuration.
pub const FUSION_BLACK: &'static str = "Fusion Black";

/// Display name of the light-chrome theme.
pub const FUSION_WHITE: &'static str = "Fusion White";

/// Model-space canvas for the black-chrome theme: a fraction below white.
pub const FUSION_BLACK_CANVAS: [u8; 3] = [250, 250, 250];

/// Model-space canvas for the light-chrome theme.
pub const FUSION_WHITE_CANVAS: [u8; 3] = [255, 255, 255];

/// The red, green and blue bytes of `0xRRGGBB`.
pub open spec fn spec_rgb(hex: u32) -> Seq<u8> {
    seq![(hex / 0x10000 % 0x100) as u8, (hex / 0x100 % 0x100) as u8, (hex % 0x100) as u8]
}

/// Splits `0xRRGGBB` into its red, green and blue bytes.
pub fn rgb(hex: u32) -> (c: [u8; 3])
    ensures
        c@ == spec_rgb(hex),
{
    let c = [(hex / 0x10000 % 0x100) as u8, (hex / 0x100 % 0x100) as u8, (hex % 0x100) as u8];
    assert(c@ =~= spec_rgb(hex));
    c
}

/// The colours of the black-chrome theme.
pub open spec fn is_fusion_black_palette(p: UiThemePalette) -> bool {
    &&& p.background@ == spec_rgb(0x1A1A1A)
    &&& p.text@ == spec_rgb(0xF2F2F2)
    &&& p.primary@ == spec_rgb(0x0696D7)
    &&& p.success@ == spec_rgb(0x4CAF50)
    &&& p.warning@ == spec_rgb(0xFFB300)
    &&& p.danger@ == spec_rgb(0xE53935)
}

/// The colours of the light-chrome theme.
pub open spec fn is_fusion_white_palette(p: UiThemePalette) -> bool {
    &&& p.background@ == spec_rgb(0xFAFAFA)
    &&& p.text@ == spec_rgb(0x1A1A1A)
    &&& p.primary@ == spec_rgb(0x0277BD)
    &&& p.success@ == spec_rgb(0x2E7D32)
    &&& p.warning@ == spec_rgb(0xE65100)
    &&& p.danger@ == spec_rgb(0xC62828)
}

/// Near-black chrome, near-white text, blue accent.
pub fn fusion_black_palette() -> (p: UiThemePalette)
    ensures
        is_fusion_black_palette(p),
{
    UiThemePalette {
        background: rgb(0x1A1A1A),
        text: rgb(0xF2F2F2),
        primary: rgb(0x0696D7),
        success: rgb(0x4CAF50),
        warning: rgb(0xFFB300),
        danger: rgb(0xE53935),
    }
}

/// Light chrome, near-black text, a darker accent for a light surface.
pub fn fusion_white_palette() -> (p: UiThemePalette)
    ensures
        is_fusion_white_palette(p),
{
    UiThemePalette {
        background: rgb(0xFAFAFA),
        text: rgb(0x1A1A1A),
        primary: rgb(0x0277BD),
        success: rgb(0x2E7D32),
        warning: rgb(0xE65100),
        danger: rgb(0xC62828),
    }
}

/// The black-chrome Fusion theme.
pub fn fusion_black() -> (t: Theme)
    ensures
        t matches Theme::Custom { name, palette } && name@ == FUSION_BLACK@ && is_fusion_black_palette(palette),
{
    let name = string_from_chars(&chars_of(FUSION_BLACK));
    Theme::Custom { name, palette: fusion_black_palette() }
}

/// The light-chrome Fusion theme.
pub fn fusion_white() -> (t: Theme)
    ensures
        t matches Theme::Custom { name, palette } && name@ == FUSION_WHITE@ && is_fusion_white_palette(palette),
{
    let name = string_from_chars(&chars_of(FUSION_WHITE));
    Theme::Custom { name, palette: fusion_white_palette() }
}

/// Both Fusion themes, in the order the theme picker shows them.
pub fn fusion_themes() -> (v: Vec<Theme>)
    ensures
        v@.len() == 2,
        v@[0] matches Theme::Custom { name, palette } && name@ == FUSION_BLACK@ && is_fusion_black_palette(palette),
        v@[1] matches Theme::Custom { name, palette } && name@ == FUSION_WHITE@ && is_fusion_white_palette(palette),
{
    let mut v = Vec::new();
    v.push(fusion_black());
    v.push(fusion_white());
    v
}

/// The canvas colour a Fusion theme asks for, keyed by theme name.
pub open spec fn spec_fusion_canvas(name: Seq<char>) -> Option<Seq<u8>> {
    if name == FUSION_BLACK@ {
        Some(seq![250u8, 250, 250])
    } else if name == FUSION_WHITE@ {
        Some(seq![255u8, 255, 255])
    } else {
        None
    }
}

/// The canvas colour a Fusion theme asks for, or `None` for any other
/// theme. Keyed by name, as a custom theme carries no other identity.
pub fn fusion_canvas(theme: &Theme) -> (r: Option<[u8; 3]>)
    ensures
        match r {
            Some(c) => spec_fusion_canvas(theme.spec_name()) == Some(c@),
            None => spec_fusion_canvas(theme.spec_name()) is None,
        },
{
    let name = theme.name();
    let n = chars_of(name.as_str());
    if seq_eq(&n, &chars_of(FUSION_BLACK)) {
        let c = FUSION_BLACK_CANVAS;
        assert(c@ =~= seq![250u8, 250, 250]);
        Some(c)
    } else if seq_eq(&n, &chars_of(FUSION_WHITE)) {
        let c = FUSION_WHITE_CANVAS;
        assert(c@ =~= seq![255u8, 255, 255]);
        Some(c)
    } else {
        None
    }
}

} // verus!
