//! The persisted user configuration: UI theme and its six colours, model
//! space appearance, and the one-time migration that brings a configuration
//! written before the migration counter existed to the light default
//! theme.

use vstd::prelude::*;
use vstd::utf8::{encode_utf8, is_char_boundary};
use crate::app::theme::{BuiltinTheme, Theme, BUILTIN_COUNT, spec_builtin_theme_name};
use crate::text::{
    chars_of, char_is_white_space, char_to_uppercase, hex_upper, hex_upper_exec, is_ascii_hexdigit,
    char_is_ascii_hexdigit, is_white_space, push_char, seq_eq, upper_chars, string_from_chars,
    trim, trim_end, trim_start, trimmed, all_ascii, lemma_ascii_char_boundaries, hex_value,
    lemma_hex_digit_round_trip, lemma_ascii_encoding,
};
use crate::ui::style::fusion_theme::{
    fusion_black, fusion_white, fusion_white_palette, fusion_canvas, is_fusion_black_palette,
    is_fusion_white_palette, spec_fusion_canvas, FUSION_BLACK, FUSION_WHITE,
};

verus! {

/// The six base colours of a custom theme, as `[R, G, B]`.
#[derive(Clone, Copy, PartialEq, Eq, Debug)]
pub struct UiThemePalette {
    pub background: [u8; 3],
    pub text: [u8; 3],
    pub primary: [u8; 3],
    pub success: [u8; 3],
    pub warning: [u8; 3],
    pub danger: [u8; 3],
}

impl UiThemePalette {
    /// The colours in editor order: background, text, primary, success,
    /// warning, danger.
    pub open spec fn colours(self) -> Seq<[u8; 3]> {
        seq![self.background, self.text, self.primary, self.success, self.warning, self.danger]
    }

    /// The six colours as `#RRGGBB`, in editor order.
    pub fn hex_values(self) -> (r: [String; 6])
        ensures
            forall|i: int| 0 <= i < 6 ==> (#[trigger] r@[i])@ == spec_rgb_to_hex(self.colours()[i]),
    {
        let r = [
            rgb_to_hex(self.background),
            rgb_to_hex(self.text),
            rgb_to_hex(self.primary),
            rgb_to_hex(self.success),
            rgb_to_hex(self.warning),
            rgb_to_hex(self.danger),
        ];
        r
    }

    /// Sets colour `index` (editor order) from a hex string. Returns
    /// `false`, leaving the palette unchanged, when the string is not a
    /// colour or the index is out of range.
    pub fn set_hex(&mut self, index: usize, value: &str) -> (ok: bool)
        requires
            parse_hex_slices_on_boundaries(value@),
        ensures
            ok == (spec_parse_hex(value@) is Some && index < 6),
            ok ==> final(self).colours()[index as int]@ == spec_parse_hex(value@)->0,
            ok ==> forall|i: int|
                0 <= i < 6 && i != index ==> (#[trigger] final(self).colours()[i]) == old(self).colours()[i],
            !ok ==> *final(self) == *old(self),
    {
        let rgb = match parse_hex(value) {
            Some(rgb) => rgb,
            None => {
                return false;
            },
        };
        match index {
            0 => self.background = rgb,
            1 => self.text = rgb,
            2 => self.primary = rgb,
            3 => self.success = rgb,
            4 => self.warning = rgb,
            5 => self.danger = rgb,
            _ => {
                return false;
            },
        }
        true
    }
}

/// `#RRGGBB`, upper-case hex.
pub open spec fn spec_rgb_to_hex(rgb: [u8; 3]) -> Seq<char> {
    seq![
        '#',
        hex_upper(rgb@[0] / 16), hex_upper(rgb@[0] % 16),
        hex_upper(rgb@[1] / 16), hex_upper(rgb@[1] % 16),
        hex_upper(rgb@[2] / 16), hex_upper(rgb@[2] % 16),
    ]
}

/// Formats a colour as `#RRGGBB`, upper-case hex.
pub fn rgb_to_hex(rgb: [u8; 3]) -> (s: String)
    ensures
        s@ == spec_rgb_to_hex(rgb),
{
    let mut s = String::new();
    push_char(&mut s, '#');
    for i in 0..3
        invariant
            s@.len() == 1 + 2 * i,
            s@[0] == '#',
            forall|j: int| 0 <= j < i ==> s@[1 + 2 * j] == hex_upper(rgb@[j] / 16) && s@[2 + 2 * j] == hex_upper(rgb@[j] % 16),
    {
        push_char(&mut s, hex_upper_exec(rgb[i] / 16));
        push_char(&mut s, hex_upper_exec(rgb[i] % 16));
    }
    assert(s@ =~= spec_rgb_to_hex(rgb));
    s
}

/// `u8::from_str_radix(s, 16)` on a two-character string `ab`: an optional
/// `+` sign followed by hex digits.
pub open spec fn spec_hex_pair(a: char, b: char) -> Option<u8> {
    if a == '+' {
        if is_ascii_hexdigit(b) {
            Some(hex_value(b))
        } else {
            None
        }
    } else if is_ascii_hexdigit(a) && is_ascii_hexdigit(b) {
        Some((16 * hex_value(a) + hex_value(b)) as u8)
    } else {
        None
    }
}

/// The trimmed value without one leading `#`.
pub open spec fn hex_body(value: Seq<char>) -> Seq<char> {
    let t = trim(value);
    if t.len() > 0 && t[0] == '#' {
        t.drop_first()
    } else {
        t
    }
}

/// The colour a hex string denotes: `#RRGGBB` or `RRGGBB`, surrounding
/// white space ignored, each pair read by `u8::from_str_radix(_, 16)`.
pub open spec fn spec_parse_hex(value: Seq<char>) -> Option<Seq<u8>> {
    let v = hex_body(value);
    if v.len() != 6 {
        None
    } else {
        match (spec_hex_pair(v[0], v[1]), spec_hex_pair(v[2], v[3]), spec_hex_pair(v[4], v[5])) {
            (Some(r), Some(g), Some(b)) => Some(seq![r, g, b]),
            _ => None,
        }
    }
}

/// The hex body is cut at bytes 2 and 4 of its UTF-8 form; when it is six
/// bytes long those cuts must fall on character boundaries (a cut inside a
/// character is a panic of `str` slicing, so such inputs are excluded).
pub open spec fn parse_hex_slices_on_boundaries(value: Seq<char>) -> bool {
    let b = encode_utf8(hex_body(value));
    b.len() == 6 ==> is_char_boundary(b, 2) && is_char_boundary(b, 4)
}

fn hex_value_exec(c: char) -> (v: u8)
    requires
        is_ascii_hexdigit(c),
    ensures
        v == hex_value(c),
{
    let n = c as u32;
    if '0' <= c && c <= '9' {
        (n - 48) as u8
    } else if 'a' <= c && c <= 'f' {
        (n - 87) as u8
    } else {
        (n - 55) as u8
    }
}

fn hex_pair(a: char, b: char) -> (r: Option<u8>)
    ensures
        r == spec_hex_pair(a, b),
{
    if a == '+' {
        if char_is_ascii_hexdigit(b) {
            Some(hex_value_exec(b))
        } else {
            None
        }
    } else if char_is_ascii_hexdigit(a) && char_is_ascii_hexdigit(b) {
        Some(16 * hex_value_exec(a) + hex_value_exec(b))
    } else {
        None
    }
}

/// Parses `#RRGGBB` or `RRGGBB` (surrounding white space ignored).
pub fn parse_hex(value: &str) -> (r: Option<[u8; 3]>)
    requires
        parse_hex_slices_on_boundaries(value@),
    ensures
        match r {
            Some(rgb) => spec_parse_hex(value@) == Some(rgb@),
            None => spec_parse_hex(value@) is None,
        },
{
    let all = chars_of(value);
    let t = trimmed(&all);
    let v = if t.len() > 0 && t[0] == '#' {
        vstd::slice::slice_subrange(t.as_slice(), 1, t.len())
    } else {
        t.as_slice()
    };
    assert(v@ == hex_body(value@)) by {
        if t@.len() > 0 && t@[0] == '#' {
            assert(t@.subrange(1, t@.len() as int) =~= t@.drop_first());
        }
    }
    if v.len() != 6 {
        return None;
    }
    let r = match hex_pair(v[0], v[1]) {
        Some(r) => r,
        None => {
            return None;
        },
    };
    let g = match hex_pair(v[2], v[3]) {
        Some(g) => g,
        None => {
            return None;
        },
    };
    let b = match hex_pair(v[4], v[5]) {
        Some(b) => b,
        None => {
            return None;
        },
    };
    let rgb = [r, g, b];
    assert(rgb@ =~= seq![r, g, b]);
    Some(rgb)
}

// ───────────────────────────── Theme choice ─────────────────────────────

/// Number of themes a user may pick: the built-ins and the Fusion pair.
pub const THEME_COUNT: usize = 24;

/// Display name of the theme at position `i` of the picker's list.
pub open spec fn spec_theme_name_at(i: int) -> Seq<char> {
    if i < BUILTIN_COUNT {
        spec_builtin_theme_name(i as usize)
    } else if i == BUILTIN_COUNT {
        FUSION_BLACK@
    } else {
        FUSION_WHITE@
    }
}

/// `t` is the theme at position `i` of the picker's list: the built-ins in
/// the toolkit's order, then Fusion Black, then Fusion White.
pub open spec fn is_theme_at(t: Theme, i: int) -> bool {
    if i < BUILTIN_COUNT {
        t == Theme::Builtin(BuiltinTheme::spec_from_index(i))
    } else if i == BUILTIN_COUNT {
        t matches Theme::Custom { name, palette } && name@ == FUSION_BLACK@ && is_fusion_black_palette(palette)
    } else {
        t matches Theme::Custom { name, palette } && name@ == FUSION_WHITE@ && is_fusion_white_palette(palette)
    }
}

/// The theme at position `i` of the picker's list.
pub fn theme_at(i: usize) -> (t: Theme)
    requires
        i < THEME_COUNT,
    ensures
        is_theme_at(t, i as int),
        t.spec_name() == spec_theme_name_at(i as int),
{
    if i < BUILTIN_COUNT {
        Theme::Builtin(BuiltinTheme::from_index(i))
    } else if i == BUILTIN_COUNT {
        fusion_black()
    } else {
        fusion_white()
    }
}

fn theme_name_at(i: usize) -> (n: String)
    requires
        i < THEME_COUNT,
    ensures
        n@ == spec_theme_name_at(i as int),
{
    theme_at(i).name()
}

/// Every theme the user may pick: the toolkit's built-ins followed by the
/// Fusion pair.
pub fn all_themes() -> (v: Vec<Theme>)
    ensures
        v@.len() == THEME_COUNT,
        forall|i: int| 0 <= i < THEME_COUNT ==> is_theme_at(#[trigger] v@[i], i),
{
    let mut v: Vec<Theme> = Vec::new();
    for i in 0..THEME_COUNT
        invariant
            v@.len() == i,
            forall|j: int| 0 <= j < i ==> is_theme_at(#[trigger] v@[j], j),
    {
        v.push(theme_at(i));
    }
    v
}

/// Position of the first theme named `name` at or after position `i`.
pub open spec fn first_named_from(name: Seq<char>, i: int) -> Option<int>
    decreases THEME_COUNT - i,
{
    if i < 0 || i >= THEME_COUNT {
        None
    } else if spec_theme_name_at(i) == name {
        Some(i)
    } else {
        first_named_from(name, i + 1)
    }
}

/// Position of the first theme of the picker's list named `name`.
pub open spec fn first_named(name: Seq<char>) -> Option<int> {
    first_named_from(name, 0)
}

/// The first theme of the picker's list whose display name is `name`.
pub fn builtin_theme(name: &str) -> (r: Option<Theme>)
    ensures
        match r {
            Some(t) => first_named(name@) matches Some(i) && is_theme_at(t, i),
            None => first_named(name@) is None,
        },
{
    let wanted = chars_of(name);
    for i in 0..THEME_COUNT
        invariant
            wanted@ == name@,
            first_named(name@) == first_named_from(name@, i as int),
    {
        let n = theme_name_at(i);
        if seq_eq(&chars_of(n.as_str()), &wanted) {
            return Some(theme_at(i));
        }
    }
    None
}

/// A character that the theme-name normalisation keeps.
pub open spec fn kept_in_theme_key(c: char) -> bool {
    !is_white_space(c) && c != '_' && c != '-'
}

/// `s` without white space, `_` and `-`, upper-cased as
/// `char::to_uppercase` does (ASCII letters to `A..=Z`).
pub open spec fn theme_key(s: Seq<char>) -> Seq<char>
    decreases s.len(),
{
    if s.len() == 0 {
        Seq::empty()
    } else {
        theme_key(s.drop_last()) + if kept_in_theme_key(s.last()) {
            upper_chars(s.last())
        } else {
            Seq::empty()
        }
    }
}

/// The normalised keywords and the picker position of the theme each names.
pub open spec fn theme_keywords() -> Seq<(Seq<char>, int)> {
    seq![
        ("DARK"@, 1), ("LIGHT"@, 0), ("DRACULA"@, 2), ("NORD"@, 3),
        ("SOLARIZEDLIGHT"@, 4), ("SOLARIZEDDARK"@, 5), ("GRUVBOXLIGHT"@, 6), ("GRUVBOXDARK"@, 7),
        ("TOKYONIGHT"@, 12), ("TOKYONIGHTSTORM"@, 13), ("TOKYONIGHTLIGHT"@, 14),
        ("KANAGAWAWAVE"@, 15), ("KANAGAWADRAGON"@, 16), ("KANAGAWALOTUS"@, 17),
        ("MOONFLY"@, 18), ("NIGHTFLY"@, 19), ("OXOCARBON"@, 20), ("FERRA"@, 21),
        ("FUSIONBLACK"@, 22), ("FUSIONWHITE"@, 23),
    ]
}

fn theme_keywords_exec() -> (v: Vec<(&'static str, usize)>)
    ensures
        v@.len() == theme_keywords().len(),
        forall|j: int| 0 <= j < v@.len() ==> (#[trigger] v@[j]).0@ == theme_keywords()[j].0 && v@[j].1 == theme_keywords()[j].1,
{
    let v = vec![
        ("DARK", 1), ("LIGHT", 0), ("DRACULA", 2), ("NORD", 3),
        ("SOLARIZEDLIGHT", 4), ("SOLARIZEDDARK", 5), ("GRUVBOXLIGHT", 6), ("GRUVBOXDARK", 7),
        ("TOKYONIGHT", 12), ("TOKYONIGHTSTORM", 13), ("TOKYONIGHTLIGHT", 14),
        ("KANAGAWAWAVE", 15), ("KANAGAWADRAGON", 16), ("KANAGAWALOTUS", 17),
        ("MOONFLY", 18), ("NIGHTFLY", 19), ("OXOCARBON", 20), ("FERRA", 21),
        ("FUSIONBLACK", 22), ("FUSIONWHITE", 23),
    ];
    v
}

/// Parses a flexible theme name: white space, `_` and `-` are ignored and
/// case does not matter (`"tokyo-night-storm"` is Tokyo Night Storm).
pub fn parse_theme_name(s: &str) -> (r: Option<Theme>)
    ensures
        match r {
            Some(t) => exists|j: int|
                0 <= j < theme_keywords().len() && #[trigger] theme_keywords()[j].0 == theme_key(s@)
                    && is_theme_at(t, theme_keywords()[j].1),
            None => forall|j: int| 0 <= j < theme_keywords().len() ==> #[trigger] theme_keywords()[j].0 != theme_key(s@),
        },
{
    let cs = chars_of(s);
    let mut key: Vec<char> = Vec::new();
    for i in 0..cs.len()
        invariant
            cs@ == s@,
            key@ == theme_key(s@.take(i as int)),
    {
        let c = cs[i];
        assert(s@.take(i + 1).drop_last() == s@.take(i as int));
        if !char_is_white_space(c) && c != '_' && c != '-' {
            let mut up = char_to_uppercase(c);
            let ghost before = key@;
            key.append(&mut up);
            assert(key@ == before + upper_chars(c));
        } else {
            assert(theme_key(s@.take(i + 1)) =~= theme_key(s@.take(i as int)));
        }
    }
    assert(s@.take(s@.len() as int) == s@);
    let kws = theme_keywords_exec();
    for j in 0..kws.len()
        invariant
            key@ == theme_key(s@),
            kws@.len() == theme_keywords().len(),
            forall|q: int| 0 <= q < kws@.len() ==> (#[trigger] kws@[q]).0@ == theme_keywords()[q].0 && kws@[q].1 == theme_keywords()[q].1,
            forall|q: int| 0 <= q < j ==> #[trigger] theme_keywords()[q].0 != theme_key(s@),
    {
        let (word, index) = kws[j];
        if seq_eq(&key, &chars_of(word)) {
            assert(theme_keywords()[j as int].0 == theme_key(s@));
            return Some(theme_at(index));
        }
    }
    None
}

/// The canvas a built-in theme asks for, for the built-ins that name one.
pub open spec fn builtin_canvas(b: BuiltinTheme) -> Option<Seq<u8>> {
    match b {
        BuiltinTheme::Light => Some(seq![255u8, 255, 255]),
        BuiltinTheme::SolarizedLight => Some(seq![253u8, 246, 227]),
        BuiltinTheme::GruvboxLight => Some(seq![251u8, 241, 199]),
        BuiltinTheme::TokyoNightLight => Some(seq![225u8, 226, 231]),
        BuiltinTheme::KanagawaLotus => Some(seq![242u8, 236, 222]),
        BuiltinTheme::Dark => Some(seq![32u8, 34, 37]),
        BuiltinTheme::Dracula => Some(seq![40u8, 42, 54]),
        BuiltinTheme::Nord => Some(seq![46u8, 52, 64]),
        BuiltinTheme::SolarizedDark => Some(seq![0u8, 43, 54]),
        BuiltinTheme::GruvboxDark => Some(seq![40u8, 40, 40]),
        BuiltinTheme::TokyoNight => Some(seq![26u8, 27, 38]),
        BuiltinTheme::TokyoNightStorm => Some(seq![36u8, 40, 59]),
        BuiltinTheme::KanagawaWave => Some(seq![31u8, 31, 40]),
        BuiltinTheme::KanagawaDragon => Some(seq![24u8, 26, 28]),
        BuiltinTheme::Moonfly => Some(seq![8u8, 18, 24]),
        BuiltinTheme::Nightfly => Some(seq![1u8, 22, 39]),
        BuiltinTheme::Oxocarbon => Some(seq![22u8, 22, 22]),
        BuiltinTheme::Ferra => Some(seq![43u8, 41, 46]),
        _ => None,
    }
}

/// The default model-space canvas of a theme: the colour a built-in theme
/// names, else the Fusion canvas, else the theme's palette background.
pub open spec fn spec_theme_canvas_background(theme: Theme, palette_background: Seq<u8>) -> Seq<u8> {
    match theme {
        Theme::Builtin(b) if builtin_canvas(b) is Some => builtin_canvas(b)->0,
        _ => match spec_fusion_canvas(theme.spec_name()) {
            Some(c) => c,
            None => palette_background,
        },
    }
}

/// Default canvas background for a theme. `palette_background` is the
/// theme's base background colour, used when neither the theme itself nor
/// the Fusion pair names a canvas.
pub fn theme_canvas_background(theme: &Theme, palette_background: [u8; 3]) -> (c: [u8; 3])
    ensures
        c@ == spec_theme_canvas_background(*theme, palette_background@),
{
    let named: Option<[u8; 3]> = match theme {
        Theme::Builtin(b) => match b {
            BuiltinTheme::Light => Some([255, 255, 255]),
            BuiltinTheme::SolarizedLight => Some([253, 246, 227]),
            BuiltinTheme::GruvboxLight => Some([251, 241, 199]),
            BuiltinTheme::TokyoNightLight => Some([225, 226, 231]),
            BuiltinTheme::KanagawaLotus => Some([242, 236, 222]),
            BuiltinTheme::Dark => Some([32, 34, 37]),
            BuiltinTheme::Dracula => Some([40, 42, 54]),
            BuiltinTheme::Nord => Some([46, 52, 64]),
            BuiltinTheme::SolarizedDark => Some([0, 43, 54]),
            BuiltinTheme::GruvboxDark => Some([40, 40, 40]),
            BuiltinTheme::TokyoNight => Some([26, 27, 38]),
            BuiltinTheme::TokyoNightStorm => Some([36, 40, 59]),
            BuiltinTheme::KanagawaWave => Some([31, 31, 40]),
            BuiltinTheme::KanagawaDragon => Some([24, 26, 28]),
            BuiltinTheme::Moonfly => Some([8, 18, 24]),
            BuiltinTheme::Nightfly => Some([1, 22, 39]),
            BuiltinTheme::Oxocarbon => Some([22, 22, 22]),
            BuiltinTheme::Ferra => Some([43, 41, 46]),
            _ => None,
        },
        Theme::Custom { .. } => None,
    };
    match named {
        Some(c) => {
            assert(Some(c@) == builtin_canvas(theme->Builtin_0));
            c
        },
        None => {
            assert(!(*theme matches Theme::Builtin(b) && builtin_canvas(b) is Some));
            match fusion_canvas(theme) {
                Some(c) => c,
                None => palette_background,
            }
        },
    }
}

// ───────────────────────────── UI theme section ─────────────────────────────

impl Default for UiThemePalette {
    /// The colours of the default theme, Fusion White: a partial palette is
    /// completed with light colours, not dark ones.
    fn default() -> (p: Self)
        ensures
            is_fusion_white_palette(p),
    {
        fusion_white_palette()
    }
}

/// The UI theme selection and the six base colours of a custom theme.
#[derive(Clone, Debug, PartialEq)]
pub struct UiThemeConfig {
    pub name: String,
    pub palette: UiThemePalette,
}

impl UiThemeConfig {
    /// The default section: the light Fusion White theme, with its colours.
    pub open spec fn is_default(self) -> bool {
        self.name@ == FUSION_WHITE@ && is_fusion_white_palette(self.palette)
    }

    /// The theme this section selects: the custom palette under the name
    /// `Custom`, else the first theme of the picker's list with this name,
    /// else Fusion White (an unknown name never falls back to a dark theme).
    pub fn to_theme(&self) -> (t: Theme)
        ensures
            self.name@ == "Custom"@ ==> (t matches Theme::Custom { name, palette } && name@ == "Custom"@ && palette == self.palette),
            self.name@ != "Custom"@ ==> match first_named(self.name@) {
                Some(i) => is_theme_at(t, i),
                None => is_theme_at(t, THEME_COUNT - 1),
            },
    {
        let custom = chars_of("Custom");
        if seq_eq(&chars_of(self.name.as_str()), &custom) {
            Theme::Custom { name: string_from_chars(&custom), palette: self.palette }
        } else {
            match builtin_theme(self.name.as_str()) {
                Some(t) => t,
                None => fusion_white(),
            }
        }
    }
}

impl Default for UiThemeConfig {
    /// The light Fusion White theme: the module is framed by a light page.
    fn default() -> (c: Self)
        ensures
            c.is_default(),
    {
        UiThemeConfig { name: string_from_chars(&chars_of(FUSION_WHITE)), palette: fusion_white_palette() }
    }
}

// ───────────────────────────── Model space section ─────────────────────────────

/// Canvas mode for model space.
#[derive(Clone, Copy, PartialEq, Eq, Structural, Debug)]
pub enum ModelSpaceMode {
    /// The canvas follows the active UI theme.
    MatchTheme,
    /// The classic CAD dark charcoal canvas, whatever the UI theme.
    ClassicDark,
    /// Colours chosen by the user.
    Custom,
}

impl Default for ModelSpaceMode {
    fn default() -> (m: Self)
        ensures
            m == ModelSpaceMode::MatchTheme,
    {
        ModelSpaceMode::MatchTheme
    }
}

impl ModelSpaceMode {
    /// Every mode, in the order a picker shows them.
    pub const ALL: [ModelSpaceMode; 3] = [ModelSpaceMode::MatchTheme, ModelSpaceMode::ClassicDark, ModelSpaceMode::Custom];

    /// The mode's label.
    pub open spec fn spec_label(self) -> Seq<char> {
        match self {
            ModelSpaceMode::MatchTheme => "Match Theme"@,
            ModelSpaceMode::ClassicDark => "Classic CAD Dark"@,
            ModelSpaceMode::Custom => "Custom"@,
        }
    }

    /// The mode's label.
    pub fn label(self) -> (l: &'static str)
        ensures
            l@ == self.spec_label(),
    {
        match self {
            ModelSpaceMode::MatchTheme => "Match Theme",
            ModelSpaceMode::ClassicDark => "Classic CAD Dark",
            ModelSpaceMode::Custom => "Custom",
        }
    }
}

/// Classic CAD dark charcoal background.
pub const CLASSIC_CAD_DARK_BG: [u8; 3] = [33, 40, 48];

/// Paper space sheet background.
pub const DEFAULT_PAPER_BG: [u8; 3] = [255, 255, 255];

/// Paper space desk surround.
pub const DEFAULT_DESK_BG: [u8; 3] = [138, 138, 138];

/// Model space appearance and selection visual effects.
#[derive(Clone, Copy, Debug, PartialEq)]
pub struct ModelSpaceThemeConfig {
    /// How the canvas background is determined.
    pub mode: ModelSpaceMode,
    /// Custom model space canvas background.
    pub custom_bg: Option<[u8; 3]>,
    /// Custom paper space sheet background.
    pub custom_paper_bg: Option<[u8; 3]>,
    /// Custom paper space desk background.
    pub custom_desk_bg: Option<[u8; 3]>,
    /// Grid opacity percentage.
    pub grid_opacity: u8,
    /// Whether selection marquees have a translucent fill.
    pub selection_area: bool,
    /// Transparency percentage of selection areas.
    pub selection_opacity: u8,
    /// Window selection colour (ACI; 0 = theme primary).
    pub selection_window_color: u8,
    /// Crossing selection colour (ACI; 0 = theme success).
    pub selection_crossing_color: u8,
    /// Highlight colour of selected entities (ACI; 0 = theme primary).
    pub selection_highlight_color: u8,
    /// Whether selected objects glow (true) or dash (false).
    pub selection_effect: bool,
    /// Selection preview bitmask: 1 = idle, 2 = during a command.
    pub selection_preview: u8,
    /// Grip marker half-size in pixels.
    pub grip_size: u8,
    /// Unselected grip colour (ACI; 0 = theme primary outline).
    pub grip_color: u8,
    /// Hot grip colour (ACI; 0 = theme danger).
    pub grip_hot: u8,
    /// Hovered grip colour (ACI; 0 = theme primary strong).
    pub grip_hover: u8,
}

impl ModelSpaceThemeConfig {
    /// The default appearance.
    pub open spec fn is_default(self) -> bool {
        &&& self.mode == ModelSpaceMode::MatchTheme
        &&& self.custom_bg is None
        &&& self.custom_paper_bg is None
        &&& self.custom_desk_bg is None
        &&& self.grid_opacity == 18
        &&& self.selection_area
        &&& self.selection_opacity == 12
        &&& self.selection_window_color == 0
        &&& self.selection_crossing_color == 0
        &&& self.selection_highlight_color == 0
        &&& self.selection_effect
        &&& self.selection_preview == 3
        &&& self.grip_size == 5
        &&& self.grip_color == 0
        &&& self.grip_hot == 0
        &&& self.grip_hover == 0
    }

    /// The model-space canvas colour: the theme's canvas when following the
    /// theme, the classic dark charcoal, or the custom colour (the classic
    /// dark charcoal when none is set).
    pub open spec fn spec_model_rgb(self, theme_canvas: Seq<u8>) -> Seq<u8> {
        match self.mode {
            ModelSpaceMode::MatchTheme => theme_canvas,
            ModelSpaceMode::ClassicDark => seq![33u8, 40, 48],
            ModelSpaceMode::Custom => match self.custom_bg {
                Some(c) => c@,
                None => seq![33u8, 40, 48],
            },
        }
    }

    /// The model-space canvas colour; `theme_canvas` is the canvas of the
    /// active theme.
    pub fn resolve_model_rgb(&self, theme_canvas: [u8; 3]) -> (c: [u8; 3])
        ensures
            c@ == self.spec_model_rgb(theme_canvas@),
    {
        let c = match self.mode {
            ModelSpaceMode::MatchTheme => theme_canvas,
            ModelSpaceMode::ClassicDark => CLASSIC_CAD_DARK_BG,
            ModelSpaceMode::Custom => match self.custom_bg {
                Some(c) => c,
                None => CLASSIC_CAD_DARK_BG,
            },
        };
        assert(CLASSIC_CAD_DARK_BG@ =~= seq![33u8, 40, 48]);
        c
    }

    /// The paper space sheet colour: the custom one, else white.
    pub fn resolve_paper_rgb(&self) -> (c: [u8; 3])
        ensures
            c@ == match self.custom_paper_bg {
                Some(p) => p@,
                None => seq![255u8, 255, 255],
            },
    {
        let c = match self.custom_paper_bg {
            Some(p) => p,
            None => DEFAULT_PAPER_BG,
        };
        assert(DEFAULT_PAPER_BG@ =~= seq![255u8, 255, 255]);
        c
    }

    /// The paper space desk colour: the custom one, else mid grey.
    pub fn resolve_desk_rgb(&self) -> (c: [u8; 3])
        ensures
            c@ == match self.custom_desk_bg {
                Some(d) => d@,
                None => seq![138u8, 138, 138],
            },
    {
        let c = match self.custom_desk_bg {
            Some(d) => d,
            None => DEFAULT_DESK_BG,
        };
        assert(DEFAULT_DESK_BG@ =~= seq![138u8, 138, 138]);
        c
    }

    /// The highlight colour of selected entities when an ACI colour is set
    /// and known; `None` means the theme's selection colour.
    pub fn resolve_selection_rgb(&self) -> (c: Option<[u8; 3]>)
        ensures
            self.selection_highlight_color == 0 ==> c is None,
            self.selection_highlight_color != 0 ==> (c matches Some(rgb) && rgb@ == seq![
                spec_aci_to_rgb(self.selection_highlight_color).0,
                spec_aci_to_rgb(self.selection_highlight_color).1,
                spec_aci_to_rgb(self.selection_highlight_color).2,
            ]),
    {
        if self.selection_highlight_color == 0 {
            None
        } else {
            match aci_to_rgb(self.selection_highlight_color) {
                Some((r, g, b)) => {
                    let c = [r, g, b];
                    assert(c@ =~= seq![r, g, b]);
                    Some(c)
                },
                None => None,
            }
        }
    }
}

/// The colour of an ACI index in the standard ACI table.
pub uninterp spec fn spec_aci_to_rgb(index: u8) -> (u8, u8, u8);

/// Calls `acadrust::types::aci_table::aci_to_rgb`, which gives `None` for
/// index 0 (by layer) and the table entry for every other index.
#[verifier::external_body]
fn aci_to_rgb(index: u8) -> (r: Option<(u8, u8, u8)>)
    ensures
        index == 0 ==> r is None,
        index != 0 ==> r == Some(spec_aci_to_rgb(index)),
{
    acadrust::types::aci_table::aci_to_rgb(index)
}

impl Default for ModelSpaceThemeConfig {
    fn default() -> (c: Self)
        ensures
            c.is_default(),
    {
        ModelSpaceThemeConfig {
            mode: ModelSpaceMode::MatchTheme,
            custom_bg: None,
            custom_paper_bg: None,
            custom_desk_bg: None,
            grid_opacity: 18,
            selection_area: true,
            selection_opacity: 12,
            selection_window_color: 0,
            selection_crossing_color: 0,
            selection_highlight_color: 0,
            selection_effect: true,
            selection_preview: 3,
            grip_size: 5,
            grip_color: 0,
            grip_hot: 0,
            grip_hover: 0,
        }
    }
}

// ───────────────────────────── Other sections ─────────────────────────────

/// Side of the window a docked panel sits on.
#[derive(Clone, Copy, Debug, PartialEq, Eq, Structural)]
pub enum DockSide {
    Left,
    Right,
}

/// The recent-files list and how many entries it keeps.
#[derive(Clone, Debug, PartialEq)]
pub struct RecentConfig {
    /// Recently opened file paths, newest first.
    pub files: Vec<String>,
    /// How many recent files to keep.
    pub limit: usize,
}

/// The complete editable keyboard shortcut table: command to key binding.
#[derive(Clone, Debug, PartialEq)]
pub struct ShortcutConfig {
    pub bindings: std::collections::BTreeMap<String, String>,
}

// ───────────────────────────── The whole configuration ─────────────────────────────

/// Latest known migration. A new configuration carries it from the start:
/// it has nothing to migrate.
pub const CONSTRUCTO_MIGRATION: u32 = 1;

/// The former default theme, dark: the one a configuration written before
/// the migration counter carries when nobody ever chose a theme, and the
/// only value the migration may legitimately replace.
pub const THEME_PAR_DEFAUT_AMONT: &'static str = "Oxocarbon";

/// The persisted configuration, grouped into sections.
#[derive(Clone, Debug, PartialEq)]
pub struct AppConfig {
    /// UI theme selection and the six base colours of a custom theme.
    pub theme: UiThemeConfig,
    /// Add a newly selected annotation scale to existing annotative objects.
    pub annotation_auto_scale: i8,
    /// Model space background, grid and selection appearance.
    pub model_space: ModelSpaceThemeConfig,
    /// Number of the last migration applied to this configuration; a
    /// configuration written before the counter existed reads as 0.
    pub constructo_migration: u32,
    /// The recent-files list, when the stored configuration holds one;
    /// `None` leaves the application's own default list in place.
    pub recent: Option<RecentConfig>,
    /// The keyboard shortcut table, when the stored configuration holds
    /// one; `None` leaves the application's default bindings in place.
    pub shortcuts: Option<ShortcutConfig>,
}

impl AppConfig {
    /// The default configuration.
    pub open spec fn is_default(self) -> bool {
        &&& self.theme.is_default()
        &&& self.annotation_auto_scale == -4
        &&& self.model_space.is_default()
        &&& self.constructo_migration == CONSTRUCTO_MIGRATION
        &&& self.recent is None
        &&& self.shortcuts is None
    }

    /// `after` is `before` brought up to date: a configuration never
    /// migrated (counter below the current migration) that still carries
    /// the former default theme gets the default theme
    /// section; every other section is kept; the counter is raised to the
    /// current migration and never lowered.
    pub open spec fn migrated(before: AppConfig, after: AppConfig) -> bool {
        &&& if before.constructo_migration < CONSTRUCTO_MIGRATION && before.theme.name@ == THEME_PAR_DEFAUT_AMONT@ {
            after.theme.is_default()
        } else {
            after.theme.name@ == before.theme.name@ && after.theme.palette == before.theme.palette
        }
        &&& after.annotation_auto_scale == before.annotation_auto_scale
        &&& after.model_space == before.model_space
        &&& after.recent == before.recent
        &&& after.shortcuts == before.shortcuts
        &&& after.constructo_migration == if before.constructo_migration < CONSTRUCTO_MIGRATION {
            CONSTRUCTO_MIGRATION
        } else {
            before.constructo_migration
        }
    }

    /// Two configurations that hold the same values.
    pub open spec fn same_values(a: AppConfig, b: AppConfig) -> bool {
        &&& a.theme.name@ == b.theme.name@
        &&& a.theme.palette == b.theme.palette
        &&& a.annotation_auto_scale == b.annotation_auto_scale
        &&& a.model_space == b.model_space
        &&& a.constructo_migration == b.constructo_migration
        &&& a.recent == b.recent
        &&& a.shortcuts == b.shortcuts
    }

    /// Brings a configuration written before the migration counter existed
    /// up to date (see `migrated`).
    pub fn migrer_constructo(&mut self)
        ensures
            AppConfig::migrated(*old(self), *final(self)),
    {
        let amont = chars_of(THEME_PAR_DEFAUT_AMONT);
        if self.constructo_migration < CONSTRUCTO_MIGRATION && seq_eq(&chars_of(self.theme.name.as_str()), &amont) {
            self.theme = UiThemeConfig::default();
        }
        if self.constructo_migration < CONSTRUCTO_MIGRATION {
            self.constructo_migration = CONSTRUCTO_MIGRATION;
        }
    }

    /// The configuration at start-up: what was read (`None` when nothing was
    /// stored or it could not be read), else the defaults, then migrated.
    pub fn depuis_config_lue(lue: Option<AppConfig>) -> (c: AppConfig)
        ensures
            match lue {
                Some(l) => AppConfig::migrated(l, c),
                None => c.is_default(),
            },
    {
        let mut config = match lue {
            Some(l) => l,
            None => AppConfig::default(),
        };
        config.migrer_constructo();
        config
    }
}

impl Default for AppConfig {
    fn default() -> (c: Self)
        ensures
            c.is_default(),
    {
        AppConfig {
            theme: UiThemeConfig::default(),
            annotation_auto_scale: -4,
            model_space: ModelSpaceThemeConfig::default(),
            constructo_migration: CONSTRUCTO_MIGRATION,
            recent: None,
            shortcuts: None,
        }
    }
}

// ───────────────────────────── Laws ─────────────────────────────

/// Reading back a colour written as `#RRGGBB` gives the colour written, and
/// the written form can be read without a slicing panic.
pub proof fn law_hex_round_trip(rgb: [u8; 3])
    ensures
        parse_hex_slices_on_boundaries(spec_rgb_to_hex(rgb)),
        spec_parse_hex(spec_rgb_to_hex(rgb)) == Some(rgb@),
{
    let s = spec_rgb_to_hex(rgb);
    lemma_hex_digit_round_trip(rgb@[0] / 16);
    lemma_hex_digit_round_trip(rgb@[0] % 16);
    lemma_hex_digit_round_trip(rgb@[1] / 16);
    lemma_hex_digit_round_trip(rgb@[1] % 16);
    lemma_hex_digit_round_trip(rgb@[2] / 16);
    lemma_hex_digit_round_trip(rgb@[2] % 16);
    assert(trim_start(s) == s);
    assert(trim_end(s) == s);
    let body = s.drop_first();
    assert(hex_body(s) == body);
    assert(all_ascii(body));
    lemma_ascii_char_boundaries(body);
    assert(spec_hex_pair(body[0], body[1]) == Some(rgb@[0]));
    assert(spec_hex_pair(body[2], body[3]) == Some(rgb@[1]));
    assert(spec_hex_pair(body[4], body[5]) == Some(rgb@[2]));
    assert(seq![rgb@[0], rgb@[1], rgb@[2]] =~= rgb@);
}

/// `char::to_ascii_lowercase`.
pub open spec fn ascii_lower(c: char) -> char {
    if 'A' <= c && c <= 'Z' {
        (c as u32 + 32) as char
    } else {
        c
    }
}

proof fn lemma_parse_hex_body(v: Seq<char>, rgb: [u8; 3])
    requires
        hex_body(v).len() == 6,
        forall|i: int| 0 <= i < 6 ==> is_ascii_hexdigit(#[trigger] hex_body(v)[i]),
        16 * hex_value(hex_body(v)[0]) + hex_value(hex_body(v)[1]) == rgb@[0],
        16 * hex_value(hex_body(v)[2]) + hex_value(hex_body(v)[3]) == rgb@[1],
        16 * hex_value(hex_body(v)[4]) + hex_value(hex_body(v)[5]) == rgb@[2],
    ensures
        parse_hex_slices_on_boundaries(v),
        spec_parse_hex(v) == Some(rgb@),
{
    let body = hex_body(v);
    assert(all_ascii(body)) by {
        assert forall|i: int| 0 <= i < body.len() implies (#[trigger] body[i] as u32) < 128 by {
            assert(is_ascii_hexdigit(body[i]));
        }
    }
    lemma_ascii_char_boundaries(body);
    assert(is_ascii_hexdigit(body[0]) && is_ascii_hexdigit(body[2]) && is_ascii_hexdigit(body[4]));
    assert(seq![rgb@[0], rgb@[1], rgb@[2]] =~= rgb@);
}

/// A written colour reads back in every form the reader accepts: without
/// its `#`, in lower case, and surrounded by white space.
pub proof fn law_hex_round_trip_forms(rgb: [u8; 3])
    ensures
        spec_parse_hex(spec_rgb_to_hex(rgb).drop_first()) == Some(rgb@),
        parse_hex_slices_on_boundaries(spec_rgb_to_hex(rgb).drop_first()),
        spec_parse_hex(spec_rgb_to_hex(rgb).map_values(|c: char| ascii_lower(c))) == Some(rgb@),
        parse_hex_slices_on_boundaries(spec_rgb_to_hex(rgb).map_values(|c: char| ascii_lower(c))),
        spec_parse_hex(seq![' ', ' '] + spec_rgb_to_hex(rgb) + seq!['\t']) == Some(rgb@),
        parse_hex_slices_on_boundaries(seq![' ', ' '] + spec_rgb_to_hex(rgb) + seq!['\t']),
{
    let h = spec_rgb_to_hex(rgb);
    lemma_hex_digit_round_trip(rgb@[0] / 16);
    lemma_hex_digit_round_trip(rgb@[0] % 16);
    lemma_hex_digit_round_trip(rgb@[1] / 16);
    lemma_hex_digit_round_trip(rgb@[1] % 16);
    lemma_hex_digit_round_trip(rgb@[2] / 16);
    lemma_hex_digit_round_trip(rgb@[2] % 16);
    // Without the `#`.
    let bare = h.drop_first();
    assert(trim_start(bare) == bare);
    assert(trim_end(bare) == bare);
    assert(hex_body(bare) == bare);
    lemma_parse_hex_body(bare, rgb);
    // In lower case.
    let lower = h.map_values(|c: char| ascii_lower(c));
    assert forall|i: int| 1 <= i < 7 implies is_ascii_hexdigit(#[trigger] lower[i]) && !is_white_space(lower[i])
        && hex_value(lower[i]) == hex_value(h[i]) by {
        assert(lower[i] == ascii_lower(h[i]));
    }
    assert(lower[0] == '#');
    assert(trim_start(lower) == lower);
    assert(trim_end(lower) == lower);
    assert(hex_body(lower) == lower.drop_first());
    assert forall|i: int| 0 <= i < 6 implies is_ascii_hexdigit(#[trigger] hex_body(lower)[i]) by {
        assert(hex_body(lower)[i] == lower[i + 1]);
    }
    lemma_parse_hex_body(lower, rgb);
    // Surrounded by white space.
    let padded = seq![' ', ' '] + h + seq!['\t'];
    let q = h + seq!['\t'];
    assert(padded.drop_first() =~= seq![' '] + h + seq!['\t']);
    assert((seq![' '] + h + seq!['\t']).drop_first() =~= q);
    assert(trim_start(padded) == trim_start(seq![' '] + h + seq!['\t']));
    assert(trim_start(seq![' '] + h + seq!['\t']) == trim_start(q));
    assert(q[0] == '#');
    assert(trim_start(q) == q);
    assert(q.drop_last() =~= h);
    assert(trim_end(q) == trim_end(h));
    assert(trim_end(h) == h);
    assert(hex_body(padded) == bare);
    lemma_parse_hex_body(padded, rgb);
}

/// The hex part is six bytes long: a reading succeeds only on six ASCII
/// characters, so six characters that are not six bytes are no colour.
pub proof fn law_parse_hex_counts_bytes(v: Seq<char>)
    ensures
        spec_parse_hex(v) is Some ==> all_ascii(hex_body(v)) && encode_utf8(hex_body(v)).len() == 6,
        encode_utf8(hex_body(v)).len() != 6 ==> spec_parse_hex(v) is None,
{
    let b = hex_body(v);
    if spec_parse_hex(v) is Some {
        assert(b.len() == 6);
        assert(spec_hex_pair(b[0], b[1]) is Some);
        assert(spec_hex_pair(b[2], b[3]) is Some);
        assert(spec_hex_pair(b[4], b[5]) is Some);
        assert(all_ascii(b)) by {
            assert forall|i: int| 0 <= i < b.len() implies (#[trigger] b[i] as u32) < 128 by {
                assert(b[i] == '+' || is_ascii_hexdigit(b[i]));
            }
        }
        lemma_ascii_encoding(b);
    }
}

/// Migrating twice is migrating once: a second pass over a migrated
/// configuration changes none of its values.
pub proof fn law_migration_idempotent(a: AppConfig, b: AppConfig, c: AppConfig)
    requires
        AppConfig::migrated(a, b),
        AppConfig::migrated(b, c),
    ensures
        AppConfig::same_values(b, c),
{
}

/// The migration counter is never lowered, and a migrated configuration
/// carries at least the current migration.
pub proof fn law_migration_counter_never_lowered(a: AppConfig, b: AppConfig)
    requires
        AppConfig::migrated(a, b),
    ensures
        b.constructo_migration >= a.constructo_migration,
        b.constructo_migration >= CONSTRUCTO_MIGRATION,
{
}

/// The migration touches the theme section and the counter only: every
/// other section the configuration holds comes out as it went in.
pub proof fn law_migration_keeps_other_sections(a: AppConfig, b: AppConfig)
    requires
        AppConfig::migrated(a, b),
    ensures
        b.annotation_auto_scale == a.annotation_auto_scale,
        b.model_space == a.model_space,
        b.recent == a.recent,
        b.shortcuts == a.shortcuts,
{
}

/// A theme the user chose survives the migration: only the former default
/// of a configuration never migrated is replaced.
pub proof fn law_chosen_theme_survives_migration(a: AppConfig, b: AppConfig)
    requires
        AppConfig::migrated(a, b),
        a.constructo_migration >= CONSTRUCTO_MIGRATION || a.theme.name@ != THEME_PAR_DEFAUT_AMONT@,
    ensures
        b.theme.name@ == a.theme.name@,
        b.theme.palette == a.theme.palette,
{
}

/// A configuration never migrated that still carries the former default
/// theme comes out with the light default theme, name and colours
/// together.
pub proof fn law_former_default_becomes_light(a: AppConfig, b: AppConfig)
    requires
        AppConfig::migrated(a, b),
        a.constructo_migration < CONSTRUCTO_MIGRATION,
        a.theme.name@ == THEME_PAR_DEFAUT_AMONT@,
    ensures
        b.theme.name@ == FUSION_WHITE@,
        is_fusion_white_palette(b.theme.palette),
        b.constructo_migration == CONSTRUCTO_MIGRATION,
{
}

/// The default configuration has nothing to migrate.
pub proof fn law_default_needs_no_migration(a: AppConfig, b: AppConfig)
    requires
        a.is_default(),
        AppConfig::migrated(a, b),
    ensures
        AppConfig::same_values(a, b),
{
}

/// Length, first and last character: enough to tell the picker's names
/// apart.
spec fn name_signature(s: Seq<char>) -> (int, char, char) {
    (s.len() as int, s[0], s[s.len() - 1])
}

/// The picker's display names are pairwise different.
pub proof fn lemma_theme_names_distinct()
    ensures
        forall|i: int, j: int|
            0 <= i < THEME_COUNT && 0 <= j < THEME_COUNT && i != j ==> #[trigger] spec_theme_name_at(i)
                != #[trigger] spec_theme_name_at(j),
{
    reveal_strlit("Light");
    reveal_strlit("Dark");
    reveal_strlit("Dracula");
    reveal_strlit("Nord");
    reveal_strlit("Solarized Light");
    reveal_strlit("Solarized Dark");
    reveal_strlit("Gruvbox Light");
    reveal_strlit("Gruvbox Dark");
    reveal_strlit("Catppuccin Latte");
    reveal_strlit("Catppuccin Frapp\u{e9}");
    reveal_strlit("Catppuccin Macchiato");
    reveal_strlit("Catppuccin Mocha");
    reveal_strlit("Tokyo Night");
    reveal_strlit("Tokyo Night Storm");
    reveal_strlit("Tokyo Night Light");
    reveal_strlit("Kanagawa Wave");
    reveal_strlit("Kanagawa Dragon");
    reveal_strlit("Kanagawa Lotus");
    reveal_strlit("Moonfly");
    reveal_strlit("Nightfly");
    reveal_strlit("Oxocarbon");
    reveal_strlit("Ferra");
    reveal_strlit("Fusion Black");
    reveal_strlit("Fusion White");
    assert(name_signature(spec_theme_name_at(0)) == (5int, 'L', 't'));
    assert(name_signature(spec_theme_name_at(1)) == (4int, 'D', 'k'));
    assert(name_signature(spec_theme_name_at(2)) == (7int, 'D', 'a'));
    assert(name_signature(spec_theme_name_at(3)) == (4int, 'N', 'd'));
    assert(name_signature(spec_theme_name_at(4)) == (15int, 'S', 't'));
    assert(name_signature(spec_theme_name_at(5)) == (14int, 'S', 'k'));
    assert(name_signature(spec_theme_name_at(6)) == (13int, 'G', 't'));
    assert(name_signature(spec_theme_name_at(7)) == (12int, 'G', 'k'));
    assert(name_signature(spec_theme_name_at(8)) == (16int, 'C', 'e'));
    assert(name_signature(spec_theme_name_at(9)) == (17int, 'C', '\u{e9}'));
    assert(name_signature(spec_theme_name_at(10)) == (20int, 'C', 'o'));
    assert(name_signature(spec_theme_name_at(11)) == (16int, 'C', 'a'));
    assert(name_signature(spec_theme_name_at(12)) == (11int, 'T', 't'));
    assert(name_signature(spec_theme_name_at(13)) == (17int, 'T', 'm'));
    assert(name_signature(spec_theme_name_at(14)) == (17int, 'T', 't'));
    assert(name_signature(spec_theme_name_at(15)) == (13int, 'K', 'e'));
    assert(name_signature(spec_theme_name_at(16)) == (15int, 'K', 'n'));
    assert(name_signature(spec_theme_name_at(17)) == (14int, 'K', 's'));
    assert(name_signature(spec_theme_name_at(18)) == (7int, 'M', 'y'));
    assert(name_signature(spec_theme_name_at(19)) == (8int, 'N', 'y'));
    assert(name_signature(spec_theme_name_at(20)) == (9int, 'O', 'n'));
    assert(name_signature(spec_theme_name_at(21)) == (5int, 'F', 'a'));
    assert(name_signature(spec_theme_name_at(22)) == (12int, 'F', 'k'));
    assert(name_signature(spec_theme_name_at(23)) == (12int, 'F', 'e'));
    assert forall|i: int, j: int|
        0 <= i < THEME_COUNT && 0 <= j < THEME_COUNT && i != j implies #[trigger] spec_theme_name_at(i)
            != #[trigger] spec_theme_name_at(j) by {
        assert(name_signature(spec_theme_name_at(i)) != name_signature(spec_theme_name_at(j)));
    }
}

proof fn lemma_first_named_from_reaches(name: Seq<char>, k: int, i: int)
    requires
        0 <= k <= i < THEME_COUNT,
        spec_theme_name_at(i) == name,
    ensures
        first_named_from(name, k) == Some(i),
    decreases i - k,
{
    lemma_theme_names_distinct();
    if k < i {
        assert(spec_theme_name_at(k) != name);
        lemma_first_named_from_reaches(name, k + 1, i);
    }
}

/// Every theme of the picker's list is found again by its display name.
pub proof fn law_listed_themes_resolve_by_name(i: int)
    requires
        0 <= i < THEME_COUNT,
    ensures
        first_named(spec_theme_name_at(i)) == Some(i),
{
    lemma_first_named_from_reaches(spec_theme_name_at(i), 0, i);
}

proof fn lemma_first_named_from_none(name: Seq<char>, k: int)
    requires
        0 <= k <= THEME_COUNT,
        forall|i: int| k <= i < THEME_COUNT ==> #[trigger] spec_theme_name_at(i) != name,
    ensures
        first_named_from(name, k) is None,
    decreases THEME_COUNT - k,
{
    if k < THEME_COUNT {
        lemma_first_named_from_none(name, k + 1);
    }
}

/// A theme section whose name is neither `Custom` nor any name of the
/// picker's list selects Fusion White: an unknown name never falls back to
/// a dark theme.
pub proof fn law_unknown_theme_name_falls_back_to_fusion_white(name: Seq<char>)
    requires
        forall|i: int| 0 <= i < THEME_COUNT ==> #[trigger] spec_theme_name_at(i) != name,
    ensures
        first_named(name) is None,
        spec_theme_name_at(THEME_COUNT - 1) == FUSION_WHITE@,
{
    lemma_first_named_from_none(name, 0);
}

/// No built-in theme asks for a Fusion canvas: the Fusion canvases are
/// keyed by names that only the Fusion pair carries.
pub proof fn law_builtins_have_no_fusion_canvas(b: BuiltinTheme)
    ensures
        spec_fusion_canvas(Theme::Builtin(b).spec_name()) is None,
{
    lemma_theme_names_distinct();
    let i = b.spec_index() as int;
    assert(Theme::Builtin(b).spec_name() == spec_theme_name_at(i));
    assert(spec_theme_name_at(i) != spec_theme_name_at(22));
    assert(spec_theme_name_at(i) != spec_theme_name_at(23));
}


proof fn lemma_display_name_key_0()
    ensures
        theme_key(spec_theme_name_at(0)) == "LIGHT"@,
{
    reveal_strlit("Light");
    reveal_strlit("LIGHT");
    reveal_with_fuel(theme_key, 7);
}

proof fn lemma_display_name_key_1()
    ensures
        theme_key(spec_theme_name_at(1)) == "DARK"@,
{
    reveal_strlit("Dark");
    reveal_strlit("DARK");
    reveal_with_fuel(theme_key, 6);
}

proof fn lemma_display_name_key_2()
    ensures
        theme_key(spec_theme_name_at(2)) == "DRACULA"@,
{
    reveal_strlit("Dracula");
    reveal_strlit("DRACULA");
    reveal_with_fuel(theme_key, 9);
}

proof fn lemma_display_name_key_3()
    ensures
        theme_key(spec_theme_name_at(3)) == "NORD"@,
{
    reveal_strlit("Nord");
    reveal_strlit("NORD");
    reveal_with_fuel(theme_key, 6);
}

proof fn lemma_display_name_key_4()
    ensures
        theme_key(spec_theme_name_at(4)) == "SOLARIZEDLIGHT"@,
{
    reveal_strlit("Solarized Light");
    reveal_strlit("SOLARIZEDLIGHT");
    reveal_with_fuel(theme_key, 17);
}

proof fn lemma_display_name_key_5()
    ensures
        theme_key(spec_theme_name_at(5)) == "SOLARIZEDDARK"@,
{
    reveal_strlit("Solarized Dark");
    reveal_strlit("SOLARIZEDDARK");
    reveal_with_fuel(theme_key, 16);
}

proof fn lemma_display_name_key_6()
    ensures
        theme_key(spec_theme_name_at(6)) == "GRUVBOXLIGHT"@,
{
    reveal_strlit("Gruvbox Light");
    reveal_strlit("GRUVBOXLIGHT");
    reveal_with_fuel(theme_key, 15);
}

proof fn lemma_display_name_key_7()
    ensures
        theme_key(spec_theme_name_at(7)) == "GRUVBOXDARK"@,
{
    reveal_strlit("Gruvbox Dark");
    reveal_strlit("GRUVBOXDARK");
    reveal_with_fuel(theme_key, 14);
}

proof fn lemma_display_name_key_8()
    ensures
        theme_key(spec_theme_name_at(8)) == "CATPPUCCINLATTE"@,
{
    reveal_strlit("Catppuccin Latte");
    reveal_strlit("CATPPUCCINLATTE");
    reveal_with_fuel(theme_key, 18);
}

proof fn lemma_display_name_key_9()
    ensures
        theme_key(spec_theme_name_at(9)).len() > 0,
        theme_key(spec_theme_name_at(9))[0] == 'C',
{
    reveal_strlit("Catppuccin Frapp\u{e9}");
    reveal_strlit("CATPPUCCINFRAPP");
    reveal_with_fuel(theme_key, 18);
    assert(theme_key(spec_theme_name_at(9).drop_last()) == "CATPPUCCINFRAPP"@);
}

proof fn lemma_display_name_key_10()
    ensures
        theme_key(spec_theme_name_at(10)) == "CATPPUCCINMACCHIATO"@,
{
    reveal_strlit("Catppuccin Macchiato");
    reveal_strlit("CATPPUCCINMACCHIATO");
    reveal_with_fuel(theme_key, 22);
}

proof fn lemma_display_name_key_11()
    ensures
        theme_key(spec_theme_name_at(11)) == "CATPPUCCINMOCHA"@,
{
    reveal_strlit("Catppuccin Mocha");
    reveal_strlit("CATPPUCCINMOCHA");
    reveal_with_fuel(theme_key, 18);
}

proof fn lemma_display_name_key_12()
    ensures
        theme_key(spec_theme_name_at(12)) == "TOKYONIGHT"@,
{
    reveal_strlit("Tokyo Night");
    reveal_strlit("TOKYONIGHT");
    reveal_with_fuel(theme_key, 13);
}

proof fn lemma_display_name_key_13()
    ensures
        theme_key(spec_theme_name_at(13)) == "TOKYONIGHTSTORM"@,
{
    reveal_strlit("Tokyo Night Storm");
    reveal_strlit("TOKYONIGHTSTORM");
    reveal_with_fuel(theme_key, 19);
}

proof fn lemma_display_name_key_14()
    ensures
        theme_key(spec_theme_name_at(14)) == "TOKYONIGHTLIGHT"@,
{
    reveal_strlit("Tokyo Night Light");
    reveal_strlit("TOKYONIGHTLIGHT");
    reveal_with_fuel(theme_key, 19);
}

proof fn lemma_display_name_key_15()
    ensures
        theme_key(spec_theme_name_at(15)) == "KANAGAWAWAVE"@,
{
    reveal_strlit("Kanagawa Wave");
    reveal_strlit("KANAGAWAWAVE");
    reveal_with_fuel(theme_key, 15);
}

proof fn lemma_display_name_key_16()
    ensures
        theme_key(spec_theme_name_at(16)) == "KANAGAWADRAGON"@,
{
    reveal_strlit("Kanagawa Dragon");
    reveal_strlit("KANAGAWADRAGON");
    reveal_with_fuel(theme_key, 17);
}

proof fn lemma_display_name_key_17()
    ensures
        theme_key(spec_theme_name_at(17)) == "KANAGAWALOTUS"@,
{
    reveal_strlit("Kanagawa Lotus");
    reveal_strlit("KANAGAWALOTUS");
    reveal_with_fuel(theme_key, 16);
}

proof fn lemma_display_name_key_18()
    ensures
        theme_key(spec_theme_name_at(18)) == "MOONFLY"@,
{
    reveal_strlit("Moonfly");
    reveal_strlit("MOONFLY");
    reveal_with_fuel(theme_key, 9);
}

proof fn lemma_display_name_key_19()
    ensures
        theme_key(spec_theme_name_at(19)) == "NIGHTFLY"@,
{
    reveal_strlit("Nightfly");
    reveal_strlit("NIGHTFLY");
    reveal_with_fuel(theme_key, 10);
}

proof fn lemma_display_name_key_20()
    ensures
        theme_key(spec_theme_name_at(20)) == "OXOCARBON"@,
{
    reveal_strlit("Oxocarbon");
    reveal_strlit("OXOCARBON");
    reveal_with_fuel(theme_key, 11);
}

proof fn lemma_display_name_key_21()
    ensures
        theme_key(spec_theme_name_at(21)) == "FERRA"@,
{
    reveal_strlit("Ferra");
    reveal_strlit("FERRA");
    reveal_with_fuel(theme_key, 7);
}

proof fn lemma_display_name_key_22()
    ensures
        theme_key(spec_theme_name_at(22)) == "FUSIONBLACK"@,
{
    reveal_strlit("Fusion Black");
    reveal_strlit("FUSIONBLACK");
    reveal_with_fuel(theme_key, 14);
}

proof fn lemma_display_name_key_23()
    ensures
        theme_key(spec_theme_name_at(23)) == "FUSIONWHITE"@,
{
    reveal_strlit("Fusion White");
    reveal_strlit("FUSIONWHITE");
    reveal_with_fuel(theme_key, 14);
}

/// The normalised display names of the picker's themes.
proof fn lemma_display_name_keys()
    ensures
        theme_key(spec_theme_name_at(0)) == "LIGHT"@,
        theme_key(spec_theme_name_at(1)) == "DARK"@,
        theme_key(spec_theme_name_at(2)) == "DRACULA"@,
        theme_key(spec_theme_name_at(3)) == "NORD"@,
        theme_key(spec_theme_name_at(4)) == "SOLARIZEDLIGHT"@,
        theme_key(spec_theme_name_at(5)) == "SOLARIZEDDARK"@,
        theme_key(spec_theme_name_at(6)) == "GRUVBOXLIGHT"@,
        theme_key(spec_theme_name_at(7)) == "GRUVBOXDARK"@,
        theme_key(spec_theme_name_at(8)) == "CATPPUCCINLATTE"@,
        theme_key(spec_theme_name_at(10)) == "CATPPUCCINMACCHIATO"@,
        theme_key(spec_theme_name_at(11)) == "CATPPUCCINMOCHA"@,
        theme_key(spec_theme_name_at(12)) == "TOKYONIGHT"@,
        theme_key(spec_theme_name_at(13)) == "TOKYONIGHTSTORM"@,
        theme_key(spec_theme_name_at(14)) == "TOKYONIGHTLIGHT"@,
        theme_key(spec_theme_name_at(15)) == "KANAGAWAWAVE"@,
        theme_key(spec_theme_name_at(16)) == "KANAGAWADRAGON"@,
        theme_key(spec_theme_name_at(17)) == "KANAGAWALOTUS"@,
        theme_key(spec_theme_name_at(18)) == "MOONFLY"@,
        theme_key(spec_theme_name_at(19)) == "NIGHTFLY"@,
        theme_key(spec_theme_name_at(20)) == "OXOCARBON"@,
        theme_key(spec_theme_name_at(21)) == "FERRA"@,
        theme_key(spec_theme_name_at(22)) == "FUSIONBLACK"@,
        theme_key(spec_theme_name_at(23)) == "FUSIONWHITE"@,
        theme_key(spec_theme_name_at(9)).len() > 0,
        theme_key(spec_theme_name_at(9))[0] == 'C',
{
    lemma_display_name_key_0();
    lemma_display_name_key_1();
    lemma_display_name_key_2();
    lemma_display_name_key_3();
    lemma_display_name_key_4();
    lemma_display_name_key_5();
    lemma_display_name_key_6();
    lemma_display_name_key_7();
    lemma_display_name_key_8();
    lemma_display_name_key_9();
    lemma_display_name_key_10();
    lemma_display_name_key_11();
    lemma_display_name_key_12();
    lemma_display_name_key_13();
    lemma_display_name_key_14();
    lemma_display_name_key_15();
    lemma_display_name_key_16();
    lemma_display_name_key_17();
    lemma_display_name_key_18();
    lemma_display_name_key_19();
    lemma_display_name_key_20();
    lemma_display_name_key_21();
    lemma_display_name_key_22();
    lemma_display_name_key_23();
}

/// Each keyword of the flexible theme names is the normalised display
/// name of the theme it selects: upper case, without white space, `_` or
/// `-`.
pub proof fn law_theme_keywords_name_their_themes()
    ensures
        forall|j: int|
            0 <= j < theme_keywords().len() ==> theme_key(spec_theme_name_at(#[trigger] theme_keywords()[j].1))
                == theme_keywords()[j].0,
{
    lemma_display_name_keys();
}

/// Parsing a theme's own display name selects that theme, whenever it
/// selects anything: no keyword normalises two themes' names.
pub proof fn law_theme_name_parses_to_itself(i: int, j: int)
    requires
        0 <= i < THEME_COUNT,
        0 <= j < theme_keywords().len(),
        theme_key(spec_theme_name_at(i)) == theme_keywords()[j].0,
    ensures
        theme_keywords()[j].1 == i,
{
    lemma_display_name_keys();
    assert(name_signature("DARK"@) == (4int, 'D', 'K')) by {
        reveal_strlit("DARK");
    }
    assert(name_signature("LIGHT"@) == (5int, 'L', 'T')) by {
        reveal_strlit("LIGHT");
    }
    assert(name_signature("DRACULA"@) == (7int, 'D', 'A')) by {
        reveal_strlit("DRACULA");
    }
    assert(name_signature("NORD"@) == (4int, 'N', 'D')) by {
        reveal_strlit("NORD");
    }
    assert(name_signature("SOLARIZEDLIGHT"@) == (14int, 'S', 'T')) by {
        reveal_strlit("SOLARIZEDLIGHT");
    }
    assert(name_signature("SOLARIZEDDARK"@) == (13int, 'S', 'K')) by {
        reveal_strlit("SOLARIZEDDARK");
    }
    assert(name_signature("GRUVBOXLIGHT"@) == (12int, 'G', 'T')) by {
        reveal_strlit("GRUVBOXLIGHT");
    }
    assert(name_signature("GRUVBOXDARK"@) == (11int, 'G', 'K')) by {
        reveal_strlit("GRUVBOXDARK");
    }
    assert(name_signature("TOKYONIGHT"@) == (10int, 'T', 'T')) by {
        reveal_strlit("TOKYONIGHT");
    }
    assert(name_signature("TOKYONIGHTSTORM"@) == (15int, 'T', 'M')) by {
        reveal_strlit("TOKYONIGHTSTORM");
    }
    assert(name_signature("TOKYONIGHTLIGHT"@) == (15int, 'T', 'T')) by {
        reveal_strlit("TOKYONIGHTLIGHT");
    }
    assert(name_signature("KANAGAWAWAVE"@) == (12int, 'K', 'E')) by {
        reveal_strlit("KANAGAWAWAVE");
    }
    assert(name_signature("KANAGAWADRAGON"@) == (14int, 'K', 'N')) by {
        reveal_strlit("KANAGAWADRAGON");
    }
    assert(name_signature("KANAGAWALOTUS"@) == (13int, 'K', 'S')) by {
        reveal_strlit("KANAGAWALOTUS");
    }
    assert(name_signature("MOONFLY"@) == (7int, 'M', 'Y')) by {
        reveal_strlit("MOONFLY");
    }
    assert(name_signature("NIGHTFLY"@) == (8int, 'N', 'Y')) by {
        reveal_strlit("NIGHTFLY");
    }
    assert(name_signature("OXOCARBON"@) == (9int, 'O', 'N')) by {
        reveal_strlit("OXOCARBON");
    }
    assert(name_signature("FERRA"@) == (5int, 'F', 'A')) by {
        reveal_strlit("FERRA");
    }
    assert(name_signature("FUSIONBLACK"@) == (11int, 'F', 'K')) by {
        reveal_strlit("FUSIONBLACK");
    }
    assert(name_signature("FUSIONWHITE"@) == (11int, 'F', 'E')) by {
        reveal_strlit("FUSIONWHITE");
    }
    if 8 <= i <= 11 {
        assert(theme_key(spec_theme_name_at(i))[0] == 'C') by {
            reveal_strlit("CATPPUCCINLATTE");
            reveal_strlit("CATPPUCCINMACCHIATO");
            reveal_strlit("CATPPUCCINMOCHA");
        }
        assert(theme_keywords()[j].0[0] != 'C');
    } else {
        let k: int = choose|k: int| 0 <= k < theme_keywords().len() && theme_keywords()[k].1 == i;
        assert(theme_keywords()[k].0 == theme_key(spec_theme_name_at(i)));
        assert(name_signature(theme_keywords()[j].0) == name_signature(theme_keywords()[k].0));
        assert(j == k);
    }
}


/// The dark built-in themes get a dark canvas (every channel at most 64)
/// and the light ones a light canvas (every channel at least 192),
/// whatever the palette background handed in.
pub proof fn law_canvas_follows_the_theme_brightness(b: BuiltinTheme, palette_background: Seq<u8>)
    ensures
        (b == BuiltinTheme::Dark || b == BuiltinTheme::Dracula || b == BuiltinTheme::Nord || b
            == BuiltinTheme::SolarizedDark || b == BuiltinTheme::GruvboxDark || b == BuiltinTheme::TokyoNight
            || b == BuiltinTheme::TokyoNightStorm || b == BuiltinTheme::KanagawaWave || b
            == BuiltinTheme::KanagawaDragon || b == BuiltinTheme::Moonfly || b == BuiltinTheme::Nightfly || b
            == BuiltinTheme::Oxocarbon || b == BuiltinTheme::Ferra) ==> ({
            let c = spec_theme_canvas_background(Theme::Builtin(b), palette_background);
            c.len() == 3 && c[0] <= 64 && c[1] <= 64 && c[2] <= 64
        }),
        (b == BuiltinTheme::Light || b == BuiltinTheme::SolarizedLight || b == BuiltinTheme::GruvboxLight || b
            == BuiltinTheme::TokyoNightLight || b == BuiltinTheme::KanagawaLotus) ==> ({
            let c = spec_theme_canvas_background(Theme::Builtin(b), palette_background);
            c.len() == 3 && c[0] >= 192 && c[1] >= 192 && c[2] >= 192
        }),
{
    let c = spec_theme_canvas_background(Theme::Builtin(b), palette_background);
    if builtin_canvas(b) is Some {
        assert(c == builtin_canvas(b)->0);
    }
    match b {
        BuiltinTheme::Dark => assert(c =~= seq![32u8, 34, 37]),
        BuiltinTheme::Dracula => assert(c =~= seq![40u8, 42, 54]),
        BuiltinTheme::Nord => assert(c =~= seq![46u8, 52, 64]),
        _ => {},
    }
}


/// The canvas of each built-in theme: the colour it names, and for the
/// four Catppuccin themes, which name none, the theme's palette background.
pub proof fn law_builtin_canvas_table(palette_background: Seq<u8>)
    ensures
        spec_theme_canvas_background(Theme::Builtin(BuiltinTheme::Light), palette_background) == seq![255u8, 255, 255],
        spec_theme_canvas_background(Theme::Builtin(BuiltinTheme::SolarizedLight), palette_background) == seq![253u8, 246, 227],
        spec_theme_canvas_background(Theme::Builtin(BuiltinTheme::GruvboxLight), palette_background) == seq![251u8, 241, 199],
        spec_theme_canvas_background(Theme::Builtin(BuiltinTheme::TokyoNightLight), palette_background) == seq![225u8, 226, 231],
        spec_theme_canvas_background(Theme::Builtin(BuiltinTheme::KanagawaLotus), palette_background) == seq![242u8, 236, 222],
        spec_theme_canvas_background(Theme::Builtin(BuiltinTheme::Dark), palette_background) == seq![32u8, 34, 37],
        spec_theme_canvas_background(Theme::Builtin(BuiltinTheme::Dracula), palette_background) == seq![40u8, 42, 54],
        spec_theme_canvas_background(Theme::Builtin(BuiltinTheme::Nord), palette_background) == seq![46u8, 52, 64],
        spec_theme_canvas_background(Theme::Builtin(BuiltinTheme::SolarizedDark), palette_background) == seq![0u8, 43, 54],
        spec_theme_canvas_background(Theme::Builtin(BuiltinTheme::GruvboxDark), palette_background) == seq![40u8, 40, 40],
        spec_theme_canvas_background(Theme::Builtin(BuiltinTheme::TokyoNight), palette_background) == seq![26u8, 27, 38],
        spec_theme_canvas_background(Theme::Builtin(BuiltinTheme::TokyoNightStorm), palette_background) == seq![36u8, 40, 59],
        spec_theme_canvas_background(Theme::Builtin(BuiltinTheme::KanagawaWave), palette_background) == seq![31u8, 31, 40],
        spec_theme_canvas_background(Theme::Builtin(BuiltinTheme::KanagawaDragon), palette_background) == seq![24u8, 26, 28],
        spec_theme_canvas_background(Theme::Builtin(BuiltinTheme::Moonfly), palette_background) == seq![8u8, 18, 24],
        spec_theme_canvas_background(Theme::Builtin(BuiltinTheme::Nightfly), palette_background) == seq![1u8, 22, 39],
        spec_theme_canvas_background(Theme::Builtin(BuiltinTheme::Oxocarbon), palette_background) == seq![22u8, 22, 22],
        spec_theme_canvas_background(Theme::Builtin(BuiltinTheme::Ferra), palette_background) == seq![43u8, 41, 46],
        spec_theme_canvas_background(Theme::Builtin(BuiltinTheme::CatppuccinLatte), palette_background) == palette_background,
        spec_theme_canvas_background(Theme::Builtin(BuiltinTheme::CatppuccinFrappe), palette_background) == palette_background,
        spec_theme_canvas_background(Theme::Builtin(BuiltinTheme::CatppuccinMacchiato), palette_background) == palette_background,
        spec_theme_canvas_background(Theme::Builtin(BuiltinTheme::CatppuccinMocha), palette_background) == palette_background,
{
    law_builtins_have_no_fusion_canvas(BuiltinTheme::CatppuccinLatte);
    law_builtins_have_no_fusion_canvas(BuiltinTheme::CatppuccinFrappe);
    law_builtins_have_no_fusion_canvas(BuiltinTheme::CatppuccinMacchiato);
    law_builtins_have_no_fusion_canvas(BuiltinTheme::CatppuccinMocha);
}

} // verus!
