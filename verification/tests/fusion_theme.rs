use opencadstudio::app::theme::{BuiltinTheme, Theme};
use opencadstudio::ui::style::fusion_theme::{
    fusion_black, fusion_canvas, fusion_themes, fusion_white, rgb, FUSION_BLACK, FUSION_BLACK_CANVAS,
    FUSION_WHITE, FUSION_WHITE_CANVAS,
};

#[test]
fn fusion_canvas_is_keyed_by_name() {
    assert_eq!(fusion_canvas(&fusion_black()), Some(FUSION_BLACK_CANVAS));
    assert_eq!(fusion_canvas(&fusion_white()), Some(FUSION_WHITE_CANVAS));
    assert_eq!(fusion_canvas(&Theme::Builtin(BuiltinTheme::Dark)), None);
}

#[test]
fn fusion_themes_come_black_then_white() {
    let themes = fusion_themes();
    assert_eq!(themes.len(), 2);
    assert_eq!(themes[0].name(), FUSION_BLACK);
    assert_eq!(themes[1].name(), FUSION_WHITE);
}

#[test]
fn rgb_splits_a_hex_colour() {
    assert_eq!(rgb(0x0277BD), [0x02, 0x77, 0xBD]);
    assert_eq!(rgb(0x1A1A1A), [26, 26, 26]);
}

#[test]
fn fusion_white_is_light_chrome_with_a_blue_accent() {
    let Theme::Custom { palette, .. } = fusion_white() else {
        panic!("Fusion White is a custom theme");
    };
    assert_eq!(palette.background, [250, 250, 250]);
    assert_eq!(palette.text, [26, 26, 26]);
    assert_eq!(palette.primary, [2, 119, 189]);
}

#[test]
fn a_builtin_theme_is_named_as_iced_names_it() {
    assert_eq!(Theme::Builtin(BuiltinTheme::TokyoNightStorm).name(), iced::Theme::TokyoNightStorm.to_string());
    assert_eq!(Theme::Builtin(BuiltinTheme::Oxocarbon).name(), "Oxocarbon");
}

/// WCAG 2 contrast ratio of two colours.
fn wcag_contrast(a: iced::Color, b: iced::Color) -> f32 {
    fn channel(c: f32) -> f32 {
        if c <= 0.03928 {
            c / 12.92
        } else {
            ((c + 0.055) / 1.055).powf(2.4)
        }
    }
    fn luminance(c: iced::Color) -> f32 {
        0.2126 * channel(c.r) + 0.7152 * channel(c.g) + 0.0722 * channel(c.b)
    }
    let (la, lb) = (luminance(a), luminance(b));
    let (hi, lo) = if la > lb { (la, lb) } else { (lb, la) };
    (hi + 0.05) / (lo + 0.05)
}

fn iced_theme(theme: &Theme) -> iced::Theme {
    let Theme::Custom { name, palette } = theme else {
        panic!("the Fusion themes are custom themes");
    };
    let color = |c: [u8; 3]| iced::Color::from_rgb8(c[0], c[1], c[2]);
    iced::Theme::custom(
        name.clone(),
        iced::theme::Palette {
            background: color(palette.background),
            text: color(palette.text),
            primary: color(palette.primary),
            success: color(palette.success),
            warning: color(palette.warning),
            danger: color(palette.danger),
        },
    )
}

#[test]
fn fusion_themes_meet_wcag_aa_on_every_surface() {
    for theme in fusion_themes() {
        let iced_theme = iced_theme(&theme);
        let p = iced_theme.extended_palette();
        for (name, pair) in [
            ("base", p.background.base),
            ("weak", p.background.weak),
            ("strong", p.background.strong),
            ("weakest", p.background.weakest),
        ] {
            let contrast = wcag_contrast(pair.text, pair.color);
            assert!(contrast >= 4.5, "{} {name} surface text is {contrast:.2}:1, below AA", theme.name());
        }
    }
}

#[test]
fn fusion_accent_survives_the_threshold_production_asks_for() {
    for theme in fusion_themes() {
        let iced_theme = iced_theme(&theme);
        let p = iced_theme.extended_palette();
        let contrast = wcag_contrast(p.primary.base.color, p.background.base.color);
        assert!(contrast >= 4.5, "{} accent is {contrast:.2}:1 on the theme background", theme.name());
    }
}

#[test]
fn fusion_accent_is_visible_on_the_canvas() {
    for (theme, canvas) in [(fusion_black(), FUSION_BLACK_CANVAS), (fusion_white(), FUSION_WHITE_CANVAS)] {
        let iced_theme = iced_theme(&theme);
        let canvas = iced::Color::from_rgb8(canvas[0], canvas[1], canvas[2]);
        let contrast = wcag_contrast(iced_theme.extended_palette().primary.base.color, canvas);
        assert!(contrast >= 3.0, "{} accent is {contrast:.2}:1 on its canvas", theme.name());
    }
}
