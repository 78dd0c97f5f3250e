use opencadstudio::app::config::{
    all_themes, builtin_theme, parse_hex, parse_theme_name, rgb_to_hex, theme_at, theme_canvas_background,
    AppConfig, ModelSpaceMode, ModelSpaceThemeConfig, UiThemeConfig, UiThemePalette, CONSTRUCTO_MIGRATION,
    RecentConfig, THEME_COUNT, THEME_PAR_DEFAUT_AMONT,
};
use opencadstudio::app::theme::{BuiltinTheme, Theme};
use opencadstudio::ui::style::fusion_theme::{
    fusion_black, fusion_white, fusion_white_palette, FUSION_BLACK, FUSION_WHITE,
};

/// The six base colours of an iced built-in theme, rounded to bytes.
fn palette_of(theme: &iced::Theme) -> UiThemePalette {
    fn bytes(c: iced::Color) -> [u8; 3] {
        [
            (c.r * 255.0).round() as u8,
            (c.g * 255.0).round() as u8,
            (c.b * 255.0).round() as u8,
        ]
    }
    let p = theme.palette();
    UiThemePalette {
        background: bytes(p.background),
        text: bytes(p.text),
        primary: bytes(p.primary),
        success: bytes(p.success),
        warning: bytes(p.warning),
        danger: bytes(p.danger),
    }
}

fn as_f32(rgb: [u8; 3]) -> [f32; 4] {
    [rgb[0] as f32 / 255.0, rgb[1] as f32 / 255.0, rgb[2] as f32 / 255.0, 1.0]
}

fn model_bg(cfg: &ModelSpaceThemeConfig, theme: BuiltinTheme) -> [f32; 4] {
    let theme = Theme::Builtin(theme);
    as_f32(cfg.resolve_model_rgb(theme_canvas_background(&theme, [0, 0, 0])))
}

#[test]
fn test_model_space_defaults() {
    let cfg = ModelSpaceThemeConfig::default();
    assert_eq!(cfg.mode, ModelSpaceMode::MatchTheme);
    assert_eq!(cfg.custom_bg, None);
    assert_eq!(cfg.custom_paper_bg, None);
    assert_eq!(cfg.grid_opacity, 18);
    assert!(cfg.selection_area);
    assert_eq!(cfg.selection_opacity, 12);
    assert_eq!(cfg.selection_window_color, 0);
    assert_eq!(cfg.selection_crossing_color, 0);
    assert_eq!(cfg.selection_highlight_color, 0);
    assert!(cfg.selection_effect);
    assert_eq!(cfg.selection_preview, 3);
}

#[test]
fn test_resolve_model_bg_match_theme() {
    let cfg = ModelSpaceThemeConfig { mode: ModelSpaceMode::MatchTheme, ..Default::default() };
    let light_bg = model_bg(&cfg, BuiltinTheme::Light);
    assert_eq!(light_bg, [1.0, 1.0, 1.0, 1.0]);

    let oxo_bg = model_bg(&cfg, BuiltinTheme::Oxocarbon);
    assert!((oxo_bg[0] - 22.0 / 255.0).abs() < 1e-4);
    assert!((oxo_bg[1] - 22.0 / 255.0).abs() < 1e-4);
    assert!((oxo_bg[2] - 22.0 / 255.0).abs() < 1e-4);
    assert_eq!(oxo_bg[3], 1.0);
}

#[test]
fn test_resolve_model_bg_classic_dark() {
    let cfg = ModelSpaceThemeConfig { mode: ModelSpaceMode::ClassicDark, ..Default::default() };
    let bg = model_bg(&cfg, BuiltinTheme::Light);
    assert!((bg[0] - 33.0 / 255.0).abs() < 1e-4);
    assert!((bg[1] - 40.0 / 255.0).abs() < 1e-4);
    assert!((bg[2] - 48.0 / 255.0).abs() < 1e-4);
    assert_eq!(bg[3], 1.0);
}

#[test]
fn test_resolve_model_bg_custom() {
    let cfg = ModelSpaceThemeConfig {
        mode: ModelSpaceMode::Custom,
        custom_bg: Some([10, 20, 30]),
        ..Default::default()
    };
    let bg = model_bg(&cfg, BuiltinTheme::Light);
    assert!((bg[0] - 10.0 / 255.0).abs() < 1e-4);
    assert!((bg[1] - 20.0 / 255.0).abs() < 1e-4);
    assert!((bg[2] - 30.0 / 255.0).abs() < 1e-4);
}

#[test]
fn test_parse_theme_name() {
    assert_eq!(parse_theme_name("light"), Some(Theme::Builtin(BuiltinTheme::Light)));
    assert_eq!(parse_theme_name("DARK"), Some(Theme::Builtin(BuiltinTheme::Dark)));
    assert_eq!(parse_theme_name("solarized light"), Some(Theme::Builtin(BuiltinTheme::SolarizedLight)));
    assert_eq!(parse_theme_name("tokyo-night-storm"), Some(Theme::Builtin(BuiltinTheme::TokyoNightStorm)));
    assert_eq!(parse_theme_name("Kanagawa_Lotus"), Some(Theme::Builtin(BuiltinTheme::KanagawaLotus)));
    assert_eq!(parse_theme_name("1"), None);
    assert_eq!(parse_theme_name("0"), None);
    assert_eq!(parse_theme_name("nonexistent_theme"), None);
}

#[test]
fn le_theme_par_defaut_est_clair_comme_l_erp_qui_l_encadre() {
    let config = AppConfig::default();
    assert_eq!(
        config.theme.name, FUSION_WHITE,
        "le module est servi dans un ERP clair ; un defaut sombre y pose une dalle"
    );
    assert_eq!(config.constructo_migration, CONSTRUCTO_MIGRATION);
}

#[test]
fn un_nom_de_theme_inconnu_ne_retombe_pas_sur_du_sombre() {
    let inconnu = UiThemeConfig {
        name: "ThemeQuiNExistePlus".to_string(),
        palette: palette_of(&iced::Theme::Dark),
    };
    assert_eq!(inconnu.to_theme().name(), FUSION_WHITE);
}

fn config_jamais_migree() -> AppConfig {
    AppConfig {
        constructo_migration: 0,
        theme: UiThemeConfig {
            name: THEME_PAR_DEFAUT_AMONT.to_string(),
            palette: palette_of(&iced::Theme::Oxocarbon),
        },
        ..AppConfig::default()
    }
}

#[test]
fn la_chaine_complete_bascule_une_config_jamais_migree() {
    let migree = AppConfig::depuis_config_lue(Some(config_jamais_migree()));
    assert_eq!(migree.theme.name, FUSION_WHITE);
    assert!(
        migree.theme.palette == fusion_white_palette(),
        "le nom sans la palette laisse un theme clair aux couleurs sombres"
    );
    assert_eq!(migree.constructo_migration, CONSTRUCTO_MIGRATION);
}

#[test]
fn la_chaine_migre_aussi_une_config_absente() {
    let neuve = AppConfig::depuis_config_lue(None);
    assert_eq!(neuve.theme.name, FUSION_WHITE);
    assert_eq!(neuve.constructo_migration, CONSTRUCTO_MIGRATION);
}

#[test]
fn la_migration_ne_repasse_pas_sur_un_choix_deja_fait() {
    let choisi = AppConfig::depuis_config_lue(Some(AppConfig {
        constructo_migration: CONSTRUCTO_MIGRATION,
        ..config_jamais_migree()
    }));
    assert_eq!(
        choisi.theme.name, "Oxocarbon",
        "un theme choisi apres la migration doit survivre au rechargement"
    );
}

#[test]
fn le_compteur_est_pose_meme_quand_il_n_y_a_rien_a_migrer() {
    let mut neuve = AppConfig { constructo_migration: 0, ..AppConfig::default() };
    neuve.migrer_constructo();
    assert_eq!(neuve.constructo_migration, CONSTRUCTO_MIGRATION);
}

#[test]
fn un_compteur_venu_du_futur_n_est_pas_rabattu() {
    let mut futur = AppConfig { constructo_migration: CONSTRUCTO_MIGRATION + 7, ..AppConfig::default() };
    futur.migrer_constructo();
    assert_eq!(futur.constructo_migration, CONSTRUCTO_MIGRATION + 7);
}

#[test]
fn la_migration_est_idempotente() {
    let mut config = config_jamais_migree();
    config.migrer_constructo();
    let apres_une = config.clone();
    config.migrer_constructo();
    assert!(apres_une == config, "rejouer la migration doit etre sans effet");
}

#[test]
fn un_compteur_venu_du_futur_ne_relance_pas_la_migration() {
    let mut futur = AppConfig {
        constructo_migration: CONSTRUCTO_MIGRATION + 7,
        ..config_jamais_migree()
    };
    futur.migrer_constructo();
    assert_eq!(
        futur.theme.name, THEME_PAR_DEFAUT_AMONT,
        "un compteur venu du futur ne doit pas relancer la migration"
    );
}

#[test]
fn la_migration_epargne_un_theme_choisi_avant_le_fork() {
    let avant = AppConfig {
        constructo_migration: 0,
        theme: UiThemeConfig { name: "Dracula".to_string(), palette: palette_of(&iced::Theme::Dracula) },
        ..AppConfig::default()
    };
    let migree = AppConfig::depuis_config_lue(Some(avant));
    assert_eq!(
        migree.theme.name, "Dracula",
        "un theme CHOISI avant le fork survit ; seul le defaut amont bascule"
    );
    assert_eq!(migree.constructo_migration, CONSTRUCTO_MIGRATION);
}

#[test]
fn le_nom_du_theme_d_amont_est_celui_qu_iced_ecrit_vraiment() {
    assert!(builtin_theme(THEME_PAR_DEFAUT_AMONT).is_some());
    assert_eq!(THEME_PAR_DEFAUT_AMONT, iced::Theme::Oxocarbon.to_string());
}

#[test]
fn la_garde_suit_la_constante_et_non_un_litteral() {
    let mut jamais_migree = AppConfig {
        constructo_migration: CONSTRUCTO_MIGRATION - 1,
        ..config_jamais_migree()
    };
    jamais_migree.migrer_constructo();
    assert_eq!(
        jamais_migree.theme.name, FUSION_WHITE,
        "une config d'un cran sous la constante doit migrer"
    );
}

// ── Colours and their hex form ──

#[test]
fn hex_is_upper_case_with_a_hash() {
    assert_eq!(rgb_to_hex([0, 119, 189]), "#0077BD");
    assert_eq!(rgb_to_hex([255, 10, 0]), "#FF0A00");
}

#[test]
fn hex_accepts_lower_case_spaces_and_no_hash() {
    assert_eq!(parse_hex("#0077bd"), Some([0, 119, 189]));
    assert_eq!(parse_hex("  FF0A00 "), Some([255, 10, 0]));
    assert_eq!(parse_hex("+F+F+F"), Some([15, 15, 15]));
}

#[test]
fn hex_rejects_what_is_not_a_colour() {
    assert_eq!(parse_hex(""), None);
    assert_eq!(parse_hex("#12345"), None);
    assert_eq!(parse_hex("#1234567"), None);
    assert_eq!(parse_hex("##123456"), None);
    assert_eq!(parse_hex("12345G"), None);
    assert_eq!(parse_hex("-12345"), None);
    assert_eq!(parse_hex("é1234"), None);
}

#[test]
fn hex_values_read_back_through_set_hex() {
    let original = fusion_white_palette();
    let hexes = original.hex_values();
    assert_eq!(hexes[0], "#FAFAFA");
    let mut copy = UiThemePalette { background: [0, 0, 0], ..original };
    for (i, hex) in hexes.iter().enumerate() {
        assert!(copy.set_hex(i, hex));
    }
    assert_eq!(copy, original);
}

#[test]
fn set_hex_refuses_a_bad_index_or_value_and_changes_nothing() {
    let mut p = fusion_white_palette();
    assert!(!p.set_hex(6, "#000000"));
    assert!(!p.set_hex(0, "#00000"));
    assert_eq!(p, fusion_white_palette());
    assert!(p.set_hex(3, "#010203"));
    assert_eq!(p.success, [1, 2, 3]);
}

// ── Theme list ──

#[test]
fn the_picker_lists_the_builtins_then_the_fusion_pair() {
    let themes = all_themes();
    assert_eq!(themes.len(), THEME_COUNT);
    assert_eq!(themes.len(), iced::Theme::ALL.len() + 2);
    for (i, t) in iced::Theme::ALL.iter().enumerate() {
        assert_eq!(themes[i].name(), t.to_string());
    }
    assert_eq!(themes[THEME_COUNT - 2].name(), FUSION_BLACK);
    assert_eq!(themes[THEME_COUNT - 1].name(), FUSION_WHITE);
    assert_eq!(theme_at(20), Theme::Builtin(BuiltinTheme::Oxocarbon));
}

#[test]
fn builtin_theme_finds_by_display_name() {
    assert_eq!(builtin_theme("Tokyo Night Storm"), Some(Theme::Builtin(BuiltinTheme::TokyoNightStorm)));
    assert_eq!(builtin_theme("Fusion White"), Some(fusion_white()));
    assert_eq!(builtin_theme("Fusion Black"), Some(fusion_black()));
    assert_eq!(builtin_theme("fusion white"), None);
}

#[test]
fn parse_theme_name_reaches_the_fusion_pair() {
    assert_eq!(parse_theme_name("fusion-white"), Some(fusion_white()));
    assert_eq!(parse_theme_name("Fusion_Black"), Some(fusion_black()));
    assert_eq!(parse_theme_name("catppuccin mocha"), None);
}

#[test]
fn custom_name_selects_the_stored_palette() {
    let p = UiThemePalette { background: [1, 2, 3], ..fusion_white_palette() };
    let cfg = UiThemeConfig { name: "Custom".to_string(), palette: p };
    assert_eq!(cfg.to_theme(), Theme::Custom { name: "Custom".to_string(), palette: p });
    let nord = UiThemeConfig { name: "Nord".to_string(), palette: p };
    assert_eq!(nord.to_theme(), Theme::Builtin(BuiltinTheme::Nord));
}

#[test]
fn canvas_follows_the_theme_with_the_fusion_exception() {
    assert_eq!(theme_canvas_background(&Theme::Builtin(BuiltinTheme::Nord), [9, 9, 9]), [46, 52, 64]);
    assert_eq!(theme_canvas_background(&fusion_black(), [9, 9, 9]), [250, 250, 250]);
    assert_eq!(theme_canvas_background(&fusion_white(), [9, 9, 9]), [255, 255, 255]);
    assert_eq!(
        theme_canvas_background(&Theme::Builtin(BuiltinTheme::CatppuccinMocha), [9, 9, 9]),
        [9, 9, 9]
    );
}

#[test]
fn paper_desk_and_selection_colours() {
    let mut cfg = ModelSpaceThemeConfig::default();
    assert_eq!(cfg.resolve_paper_rgb(), [255, 255, 255]);
    assert_eq!(cfg.resolve_desk_rgb(), [138, 138, 138]);
    assert_eq!(cfg.resolve_selection_rgb(), None);
    cfg.custom_paper_bg = Some([1, 2, 3]);
    cfg.custom_desk_bg = Some([4, 5, 6]);
    cfg.selection_highlight_color = 1;
    assert_eq!(cfg.resolve_paper_rgb(), [1, 2, 3]);
    assert_eq!(cfg.resolve_desk_rgb(), [4, 5, 6]);
    assert_eq!(cfg.resolve_selection_rgb(), Some([255, 0, 0]));
    cfg.mode = ModelSpaceMode::Custom;
    assert_eq!(cfg.resolve_model_rgb([7, 7, 7]), [33, 40, 48]);
}

#[test]
fn model_space_mode_labels() {
    assert_eq!(ModelSpaceMode::ALL.map(|m| m.label()), ["Match Theme", "Classic CAD Dark", "Custom"]);
}

#[test]
fn a_loaded_configuration_keeps_the_sections_it_holds() {

    let lue = AppConfig {
        constructo_migration: 1,
        recent: Some(RecentConfig { files: vec!["a.dwg".to_string()], limit: 7 }),
        ..AppConfig::default()
    };
    let config = AppConfig::depuis_config_lue(Some(lue));
    let recent = config.recent.expect("the recent-files section is kept");
    assert_eq!(recent.files, vec!["a.dwg".to_string()]);
    assert_eq!(recent.limit, 7);
    assert!(config.shortcuts.is_none());
}

#[test]
fn every_listed_theme_resolves_to_itself_by_name() {
    for (i, theme) in all_themes().iter().enumerate() {
        assert_eq!(builtin_theme(&theme.name()).as_ref(), Some(theme), "theme {i}");
    }
    assert_eq!(builtin_theme("Oxocarbon"), Some(Theme::Builtin(BuiltinTheme::Oxocarbon)));
}

#[test]
fn hex_reads_back_without_hash_in_lower_case_and_padded() {
    let h = rgb_to_hex([171, 205, 239]);
    assert_eq!(h, "#ABCDEF");
    assert_eq!(parse_hex(&h[1..]), Some([171, 205, 239]));
    assert_eq!(parse_hex(&h.to_lowercase()), Some([171, 205, 239]));
    assert_eq!(parse_hex(&format!("  {h}\t")), Some([171, 205, 239]));
}

#[test]
fn six_characters_that_are_not_six_bytes_are_no_colour() {
    assert_eq!(parse_hex("#ABCDEé"), None);
    assert_eq!(parse_hex("ＡＢＣＤＥＦ"), None);
}
