use opencadstudio::sys::garde_graphique::{est_de_la_pile_graphique, panique_de_rendu};

const PANIQUES_DE_RENDU: [&str; 14] = [
    "panicked at /home/runner/.cargo/registry/src/index.crates.io-6f17d22bba15001f/wgpu-29.0.4/src/backend/wgpu_core.rs:685:\nwgpu error: Validation Error",
    "panicked at /home/runner/.cargo/registry/src/index.crates.io-6f17d22bba15001f/naga-29.0.4/src/back/glsl/mod.rs:1204:\nnot implemented",
    "panicked at /home/runner/.cargo/registry/src/index.crates.io-6f17d22bba15001f/wgpu-hal-29.0.4/src/gles/device.rs:220:\nboom",
    "panicked at /home/runner/.cargo/registry/src/index.crates.io-6f17d22bba15001f/wgpu-core-29.0.4/src/device/resource.rs:1:\nboom",
    "panicked at /home/runner/.cargo/registry/src/index.crates.io-6f17d22bba15001f/wgpu-types-29.0.4/src/lib.rs:1:\nboom",
    "panicked at /home/runner/.cargo/registry/src/index.crates.io-6f17d22bba15001f/wgpu-naga-bridge-29.0.4/src/lib.rs:1:\nboom",
    "panicked at /home/runner/.cargo/registry/src/index.crates.io-6f17d22bba15001f/wgpu-core-deps-wasm-29.0.4/src/lib.rs:1:\nboom",
    "panicked at /home/runner/.cargo/registry/src/index.crates.io-6f17d22bba15001f/etagere-0.2.15/src/allocator.rs:412:\nattempt to subtract with overflow",
    "panicked at /home/runner/.cargo/registry/src/index.crates.io-6f17d22bba15001f/guillotiere-0.7.0/src/lib.rs:88:\nassertion failed",
    "panicked at /home/runner/.cargo/registry/src/index.crates.io-6f17d22bba15001f/lyon_path-1.0.19/src/builder.rs:77:\nunwrap on None",
    "panicked at /home/runner/.cargo/registry/src/index.crates.io-6f17d22bba15001f/cosmic-text-0.19.0/src/font/system.rs:405:\nno face",
    "panicked at /home/runner/.cargo/registry/src/index.crates.io-6f17d22bba15001f/swash-0.2.9/src/scale/mod.rs:12:\nboom",
    "panicked at /home/runner/.cargo/registry/src/index.crates.io-6f17d22bba15001f/tiny-skia-0.11.4/src/pipeline/highp.rs:1:\nboom",
    r"panicked at C:\Users\dev\.cargo\registry\src\index.crates.io-6f17d22bba15001f\wgpu-29.0.4\src\lib.rs:1: boom",
];

const PANIQUES_ICED_RENDU: [&str; 5] = [
    "/home/runner/.cargo/git/checkouts/iced-3ba1e2e5c1e0e1a1/23604ff/wgpu/src/text.rs:406: Render text",
    "/home/runner/.cargo/git/checkouts/iced-3ba1e2e5c1e0e1a1/23604ff/graphics/src/compositor.rs:88: no adapter",
    "/home/runner/.cargo/git/checkouts/iced-3ba1e2e5c1e0e1a1/23604ff/renderer/src/fallback.rs:331: internal error",
    "/home/runner/.cargo/git/checkouts/iced-3ba1e2e5c1e0e1a1/23604ff/tiny_skia/src/window/compositor.rs:44: boom",
    "/home/runner/.cargo/git/checkouts/cryoglyph-9f2a1c53ba3e8/53ba3e8/src/text_atlas.rs:102: unwrap on None",
];

const PANIQUES_ORDINAIRES: [&str; 19] = [
    "panicked at src/entities/layer.rs:88:\nlayer \"managa-01\" has no linetype",
    "panicked at src/entities/layer.rs:88:\nlayer \"naga-01\" has no linetype",
    "panicked at src/entities/layer.rs:88:\nlayer \"wgpu-02\" has no linetype",
    "bloc introuvable : mur-naga-12",
    "bloc introuvable : /Projets/mur-naga-12/plan.dwg",
    "cannot open naga-plan.dwg",
    "impossible d ouvrir /Projets/naga-2024.dwg",
    "naga::: cle absente",
    "calque \u{00ab}\u{00a0}naga-01\u{00a0}\u{00bb} introuvable",
    "calque \u{2014}naga-01 introuvable",
    r"impossible d ouvrir C:\Projets\wgpu\src\plan.dwg",
    r"impossible d ouvrir C:\Chantiers\graphics\src\facade.dwg",
    r"impossible d ouvrir C:\Projets\wgpu-2024\plan.dwg",
    "impossible d ouvrir /Projets/naga-123456/plan.dwg",
    "/home/runner/.cargo/git/checkouts/iced-3ba1e2e5c1e0e1a1/23604ff/widget/src/text_input.rs:12: index out of bounds",
    "\u{56fe}\u{5c42}naga-01 introuvable",
    "panicked at src/scene/mod.rs:1204:\nattempt to divide by zero",
    "panicked at src/io/dwg.rs:77:\ncalled `Option::unwrap()` on a `None` value",
    "panicked at src/app/update/mod.rs:9:\nno document",
];

#[test]
fn une_panique_de_rendu_est_reconnue_sur_toutes_les_familles_de_chemin() {
    for texte in PANIQUES_DE_RENDU {
        assert!(panique_de_rendu(texte), "ratee : {texte}");
    }
}

#[test]
fn les_deux_messages_suffisent_seuls_et_ne_sont_pas_generiques() {
    assert!(panique_de_rendu("wgpu error: Validation Error"));
    assert!(panique_de_rendu("Shader compilation failed"));
    assert!(!panique_de_rendu(
        "panicked at src/scene/mod.rs:1204:\ninternal error: entered unreachable code"
    ));
    assert!(!panique_de_rendu("error"));
    assert!(!panique_de_rendu("compilation failed"));
    assert!(!panique_de_rendu("WGPU ERROR: boom"));
}

#[test]
fn les_ancres_de_caisse_ne_se_laissent_pas_affaiblir() {
    assert!(!panique_de_rendu("/x/naga-\u{00b2}.0/src/lib.rs"));
    assert!(!panique_de_rendu("/x/swash-\u{09e9}.0/src/lib.rs"));
    assert!(!panique_de_rendu("/plans/etagere-blanc/dessin.dwg"));
    assert!(!est_de_la_pile_graphique("constructo::wgpu::pont"));
    assert!(!est_de_la_pile_graphique("wgpu:backend"));
    assert!(panique_de_rendu(
        "cannot open /naga-plan.dwg while loading /naga-29.0.4/src/lib.rs"
    ));
    assert!(panique_de_rendu("/co/cryoglyph-a1b2c3d4e5f60789/rev/src/x.rs"));
    assert!(!panique_de_rendu("/co/cryoglyph-1234567/rev/src/x.rs"));
}

#[test]
fn un_nom_de_fichier_de_menuisier_n_est_pas_une_caisse_de_rendu() {
    for chemin in [
        r"C:\Chantiers\Cuisine Tremblay\etagere-3-tablettes.dwg",
        r"C:\Armoires\etagere-24po.dwg",
        r"C:\Ilots\etagere-9-cases.dwg",
        r"C:\Garde-robe\etagere-1.dwg",
        r"C:\Projets\etagere-2\plan.dwg",
        "https://app.constructoai.ca/plans/etagere-2.dwg",
        "/plans/etagere-3.dwg",
        "/Volumes/Chantiers/Cabanon/etagere-4.dwg",
        r"C:\Atelier\guillotiere-2.dwg",
        r"C:\Rive-Sud-2024\plan-etage-2.dwg",
        r"C:\Chantiers\solive-2x10-16.dwg",
    ] {
        assert!(!panique_de_rendu(chemin), "faux positif : {chemin}");
    }
    assert!(panique_de_rendu("at /registry/src/x/etagere-0.2.15/src/allocator.rs:1:"));
}

#[test]
fn la_branche_iced_exige_un_seul_et_meme_chemin() {
    assert!(!panique_de_rendu(
        "xref /Chantiers/iced-2024abc/plan.dwg introuvable depuis \
         /Chantiers/graphics/src/facade.dwg"
    ));
    assert!(!panique_de_rendu("/x/graphics/src/y/iced-3ba1e2e5c1e0e1a1/z.rs"));
    assert!(panique_de_rendu(
        "/co/iced-3ba1e2e5c1e0e1a1/23604ff/graphics/src/compositor.rs:88:"
    ));
}

#[test]
fn chaque_cible_de_journal_gardee_a_sa_charge() {
    for (cible, caisse) in [
        ("wgpu::backend::x", "wgpu"),
        ("wgpu_core::device::x", "wgpu_core"),
        ("wgpu_hal::gles::x", "wgpu_hal"),
        ("naga::valid::x", "naga"),
        ("cosmic_text::font::x", "cosmic_text"),
        ("iced_wgpu::window::x", "iced_wgpu"),
        ("iced_graphics::compositor", "iced_graphics"),
        ("cryoglyph::text_atlas", "cryoglyph"),
        ("lyon_tessellation::fill", "lyon_tessellation"),
        ("glow::native", "glow"),
    ] {
        assert!(est_de_la_pile_graphique(cible), "l'entree `{caisse}` n'est gardee par rien");
    }
}

#[test]
fn les_sous_repertoires_de_rendu_d_iced_sont_reconnus() {
    for texte in PANIQUES_ICED_RENDU {
        assert!(panique_de_rendu(texte), "ratee : {texte}");
    }
}

#[test]
fn une_panique_ordinaire_garde_le_bandeau_et_son_bouton_copier() {
    for texte in PANIQUES_ORDINAIRES {
        assert!(!panique_de_rendu(texte), "faux positif : {texte}");
    }
}

#[test]
fn un_repertoire_de_caisse_demande_un_segment_entier_un_point_et_une_suite() {
    assert!(panique_de_rendu("at /naga-29.0.4/src/lib.rs"));
    assert!(panique_de_rendu(r"at \naga-29.0.4\src\lib.rs"));
    assert!(!panique_de_rendu("/x/mur-naga-12/y"));
    assert!(!panique_de_rendu("/x/wgpu-2024/y"));
    assert!(!panique_de_rendu("/x/naga-29.0.4"));
}

#[test]
fn la_cible_de_journal_designe_la_pile_de_rendu() {
    for cible in [
        "wgpu",
        "wgpu::backend::wgpu_core",
        "wgpu_core::device::resource",
        "wgpu_hal::gles::adapter",
        "naga::valid::interface",
        "cosmic_text::font::system",
        "iced_wgpu::window::compositor",
        "cryoglyph::text_atlas",
        "glow::native",
    ] {
        assert!(est_de_la_pile_graphique(cible), "ratee : {cible}");
    }
}

#[test]
fn la_cible_de_journal_ne_designe_pas_notre_propre_code() {
    for cible in [
        "OpenCADStudio::entities::layer",
        "OpenCADStudio",
        "iced_winit::program",
        "acadrust::io",
        "wgpuzzle::core",
        "nagareru",
        "cosmic_textile::x",
    ] {
        assert!(!est_de_la_pile_graphique(cible), "faux positif : {cible}");
    }
}

#[test]
fn glyphon_n_est_pas_gardee_car_elle_n_est_pas_une_dependance() {
    assert!(!est_de_la_pile_graphique("glyphon::text_atlas"));
    assert!(!panique_de_rendu("/x/glyphon-0.9.0/src/lib.rs"));
}

#[test]
fn every_render_family_is_recognised_in_a_registry_path() {
    for nom in [
        "wgpu-29.0.4", "wgpu-core-deps-apple-29.0.4", "naga-29.0.4", "cosmic-text-0.15.0",
        "cryoglyph-0.1.0", "etagere-0.2.15", "glow-0.16.0", "guillotiere-0.6.2",
        "lyon_geom-1.0.6", "lyon-1.0.1", "swash-0.2.6", "tiny-skia-path-0.11.4",
    ] {
        let chemin = format!("panicked at /home/x/.cargo/registry/src/idx/{nom}/src/lib.rs:1:");
        assert!(panique_de_rendu(&chemin), "caisse de rendu non couverte : {nom}");
    }
    assert!(!panique_de_rendu("panicked at /home/x/.cargo/registry/src/idx/ttf-parser-0.25.1/src/lib.rs:1:"));
}
