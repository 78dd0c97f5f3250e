use opencadstudio::sys::web_diag::{log_record, panic_screen, typed_characters, PanicScreen, BannerAction, BannerState, MAX_LINES, MAX_TYPED};

#[test]
fn a_repeated_message_collapses_into_one_counted_line() {
    let mut banner = BannerState::new();
    let BannerAction::Append { drop_first, text } = banner.show_banner("boom", 0) else {
        panic!("a new message is appended");
    };
    assert!(!drop_first);
    assert_eq!(text, "boom");
    let BannerAction::RewriteLast(line) = banner.show_banner("boom", 1) else {
        panic!("the same message rewrites the last line");
    };
    assert_eq!(line, "boom (x2)");
    for _ in 0..9 {
        banner.show_banner("boom", 1);
    }
    let BannerAction::RewriteLast(line) = banner.show_banner("boom", 1) else {
        panic!("still the same message");
    };
    assert_eq!(line, "boom (x12)");
}

#[test]
fn a_full_banner_drops_its_oldest_line() {
    let mut banner = BannerState::new();
    banner.show_banner("a", 0);
    let BannerAction::Append { drop_first, text } = banner.show_banner("b", MAX_LINES) else {
        panic!("a new message is appended");
    };
    assert!(drop_first);
    assert_eq!(text, "b");
    let BannerAction::Append { drop_first, .. } = banner.show_banner("a", MAX_LINES - 1) else {
        panic!("a message that is not the last one is new again");
    };
    assert!(!drop_first);
}

#[test]
fn rendering_records_stay_in_the_console() {
    assert_eq!(log_record("wgpu::backend", "Validation Error"), ("[wgpu::backend] Validation Error".to_string(), false));
    assert_eq!(log_record("OpenCADStudio::io", "bad file"), ("[OpenCADStudio::io] bad file".to_string(), true));
}

#[test]
fn pasted_text_is_typed_without_controls_and_capped() {
    assert_eq!(typed_characters("a\tb\nc\u{7f}d"), vec!['a', 'b', 'c', 'd']);
    let long: String = std::iter::repeat("x\n").take(2000).collect();
    let typed = typed_characters(&long);
    assert_eq!(typed.len(), MAX_TYPED);
    assert!(typed.iter().all(|c| *c == 'x'));
    assert!(typed_characters("").is_empty());
}

#[test]
fn after_dismiss_a_repeated_message_is_shown_again() {
    let mut banner = BannerState::new();
    banner.show_banner("boom", 0);
    banner.show_banner("boom", 1);
    // The user dismissed the banner: no line is shown any more.
    let BannerAction::Append { drop_first, text } = banner.show_banner("boom", 0) else {
        panic!("with no line shown, the message must be appended");
    };
    assert!(!drop_first);
    assert_eq!(text, "boom");
    let BannerAction::RewriteLast(line) = banner.show_banner("boom", 1) else {
        panic!("once shown again, a repeat rewrites the line");
    };
    assert_eq!(line, "boom (x2)");
}

#[test]
fn a_render_panic_replaces_the_page_and_any_other_goes_to_the_banner() {

    assert_eq!(panic_screen("panicked at /x/naga-29.0.4/src/lib.rs:1: boom"), PanicScreen::Fatal);
    assert_eq!(panic_screen("panicked at src/app/update/mod.rs:9:\nno document"), PanicScreen::Banner);
}
