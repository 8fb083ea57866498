use simple_game_examples::backend::{BackendConf, KeyCode, KeyMods, MouseButton};

#[test]
fn key_codes_follow_the_table() {
    assert_eq!(KeyCode::from(0u32), KeyCode::Space);
    assert_eq!(KeyCode::from(6u32), KeyCode::Key0);
    assert_eq!(KeyCode::from(18u32), KeyCode::A);
    assert_eq!(KeyCode::from(43u32), KeyCode::Z);
    assert_eq!(KeyCode::from(50u32), KeyCode::Escape);
    assert_eq!(KeyCode::from(69u32), KeyCode::F1);
    assert_eq!(KeyCode::from(119u32), KeyCode::Menu);
}

#[test]
fn key_codes_beyond_the_table_are_unknown() {
    assert_eq!(KeyCode::from(120u32), KeyCode::Unknown);
    assert_eq!(KeyCode::from(u32::MAX), KeyCode::Unknown);
}

#[test]
fn backend_conf_default_is_an_untitled_window() {
    let conf = BackendConf::default();
    assert_eq!(conf.window_title, "");
    assert_eq!(conf.window_width, 800);
    assert_eq!(conf.window_height, 600);
    assert!(!conf.fullscreen);
    assert!(conf.window_resizable);
}

#[test]
fn key_mods_default_holds_nothing() {
    let mods = KeyMods::default();
    assert!(!mods.shift && !mods.ctrl && !mods.alt && !mods.logo);
}

#[test]
fn mouse_buttons_compare() {
    assert_eq!(MouseButton::Left, MouseButton::Left);
    assert_ne!(MouseButton::Left, MouseButton::Right);
}
