use rust_screenshot::settings::{ImageFormat, Settings, SettingsHandler};
use rust_screenshot::shortcuts::{Key, KeyCommand, Modifiers, Shortcut, ShortcutDraft, ShortcutManager};
use std::path::PathBuf;

fn handler() -> SettingsHandler {
    SettingsHandler::new(Settings::new(PathBuf::from("/home/user/Pictures/RustScreenshot")))
}

#[test]
fn image_format_extensions() {
    assert_eq!(ImageFormat::Png.get_ext(), "png");
    assert_eq!(ImageFormat::Jpg.get_ext(), "jpg");
    assert_eq!(ImageFormat::Gif.get_ext(), "gif");
    assert_eq!(ImageFormat::Bmp.get_ext(), "bmp");
}

#[test]
fn new_settings_defaults() {
    let s = Settings::new(PathBuf::from("/pics"));
    assert_eq!(s.get_screenshot_default_ext(), "png");
    assert_eq!(s.get_screenshot_format(), ImageFormat::Png);
    assert_eq!(s.get_screenshot_path(), &PathBuf::from("/pics"));
    assert_eq!(s.get_shortcut_manager().get_shortcuts(), ShortcutManager::new().get_shortcuts());
    assert_eq!(s.get_tmp_shortcut_manager().draft(), ShortcutDraft::empty());
}

#[test]
fn settings_from_parts_keep_parts() {
    let mut m = ShortcutManager::new();
    m.update_shortcut(KeyCommand::Copy, Shortcut::new(Modifiers::shift(), Key::C));
    let s = Settings::from_parts(m, PathBuf::from("/x"), ImageFormat::Bmp);
    assert_eq!(s.get_screenshot_default_ext(), "bmp");
    assert_eq!(s.get_shortcut_manager().get_shortcut(KeyCommand::Copy), Some(Shortcut::new(Modifiers::shift(), Key::C)));
    assert_eq!(s.get_tmp_shortcut_manager().draft(), ShortcutDraft::empty());
}

#[test]
fn setters_change_one_thing() {
    let mut s = Settings::new(PathBuf::from("/a"));
    s.set_screenshot_format(ImageFormat::Gif);
    assert_eq!(s.get_screenshot_default_ext(), "gif");
    s.set_screenshot_path(PathBuf::from("/b"));
    assert_eq!(s.get_screenshot_path(), &PathBuf::from("/b"));
    assert_eq!(s.get_screenshot_format(), ImageFormat::Gif);
}

#[test]
fn window_visibility() {
    let mut h = handler();
    assert!(!h.is_window_shown());
    h.show_window();
    assert!(h.is_window_shown());
    h.set_window_shown(false);
    assert!(!h.is_window_shown());
}

#[test]
fn handler_setters() {
    let mut h = handler();
    h.set_screenshot_format(ImageFormat::Jpg);
    assert_eq!(h.get_settings().get_screenshot_default_ext(), "jpg");
    h.set_screenshot_path(PathBuf::from("/c"));
    assert_eq!(h.get_settings().get_screenshot_path(), &PathBuf::from("/c"));
}

#[test]
fn full_shortcut_change_flow() {
    let mut h = handler();
    h.begin_shortcut_change(KeyCommand::Edit);
    assert!(h.get_shortcuts_manager().get_is_shortcut_changing());
    assert_eq!(h.get_settings().get_tmp_shortcut_manager().draft().tmp_command, Some(KeyCommand::Edit));
    // no key held: nothing captured
    h.capture_shortcut_input(None, true, false, false);
    assert_eq!(h.get_settings().get_tmp_shortcut_manager().draft().tmp_key, None);
    // key held with shift
    h.capture_shortcut_input(Some(Key::K), false, false, true);
    let d = h.get_settings().get_tmp_shortcut_manager().draft();
    assert_eq!(d.tmp_key, Some(Key::K));
    assert_eq!(d.tmp_modifier, Some(Modifiers::shift()));
    assert!(!d.is_editing_shortcut);
    // next frame the draft is complete and further keys are ignored
    h.capture_shortcut_input(Some(Key::L), true, false, false);
    let d = h.get_settings().get_tmp_shortcut_manager().draft();
    assert!(d.is_editing_shortcut);
    assert_eq!(d.tmp_key, Some(Key::K));
    h.save_shortcut_change();
    assert_eq!(h.get_shortcuts_manager().get_shortcut(KeyCommand::Edit), Some(Shortcut::new(Modifiers::shift(), Key::K)));
    assert!(!h.get_shortcuts_manager().get_is_shortcut_changing());
    let d = h.get_settings().get_tmp_shortcut_manager().draft();
    assert!(!d.is_editing_shortcut);
    assert_eq!(d.tmp_key, None);
    assert_eq!(d.tmp_modifier, None);
    assert_eq!(d.tmp_command, Some(KeyCommand::Edit));
}

#[test]
fn saving_a_used_shortcut_is_refused() {
    let mut h = handler();
    h.begin_shortcut_change(KeyCommand::Edit);
    h.capture_shortcut_input(Some(Key::C), false, true, false);
    h.capture_shortcut_input(None, false, false, false);
    h.save_shortcut_change();
    assert_eq!(h.get_shortcuts_manager().get_shortcut(KeyCommand::Edit), Some(Shortcut::new(Modifiers::command(), Key::E)));
    assert_eq!(h.get_shortcuts_manager().get_shortcut(KeyCommand::Copy), Some(Shortcut::new(Modifiers::command(), Key::C)));
    assert!(!h.get_shortcuts_manager().get_is_shortcut_changing());
}

#[test]
fn key_without_modifier_never_completes() {
    let mut h = handler();
    h.begin_shortcut_change(KeyCommand::Copy);
    h.capture_shortcut_input(Some(Key::A), false, false, false);
    h.capture_shortcut_input(Some(Key::B), false, false, false);
    let d = h.get_settings().get_tmp_shortcut_manager().draft();
    assert!(!d.is_editing_shortcut);
    assert_eq!(d.tmp_key, Some(Key::B));
    assert_eq!(d.tmp_modifier, None);
}

#[test]
fn reset_and_go_back() {
    let mut h = handler();
    h.begin_shortcut_change(KeyCommand::Copy);
    h.capture_shortcut_input(Some(Key::A), true, false, false);
    h.capture_shortcut_input(None, false, false, false);
    h.reset_shortcut_change();
    let d = h.get_settings().get_tmp_shortcut_manager().draft();
    assert!(!d.is_editing_shortcut);
    assert_eq!(d.tmp_key, None);
    assert_eq!(d.tmp_modifier, None);
    assert!(h.get_shortcuts_manager().get_is_shortcut_changing());
    h.leave_shortcut_change();
    assert!(!h.get_shortcuts_manager().get_is_shortcut_changing());
    assert_eq!(h.get_shortcuts_manager().get_shortcuts(), ShortcutManager::new().get_shortcuts());
}

#[test]
fn settings_clone_keeps_everything() {
    let mut s = Settings::new(PathBuf::from("/shots"));
    s.set_screenshot_format(ImageFormat::Gif);
    let c = s.clone();
    assert_eq!(c.get_screenshot_path(), &PathBuf::from("/shots"));
    assert_eq!(c.get_screenshot_format(), ImageFormat::Gif);
    assert_eq!(c.get_shortcut_manager().get_shortcuts(), s.get_shortcut_manager().get_shortcuts());
}
