use rust_screenshot::shortcuts::{
    modifier_from_flags, modifier_to_string, shortcut_text, Key, KeyCommand, Modifiers, Shortcut, ShortcutDraft,
    ShortcutManager,
};

fn sc(modifier: Modifiers, key: Key) -> Shortcut {
    Shortcut::new(modifier, key)
}

#[test]
fn key_command_labels() {
    assert_eq!(KeyCommand::Edit.to_string(), "Edit");
    assert_eq!(KeyCommand::SaveScreenshot.to_string(), "Save as");
    assert_eq!(KeyCommand::TakeScreenshot.to_string(), "Take Screenshot");
    assert_eq!(KeyCommand::QuickSaveScreenshot.to_string(), "Quick save");
    assert_eq!(KeyCommand::NoAction.to_string(), "None");
    assert_eq!(KeyCommand::Copy.to_string(), "Copy");
}

#[test]
fn key_command_codes_follow_declaration_order() {
    assert_eq!(KeyCommand::SaveScreenshot.code(), 0);
    assert_eq!(KeyCommand::QuickSaveScreenshot.code(), 1);
    assert_eq!(KeyCommand::TakeScreenshot.code(), 2);
    assert_eq!(KeyCommand::Edit.code(), 3);
    assert_eq!(KeyCommand::Copy.code(), 4);
    assert_eq!(KeyCommand::NoAction.code(), 5);
}

#[test]
fn modifier_names() {
    assert_eq!(modifier_to_string(Modifiers::command(), false), "Ctrl");
    assert_eq!(modifier_to_string(Modifiers::command(), true), "Command");
    assert_eq!(modifier_to_string(Modifiers::alt(), false), "Alt");
    assert_eq!(modifier_to_string(Modifiers::shift(), true), "Shift");
    assert_eq!(modifier_to_string(Modifiers::ctrl(), false), "");
    assert_eq!(modifier_to_string(Modifiers::none(), false), "");
    assert_eq!(modifier_to_string(Modifiers::mac_cmd(), true), "");
}

#[test]
fn modifier_constants() {
    let c = Modifiers::command();
    assert!(c.command && !c.ctrl && !c.alt && !c.shift && !c.mac_cmd);
    let a = Modifiers::alt();
    assert!(a.alt && !a.command);
    assert_eq!(Modifiers::none(), Modifiers { alt: false, ctrl: false, shift: false, mac_cmd: false, command: false });
}

#[test]
fn modifier_from_held_keys_prefers_alt_then_command_then_shift() {
    assert_eq!(modifier_from_flags(true, true, true), Some(Modifiers::alt()));
    assert_eq!(modifier_from_flags(false, true, true), Some(Modifiers::command()));
    assert_eq!(modifier_from_flags(false, false, true), Some(Modifiers::shift()));
    assert_eq!(modifier_from_flags(false, false, false), None);
}

#[test]
fn new_manager_has_default_bindings() {
    let m = ShortcutManager::new();
    assert_eq!(m.get_shortcut(KeyCommand::SaveScreenshot), Some(sc(Modifiers::command(), Key::A)));
    assert_eq!(m.get_shortcut(KeyCommand::Edit), Some(sc(Modifiers::command(), Key::E)));
    assert_eq!(m.get_shortcut(KeyCommand::Copy), Some(sc(Modifiers::command(), Key::C)));
    assert_eq!(m.get_shortcut(KeyCommand::QuickSaveScreenshot), Some(sc(Modifiers::alt(), Key::Q)));
    assert_eq!(m.get_shortcut(KeyCommand::TakeScreenshot), Some(sc(Modifiers::alt(), Key::S)));
    assert_eq!(m.get_shortcut(KeyCommand::NoAction), None);
    assert!(!m.get_is_shortcut_changing());
    assert_eq!(m.draft(), ShortcutDraft::empty());
}

#[test]
fn default_equals_new() {
    let a = ShortcutManager::default();
    let b = ShortcutManager::new();
    assert_eq!(a.get_shortcuts(), b.get_shortcuts());
}

#[test]
fn shortcuts_are_listed_in_command_order() {
    let m = ShortcutManager::new();
    let list = m.get_shortcuts();
    assert_eq!(
        list,
        vec![
            (KeyCommand::SaveScreenshot, sc(Modifiers::command(), Key::A)),
            (KeyCommand::QuickSaveScreenshot, sc(Modifiers::alt(), Key::Q)),
            (KeyCommand::TakeScreenshot, sc(Modifiers::alt(), Key::S)),
            (KeyCommand::Edit, sc(Modifiers::command(), Key::E)),
            (KeyCommand::Copy, sc(Modifiers::command(), Key::C)),
        ]
    );
}

#[test]
fn update_with_free_shortcut_rebinds_command() {
    let mut m = ShortcutManager::new();
    m.update_shortcut(KeyCommand::Edit, sc(Modifiers::shift(), Key::F5));
    assert_eq!(m.get_shortcut(KeyCommand::Edit), Some(sc(Modifiers::shift(), Key::F5)));
    assert_eq!(m.get_shortcut(KeyCommand::Copy), Some(sc(Modifiers::command(), Key::C)));
    assert_eq!(m.get_shortcuts().len(), 5);
}

#[test]
fn update_with_used_shortcut_changes_nothing() {
    let mut m = ShortcutManager::new();
    let before = m.get_shortcuts();
    m.update_shortcut(KeyCommand::Edit, sc(Modifiers::command(), Key::C));
    assert_eq!(m.get_shortcuts(), before);
    m.update_shortcut(KeyCommand::NoAction, sc(Modifiers::alt(), Key::Q));
    assert_eq!(m.get_shortcut(KeyCommand::NoAction), None);
    assert_eq!(m.get_shortcuts(), before);
}

#[test]
fn update_can_bind_the_unbound_command() {
    let mut m = ShortcutManager::new();
    m.update_shortcut(KeyCommand::NoAction, sc(Modifiers::alt(), Key::Num1));
    assert_eq!(m.get_shortcut(KeyCommand::NoAction), Some(sc(Modifiers::alt(), Key::Num1)));
    assert_eq!(m.get_shortcuts().last(), Some(&(KeyCommand::NoAction, sc(Modifiers::alt(), Key::Num1))));
}

#[test]
fn update_twice_is_update_once() {
    let mut once = ShortcutManager::new();
    once.update_shortcut(KeyCommand::Copy, sc(Modifiers::ctrl(), Key::X));
    let mut twice = ShortcutManager::new();
    twice.update_shortcut(KeyCommand::Copy, sc(Modifiers::ctrl(), Key::X));
    twice.update_shortcut(KeyCommand::Copy, sc(Modifiers::ctrl(), Key::X));
    assert_eq!(once.get_shortcuts(), twice.get_shortcuts());
}

#[test]
fn bindings_stay_distinct_after_updates() {
    let mut m = ShortcutManager::new();
    m.update_shortcut(KeyCommand::Edit, sc(Modifiers::alt(), Key::S));
    m.update_shortcut(KeyCommand::Copy, sc(Modifiers::command(), Key::A));
    m.update_shortcut(KeyCommand::Copy, sc(Modifiers::command(), Key::E));
    let list = m.get_shortcuts();
    for i in 0..list.len() {
        for j in 0..list.len() {
            if i != j {
                assert_ne!(list[i].1, list[j].1);
            }
        }
    }
}

#[test]
fn changing_flag_round_trip() {
    let mut m = ShortcutManager::new();
    m.set_is_shortcut_changing(true);
    assert!(m.get_is_shortcut_changing());
    m.set_is_shortcut_changing(false);
    assert!(!m.get_is_shortcut_changing());
}

#[test]
fn from_parts_later_entries_win() {
    let draft = ShortcutDraft { tmp_command: Some(KeyCommand::Copy), ..ShortcutDraft::empty() };
    let m = ShortcutManager::from_parts(
        vec![
            (KeyCommand::Edit, sc(Modifiers::alt(), Key::E)),
            (KeyCommand::Edit, sc(Modifiers::shift(), Key::E)),
            (KeyCommand::Copy, sc(Modifiers::alt(), Key::C)),
        ],
        true,
        draft,
    );
    assert_eq!(
        m.get_shortcuts(),
        vec![(KeyCommand::Edit, sc(Modifiers::shift(), Key::E)), (KeyCommand::Copy, sc(Modifiers::alt(), Key::C))]
    );
    assert!(m.get_is_shortcut_changing());
    assert_eq!(m.draft(), draft);
}

#[test]
fn set_draft_keeps_bindings() {
    let mut m = ShortcutManager::new();
    let draft = ShortcutDraft { tmp_key: Some(Key::Z), ..ShortcutDraft::empty() };
    m.set_draft(draft);
    assert_eq!(m.draft(), draft);
    assert_eq!(m.get_shortcuts(), ShortcutManager::new().get_shortcuts());
}

#[test]
fn shortcut_texts() {
    assert_eq!(shortcut_text(Modifiers::command(), "A", false), "Ctrl + A");
    assert_eq!(shortcut_text(Modifiers::command(), "A", true), "Command + A");
    assert_eq!(shortcut_text(Modifiers::alt(), "F5", false), "Alt + F5");
    assert_eq!(shortcut_text(Modifiers::ctrl(), "Q", false), " + Q");
}

#[test]
fn rebuilding_from_the_list_gives_the_same_bindings() {
    let mut m = ShortcutManager::new();
    m.update_shortcut(KeyCommand::NoAction, sc(Modifiers::shift(), Key::Tab));
    m.update_shortcut(KeyCommand::Edit, sc(Modifiers::alt(), Key::F2));
    let rebuilt = ShortcutManager::from_parts(m.get_shortcuts(), m.get_is_shortcut_changing(), m.draft());
    assert_eq!(rebuilt.get_shortcuts(), m.get_shortcuts());
    for c in [KeyCommand::SaveScreenshot, KeyCommand::QuickSaveScreenshot, KeyCommand::TakeScreenshot, KeyCommand::Edit, KeyCommand::Copy, KeyCommand::NoAction] {
        assert_eq!(rebuilt.get_shortcut(c), m.get_shortcut(c));
    }
}

#[test]
fn clone_keeps_everything() {
    let mut m = ShortcutManager::new();
    m.set_is_shortcut_changing(true);
    m.set_draft(ShortcutDraft { tmp_key: Some(Key::X), ..ShortcutDraft::empty() });
    let c = m.clone();
    assert_eq!(c.get_shortcuts(), m.get_shortcuts());
    assert!(c.get_is_shortcut_changing());
    assert_eq!(c.draft(), m.draft());
}
