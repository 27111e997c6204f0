use crate::shortcuts::{
    Modifiers,
    modifier_from_held, modifier_from_flags, rebind, shortcuts_distinct, KeyCommand, Key, Shortcut,
    ShortcutDraft, ShortcutManager,
};
use std::path::PathBuf;
use vstd::prelude::*;

verus! {

/// The file formats a screenshot can be saved in.
#[derive(Debug, Clone, Copy, PartialEq, Eq, Structural)]
pub enum ImageFormat {
    /// An Image in PNG Format
    Png,
    /// An Image in JPEG Format
    Jpg,
    /// An Image in GIF Format
    Gif,
    /// An Image in BMP Format
    Bmp,
}

impl ImageFormat {
    /// The file extension of the format, without the dot.
    pub open spec fn ext_spec(self) -> Seq<char> {
        match self {
            ImageFormat::Png => "png"@,
            ImageFormat::Jpg => "jpg"@,
            ImageFormat::Gif => "gif"@,
            ImageFormat::Bmp => "bmp"@,
        }
    }

    /// Different formats are saved with different extensions.
    pub proof fn lemma_ext_distinct(self, other: ImageFormat)
        ensures
            self != other ==> self.ext_spec() != other.ext_spec(),
    {
        reveal_strlit("png");
        reveal_strlit("jpg");
        reveal_strlit("gif");
        reveal_strlit("bmp");
        if self != other {
            assert(self.ext_spec()[0] != other.ext_spec()[0] || self.ext_spec()[1] != other.ext_spec()[1]);
        }
    }

    pub fn get_ext(&self) -> (ext: String)
        ensures
            ext@ == self.ext_spec(),
    {
        match self {
            ImageFormat::Png => String::from_str("png"),
            ImageFormat::Jpg => String::from_str("jpg"),
            ImageFormat::Gif => String::from_str("gif"),
            ImageFormat::Bmp => String::from_str("bmp"),
        }
    }
}

/// A path of the file system, carried through unchanged.
#[verifier::external_type_specification]
#[verifier::external_body]
pub struct ExPathBuf(PathBuf);

/// `<PathBuf as Clone>::clone`: std documents a clone as a copy of the value,
/// so the copy is the same path.
pub assume_specification[ <PathBuf as Clone>::clone ](path: &PathBuf) -> (copy: PathBuf)
    ensures
        copy == *path,
;

/// What the user has chosen: the shortcuts, where screenshots go and in which format.
#[derive(Debug, Clone)]
pub struct Settings {
    shortcut_manager: ShortcutManager,
    screenshot_path: PathBuf,
    screenshot_default_ext: ImageFormat,
    /// Holds the shortcut being edited in the settings window; never saved.
    tmp_shortcut_manager: ShortcutManager,
}

impl Settings {
    pub closed spec fn shortcuts(&self) -> ShortcutManager {
        self.shortcut_manager
    }

    pub closed spec fn editing(&self) -> ShortcutManager {
        self.tmp_shortcut_manager
    }

    pub closed spec fn path(&self) -> PathBuf {
        self.screenshot_path
    }

    pub closed spec fn format(&self) -> ImageFormat {
        self.screenshot_default_ext
    }

    /// The settings a first run starts with: the default shortcuts, PNG, and
    /// screenshots saved in `screenshot_path`.
    pub fn new(screenshot_path: PathBuf) -> (settings: Self)
        ensures
            settings.shortcuts()@ == crate::shortcuts::default_bindings(),
            !settings.shortcuts().changing(),
            settings.shortcuts().draft() == ShortcutDraft::empty(),
            settings.editing()@ == crate::shortcuts::default_bindings(),
            !settings.editing().changing(),
            settings.editing().draft() == ShortcutDraft::empty(),
            settings.path() == screenshot_path,
            settings.format() == ImageFormat::Png,
    {
        Settings {
            shortcut_manager: ShortcutManager::new(),
            screenshot_path,
            screenshot_default_ext: ImageFormat::Png,
            tmp_shortcut_manager: ShortcutManager::new(),
        }
    }

    /// Settings made of saved parts; the editing draft starts fresh, since it is never saved.
    pub fn from_parts(shortcut_manager: ShortcutManager, screenshot_path: PathBuf, screenshot_default_ext: ImageFormat) -> (settings: Self)
        ensures
            settings.shortcuts() == shortcut_manager,
            settings.editing()@ == crate::shortcuts::default_bindings(),
            !settings.editing().changing(),
            settings.editing().draft() == ShortcutDraft::empty(),
            settings.path() == screenshot_path,
            settings.format() == screenshot_default_ext,
    {
        Settings {
            shortcut_manager,
            screenshot_path,
            screenshot_default_ext,
            tmp_shortcut_manager: ShortcutManager::new(),
        }
    }

    /// The extension of the format screenshots are saved in.
    pub fn get_screenshot_default_ext(&self) -> (ext: String)
        ensures
            ext@ == self.format().ext_spec(),
    {
        self.screenshot_default_ext.get_ext()
    }

    pub fn get_screenshot_format(&self) -> (format: ImageFormat)
        ensures
            format == self.format(),
    {
        self.screenshot_default_ext
    }

    pub fn set_screenshot_format(&mut self, format: ImageFormat)
        ensures
            final(self).format() == format,
            final(self).shortcuts() == old(self).shortcuts(),
            final(self).editing() == old(self).editing(),
            final(self).path() == old(self).path(),
    {
        self.screenshot_default_ext = format;
    }

    pub fn get_screenshot_path(&self) -> (path: &PathBuf)
        ensures
            *path == self.path(),
    {
        &self.screenshot_path
    }

    pub fn set_screenshot_path(&mut self, path: PathBuf)
        ensures
            final(self).path() == path,
            final(self).shortcuts() == old(self).shortcuts(),
            final(self).editing() == old(self).editing(),
            final(self).format() == old(self).format(),
    {
        self.screenshot_path = path;
    }

    pub fn get_shortcut_manager(&self) -> (manager: &ShortcutManager)
        ensures
            *manager == self.shortcuts(),
    {
        &self.shortcut_manager
    }

    /// The manager that holds the shortcut being edited.
    pub fn get_tmp_shortcut_manager(&self) -> (manager: &ShortcutManager)
        ensures
            *manager == self.editing(),
    {
        &self.tmp_shortcut_manager
    }
}

/// The draft after one frame of input while a new shortcut is awaited: a
/// draft that holds both a key and a modifier is complete; an incomplete draft
/// takes the first key held down, if any, with the modifier picked from the
/// held modifier keys.
pub open spec fn draft_after_input(draft: ShortcutDraft, pressed: Option<Key>, alt: bool, command: bool, shift: bool) -> ShortcutDraft {
    let editing = draft.is_editing_shortcut || (draft.tmp_modifier is Some && draft.tmp_key is Some);
    if editing {
        ShortcutDraft { is_editing_shortcut: true, ..draft }
    } else {
        match pressed {
            Some(key) => ShortcutDraft {
                is_editing_shortcut: false,
                tmp_key: Some(key),
                tmp_modifier: modifier_from_held(alt, command, shift),
                ..draft
            },
            None => draft,
        }
    }
}

/// One frame of input while a new shortcut is awaited: a draft that holds a
/// key and a modifier becomes complete and keeps them, whatever is pressed; an
/// incomplete draft takes the first key held down, with the modifier picked
/// from the held modifier keys (alt first, then command, then shift), and is
/// left alone when no key is held. The command and the stored shortcut never
/// change.
pub proof fn lemma_draft_after_input(draft: ShortcutDraft, pressed: Option<Key>, alt: bool, command: bool, shift: bool)
    ensures
        ({
            let after = draft_after_input(draft, pressed, alt, command, shift);
            &&& after.tmp_command == draft.tmp_command
            &&& after.tmp_shortcut == draft.tmp_shortcut
            &&& (draft.is_editing_shortcut || (draft.tmp_key is Some && draft.tmp_modifier is Some)) ==> {
                &&& after.is_editing_shortcut
                &&& after.tmp_key == draft.tmp_key
                &&& after.tmp_modifier == draft.tmp_modifier
            }
            &&& !(draft.is_editing_shortcut || (draft.tmp_key is Some && draft.tmp_modifier is Some)) ==> {
                &&& !after.is_editing_shortcut
                &&& pressed is None ==> after == draft
                &&& pressed matches Some(key) ==> after.tmp_key == Some(key)
                    && (alt ==> after.tmp_modifier == Some(Modifiers::spec_alt()))
                    && (!alt && command ==> after.tmp_modifier == Some(Modifiers::spec_command()))
                    && (!alt && !command && shift ==> after.tmp_modifier == Some(Modifiers::spec_shift()))
                    && (!alt && !command && !shift ==> after.tmp_modifier is None)
            }
        }),
{
    crate::shortcuts::lemma_modifier_priority(alt, command, shift);
}

/// Clearing a draft drops its key and modifier and makes it incomplete; the
/// command and the stored shortcut stay.
pub proof fn lemma_draft_cleared(draft: ShortcutDraft)
    ensures
        draft_cleared(draft).tmp_key is None,
        draft_cleared(draft).tmp_modifier is None,
        !draft_cleared(draft).is_editing_shortcut,
        draft_cleared(draft).tmp_command == draft.tmp_command,
        draft_cleared(draft).tmp_shortcut == draft.tmp_shortcut,
{
}

/// The draft with its key, modifier and completeness cleared; the command stays.
pub open spec fn draft_cleared(draft: ShortcutDraft) -> ShortcutDraft {
    ShortcutDraft { is_editing_shortcut: false, tmp_key: None, tmp_modifier: None, ..draft }
}

/// The settings and whether their window is open.
pub struct SettingsHandler {
    show_window: bool,
    settings: Settings,
}

impl SettingsHandler {
    pub closed spec fn window_shown(&self) -> bool {
        self.show_window
    }

    pub closed spec fn current(&self) -> Settings {
        self.settings
    }

    /// A handler with its window closed.
    pub fn new(settings: Settings) -> (handler: Self)
        ensures
            handler.current() == settings,
            !handler.window_shown(),
    {
        SettingsHandler { show_window: false, settings }
    }

    pub fn get_settings(&self) -> (settings: &Settings)
        ensures
            *settings == self.current(),
    {
        &self.settings
    }

    pub fn get_shortcuts_manager(&self) -> (manager: &ShortcutManager)
        ensures
            *manager == self.current().shortcuts(),
    {
        &self.settings.shortcut_manager
    }

    /// Opens the settings window.
    pub fn show_window(&mut self)
        ensures
            final(self).window_shown(),
            final(self).current() == old(self).current(),
    {
        self.show_window = true;
    }

    pub fn is_window_shown(&self) -> (shown: bool)
        ensures
            shown == self.window_shown(),
    {
        self.show_window
    }

    /// Records whether the window is open (it closes from its title bar).
    pub fn set_window_shown(&mut self, shown: bool)
        ensures
            final(self).window_shown() == shown,
            final(self).current() == old(self).current(),
    {
        self.show_window = shown;
    }

    /// Changes the screenshot format chosen in the window.
    pub fn set_screenshot_format(&mut self, format: ImageFormat)
        ensures
            final(self).current().format() == format,
            final(self).current().shortcuts() == old(self).current().shortcuts(),
            final(self).current().editing() == old(self).current().editing(),
            final(self).current().path() == old(self).current().path(),
            final(self).window_shown() == old(self).window_shown(),
    {
        self.settings.set_screenshot_format(format);
    }

    /// Changes the folder screenshots are saved in.
    pub fn set_screenshot_path(&mut self, path: PathBuf)
        ensures
            final(self).current().path() == path,
            final(self).current().shortcuts() == old(self).current().shortcuts(),
            final(self).current().editing() == old(self).current().editing(),
            final(self).current().format() == old(self).current().format(),
            final(self).window_shown() == old(self).window_shown(),
    {
        self.settings.set_screenshot_path(path);
    }

    /// "Edit" next to `command`: the window starts waiting for its new shortcut.
    pub fn begin_shortcut_change(&mut self, command: KeyCommand)
        ensures
            final(self).current().shortcuts().changing(),
            final(self).current().shortcuts()@ == old(self).current().shortcuts()@,
            final(self).current().shortcuts().draft() == old(self).current().shortcuts().draft(),
            final(self).current().editing().draft() == (ShortcutDraft { tmp_command: Some(command), ..old(self).current().editing().draft() }),
            final(self).current().editing()@ == old(self).current().editing()@,
            final(self).current().editing().changing() == old(self).current().editing().changing(),
            final(self).current().path() == old(self).current().path(),
            final(self).current().format() == old(self).current().format(),
            final(self).window_shown() == old(self).window_shown(),
    {
        self.settings.shortcut_manager.set_is_shortcut_changing(true);
        let draft = self.settings.tmp_shortcut_manager.draft();
        self.settings.tmp_shortcut_manager.set_draft(ShortcutDraft { tmp_command: Some(command), ..draft });
    }

    /// One frame of keyboard input while a new shortcut is awaited: `pressed` is
    /// the first key held down, and the flags tell which modifier keys are held.
    pub fn capture_shortcut_input(&mut self, pressed: Option<Key>, alt: bool, command: bool, shift: bool)
        ensures
            final(self).current().editing().draft() == draft_after_input(old(self).current().editing().draft(), pressed, alt, command, shift),
            final(self).current().editing()@ == old(self).current().editing()@,
            final(self).current().editing().changing() == old(self).current().editing().changing(),
            final(self).current().shortcuts() == old(self).current().shortcuts(),
            final(self).current().path() == old(self).current().path(),
            final(self).current().format() == old(self).current().format(),
            final(self).window_shown() == old(self).window_shown(),
    {
        let mut draft = self.settings.tmp_shortcut_manager.draft();
        if draft.tmp_modifier.is_some() && draft.tmp_key.is_some() {
            draft.is_editing_shortcut = true;
        }
        if !draft.is_editing_shortcut {
            match pressed {
                Some(key) => {
                    draft.tmp_key = Some(key);
                    draft.tmp_modifier = modifier_from_flags(alt, command, shift);
                },
                None => {},
            }
        }
        self.settings.tmp_shortcut_manager.set_draft(draft);
    }

    /// "Go back": the window stops waiting for a shortcut; the draft stays.
    pub fn leave_shortcut_change(&mut self)
        ensures
            !final(self).current().shortcuts().changing(),
            final(self).current().shortcuts()@ == old(self).current().shortcuts()@,
            final(self).current().shortcuts().draft() == old(self).current().shortcuts().draft(),
            final(self).current().editing() == old(self).current().editing(),
            final(self).current().path() == old(self).current().path(),
            final(self).current().format() == old(self).current().format(),
            final(self).window_shown() == old(self).window_shown(),
    {
        self.settings.shortcut_manager.set_is_shortcut_changing(false);
    }

    /// "Save" on a complete draft: the draft's command is bound to its
    /// shortcut unless another binding already uses it; then the draft is
    /// cleared and the window stops waiting.
    pub fn save_shortcut_change(&mut self)
        requires
            old(self).current().editing().draft().is_editing_shortcut,
            old(self).current().editing().draft().tmp_command is Some,
            old(self).current().editing().draft().tmp_modifier is Some,
            old(self).current().editing().draft().tmp_key is Some,
        ensures
            final(self).current().shortcuts()@ == rebind(
                old(self).current().shortcuts()@,
                old(self).current().editing().draft().tmp_command->0,
                Shortcut {
                    key: old(self).current().editing().draft().tmp_key->0,
                    modifier: old(self).current().editing().draft().tmp_modifier->0,
                },
            ),
            shortcuts_distinct(old(self).current().shortcuts()@) ==> shortcuts_distinct(final(self).current().shortcuts()@),
            !final(self).current().shortcuts().changing(),
            final(self).current().shortcuts().draft() == old(self).current().shortcuts().draft(),
            final(self).current().editing().draft() == draft_cleared(old(self).current().editing().draft()),
            final(self).current().editing()@ == old(self).current().editing()@,
            final(self).current().editing().changing() == old(self).current().editing().changing(),
            final(self).current().path() == old(self).current().path(),
            final(self).current().format() == old(self).current().format(),
            final(self).window_shown() == old(self).window_shown(),
    {
        let draft = self.settings.tmp_shortcut_manager.draft();
        let command = draft.tmp_command.unwrap();
        let modifier = draft.tmp_modifier.unwrap();
        let key = draft.tmp_key.unwrap();
        self.settings.shortcut_manager.update_shortcut(command, Shortcut::new(modifier, key));
        self.settings.tmp_shortcut_manager.set_draft(ShortcutDraft {
            is_editing_shortcut: false,
            tmp_key: None,
            tmp_modifier: None,
            ..draft
        });
        self.settings.shortcut_manager.set_is_shortcut_changing(false);
    }

    /// "Reset": the draft's key, modifier and completeness are cleared.
    pub fn reset_shortcut_change(&mut self)
        ensures
            final(self).current().editing().draft() == draft_cleared(old(self).current().editing().draft()),
            final(self).current().editing()@ == old(self).current().editing()@,
            final(self).current().editing().changing() == old(self).current().editing().changing(),
            final(self).current().shortcuts() == old(self).current().shortcuts(),
            final(self).current().path() == old(self).current().path(),
            final(self).current().format() == old(self).current().format(),
            final(self).window_shown() == old(self).window_shown(),
    {
        let draft = self.settings.tmp_shortcut_manager.draft();
        self.settings.tmp_shortcut_manager.set_draft(draft_cleared_exec(draft));
    }
}

fn draft_cleared_exec(draft: ShortcutDraft) -> (cleared: ShortcutDraft)
    ensures
        cleared == draft_cleared(draft),
{
    ShortcutDraft { is_editing_shortcut: false, tmp_key: None, tmp_modifier: None, ..draft }
}

} // verus!
