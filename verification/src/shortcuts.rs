use std::collections::HashMap;
use vstd::prelude::*;

verus! {

/// The actions of the tool that can be bound to a keyboard shortcut.
#[derive(Debug, Clone, Copy, PartialEq, Eq, Structural, PartialOrd, Ord, Hash)]
pub enum KeyCommand {
    SaveScreenshot,
    QuickSaveScreenshot,
    TakeScreenshot,
    Edit,
    Copy,
    /// No action bound.
    NoAction,
}

/// Number of distinct commands; every command has a code below it.
pub const COMMAND_COUNT: u8 = 6;

impl KeyCommand {
    /// The position of the command in declaration order.
    pub open spec fn code_of(self) -> u8 {
        match self {
            KeyCommand::SaveScreenshot => 0,
            KeyCommand::QuickSaveScreenshot => 1,
            KeyCommand::TakeScreenshot => 2,
            KeyCommand::Edit => 3,
            KeyCommand::Copy => 4,
            KeyCommand::NoAction => 5,
        }
    }

    /// The command whose code is `code` (codes from `COMMAND_COUNT` on give `NoAction`).
    pub open spec fn with_code(code: u8) -> KeyCommand {
        if code == 0 {
            KeyCommand::SaveScreenshot
        } else if code == 1 {
            KeyCommand::QuickSaveScreenshot
        } else if code == 2 {
            KeyCommand::TakeScreenshot
        } else if code == 3 {
            KeyCommand::Edit
        } else if code == 4 {
            KeyCommand::Copy
        } else {
            KeyCommand::NoAction
        }
    }

    /// The text shown for the command in the settings window.
    pub open spec fn label(self) -> Seq<char> {
        match self {
            KeyCommand::Edit => "Edit"@,
            KeyCommand::SaveScreenshot => "Save as"@,
            KeyCommand::TakeScreenshot => "Take Screenshot"@,
            KeyCommand::QuickSaveScreenshot => "Quick save"@,
            KeyCommand::NoAction => "None"@,
            KeyCommand::Copy => "Copy"@,
        }
    }

    /// Codes identify commands: two commands with one code are the same command.
    pub proof fn lemma_code_injective(a: KeyCommand, b: KeyCommand)
        ensures
            a.code_of() < COMMAND_COUNT,
            KeyCommand::with_code(a.code_of()) == a,
            a.code_of() == b.code_of() ==> a == b,
    {
    }

    /// Different commands are shown with different labels.
    pub proof fn lemma_labels_distinct(a: KeyCommand, b: KeyCommand)
        ensures
            a != b ==> a.label() != b.label(),
    {
        reveal_strlit("Edit");
        reveal_strlit("Save as");
        reveal_strlit("Take Screenshot");
        reveal_strlit("Quick save");
        reveal_strlit("None");
        reveal_strlit("Copy");
        if a != b {
            assert(a.label()[0] != b.label()[0]);
        }
    }

    pub fn code(&self) -> (code: u8)
        ensures
            code == self.code_of(),
    {
        match self {
            KeyCommand::SaveScreenshot => 0,
            KeyCommand::QuickSaveScreenshot => 1,
            KeyCommand::TakeScreenshot => 2,
            KeyCommand::Edit => 3,
            KeyCommand::Copy => 4,
            KeyCommand::NoAction => 5,
        }
    }

    fn from_code(code: u8) -> (command: KeyCommand)
        requires
            code < COMMAND_COUNT,
        ensures
            command == KeyCommand::with_code(code),
            command.code_of() == code,
    {
        if code == 0 {
            KeyCommand::SaveScreenshot
        } else if code == 1 {
            KeyCommand::QuickSaveScreenshot
        } else if code == 2 {
            KeyCommand::TakeScreenshot
        } else if code == 3 {
            KeyCommand::Edit
        } else if code == 4 {
            KeyCommand::Copy
        } else {
            KeyCommand::NoAction
        }
    }

    /// The text shown for the command in the settings window.
    pub fn to_string(&self) -> (text: String)
        ensures
            text@ == self.label(),
    {
        match self {
            KeyCommand::Edit => String::from_str("Edit"),
            KeyCommand::SaveScreenshot => String::from_str("Save as"),
            KeyCommand::TakeScreenshot => String::from_str("Take Screenshot"),
            KeyCommand::QuickSaveScreenshot => String::from_str("Quick save"),
            KeyCommand::NoAction => String::from_str("None"),
            KeyCommand::Copy => String::from_str("Copy"),
        }
    }
}

/// The physical keys that a shortcut can use.
#[derive(Debug, Clone, Copy, PartialEq, Eq, Structural, Hash)]
pub enum Key {
    ArrowDown,
    ArrowLeft,
    ArrowRight,
    ArrowUp,
    Escape,
    Tab,
    Backspace,
    Enter,
    Space,
    Insert,
    Delete,
    Home,
    End,
    PageUp,
    PageDown,
    Minus,
    PlusEquals,
    Num0,
    Num1,
    Num2,
    Num3,
    Num4,
    Num5,
    Num6,
    Num7,
    Num8,
    Num9,
    A,
    B,
    C,
    D,
    E,
    F,
    G,
    H,
    I,
    J,
    K,
    L,
    M,
    N,
    O,
    P,
    Q,
    R,
    S,
    T,
    U,
    V,
    W,
    X,
    Y,
    Z,
    F1,
    F2,
    F3,
    F4,
    F5,
    F6,
    F7,
    F8,
    F9,
    F10,
    F11,
    F12,
    F13,
    F14,
    F15,
    F16,
    F17,
    F18,
    F19,
    F20,
}

/// The modifier keys held together with a key.
#[derive(Debug, Clone, Copy, PartialEq, Eq, Structural, Hash)]
pub struct Modifiers {
    /// Either of the alt keys (option on Mac).
    pub alt: bool,
    /// Either of the control keys.
    pub ctrl: bool,
    /// Either of the shift keys.
    pub shift: bool,
    /// The Mac command key; always `false` on other platforms.
    pub mac_cmd: bool,
    /// The platform's command key: command on Mac, control elsewhere.
    pub command: bool,
}

impl Modifiers {
    /// No modifier held.
    pub open spec fn spec_none() -> Modifiers {
        Modifiers { alt: false, ctrl: false, shift: false, mac_cmd: false, command: false }
    }

    /// No modifier held.
    #[verifier::when_used_as_spec(spec_none)]
    pub fn none() -> (m: Modifiers)
        ensures
            m == Modifiers::spec_none(),
    {
        Modifiers { alt: false, ctrl: false, shift: false, mac_cmd: false, command: false }
    }

    /// Alt alone.
    pub open spec fn spec_alt() -> Modifiers {
        Modifiers { alt: true, ctrl: false, shift: false, mac_cmd: false, command: false }
    }

    /// Alt alone.
    #[verifier::when_used_as_spec(spec_alt)]
    pub fn alt() -> (m: Modifiers)
        ensures
            m == Modifiers::spec_alt(),
    {
        Modifiers { alt: true, ctrl: false, shift: false, mac_cmd: false, command: false }
    }

    /// Control alone.
    pub open spec fn spec_ctrl() -> Modifiers {
        Modifiers { alt: false, ctrl: true, shift: false, mac_cmd: false, command: false }
    }

    /// Control alone.
    #[verifier::when_used_as_spec(spec_ctrl)]
    pub fn ctrl() -> (m: Modifiers)
        ensures
            m == Modifiers::spec_ctrl(),
    {
        Modifiers { alt: false, ctrl: true, shift: false, mac_cmd: false, command: false }
    }

    /// Shift alone.
    pub open spec fn spec_shift() -> Modifiers {
        Modifiers { alt: false, ctrl: false, shift: true, mac_cmd: false, command: false }
    }

    /// Shift alone.
    #[verifier::when_used_as_spec(spec_shift)]
    pub fn shift() -> (m: Modifiers)
        ensures
            m == Modifiers::spec_shift(),
    {
        Modifiers { alt: false, ctrl: false, shift: true, mac_cmd: false, command: false }
    }

    /// The Mac command key alone.
    pub open spec fn spec_mac_cmd() -> Modifiers {
        Modifiers { alt: false, ctrl: false, shift: false, mac_cmd: true, command: false }
    }

    /// The Mac command key alone.
    #[verifier::when_used_as_spec(spec_mac_cmd)]
    pub fn mac_cmd() -> (m: Modifiers)
        ensures
            m == Modifiers::spec_mac_cmd(),
    {
        Modifiers { alt: false, ctrl: false, shift: false, mac_cmd: true, command: false }
    }

    /// The platform's command key alone (command on Mac, control elsewhere).
    pub open spec fn spec_command() -> Modifiers {
        Modifiers { alt: false, ctrl: false, shift: false, mac_cmd: false, command: true }
    }

    /// The platform's command key alone (command on Mac, control elsewhere).
    #[verifier::when_used_as_spec(spec_command)]
    pub fn command() -> (m: Modifiers)
        ensures
            m == Modifiers::spec_command(),
    {
        Modifiers { alt: false, ctrl: false, shift: false, mac_cmd: false, command: true }
    }
}

/// The name shown for a modifier: the platform's command key is called
/// "Command" on Mac and "Ctrl" elsewhere; alt and shift alone have their
/// names; any other combination shows as the empty text.
pub open spec fn modifier_label(modifier: Modifiers, on_macos: bool) -> Seq<char> {
    if modifier == Modifiers::spec_command() {
        if on_macos {
            "Command"@
        } else {
            "Ctrl"@
        }
    } else if modifier == Modifiers::spec_alt() {
        "Alt"@
    } else if modifier == Modifiers::spec_shift() {
        "Shift"@
    } else {
        ""@
    }
}

/// Only the command key's name depends on the platform: it is "Command" on a
/// Mac and "Ctrl" elsewhere; alt alone is "Alt" and shift alone is "Shift" on
/// every platform, and any other modifier has the same name on both.
pub proof fn lemma_modifier_names(modifier: Modifiers, on_macos: bool)
    ensures
        modifier_label(Modifiers::spec_command(), true) == "Command"@,
        modifier_label(Modifiers::spec_command(), false) == "Ctrl"@,
        modifier_label(Modifiers::spec_alt(), on_macos) == "Alt"@,
        modifier_label(Modifiers::spec_shift(), on_macos) == "Shift"@,
        modifier != Modifiers::spec_command() ==> modifier_label(modifier, true) == modifier_label(modifier, false),
{
}

/// The name shown for `modifier`; `on_macos` tells whether the tool runs on a Mac.
pub fn modifier_to_string(modifier: Modifiers, on_macos: bool) -> (text: String)
    ensures
        text@ == modifier_label(modifier, on_macos),
{
    if modifier == Modifiers::command() {
        if on_macos {
            String::from_str("Command")
        } else {
            String::from_str("Ctrl")
        }
    } else if modifier == Modifiers::alt() {
        String::from_str("Alt")
    } else if modifier == Modifiers::shift() {
        String::from_str("Shift")
    } else {
        String::from_str("")
    }
}

/// The modifier recorded for a new shortcut from the keys held down: alt wins
/// over command, command over shift; with none of them held there is none.
pub open spec fn modifier_from_held(alt: bool, command: bool, shift: bool) -> Option<Modifiers> {
    if alt {
        Some(Modifiers::spec_alt())
    } else if command {
        Some(Modifiers::spec_command())
    } else if shift {
        Some(Modifiers::spec_shift())
    } else {
        None
    }
}

/// The modifier of a new shortcut is a single modifier key that is held: alt
/// whenever alt is held, whatever else is; the command key when it is held
/// without alt; shift only when it is held alone; none when none of them is held.
pub proof fn lemma_modifier_priority(alt: bool, command: bool, shift: bool)
    ensures
        alt ==> modifier_from_held(alt, command, shift) == Some(Modifiers::spec_alt()),
        !alt && command ==> modifier_from_held(alt, command, shift) == Some(Modifiers::spec_command()),
        !alt && !command && shift ==> modifier_from_held(alt, command, shift) == Some(Modifiers::spec_shift()),
        !alt && !command && !shift ==> modifier_from_held(alt, command, shift) is None,
        modifier_from_held(alt, command, shift) matches Some(m) ==> (m.alt ==> alt) && (m.command ==> command)
            && (m.shift ==> shift) && !m.ctrl && !m.mac_cmd,
{
}

/// Picks the modifier of a new shortcut from the modifier keys held down.
pub fn modifier_from_flags(alt: bool, command: bool, shift: bool) -> (modifier: Option<Modifiers>)
    ensures
        modifier == modifier_from_held(alt, command, shift),
{
    if alt {
        Some(Modifiers::alt())
    } else if command {
        Some(Modifiers::command())
    } else if shift {
        Some(Modifiers::shift())
    } else {
        None
    }
}

/// A key pressed together with a modifier.
#[derive(Debug, Clone, Copy, PartialEq, Eq, Structural, Hash)]
pub struct Shortcut {
    pub key: Key,
    pub modifier: Modifiers,
}

impl Shortcut {
    pub fn new(modifier: Modifiers, key: Key) -> (shortcut: Self)
        ensures
            shortcut == (Shortcut { key, modifier }),
    {
        Shortcut { modifier, key }
    }
}

/// The text shown for a shortcut: the modifier's name, " + " and the key's name.
pub open spec fn shortcut_label(modifier: Modifiers, key_name: Seq<char>, on_macos: bool) -> Seq<char> {
    modifier_label(modifier, on_macos) + " + "@ + key_name
}

/// The text of a shortcut begins with its modifier's name and ends with its
/// key's name, the two joined by " + ".
pub proof fn lemma_shortcut_label_parts(modifier: Modifiers, key_name: Seq<char>, on_macos: bool)
    ensures
        ({
            let text = shortcut_label(modifier, key_name, on_macos);
            let m = modifier_label(modifier, on_macos);
            &&& (text.len() as int) == (m.len() as int) + 3 + (key_name.len() as int)
            &&& text.subrange(0, (m.len() as int)) == m
            &&& text.subrange((m.len() as int), (m.len() as int) + 3) == " + "@
            &&& text.subrange((m.len() as int) + 3, (text.len() as int)) == key_name
        }),
{
    reveal_strlit(" + ");
    let text = shortcut_label(modifier, key_name, on_macos);
    let m = modifier_label(modifier, on_macos);
    assert(text.subrange(0, (m.len() as int)) =~= m);
    assert(text.subrange((m.len() as int), (m.len() as int) + 3) =~= " + "@);
    assert(text.subrange((m.len() as int) + 3, (text.len() as int)) =~= key_name);
}

/// The text shown for a shortcut with `modifier`, whose key is called
/// `key_name`; `on_macos` tells whether the tool runs on a Mac.
pub fn shortcut_text(modifier: Modifiers, key_name: &str, on_macos: bool) -> (text: String)
    ensures
        text@ == shortcut_label(modifier, key_name@, on_macos),
{
    modifier_to_string(modifier, on_macos).concat(" + ").concat(key_name)
}

/// Some command is bound to `shortcut` in `bindings`.
pub open spec fn shortcut_in_use(bindings: Map<KeyCommand, Shortcut>, shortcut: Shortcut) -> bool {
    exists|command: KeyCommand| #[trigger] bindings.contains_key(command) && bindings[command] == shortcut
}

/// No two commands are bound to the same shortcut.
pub open spec fn shortcuts_distinct(bindings: Map<KeyCommand, Shortcut>) -> bool {
    forall|a: KeyCommand, b: KeyCommand|
        #![trigger bindings[a], bindings[b]]
        bindings.contains_key(a) && bindings.contains_key(b) && a != b ==> bindings[a] != bindings[b]
}

/// The bindings after binding `command` to `shortcut`: a shortcut that is
/// already in use is refused and leaves the bindings as they were.
pub open spec fn rebind(bindings: Map<KeyCommand, Shortcut>, command: KeyCommand, shortcut: Shortcut) -> Map<KeyCommand, Shortcut> {
    if shortcut_in_use(bindings, shortcut) {
        bindings
    } else {
        bindings.insert(command, shortcut)
    }
}

/// Rebinding twice with the same command and shortcut gives what the first
/// rebinding gave: the second finds the shortcut in use and changes nothing.
pub proof fn lemma_rebind_idempotent(bindings: Map<KeyCommand, Shortcut>, command: KeyCommand, shortcut: Shortcut)
    ensures
        rebind(rebind(bindings, command, shortcut), command, shortcut) == rebind(bindings, command, shortcut),
{
    let once = rebind(bindings, command, shortcut);
    if !shortcut_in_use(bindings, shortcut) {
        assert(once.contains_key(command) && once[command] == shortcut);
    }
}

/// After a rebinding the shortcut is in use; if it was free before, it is now
/// the shortcut of `command`, and every other command keeps its binding.
pub proof fn lemma_rebind_outcome(bindings: Map<KeyCommand, Shortcut>, command: KeyCommand, shortcut: Shortcut)
    ensures
        shortcut_in_use(rebind(bindings, command, shortcut), shortcut),
        shortcut_in_use(bindings, shortcut) ==> rebind(bindings, command, shortcut) == bindings,
        !shortcut_in_use(bindings, shortcut) ==> rebind(bindings, command, shortcut).dom() == bindings.dom().insert(command),
        !shortcut_in_use(bindings, shortcut) ==> rebind(bindings, command, shortcut).contains_key(command)
            && rebind(bindings, command, shortcut)[command] == shortcut,
        forall|other: KeyCommand| other != command ==> (#[trigger] rebind(bindings, command, shortcut).contains_key(other)
            == bindings.contains_key(other)) && (bindings.contains_key(other) ==> rebind(bindings, command, shortcut)[other] == bindings[other]),
{
    let after = rebind(bindings, command, shortcut);
    if !shortcut_in_use(bindings, shortcut) {
        assert(after.contains_key(command) && after[command] == shortcut);
        assert(after.dom() =~= bindings.dom().insert(command));
    }
}

proof fn lemma_rebind_keeps_distinct_if(bindings: Map<KeyCommand, Shortcut>, command: KeyCommand, shortcut: Shortcut)
    ensures
        shortcuts_distinct(bindings) ==> shortcuts_distinct(rebind(bindings, command, shortcut)),
{
    if shortcuts_distinct(bindings) {
        lemma_rebind_keeps_distinct(bindings, command, shortcut);
    }
}

/// Rebinding never makes two commands share a shortcut.
pub proof fn lemma_rebind_keeps_distinct(bindings: Map<KeyCommand, Shortcut>, command: KeyCommand, shortcut: Shortcut)
    requires
        shortcuts_distinct(bindings),
    ensures
        shortcuts_distinct(rebind(bindings, command, shortcut)),
{
    let after = rebind(bindings, command, shortcut);
    if !shortcut_in_use(bindings, shortcut) {
        assert forall|a: KeyCommand, b: KeyCommand|
            after.contains_key(a) && after.contains_key(b) && a != b implies #[trigger] after[a] != #[trigger] after[b] by {
            if a == command {
                assert(bindings.contains_key(b) && bindings[b] != shortcut);
            } else if b == command {
                assert(bindings.contains_key(a) && bindings[a] != shortcut);
            } else {
                assert(bindings[a] != bindings[b]);
            }
        }
    }
}

/// The bindings made by binding each listed command to its shortcut in turn.
pub open spec fn bindings_of(list: Seq<(KeyCommand, Shortcut)>) -> Map<KeyCommand, Shortcut>
    decreases list.len(),
{
    if list.len() == 0 {
        Map::empty()
    } else {
        bindings_of(list.drop_last()).insert(list.last().0, list.last().1)
    }
}

/// Binding one more pair after a list binds its command to its shortcut and
/// leaves every other command as the list bound it.
pub proof fn lemma_bindings_of_push(list: Seq<(KeyCommand, Shortcut)>, command: KeyCommand, shortcut: Shortcut)
    ensures
        bindings_of(list.push((command, shortcut))).contains_key(command),
        bindings_of(list.push((command, shortcut)))[command] == shortcut,
        forall|other: KeyCommand| other != command ==> (#[trigger] bindings_of(list.push((command, shortcut))).contains_key(other)
            == bindings_of(list).contains_key(other)) && (bindings_of(list).contains_key(other)
            ==> bindings_of(list.push((command, shortcut)))[other] == bindings_of(list)[other]),
{
    assert(list.push((command, shortcut)).drop_last() =~= list);
}

/// The bindings a new manager starts with.
pub open spec fn default_bindings() -> Map<KeyCommand, Shortcut> {
    map![
        KeyCommand::SaveScreenshot => Shortcut { key: Key::A, modifier: Modifiers::spec_command() },
        KeyCommand::Edit => Shortcut { key: Key::E, modifier: Modifiers::spec_command() },
        KeyCommand::Copy => Shortcut { key: Key::C, modifier: Modifiers::spec_command() },
        KeyCommand::QuickSaveScreenshot => Shortcut { key: Key::Q, modifier: Modifiers::spec_alt() },
        KeyCommand::TakeScreenshot => Shortcut { key: Key::S, modifier: Modifiers::spec_alt() },
    ]
}

/// A shortcut being put together in the settings window.
#[derive(Debug, Clone, Copy, PartialEq, Eq, Structural)]
pub struct ShortcutDraft {
    /// A complete key and modifier have been captured and wait to be saved.
    pub is_editing_shortcut: bool,
    pub tmp_shortcut: Option<Shortcut>,
    pub tmp_key: Option<Key>,
    pub tmp_modifier: Option<Modifiers>,
    /// The command whose shortcut is being changed.
    pub tmp_command: Option<KeyCommand>,
}

impl ShortcutDraft {
    pub open spec fn spec_empty() -> ShortcutDraft {
        ShortcutDraft {
            is_editing_shortcut: false,
            tmp_shortcut: None,
            tmp_key: None,
            tmp_modifier: None,
            tmp_command: None,
        }
    }

    /// A draft holding nothing.
    #[verifier::when_used_as_spec(spec_empty)]
    pub fn empty() -> (draft: ShortcutDraft)
        ensures
            draft == ShortcutDraft::spec_empty(),
    {
        ShortcutDraft {
            is_editing_shortcut: false,
            tmp_shortcut: None,
            tmp_key: None,
            tmp_modifier: None,
            tmp_command: None,
        }
    }
}

/// The bindings held by a table of shortcuts indexed by command code.
pub open spec fn bindings_in(table: Map<u8, Shortcut>) -> Map<KeyCommand, Shortcut> {
    Map::new(
        |command: KeyCommand| table.contains_key(command.code_of()),
        |command: KeyCommand| table[command.code_of()],
    )
}

/// Every entry of the table is indexed by the code of a command.
pub open spec fn table_codes_valid(table: Map<u8, Shortcut>) -> bool {
    forall|code: u8| #[trigger] table.contains_key(code) ==> code < COMMAND_COUNT
}

proof fn lemma_table_insert(table: Map<u8, Shortcut>, command: KeyCommand, shortcut: Shortcut)
    requires
        table_codes_valid(table),
    ensures
        table_codes_valid(table.insert(command.code_of(), shortcut)),
        bindings_in(table.insert(command.code_of(), shortcut)) == bindings_in(table).insert(command, shortcut),
{
    let after = table.insert(command.code_of(), shortcut);
    assert forall|c: KeyCommand|
        bindings_in(after).contains_key(c) == bindings_in(table).insert(command, shortcut).contains_key(c)
            && (bindings_in(after).contains_key(c) ==> bindings_in(after)[c] == bindings_in(table).insert(command, shortcut)[c]) by {
        KeyCommand::lemma_code_injective(c, command);
    }
    assert(bindings_in(after) =~= bindings_in(table).insert(command, shortcut));
    KeyCommand::lemma_code_injective(command, command);
}

/// `list` holds every binding of `bindings` once, in the declaration order of
/// the commands, and nothing else.
pub open spec fn lists_bindings(list: Seq<(KeyCommand, Shortcut)>, bindings: Map<KeyCommand, Shortcut>) -> bool {
    &&& forall|i: int| 0 <= i < list.len() ==> #[trigger] bindings.contains_key(list[i].0) && bindings[list[i].0] == list[i].1
    &&& forall|command: KeyCommand| #[trigger] bindings.contains_key(command) ==> exists|i: int| 0 <= i < list.len() && list[i].0 == command
    &&& forall|i: int, j: int| 0 <= i < j < list.len() ==> list[i].0.code_of() < list[j].0.code_of()
}

/// Binding in turn each command of a list without repeated commands gives
/// exactly the listed pairs.
proof fn lemma_bindings_of_distinct(list: Seq<(KeyCommand, Shortcut)>)
    requires
        forall|i: int, j: int| 0 <= i < j < list.len() ==> list[i].0.code_of() < list[j].0.code_of(),
    ensures
        forall|command: KeyCommand| #[trigger] bindings_of(list).contains_key(command) <==> exists|i: int| 0 <= i < list.len() && list[i].0 == command,
        forall|i: int| 0 <= i < list.len() ==> #[trigger] bindings_of(list)[list[i].0] == list[i].1,
    decreases list.len(),
{
    if list.len() > 0 {
        let rest = list.drop_last();
        lemma_bindings_of_distinct(rest);
        assert forall|command: KeyCommand| #[trigger] bindings_of(list).contains_key(command) <==> exists|i: int| 0 <= i < list.len() && list[i].0 == command by {
            if bindings_of(list).contains_key(command) && command != list.last().0 {
                assert(bindings_of(rest).contains_key(command));
                let i = choose|i: int| 0 <= i < rest.len() && rest[i].0 == command;
                assert(list[i].0 == command);
            }
            if exists|i: int| 0 <= i < list.len() && list[i].0 == command {
                let i = choose|i: int| 0 <= i < list.len() && list[i].0 == command;
                if i < list.len() - 1 {
                    assert(rest[i].0 == command);
                    assert(bindings_of(rest).contains_key(command));
                }
            }
        }
        assert forall|i: int| 0 <= i < list.len() implies #[trigger] bindings_of(list)[list[i].0] == list[i].1 by {
            if i < list.len() - 1 {
                assert(rest[i] == list[i]);
                assert(list[i].0.code_of() < list.last().0.code_of());
                assert(list[i].0 != list.last().0);
                assert(bindings_of(rest)[rest[i].0] == rest[i].1);
            }
        }
    }
}

/// Rebuilding bindings from their list gives them back: binding in turn each
/// pair of a list that `lists_bindings` describes yields the bindings listed,
/// so a manager made by `from_parts` of what `get_shortcuts` returned holds the
/// same bindings.
pub proof fn lemma_listed_bindings_round_trip(list: Seq<(KeyCommand, Shortcut)>, bindings: Map<KeyCommand, Shortcut>)
    requires
        lists_bindings(list, bindings),
    ensures
        bindings_of(list) == bindings,
{
    lemma_bindings_of_distinct(list);
    assert forall|command: KeyCommand|
        bindings_of(list).contains_key(command) == bindings.contains_key(command)
            && (bindings.contains_key(command) ==> bindings_of(list)[command] == bindings[command]) by {
        if bindings_of(list).contains_key(command) {
            let i = choose|i: int| 0 <= i < list.len() && list[i].0 == command;
            assert(bindings.contains_key(list[i].0));
        }
        if bindings.contains_key(command) {
            let i = choose|i: int| 0 <= i < list.len() && list[i].0 == command;
            assert(bindings_of(list)[list[i].0] == list[i].1);
            assert(bindings[list[i].0] == list[i].1);
        }
    }
    assert(bindings_of(list) =~= bindings);
}

/// The keyboard shortcuts of the tool, and the draft of a shortcut being edited.
#[derive(Debug)]
pub struct ShortcutManager {
    shortcuts: HashMap<u8, Shortcut>,
    is_shortcut_changing: bool,
    draft: ShortcutDraft,
}

impl View for ShortcutManager {
    type V = Map<KeyCommand, Shortcut>;

    /// The bindings: each command that has a shortcut, with its shortcut.
    closed spec fn view(&self) -> Map<KeyCommand, Shortcut> {
        bindings_in(self.shortcuts@)
    }
}

impl ShortcutManager {
    /// Every stored entry belongs to a command.
    #[verifier::type_invariant]
    spec fn codes_valid(&self) -> bool {
        table_codes_valid(self.shortcuts@)
    }

    /// Whether the settings window is asking for a new shortcut.
    pub closed spec fn changing(&self) -> bool {
        self.is_shortcut_changing
    }

    pub closed spec fn spec_draft(&self) -> ShortcutDraft {
        self.draft
    }

    /// The shortcut being edited.
    #[verifier::when_used_as_spec(spec_draft)]
    pub fn draft(&self) -> (draft: ShortcutDraft)
        ensures
            draft == self.spec_draft(),
    {
        self.draft
    }

    /// Replaces the draft; the bindings and the changing flag stay.
    pub fn set_draft(&mut self, draft: ShortcutDraft)
        ensures
            final(self).draft() == draft,
            final(self)@ == old(self)@,
            final(self).changing() == old(self).changing(),
    {
        proof {
            use_type_invariant(&*self);
        }
        self.draft = draft;
    }

    pub fn new() -> (manager: Self)
        ensures
            manager@ == default_bindings(),
            shortcuts_distinct(manager@),
            !manager.changing(),
            manager.draft() == ShortcutDraft::empty(),
    {
        let mut map: HashMap<u8, Shortcut> = HashMap::new();
        map.insert(KeyCommand::SaveScreenshot.code(), Shortcut::new(Modifiers::command(), Key::A));
        map.insert(KeyCommand::Edit.code(), Shortcut::new(Modifiers::command(), Key::E));
        map.insert(KeyCommand::Copy.code(), Shortcut::new(Modifiers::command(), Key::C));
        map.insert(KeyCommand::QuickSaveScreenshot.code(), Shortcut::new(Modifiers::alt(), Key::Q));
        map.insert(KeyCommand::TakeScreenshot.code(), Shortcut::new(Modifiers::alt(), Key::S));
        proof {
            assert forall|command: KeyCommand|
                bindings_in(map@).contains_key(command) == default_bindings().contains_key(command)
                    && (bindings_in(map@).contains_key(command) ==> bindings_in(map@)[command] == default_bindings()[command]) by {
            }
            assert(bindings_in(map@) =~= default_bindings());
        }
        ShortcutManager {
            shortcuts: map,
            is_shortcut_changing: false,
            draft: ShortcutDraft::empty(),
        }
    }

    /// A manager holding the given bindings (a later entry for a command
    /// replaces an earlier one), changing flag and draft.
    pub fn from_parts(bindings: Vec<(KeyCommand, Shortcut)>, is_shortcut_changing: bool, draft: ShortcutDraft) -> (manager: Self)
        ensures
            manager@ == bindings_of(bindings@),
            manager.changing() == is_shortcut_changing,
            manager.draft() == draft,
    {
        let mut table: HashMap<u8, Shortcut> = HashMap::new();
        let mut i: usize = 0;
        proof {
            assert(bindings_in(table@) =~= bindings_of(bindings@.take(0)));
        }
        while i < bindings.len()
            invariant
                i <= bindings.len(),
                table_codes_valid(table@),
                bindings_in(table@) == bindings_of(bindings@.take(i as int)),
            decreases bindings.len() - i,
        {
            let (command, shortcut) = bindings[i];
            proof {
                lemma_table_insert(table@, command, shortcut);
                assert(bindings@.take(i + 1).drop_last() =~= bindings@.take(i as int));
            }
            table.insert(command.code(), shortcut);
            i = i + 1;
        }
        proof {
            assert(bindings@.take(bindings.len() as int) =~= bindings@);
        }
        ShortcutManager { shortcuts: table, is_shortcut_changing, draft }
    }

    /// The shortcut bound to `command`, if any.
    pub fn get_shortcut(&self, command: KeyCommand) -> (shortcut: Option<Shortcut>)
        ensures
            shortcut == (if self@.contains_key(command) { Some(self@[command]) } else { None }),
    {
        match self.shortcuts.get(&command.code()) {
            Some(s) => Some(*s),
            None => None,
        }
    }

    /// The bindings as a list, in the declaration order of the commands.
    pub fn get_shortcuts(&self) -> (list: Vec<(KeyCommand, Shortcut)>)
        ensures
            lists_bindings(list@, self@),
    {
        let mut list: Vec<(KeyCommand, Shortcut)> = Vec::new();
        let mut code: u8 = 0;
        while code < COMMAND_COUNT
            invariant
                code <= COMMAND_COUNT,
                forall|i: int| 0 <= i < list.len() ==> self@.contains_key(#[trigger] list[i].0) && self@[list[i].0] == list[i].1 && list[i].0.code_of() < code,
                forall|command: KeyCommand| #[trigger] self@.contains_key(command) && command.code_of() < code ==> exists|i: int| 0 <= i < list.len() && list[i].0 == command,
                forall|i: int, j: int| 0 <= i < j < list.len() ==> list[i].0.code_of() < list[j].0.code_of(),
            decreases COMMAND_COUNT - code,
        {
            let command = KeyCommand::from_code(code);
            match self.shortcuts.get(&code) {
                Some(s) => {
                    let ghost before = list@;
                    list.push((command, *s));
                    proof {
                        assert(forall|i: int| 0 <= i < before.len() ==> list[i] == before[i]);
                        assert(list[list.len() - 1] == (command, *s));
                        assert forall|c: KeyCommand| #[trigger] self@.contains_key(c) && c.code_of() < code + 1 implies exists|i: int| 0 <= i < list.len() && list[i].0 == c by {
                            if c.code_of() == code {
                                KeyCommand::lemma_code_injective(c, command);
                                assert(list[list.len() - 1].0 == c);
                            } else {
                                let i = choose|i: int| 0 <= i < before.len() && before[i].0 == c;
                                assert(list[i].0 == c);
                            }
                        }
                    }
                }
                None => {
                    proof {
                        assert forall|c: KeyCommand| #[trigger] self@.contains_key(c) && c.code_of() < code + 1 implies exists|i: int| 0 <= i < list.len() && list[i].0 == c by {
                            KeyCommand::lemma_code_injective(c, command);
                        }
                    }
                }
            }
            code = code + 1;
        }
        list
    }

    pub fn get_is_shortcut_changing(&self) -> (changing: bool)
        ensures
            changing == self.changing(),
    {
        self.is_shortcut_changing
    }

    pub fn set_is_shortcut_changing(&mut self, is_shortcut_changing: bool)
        ensures
            final(self).changing() == is_shortcut_changing,
            final(self)@ == old(self)@,
            final(self).draft() == old(self).draft(),
    {
        proof {
            use_type_invariant(&*self);
        }
        self.is_shortcut_changing = is_shortcut_changing;
    }

    /// Whether some command is bound to `shortcut`.
    fn in_use(&self, shortcut: &Shortcut) -> (used: bool)
        ensures
            used == shortcut_in_use(self@, *shortcut),
    {
        proof {
            use_type_invariant(self);
        }
        let mut code: u8 = 0;
        while code < COMMAND_COUNT
            invariant
                code <= COMMAND_COUNT,
                table_codes_valid(self.shortcuts@),
                forall|k: u8| k < code && #[trigger] self.shortcuts@.contains_key(k) ==> self.shortcuts@[k] != *shortcut,
            decreases COMMAND_COUNT - code,
        {
            match self.shortcuts.get(&code) {
                Some(s) => {
                    if *s == *shortcut {
                        proof {
                            let command = KeyCommand::with_code(code);
                            KeyCommand::lemma_code_injective(command, command);
                            assert(self@.contains_key(command) && self@[command] == *shortcut);
                        }
                        return true;
                    }
                }
                None => {}
            }
            code = code + 1;
        }
        proof {
            assert forall|command: KeyCommand| #[trigger] self@.contains_key(command) implies self@[command] != *shortcut by {
                KeyCommand::lemma_code_injective(command, command);
            }
        }
        false
    }

    /// Binds `command` to `shortcut`, unless some command already uses that shortcut.
    pub fn update_shortcut(&mut self, command: KeyCommand, shortcut: Shortcut)
        ensures
            final(self)@ == rebind(old(self)@, command, shortcut),
            shortcuts_distinct(old(self)@) ==> shortcuts_distinct(final(self)@),
            final(self).changing() == old(self).changing(),
            final(self).draft() == old(self).draft(),
    {
        proof {
            use_type_invariant(&*self);
        }
        if self.in_use(&shortcut) {
            return;
        }
        let ghost before = self@;
        let mut table: HashMap<u8, Shortcut> = HashMap::new();
        std::mem::swap(&mut table, &mut self.shortcuts);
        proof {
            lemma_table_insert(table@, command, shortcut);
            lemma_rebind_keeps_distinct_if(before, command, shortcut);
        }
        table.insert(command.code(), shortcut);
        self.shortcuts = table;
    }
}

impl Clone for ShortcutManager {
    /// A manager with the same bindings, changing flag and draft.
    fn clone(&self) -> (copy: Self)
        ensures
            copy@ == self@,
            copy.changing() == self.changing(),
            copy.draft() == self.draft(),
    {
        proof {
            use_type_invariant(self);
        }
        ShortcutManager {
            shortcuts: self.shortcuts.clone(),
            is_shortcut_changing: self.is_shortcut_changing,
            draft: self.draft,
        }
    }
}

impl Default for ShortcutManager {
    fn default() -> (manager: Self)
        ensures
            manager@ == default_bindings(),
            shortcuts_distinct(manager@),
            !manager.changing(),
            manager.draft() == ShortcutDraft::empty(),
    {
        Self::new()
    }
}

} // verus!
