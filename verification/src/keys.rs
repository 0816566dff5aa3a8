//! Keyboard events: what a terminal is told of them, and which bindings they match. Physical keys
//! stay separate from composed text.
use crate::text::{
    ascii_lower, chars_of, first_char, first_of, has_prefix, lowered, parse_unsigned, parsed, same_text,
    strip_prefix, to_chars,
};
use vstd::prelude::*;
use vstd::string::*;

verus! {

/// The modifiers of a key binding, or those held.
#[derive(Clone, Copy, Debug, PartialEq, Eq, Structural)]
pub struct Modifiers {
    pub shift: bool,
    pub control: bool,
    pub alt: bool,
    pub super_key: bool,
}

impl Modifiers {
    pub open spec fn none() -> Modifiers {
        Modifiers { shift: false, control: false, alt: false, super_key: false }
    }
}

impl Default for Modifiers {
    fn default() -> (modifiers: Modifiers)
        ensures
            modifiers == Modifiers::none(),
    {
        Modifiers { shift: false, control: false, alt: false, super_key: false }
    }
}

/// The modifiers held, and the keys by which they are.
#[derive(Clone, Copy, Debug)]
pub struct HeldModifiers {
    pub state: Modifiers,
    pub left: Modifiers,
    pub right: Modifiers,
}

/// What a key means in the layout. Named keys go by the names of the W3C's UI Events.
#[derive(Clone, Debug)]
pub enum Key {
    Character(String),
    Named(String),
    Other,
}

/// A place on the keyboard, by the W3C's name for its code.
#[derive(Clone, Debug)]
pub enum PhysicalKey {
    Code(String),
    Unidentified,
}

#[derive(Clone, Copy, Debug, PartialEq, Eq, Structural)]
pub enum KeyLocation {
    Standard,
    Left,
    Right,
    Numpad,
}

#[derive(Clone, Copy, Debug, PartialEq, Eq, Structural)]
pub enum ElementState {
    Pressed,
    Released,
}

/// A keyboard event of a window.
#[derive(Clone, Debug)]
pub struct KeyEvent {
    pub physical_key: PhysicalKey,
    pub logical_key: Key,
    /// The key as it would be without modifiers.
    pub unmodified: Key,
    pub text: Option<String>,
    pub location: KeyLocation,
    pub state: ElementState,
    pub repeat: bool,
}

/// A key as terminals tell them apart.
#[derive(Clone, Copy, Debug, PartialEq, Eq, Structural)]
pub enum TerminalKey {
    Unidentified,
    Char(char),
    Function(u8),
    Enter,
    Tab,
    Backspace,
    Escape,
    Up,
    Down,
    Left,
    Right,
    Home,
    End,
    PageUp,
    PageDown,
    Insert,
    Delete,
    Help,
    ContextMenu,
    CapsLock,
    NumLock,
    ScrollLock,
    PrintScreen,
    Pause,
    Shift,
    ShiftRight,
    Control,
    ControlRight,
    Alt,
    AltRight,
    Super,
    SuperRight,
    Keypad(u8),
    KeypadLeft,
    KeypadRight,
    KeypadUp,
    KeypadDown,
    KeypadPageUp,
    KeypadPageDown,
    KeypadHome,
    KeypadEnd,
    KeypadInsert,
    KeypadDelete,
    KeypadBegin,
    KeypadEnter,
    KeypadDecimal,
    KeypadAdd,
    KeypadSubtract,
    KeypadMultiply,
    KeypadDivide,
    KeypadEqual,
    KeypadSeparator,
}

#[derive(Clone, Copy, Debug, PartialEq, Eq, Structural)]
pub enum KeyAction {
    Press,
    Repeat,
    Release,
}

/// A keyboard event as a terminal encodes it.
#[derive(Clone, Debug)]
pub struct TerminalKeyEvent {
    pub key: TerminalKey,
    pub text: Option<String>,
    pub modifiers: Modifiers,
    pub consumed_modifiers: Modifiers,
    pub action: KeyAction,
    pub unshifted: Option<char>,
    pub composing: bool,
}

impl Key {
    /// The text that the key itself stands for.
    pub open spec fn spec_text(self) -> Option<Seq<char>> {
        match self {
            Key::Character(text) => Some(text@),
            Key::Named(name) => if name@ == "Enter"@ {
                Some("\r"@)
            } else if name@ == "Backspace"@ {
                Some("\u{8}"@)
            } else if name@ == "Tab"@ {
                Some("\t"@)
            } else if name@ == "Space"@ {
                Some(" "@)
            } else if name@ == "Escape"@ {
                Some("\u{1b}"@)
            } else {
                None
            },
            Key::Other => None,
        }
    }

    /// The text that the key itself stands for.
    pub fn to_text(&self) -> (text: Option<String>)
        ensures
            chars_of(text) == self.spec_text(),
    {
        match self {
            Key::Character(text) => Some(text.as_str().to_owned()),
            Key::Named(name) => {
                let name = name.as_str();
                if same_text(name, "Enter") {
                    Some("\r".to_owned())
                } else if same_text(name, "Backspace") {
                    Some("\u{8}".to_owned())
                } else if same_text(name, "Tab") {
                    Some("\t".to_owned())
                } else if same_text(name, "Space") {
                    Some(" ".to_owned())
                } else if same_text(name, "Escape") {
                    Some("\u{1b}".to_owned())
                } else {
                    None
                }
            },
            Key::Other => None,
        }
    }
}

/// The number of a function key, from its name.
pub open spec fn function_number(name: Seq<char>) -> Option<int> {
    if name.len() > 0 && name[0] == 'F' {
        parsed(name.skip(1), u8::MAX as int)
    } else {
        None
    }
}

/// The key that a name stands for, where terminals know it.
pub open spec fn named_key(name: Seq<char>) -> Option<TerminalKey> {
    if name == "Space"@ {
        Some(TerminalKey::Char(' '))
    } else if name == "Enter"@ {
        Some(TerminalKey::Enter)
    } else if name == "Tab"@ {
        Some(TerminalKey::Tab)
    } else if name == "Backspace"@ {
        Some(TerminalKey::Backspace)
    } else if name == "Escape"@ {
        Some(TerminalKey::Escape)
    } else if name == "ArrowUp"@ {
        Some(TerminalKey::Up)
    } else if name == "ArrowDown"@ {
        Some(TerminalKey::Down)
    } else if name == "ArrowLeft"@ {
        Some(TerminalKey::Left)
    } else if name == "ArrowRight"@ {
        Some(TerminalKey::Right)
    } else if name == "Home"@ {
        Some(TerminalKey::Home)
    } else if name == "End"@ {
        Some(TerminalKey::End)
    } else if name == "PageUp"@ {
        Some(TerminalKey::PageUp)
    } else if name == "PageDown"@ {
        Some(TerminalKey::PageDown)
    } else if name == "Insert"@ {
        Some(TerminalKey::Insert)
    } else if name == "Delete"@ {
        Some(TerminalKey::Delete)
    } else if name == "Help"@ {
        Some(TerminalKey::Help)
    } else if name == "ContextMenu"@ {
        Some(TerminalKey::ContextMenu)
    } else if name == "CapsLock"@ {
        Some(TerminalKey::CapsLock)
    } else if name == "NumLock"@ {
        Some(TerminalKey::NumLock)
    } else if name == "ScrollLock"@ {
        Some(TerminalKey::ScrollLock)
    } else if name == "PrintScreen"@ {
        Some(TerminalKey::PrintScreen)
    } else if name == "Pause"@ {
        Some(TerminalKey::Pause)
    } else if name == "Shift"@ {
        Some(TerminalKey::Shift)
    } else if name == "Control"@ {
        Some(TerminalKey::Control)
    } else if name == "Alt"@ {
        Some(TerminalKey::Alt)
    } else if name == "Super"@ {
        Some(TerminalKey::Super)
    } else {
        match function_number(name) {
            Some(number) => Some(TerminalKey::Function(number as u8)),
            None => None,
        }
    }
}

pub fn terminal_named_key(name: &str) -> (key: Option<TerminalKey>)
    ensures
        key == named_key(name@),
{
    if same_text(name, "Space") {
        Some(TerminalKey::Char(' '))
    } else if same_text(name, "Enter") {
        Some(TerminalKey::Enter)
    } else if same_text(name, "Tab") {
        Some(TerminalKey::Tab)
    } else if same_text(name, "Backspace") {
        Some(TerminalKey::Backspace)
    } else if same_text(name, "Escape") {
        Some(TerminalKey::Escape)
    } else if same_text(name, "ArrowUp") {
        Some(TerminalKey::Up)
    } else if same_text(name, "ArrowDown") {
        Some(TerminalKey::Down)
    } else if same_text(name, "ArrowLeft") {
        Some(TerminalKey::Left)
    } else if same_text(name, "ArrowRight") {
        Some(TerminalKey::Right)
    } else if same_text(name, "Home") {
        Some(TerminalKey::Home)
    } else if same_text(name, "End") {
        Some(TerminalKey::End)
    } else if same_text(name, "PageUp") {
        Some(TerminalKey::PageUp)
    } else if same_text(name, "PageDown") {
        Some(TerminalKey::PageDown)
    } else if same_text(name, "Insert") {
        Some(TerminalKey::Insert)
    } else if same_text(name, "Delete") {
        Some(TerminalKey::Delete)
    } else if same_text(name, "Help") {
        Some(TerminalKey::Help)
    } else if same_text(name, "ContextMenu") {
        Some(TerminalKey::ContextMenu)
    } else if same_text(name, "CapsLock") {
        Some(TerminalKey::CapsLock)
    } else if same_text(name, "NumLock") {
        Some(TerminalKey::NumLock)
    } else if same_text(name, "ScrollLock") {
        Some(TerminalKey::ScrollLock)
    } else if same_text(name, "PrintScreen") {
        Some(TerminalKey::PrintScreen)
    } else if same_text(name, "Pause") {
        Some(TerminalKey::Pause)
    } else if same_text(name, "Shift") {
        Some(TerminalKey::Shift)
    } else if same_text(name, "Control") {
        Some(TerminalKey::Control)
    } else if same_text(name, "Alt") {
        Some(TerminalKey::Alt)
    } else if same_text(name, "Super") {
        Some(TerminalKey::Super)
    } else {
        let chars = to_chars(name);
        if chars.len() > 0 && chars[0] == 'F' {
            match parse_unsigned(chars.as_slice(), 1, 255) {
                Some(number) => Some(TerminalKey::Function(number as u8)),
                None => None,
            }
        } else {
            None
        }
    }
}

/// The key that stands at a side or on the number pad, by where it is.
pub open spec fn located_key(
    location: KeyLocation,
    logical: Key,
    key: TerminalKey,
) -> Option<TerminalKey> {
    match (location, key) {
        (KeyLocation::Right, TerminalKey::Shift) => Some(TerminalKey::ShiftRight),
        (KeyLocation::Right, TerminalKey::Control) => Some(TerminalKey::ControlRight),
        (KeyLocation::Right, TerminalKey::Alt) => Some(TerminalKey::AltRight),
        (KeyLocation::Right, TerminalKey::Super) => Some(TerminalKey::SuperRight),
        (KeyLocation::Numpad, TerminalKey::Left) => Some(TerminalKey::KeypadLeft),
        (KeyLocation::Numpad, TerminalKey::Right) => Some(TerminalKey::KeypadRight),
        (KeyLocation::Numpad, TerminalKey::Up) => Some(TerminalKey::KeypadUp),
        (KeyLocation::Numpad, TerminalKey::Down) => Some(TerminalKey::KeypadDown),
        (KeyLocation::Numpad, TerminalKey::PageUp) => Some(TerminalKey::KeypadPageUp),
        (KeyLocation::Numpad, TerminalKey::PageDown) => Some(TerminalKey::KeypadPageDown),
        (KeyLocation::Numpad, TerminalKey::Home) => Some(TerminalKey::KeypadHome),
        (KeyLocation::Numpad, TerminalKey::End) => Some(TerminalKey::KeypadEnd),
        (KeyLocation::Numpad, TerminalKey::Insert) => Some(TerminalKey::KeypadInsert),
        (KeyLocation::Numpad, TerminalKey::Delete) => Some(TerminalKey::KeypadDelete),
        (KeyLocation::Numpad, TerminalKey::Enter) => Some(TerminalKey::KeypadEnter),
        (KeyLocation::Numpad, TerminalKey::Char(c)) if '0' as u32 <= c as u32 <= '9' as u32 => Some(
            TerminalKey::Keypad((c as u32 - '0' as u32) as u8),
        ),
        (KeyLocation::Numpad, _) if logical is Named && logical->Named_0@ == "Clear"@ => Some(
            TerminalKey::KeypadBegin,
        ),
        _ => None,
    }
}

/// The key that a physical key is whatever the layout says.
pub open spec fn coded_key(code: Seq<char>) -> Option<TerminalKey> {
    if code == "ShiftRight"@ {
        Some(TerminalKey::ShiftRight)
    } else if code == "ControlRight"@ {
        Some(TerminalKey::ControlRight)
    } else if code == "AltRight"@ {
        Some(TerminalKey::AltRight)
    } else if code == "SuperRight"@ {
        Some(TerminalKey::SuperRight)
    } else if code == "NumpadEnter"@ {
        Some(TerminalKey::KeypadEnter)
    } else if code == "NumpadDecimal"@ {
        Some(TerminalKey::KeypadDecimal)
    } else if code == "NumpadAdd"@ {
        Some(TerminalKey::KeypadAdd)
    } else if code == "NumpadSubtract"@ {
        Some(TerminalKey::KeypadSubtract)
    } else if code == "NumpadMultiply"@ {
        Some(TerminalKey::KeypadMultiply)
    } else if code == "NumpadDivide"@ {
        Some(TerminalKey::KeypadDivide)
    } else if code == "NumpadEqual"@ {
        Some(TerminalKey::KeypadEqual)
    } else if code == "NumpadComma"@ {
        Some(TerminalKey::KeypadSeparator)
    } else if code == "Numpad0"@ {
        Some(TerminalKey::Keypad(0))
    } else if code == "Numpad1"@ {
        Some(TerminalKey::Keypad(1))
    } else if code == "Numpad2"@ {
        Some(TerminalKey::Keypad(2))
    } else if code == "Numpad3"@ {
        Some(TerminalKey::Keypad(3))
    } else if code == "Numpad4"@ {
        Some(TerminalKey::Keypad(4))
    } else if code == "Numpad5"@ {
        Some(TerminalKey::Keypad(5))
    } else if code == "Numpad6"@ {
        Some(TerminalKey::Keypad(6))
    } else if code == "Numpad7"@ {
        Some(TerminalKey::Keypad(7))
    } else if code == "Numpad8"@ {
        Some(TerminalKey::Keypad(8))
    } else if code == "Numpad9"@ {
        Some(TerminalKey::Keypad(9))
    } else {
        None
    }
}

fn key_from_code(code: &str) -> (key: Option<TerminalKey>)
    ensures
        key == coded_key(code@),
{
    if same_text(code, "ShiftRight") {
        Some(TerminalKey::ShiftRight)
    } else if same_text(code, "ControlRight") {
        Some(TerminalKey::ControlRight)
    } else if same_text(code, "AltRight") {
        Some(TerminalKey::AltRight)
    } else if same_text(code, "SuperRight") {
        Some(TerminalKey::SuperRight)
    } else if same_text(code, "NumpadEnter") {
        Some(TerminalKey::KeypadEnter)
    } else if same_text(code, "NumpadDecimal") {
        Some(TerminalKey::KeypadDecimal)
    } else if same_text(code, "NumpadAdd") {
        Some(TerminalKey::KeypadAdd)
    } else if same_text(code, "NumpadSubtract") {
        Some(TerminalKey::KeypadSubtract)
    } else if same_text(code, "NumpadMultiply") {
        Some(TerminalKey::KeypadMultiply)
    } else if same_text(code, "NumpadDivide") {
        Some(TerminalKey::KeypadDivide)
    } else if same_text(code, "NumpadEqual") {
        Some(TerminalKey::KeypadEqual)
    } else if same_text(code, "NumpadComma") {
        Some(TerminalKey::KeypadSeparator)
    } else if same_text(code, "Numpad0") {
        Some(TerminalKey::Keypad(0))
    } else if same_text(code, "Numpad1") {
        Some(TerminalKey::Keypad(1))
    } else if same_text(code, "Numpad2") {
        Some(TerminalKey::Keypad(2))
    } else if same_text(code, "Numpad3") {
        Some(TerminalKey::Keypad(3))
    } else if same_text(code, "Numpad4") {
        Some(TerminalKey::Keypad(4))
    } else if same_text(code, "Numpad5") {
        Some(TerminalKey::Keypad(5))
    } else if same_text(code, "Numpad6") {
        Some(TerminalKey::Keypad(6))
    } else if same_text(code, "Numpad7") {
        Some(TerminalKey::Keypad(7))
    } else if same_text(code, "Numpad8") {
        Some(TerminalKey::Keypad(8))
    } else if same_text(code, "Numpad9") {
        Some(TerminalKey::Keypad(9))
    } else {
        None
    }
}

/// The key by its meaning alone.
pub open spec fn logical_terminal_key(logical: Key) -> TerminalKey {
    let key = match logical {
        Key::Character(text) => match first_of(text@) {
            Some(c) => Some(TerminalKey::Char(c)),
            None => None,
        },
        Key::Named(name) => named_key(name@),
        Key::Other => None,
    };
    match key {
        Some(key) => key,
        None => TerminalKey::Unidentified,
    }
}

/// Where the key stands decides before its code, and its code before its meaning.
pub open spec fn key_code(
    logical: Key,
    physical: PhysicalKey,
    location: KeyLocation,
) -> TerminalKey {
    let key = logical_terminal_key(logical);
    match located_key(location, logical, key) {
        Some(located) => located,
        None => match physical {
            PhysicalKey::Code(code) => match coded_key(code@) {
                Some(coded) => coded,
                None => key,
            },
            PhysicalKey::Unidentified => key,
        },
    }
}

pub fn terminal_key_code(logical: &Key, physical: &PhysicalKey, location: KeyLocation) -> (key:
    TerminalKey)
    ensures
        key == key_code(*logical, *physical, location),
{
    let meant = match logical {
        Key::Character(text) => match first_char(text.as_str()) {
            Some(c) => Some(TerminalKey::Char(c)),
            None => None,
        },
        Key::Named(name) => terminal_named_key(name.as_str()),
        Key::Other => None,
    };
    let key = match meant {
        Some(key) => key,
        None => TerminalKey::Unidentified,
    };
    match (location, key) {
        (KeyLocation::Right, TerminalKey::Shift) => return TerminalKey::ShiftRight,
        (KeyLocation::Right, TerminalKey::Control) => return TerminalKey::ControlRight,
        (KeyLocation::Right, TerminalKey::Alt) => return TerminalKey::AltRight,
        (KeyLocation::Right, TerminalKey::Super) => return TerminalKey::SuperRight,
        (KeyLocation::Numpad, TerminalKey::Left) => return TerminalKey::KeypadLeft,
        (KeyLocation::Numpad, TerminalKey::Right) => return TerminalKey::KeypadRight,
        (KeyLocation::Numpad, TerminalKey::Up) => return TerminalKey::KeypadUp,
        (KeyLocation::Numpad, TerminalKey::Down) => return TerminalKey::KeypadDown,
        (KeyLocation::Numpad, TerminalKey::PageUp) => return TerminalKey::KeypadPageUp,
        (KeyLocation::Numpad, TerminalKey::PageDown) => return TerminalKey::KeypadPageDown,
        (KeyLocation::Numpad, TerminalKey::Home) => return TerminalKey::KeypadHome,
        (KeyLocation::Numpad, TerminalKey::End) => return TerminalKey::KeypadEnd,
        (KeyLocation::Numpad, TerminalKey::Insert) => return TerminalKey::KeypadInsert,
        (KeyLocation::Numpad, TerminalKey::Delete) => return TerminalKey::KeypadDelete,
        (KeyLocation::Numpad, TerminalKey::Enter) => return TerminalKey::KeypadEnter,
        (KeyLocation::Numpad, TerminalKey::Char(c)) => {
            if '0' as u32 <= c as u32 && c as u32 <= '9' as u32 {
                return TerminalKey::Keypad((c as u32 - '0' as u32) as u8);
            }
        },
        _ => {},
    }
    if let (KeyLocation::Numpad, Key::Named(name)) = (location, logical) {
        if same_text(name.as_str(), "Clear") {
            return TerminalKey::KeypadBegin;
        }
    }
    match physical {
        PhysicalKey::Code(code) => match key_from_code(code.as_str()) {
            Some(coded) => coded,
            None => key,
        },
        PhysicalKey::Unidentified => key,
    }
}

/// A control character of ASCII.
pub open spec fn is_control(c: char) -> bool {
    (c as u32) < 0x20 || c as u32 == 0x7f
}

/// Control text goes with keys that the terminal encodes with their modifiers itself.
pub open spec fn spec_key_text(text: Option<Seq<char>>) -> Option<Seq<char>> {
    match text {
        Some(text) if text.len() > 0 && !is_control(text[0]) => Some(text),
        _ => None,
    }
}

/// The characters of an optional borrowed text.
pub open spec fn borrowed_chars(text: Option<&str>) -> Option<Seq<char>> {
    match text {
        Some(text) => Some(text@),
        None => None,
    }
}

/// The text of a key event, unless Tab, Enter or Backspace left their control characters in it.
pub fn terminal_key_text(text: Option<&str>) -> (kept: Option<&str>)
    ensures
        borrowed_chars(kept) == spec_key_text(borrowed_chars(text)),
{
    match text {
        Some(text) => match first_char(text) {
            Some(c) => if (c as u32) < 0x20 || c as u32 == 0x7f {
                None
            } else {
                Some(text)
            },
            None => None,
        },
        None => None,
    }
}

/// The modifiers with one of them set to `held`.
pub open spec fn with_modifier(state: Modifiers, key: TerminalKey, held: bool) -> Modifiers {
    match key {
        TerminalKey::Shift | TerminalKey::ShiftRight => Modifiers { shift: held, ..state },
        TerminalKey::Control | TerminalKey::ControlRight => Modifiers { control: held, ..state },
        TerminalKey::Alt | TerminalKey::AltRight => Modifiers { alt: held, ..state },
        TerminalKey::Super | TerminalKey::SuperRight => Modifiers { super_key: held, ..state },
        _ => state,
    }
}

/// The opposite key of the same modifier is held.
pub open spec fn opposite_held(held: HeldModifiers, key: TerminalKey) -> bool {
    match key {
        TerminalKey::Shift => held.right.shift,
        TerminalKey::ShiftRight => held.left.shift,
        TerminalKey::Control => held.right.control,
        TerminalKey::ControlRight => held.left.control,
        TerminalKey::Alt => held.right.alt,
        TerminalKey::AltRight => held.left.alt,
        TerminalKey::Super => held.right.super_key,
        TerminalKey::SuperRight => held.left.super_key,
        _ => false,
    }
}

/// The modifiers of a key event. macOS reports modifier keys before the change of modifiers, so
/// that the key's own modifier follows from the event and the opposite key.
pub fn key_modifiers(key: TerminalKey, state: ElementState, held: HeldModifiers, macos: bool) -> (
    modifiers: Modifiers)
    ensures
        modifiers == if macos {
            with_modifier(
                held.state,
                key,
                state == ElementState::Pressed || opposite_held(held, key),
            )
        } else {
            held.state
        },
{
    let mut mods = held.state;
    if !macos {
        return mods;
    }
    let pressed = state == ElementState::Pressed;
    match key {
        TerminalKey::Shift => mods.shift = pressed || held.right.shift,
        TerminalKey::ShiftRight => mods.shift = pressed || held.left.shift,
        TerminalKey::Control => mods.control = pressed || held.right.control,
        TerminalKey::ControlRight => mods.control = pressed || held.left.control,
        TerminalKey::Alt => mods.alt = pressed || held.right.alt,
        TerminalKey::AltRight => mods.alt = pressed || held.left.alt,
        TerminalKey::Super => mods.super_key = pressed || held.right.super_key,
        TerminalKey::SuperRight => mods.super_key = pressed || held.left.super_key,
        _ => {},
    }
    mods
}

/// Which Option keys act as Alt.
#[derive(Clone, Copy, Debug, PartialEq, Eq, Structural)]
pub enum OptionAsAlt {
    False,
    True,
    Left,
    Right,
}

pub fn option_as_alt(mode: OptionAsAlt, left: bool, right: bool) -> (alt: bool)
    ensures
        alt == match mode {
            OptionAsAlt::False => false,
            OptionAsAlt::True => true,
            OptionAsAlt::Left => left,
            OptionAsAlt::Right => right,
        },
{
    match mode {
        OptionAsAlt::False => false,
        OptionAsAlt::True => true,
        OptionAsAlt::Left => left,
        OptionAsAlt::Right => right,
    }
}

/// The modifiers that went into the text. On macOS Shift and a composing Option contribute;
/// elsewhere they do where the text is not what the key alone stands for, Alt only to text
/// beyond ASCII. Control and Command never do.
pub open spec fn spec_consumed(
    unmodified: Key,
    text: Option<Seq<char>>,
    mods: Modifiers,
    option_as_alt: bool,
    macos: bool,
) -> Modifiers {
    match text {
        Some(text) if text.len() > 0 => {
            let other = unmodified.spec_text() != Some(text);
            Modifiers {
                shift: mods.shift && (macos || other),
                alt: mods.alt && if macos {
                    !option_as_alt
                } else {
                    !vstd::utf8::is_ascii_chars(text) && other
                },
                ..Modifiers::none()
            }
        },
        _ => Modifiers::none(),
    }
}

pub fn consumed_modifiers(
    unmodified: &Key,
    text: Option<&str>,
    mods: Modifiers,
    option_as_alt: bool,
    macos: bool,
) -> (consumed: Modifiers)
    ensures
        consumed == spec_consumed(*unmodified, borrowed_chars(text), mods, option_as_alt, macos),
{
    let none = Modifiers { shift: false, control: false, alt: false, super_key: false };
    let text = match text {
        Some(text) => text,
        None => {
            return none;
        },
    };
    if text.is_empty() {
        return none;
    }
    let other = match unmodified.to_text() {
        Some(own) => !same_text(own.as_str(), text),
        None => true,
    };
    Modifiers {
        shift: mods.shift && (macos || other),
        alt: mods.alt && if macos {
            !option_as_alt
        } else {
            !text.is_ascii() && other
        },
        control: false,
        super_key: false,
    }
}

/// The logical key of an event: Num Lock can turn a numpad digit into a navigation key.
pub open spec fn logical_of(event: KeyEvent) -> Key {
    if event.location == KeyLocation::Numpad {
        event.logical_key
    } else {
        event.unmodified
    }
}

/// Translates a keyboard event for the terminal, unless it has neither a key nor a text for it.
pub fn terminal_key(
    event: &KeyEvent,
    modifiers: HeldModifiers,
    composing: bool,
    option_as_alt: bool,
    macos: bool,
) -> (key_event: Option<TerminalKeyEvent>)
    ensures
        ({
            let key = key_code(logical_of(*event), event.physical_key, event.location);
            let text = spec_key_text(chars_of(event.text));
            let mods = if macos {
                with_modifier(
                    modifiers.state,
                    key,
                    event.state == ElementState::Pressed || opposite_held(modifiers, key),
                )
            } else {
                modifiers.state
            };
            match key_event {
                Some(found) => {
                    &&& !(key == TerminalKey::Unidentified && text is None)
                    &&& found.key == key
                    &&& chars_of(found.text) == text
                    &&& found.modifiers == mods
                    &&& found.consumed_modifiers == spec_consumed(
                        event.unmodified,
                        text,
                        mods,
                        option_as_alt,
                        macos,
                    )
                    &&& found.action == if event.state == ElementState::Released {
                        KeyAction::Release
                    } else if event.repeat {
                        KeyAction::Repeat
                    } else {
                        KeyAction::Press
                    }
                    &&& found.unshifted == match event.unmodified.spec_text() {
                        Some(text) => first_of(text),
                        None => None,
                    }
                    &&& found.composing == composing
                },
                None => key == TerminalKey::Unidentified && text is None,
            }
        }),
{
    let logical = if event.location == KeyLocation::Numpad {
        &event.logical_key
    } else {
        &event.unmodified
    };
    let key = terminal_key_code(logical, &event.physical_key, event.location);
    let text = match &event.text {
        Some(text) => terminal_key_text(Some(text.as_str())),
        None => None,
    };
    if key == TerminalKey::Unidentified && text.is_none() {
        return None;
    }
    let mods = key_modifiers(key, event.state, modifiers, macos);
    let consumed = consumed_modifiers(&event.unmodified, text, mods, option_as_alt, macos);
    let unshifted = match event.unmodified.to_text() {
        Some(text) => first_char(text.as_str()),
        None => None,
    };
    Some(
        TerminalKeyEvent {
            key,
            text: match text {
                Some(text) => Some(text.to_owned()),
                None => None,
            },
            modifiers: mods,
            consumed_modifiers: consumed,
            action: if event.state == ElementState::Released {
                KeyAction::Release
            } else if event.repeat {
                KeyAction::Repeat
            } else {
                KeyAction::Press
            },
            unshifted,
            composing,
        },
    )
}

/// The key event of composed text, which comes from no physical key.
pub fn text_event(text: String) -> (event: TerminalKeyEvent)
    ensures
        event == (TerminalKeyEvent {
            key: TerminalKey::Unidentified,
            text: Some(text),
            modifiers: Modifiers::none(),
            consumed_modifiers: Modifiers::none(),
            action: KeyAction::Press,
            unshifted: None,
            composing: false,
        }),
{
    let none = Modifiers { shift: false, control: false, alt: false, super_key: false };
    TerminalKeyEvent {
        key: TerminalKey::Unidentified,
        text: Some(text),
        modifiers: none,
        consumed_modifiers: none,
        action: KeyAction::Press,
        unshifted: None,
        composing: false,
    }
}

pub open spec fn is_modifier_key(key: TerminalKey) -> bool {
    match key {
        TerminalKey::Shift
        | TerminalKey::ShiftRight
        | TerminalKey::Control
        | TerminalKey::ControlRight
        | TerminalKey::Alt
        | TerminalKey::AltRight
        | TerminalKey::Super
        | TerminalKey::SuperRight => true,
        _ => false,
    }
}

/// Whether the event counts as typing once the terminal encoded it to `bytes`, so that the
/// prompt is revealed. Modifier reports are useful to applications, but do not imply typing.
pub fn reveals_prompt(bytes: &Vec<u8>, event: &TerminalKeyEvent) -> (typing: bool)
    ensures
        typing == (bytes@.len() > 0 && event.action != KeyAction::Release && !is_modifier_key(
            event.key,
        )),
{
    let modifier = match event.key {
        TerminalKey::Shift
        | TerminalKey::ShiftRight
        | TerminalKey::Control
        | TerminalKey::ControlRight
        | TerminalKey::Alt
        | TerminalKey::AltRight
        | TerminalKey::Super
        | TerminalKey::SuperRight => true,
        _ => false,
    };
    bytes.len() > 0 && event.action != KeyAction::Release && !modifier
}

/// What becomes of a key's name: a name of its own, or the lower case of what is left of it.
pub enum KeyAlias {
    Fixed(String),
    Lower(String),
}

/// What a key alias says.
pub enum AliasModel {
    Fixed(Seq<char>),
    Lower(Seq<char>),
}

impl View for KeyAlias {
    type V = AliasModel;

    open spec fn view(&self) -> AliasModel {
        match self {
            KeyAlias::Fixed(text) => AliasModel::Fixed(text@),
            KeyAlias::Lower(text) => AliasModel::Lower(text@),
        }
    }
}

/// The alias of a key's name, in configurations or from the W3C.
pub open spec fn spec_alias(name: Seq<char>) -> AliasModel {
    if name == "space"@ || name == "Space"@ {
        AliasModel::Fixed(" "@)
    } else if name == "backquote"@ || name == "Backquote"@ {
        AliasModel::Fixed("`"@)
    } else if name == "ArrowLeft"@ {
        AliasModel::Fixed("arrow_left"@)
    } else if name == "ArrowRight"@ {
        AliasModel::Fixed("arrow_right"@)
    } else if name == "ArrowUp"@ {
        AliasModel::Fixed("arrow_up"@)
    } else if name == "ArrowDown"@ {
        AliasModel::Fixed("arrow_down"@)
    } else if name == "PageUp"@ {
        AliasModel::Fixed("page_up"@)
    } else if name == "PageDown"@ {
        AliasModel::Fixed("page_down"@)
    } else if has_prefix(name, "Key"@) {
        AliasModel::Lower(name.skip("Key"@.len() as int))
    } else if has_prefix(name, "key_"@) {
        AliasModel::Lower(name.skip("key_"@.len() as int))
    } else if has_prefix(name, "Digit"@) {
        AliasModel::Lower(name.skip("Digit"@.len() as int))
    } else if has_prefix(name, "digit_"@) {
        AliasModel::Lower(name.skip("digit_"@.len() as int))
    } else {
        AliasModel::Lower(name)
    }
}

pub fn key_alias(name: &str) -> (alias: KeyAlias)
    ensures
        alias@ == spec_alias(name@),
{
    if same_text(name, "space") || same_text(name, "Space") {
        KeyAlias::Fixed(" ".to_owned())
    } else if same_text(name, "backquote") || same_text(name, "Backquote") {
        KeyAlias::Fixed("`".to_owned())
    } else if same_text(name, "ArrowLeft") {
        KeyAlias::Fixed("arrow_left".to_owned())
    } else if same_text(name, "ArrowRight") {
        KeyAlias::Fixed("arrow_right".to_owned())
    } else if same_text(name, "ArrowUp") {
        KeyAlias::Fixed("arrow_up".to_owned())
    } else if same_text(name, "ArrowDown") {
        KeyAlias::Fixed("arrow_down".to_owned())
    } else if same_text(name, "PageUp") {
        KeyAlias::Fixed("page_up".to_owned())
    } else if same_text(name, "PageDown") {
        KeyAlias::Fixed("page_down".to_owned())
    } else if let Some(rest) = strip_prefix(name, "Key") {
        KeyAlias::Lower(rest)
    } else if let Some(rest) = strip_prefix(name, "key_") {
        KeyAlias::Lower(rest)
    } else if let Some(rest) = strip_prefix(name, "Digit") {
        KeyAlias::Lower(rest)
    } else if let Some(rest) = strip_prefix(name, "digit_") {
        KeyAlias::Lower(rest)
    } else {
        KeyAlias::Lower(name.to_owned())
    }
}

/// The name under which two keys are compared.
pub open spec fn normalized(name: Seq<char>) -> Seq<char> {
    match spec_alias(name) {
        AliasModel::Fixed(text) => text,
        AliasModel::Lower(text) => lowered(text),
    }
}

pub fn normalize_name(name: &str) -> (normal: String)
    ensures
        normal@ == normalized(name@),
{
    match key_alias(name) {
        KeyAlias::Fixed(text) => text,
        KeyAlias::Lower(text) => text.as_str().to_lowercase(),
    }
}

/// The character that a key prints on an American keyboard, where it is neither letter nor digit.
pub open spec fn printed(code: Seq<char>) -> Option<Seq<char>> {
    if code == "Backquote"@ {
        Some("`"@)
    } else if code == "Space"@ {
        Some(" "@)
    } else if code == "Minus"@ {
        Some("-"@)
    } else if code == "Equal"@ {
        Some("="@)
    } else if code == "BracketLeft"@ {
        Some("["@)
    } else if code == "BracketRight"@ {
        Some("]"@)
    } else if code == "Backslash"@ {
        Some("\\"@)
    } else if code == "Semicolon"@ {
        Some(";"@)
    } else if code == "Quote"@ {
        Some("'"@)
    } else if code == "Comma"@ {
        Some(","@)
    } else if code == "Period"@ {
        Some("."@)
    } else if code == "Slash"@ {
        Some("/"@)
    } else {
        None
    }
}

/// The name of a physical key in bindings.
pub open spec fn spec_physical_name(key: PhysicalKey) -> Seq<char> {
    match key {
        PhysicalKey::Code(code) => match printed(code@) {
            Some(text) => text,
            None => normalized(code@),
        },
        PhysicalKey::Unidentified => Seq::empty(),
    }
}

pub fn physical_name(key: &PhysicalKey) -> (name: String)
    ensures
        name@ == spec_physical_name(*key),
{
    let code = match key {
        PhysicalKey::Code(code) => code.as_str(),
        PhysicalKey::Unidentified => {
            return String::new();
        },
    };
    if same_text(code, "Backquote") {
        "`".to_owned()
    } else if same_text(code, "Space") {
        " ".to_owned()
    } else if same_text(code, "Minus") {
        "-".to_owned()
    } else if same_text(code, "Equal") {
        "=".to_owned()
    } else if same_text(code, "BracketLeft") {
        "[".to_owned()
    } else if same_text(code, "BracketRight") {
        "]".to_owned()
    } else if same_text(code, "Backslash") {
        "\\".to_owned()
    } else if same_text(code, "Semicolon") {
        ";".to_owned()
    } else if same_text(code, "Quote") {
        "'".to_owned()
    } else if same_text(code, "Comma") {
        ",".to_owned()
    } else if same_text(code, "Period") {
        ".".to_owned()
    } else if same_text(code, "Slash") {
        "/".to_owned()
    } else {
        normalize_name(code)
    }
}

/// One step of a key binding.
#[derive(Clone, Debug)]
pub struct KeyTrigger {
    pub modifiers: Modifiers,
    /// A physical place on the keyboard, rather than what it means.
    pub physical: bool,
    pub key: String,
}

/// The event is this step of a binding.
pub open spec fn triggers(trigger: KeyTrigger, event: KeyEvent, mods: Modifiers) -> bool {
    trigger.modifiers == mods && (trigger.key@ == "catch_all"@ || {
        let wanted = normalized(trigger.key@);
        if trigger.physical {
            wanted == spec_physical_name(event.physical_key)
        } else {
            match event.unmodified {
                Key::Character(text) => wanted == normalized(text@),
                Key::Named(name) => wanted == normalized(name@),
                Key::Other => false,
            }
        }
    })
}

pub fn matches(trigger: &KeyTrigger, event: &KeyEvent, mods: Modifiers) -> (matched: bool)
    ensures
        matched == triggers(*trigger, *event, mods),
{
    if trigger.modifiers != mods {
        return false;
    }
    if same_text(trigger.key.as_str(), "catch_all") {
        return true;
    }
    let wanted = normalize_name(trigger.key.as_str());
    if trigger.physical {
        return same_text(wanted.as_str(), physical_name(&event.physical_key).as_str());
    }
    let actual = match &event.unmodified {
        Key::Character(text) => normalize_name(text.as_str()),
        Key::Named(name) => normalize_name(name.as_str()),
        Key::Other => {
            return false;
        },
    };
    same_text(wanted.as_str(), actual.as_str())
}

/// Every modifier of the chord is still held.
pub open spec fn holds(chord: Modifiers, current: Modifiers) -> bool {
    &&& chord.shift ==> current.shift
    &&& chord.control ==> current.control
    &&& chord.alt ==> current.alt
    &&& chord.super_key ==> current.super_key
}

/// A modifier-only peek ends as soon as any initiating modifier is released.
pub fn chord_held(chord: Modifiers, current: Modifiers) -> (held: bool)
    ensures
        held == holds(chord, current),
{
    (!chord.shift || current.shift) && (!chord.control || current.control) && (!chord.alt
        || current.alt) && (!chord.super_key || current.super_key)
}

/// Holding a chord is holding each part of it.
pub proof fn law_chords_are_held_by_parts(chord: Modifiers, part: Modifiers, current: Modifiers)
    requires
        holds(part, chord),
        holds(chord, current),
    ensures
        holds(chord, chord),
        holds(part, current),
        holds(Modifiers::none(), current),
{
}

/// Releasing one of two keys of a modifier leaves it held; releasing the last one does not.
pub proof fn law_modifier_lasts_while_one_of_its_keys_does(held: HeldModifiers)
    ensures
        with_modifier(
            held.state,
            TerminalKey::Shift,
            opposite_held(held, TerminalKey::Shift),
        ).shift == held.right.shift,
        with_modifier(
            held.state,
            TerminalKey::ShiftRight,
            opposite_held(held, TerminalKey::ShiftRight),
        ).shift == held.left.shift,
        with_modifier(
            held.state,
            TerminalKey::Control,
            opposite_held(held, TerminalKey::Control),
        ).control == held.right.control,
        with_modifier(
            held.state,
            TerminalKey::ControlRight,
            opposite_held(held, TerminalKey::ControlRight),
        ).control == held.left.control,
        with_modifier(
            held.state,
            TerminalKey::Alt,
            opposite_held(held, TerminalKey::Alt),
        ).alt == held.right.alt,
        with_modifier(
            held.state,
            TerminalKey::AltRight,
            opposite_held(held, TerminalKey::AltRight),
        ).alt == held.left.alt,
        with_modifier(
            held.state,
            TerminalKey::Super,
            opposite_held(held, TerminalKey::Super),
        ).super_key == held.right.super_key,
        with_modifier(
            held.state,
            TerminalKey::SuperRight,
            opposite_held(held, TerminalKey::SuperRight),
        ).super_key == held.left.super_key,
{
}

proof fn lemma_key_names()
    ensures
        "space"@ == seq!['s', 'p', 'a', 'c', 'e'],
        "Space"@ == seq!['S', 'p', 'a', 'c', 'e'],
        "backquote"@.len() == 9,
        "Backquote"@.len() == 9,
        "ArrowLeft"@.len() == 9,
        "ArrowRight"@.len() == 10,
        "ArrowUp"@ == seq!['A', 'r', 'r', 'o', 'w', 'U', 'p'],
        "ArrowDown"@.len() == 9,
        "PageUp"@ == seq!['P', 'a', 'g', 'e', 'U', 'p'],
        "PageDown"@.len() == 8,
        "Key"@ == seq!['K', 'e', 'y'],
        "key_"@ == seq!['k', 'e', 'y', '_'],
        "Digit"@ == seq!['D', 'i', 'g', 'i', 't'],
        "digit_"@ == seq!['d', 'i', 'g', 'i', 't', '_'],
{
    reveal_strlit("space");
    reveal_strlit("Space");
    reveal_strlit("backquote");
    reveal_strlit("Backquote");
    reveal_strlit("ArrowLeft");
    reveal_strlit("ArrowRight");
    reveal_strlit("ArrowUp");
    reveal_strlit("ArrowDown");
    reveal_strlit("PageUp");
    reveal_strlit("PageDown");
    reveal_strlit("Key");
    reveal_strlit("key_");
    reveal_strlit("Digit");
    reveal_strlit("digit_");
    assert("space"@ =~= seq!['s', 'p', 'a', 'c', 'e']);
    assert("Space"@ =~= seq!['S', 'p', 'a', 'c', 'e']);
    assert("ArrowUp"@ =~= seq!['A', 'r', 'r', 'o', 'w', 'U', 'p']);
    assert("PageUp"@ =~= seq!['P', 'a', 'g', 'e', 'U', 'p']);
    assert("Key"@ =~= seq!['K', 'e', 'y']);
    assert("key_"@ =~= seq!['k', 'e', 'y', '_']);
    assert("Digit"@ =~= seq!['D', 'i', 'g', 'i', 't']);
    assert("digit_"@ =~= seq!['d', 'i', 'g', 'i', 't', '_']);
}

proof fn lemma_prefix_differs(name: Seq<char>, prefix: Seq<char>, i: int)
    requires
        0 <= i < prefix.len(),
        i >= name.len() || name[i] != prefix[i],
    ensures
        !has_prefix(name, prefix),
{
    if has_prefix(name, prefix) {
        assert(name.subrange(0, prefix.len() as int)[i] == name[i]);
    }
}

proof fn lemma_prefixed(prefix: Seq<char>, rest: Seq<char>)
    ensures
        has_prefix(prefix + rest, prefix),
        (prefix + rest).skip(prefix.len() as int) == rest,
{
    assert((prefix + rest).subrange(0, prefix.len() as int) =~= prefix);
    assert((prefix + rest).skip(prefix.len() as int) =~= rest);
}

proof fn lemma_lowered(c: char)
    requires
        '\0' <= c <= '\u{7f}',
    ensures
        lowered(seq![c]) == seq![ascii_lower(c)],
{
    assert(lowered(seq![c]) =~= seq![ascii_lower(c)]);
}

/// A letter key is the same under its W3C name, its name in configurations and the letter itself.
pub proof fn law_letter_keys_have_one_name(letter: char, capital: char)
    requires
        'A' <= capital <= 'Z',
        letter == ascii_lower(capital),
    ensures
        normalized("Key"@ + seq![capital]) == seq![letter],
        normalized("key_"@ + seq![letter]) == seq![letter],
        normalized(seq![capital]) == seq![letter],
        normalized(seq![letter]) == seq![letter],
{
    lemma_key_names();
    lemma_lowered(capital);
    lemma_lowered(letter);
    let first = "Key"@ + seq![capital];
    lemma_prefixed("Key"@, seq![capital]);
    assert(first.len() == 4);
    let second = "key_"@ + seq![letter];
    lemma_prefixed("key_"@, seq![letter]);
    assert(second.len() == 5 && second[0] == 'k');
    assert(second != "space"@ && second != "Space"@);
    lemma_prefix_differs(second, "Key"@, 0);
    let third = seq![capital];
    let fourth = seq![letter];
    assert(third.len() == 1 && fourth.len() == 1);
    lemma_prefix_differs(third, "Key"@, 1);
    lemma_prefix_differs(third, "key_"@, 1);
    lemma_prefix_differs(third, "Digit"@, 1);
    lemma_prefix_differs(third, "digit_"@, 1);
    lemma_prefix_differs(fourth, "Key"@, 1);
    lemma_prefix_differs(fourth, "key_"@, 1);
    lemma_prefix_differs(fourth, "Digit"@, 1);
    lemma_prefix_differs(fourth, "digit_"@, 1);
}

/// A digit key is the same under its W3C name, its name in configurations and the digit itself.
pub proof fn law_digit_keys_have_one_name(digit: char)
    requires
        '0' <= digit <= '9',
    ensures
        normalized("Digit"@ + seq![digit]) == seq![digit],
        normalized("digit_"@ + seq![digit]) == seq![digit],
        normalized(seq![digit]) == seq![digit],
{
    lemma_key_names();
    lemma_lowered(digit);
    let first = "Digit"@ + seq![digit];
    lemma_prefixed("Digit"@, seq![digit]);
    assert(first.len() == 6 && first[0] == 'D');
    assert(first != "PageUp"@);
    lemma_prefix_differs(first, "Key"@, 0);
    lemma_prefix_differs(first, "key_"@, 0);
    let second = "digit_"@ + seq![digit];
    lemma_prefixed("digit_"@, seq![digit]);
    assert(second.len() == 7 && second[0] == 'd');
    assert(second != "ArrowUp"@);
    lemma_prefix_differs(second, "Key"@, 0);
    lemma_prefix_differs(second, "key_"@, 0);
    lemma_prefix_differs(second, "Digit"@, 0);
    let third = seq![digit];
    assert(third.len() == 1);
    lemma_prefix_differs(third, "Key"@, 1);
    lemma_prefix_differs(third, "key_"@, 1);
    lemma_prefix_differs(third, "Digit"@, 1);
    lemma_prefix_differs(third, "digit_"@, 1);
}

} // verus!
