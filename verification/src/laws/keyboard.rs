//! What the keys of the keyboard mean to a program and to the bindings.
use crate::keys::{
    coded_key, holds, is_modifier_key, key_code, key_modifiers, logical_terminal_key, named_key,
    normalized, option_as_alt, printed, reveals_prompt, spec_consumed, spec_key_text,
    spec_physical_name, terminal_key, text_event, triggers, ElementState, HeldModifiers, Key,
    KeyAction, KeyEvent, KeyLocation, KeyTrigger, Modifiers, OptionAsAlt, PhysicalKey, TerminalKey,
    TerminalKeyEvent,
};
use crate::text::{all_digits, decimal, digit, digits_value, is_digit, lowered, parsed};
use vstd::prelude::*;

verus! {

/// The name of a key that a keyboard has once, in the W3C's list.
pub open spec fn name_of(key: TerminalKey) -> Option<Seq<char>> {
    match key {
        TerminalKey::Char(c) => if c == ' ' {
            Some("Space"@)
        } else {
            None
        },
        TerminalKey::Enter => Some("Enter"@),
        TerminalKey::Tab => Some("Tab"@),
        TerminalKey::Backspace => Some("Backspace"@),
        TerminalKey::Escape => Some("Escape"@),
        TerminalKey::Up => Some("ArrowUp"@),
        TerminalKey::Down => Some("ArrowDown"@),
        TerminalKey::Left => Some("ArrowLeft"@),
        TerminalKey::Right => Some("ArrowRight"@),
        TerminalKey::Home => Some("Home"@),
        TerminalKey::End => Some("End"@),
        TerminalKey::PageUp => Some("PageUp"@),
        TerminalKey::PageDown => Some("PageDown"@),
        TerminalKey::Insert => Some("Insert"@),
        TerminalKey::Delete => Some("Delete"@),
        TerminalKey::Help => Some("Help"@),
        TerminalKey::ContextMenu => Some("ContextMenu"@),
        TerminalKey::CapsLock => Some("CapsLock"@),
        TerminalKey::NumLock => Some("NumLock"@),
        TerminalKey::ScrollLock => Some("ScrollLock"@),
        TerminalKey::PrintScreen => Some("PrintScreen"@),
        TerminalKey::Pause => Some("Pause"@),
        TerminalKey::Shift => Some("Shift"@),
        TerminalKey::Control => Some("Control"@),
        TerminalKey::Alt => Some("Alt"@),
        TerminalKey::Super => Some("Super"@),
        _ => None,
    }
}

/// The names are different from each other, and none is that of a function key.
proof fn lemma_names()
    ensures
        forall|a: TerminalKey, b: TerminalKey|
            #![trigger name_of(a), name_of(b)]
            name_of(a) is Some && name_of(a) == name_of(b) ==> a == b,
        forall|a: TerminalKey|
            #![trigger name_of(a)]
            name_of(a) is Some ==> name_of(a)->0.len() > 1 && name_of(a)->0[0] != 'F',
{
    reveal_strlit("Space");
    reveal_strlit("Enter");
    reveal_strlit("Tab");
    reveal_strlit("Backspace");
    reveal_strlit("Escape");
    reveal_strlit("ArrowUp");
    reveal_strlit("ArrowDown");
    reveal_strlit("ArrowLeft");
    reveal_strlit("ArrowRight");
    reveal_strlit("Home");
    reveal_strlit("End");
    reveal_strlit("PageUp");
    reveal_strlit("PageDown");
    reveal_strlit("Insert");
    reveal_strlit("Delete");
    reveal_strlit("Help");
    reveal_strlit("ContextMenu");
    reveal_strlit("CapsLock");
    reveal_strlit("NumLock");
    reveal_strlit("ScrollLock");
    reveal_strlit("PrintScreen");
    reveal_strlit("Pause");
    reveal_strlit("Shift");
    reveal_strlit("Control");
    reveal_strlit("Alt");
    reveal_strlit("Super");
    assert forall|a: TerminalKey, b: TerminalKey|
        #![trigger name_of(a), name_of(b)]
        name_of(a) is Some && name_of(a) == name_of(b) implies a == b by {
        let s = name_of(a)->0;
        let t = name_of(b)->0;
        assert(s.len() == t.len() && s[0] == t[0] && s[s.len() - 1] == t[t.len() - 1] && s[1]
            == t[1] && s[s.len() - 2] == t[t.len() - 2]);
    }
}

/// Each of the known named keys is translated to the terminal key of its own name, and no two
/// different names give the same terminal key, spellings of one function key's number apart.
pub proof fn law_named_keys_keep_their_names(name: Seq<char>, key: TerminalKey)
    ensures
        !(key is Function) ==> (named_key(name) == Some(key) <==> name_of(key) == Some(name)),
{
    lemma_names();
    lemma_table(name);
}

/// The inverse of the table, from a name to its key.
proof fn lemma_table(name: Seq<char>)
    ensures
        forall|key: TerminalKey|
            #![trigger name_of(key)]
            name_of(key) == Some(name) ==> named_key(name) == Some(key),
        named_key(name) is Some && !(named_key(name)->0 is Function) ==> name_of(
            named_key(name)->0,
        ) == Some(name),
{
    lemma_names();
    assert(name_of(TerminalKey::Char(' ')) == Some("Space"@));
    assert(name_of(TerminalKey::Enter) == Some("Enter"@));
    assert(name_of(TerminalKey::Tab) == Some("Tab"@));
    assert(name_of(TerminalKey::Backspace) == Some("Backspace"@));
    assert(name_of(TerminalKey::Escape) == Some("Escape"@));
    assert(name_of(TerminalKey::Up) == Some("ArrowUp"@));
    assert(name_of(TerminalKey::Down) == Some("ArrowDown"@));
    assert(name_of(TerminalKey::Left) == Some("ArrowLeft"@));
    assert(name_of(TerminalKey::Right) == Some("ArrowRight"@));
    assert(name_of(TerminalKey::Home) == Some("Home"@));
    assert(name_of(TerminalKey::End) == Some("End"@));
    assert(name_of(TerminalKey::PageUp) == Some("PageUp"@));
    assert(name_of(TerminalKey::PageDown) == Some("PageDown"@));
    assert(name_of(TerminalKey::Insert) == Some("Insert"@));
    assert(name_of(TerminalKey::Delete) == Some("Delete"@));
    assert(name_of(TerminalKey::Help) == Some("Help"@));
    assert(name_of(TerminalKey::ContextMenu) == Some("ContextMenu"@));
    assert(name_of(TerminalKey::CapsLock) == Some("CapsLock"@));
    assert(name_of(TerminalKey::NumLock) == Some("NumLock"@));
    assert(name_of(TerminalKey::ScrollLock) == Some("ScrollLock"@));
    assert(name_of(TerminalKey::PrintScreen) == Some("PrintScreen"@));
    assert(name_of(TerminalKey::Pause) == Some("Pause"@));
    assert(name_of(TerminalKey::Shift) == Some("Shift"@));
    assert(name_of(TerminalKey::Control) == Some("Control"@));
    assert(name_of(TerminalKey::Alt) == Some("Alt"@));
    assert(name_of(TerminalKey::Super) == Some("Super"@));
}

/// The function keys go by an F and their number.
pub proof fn law_function_keys_go_by_their_number(number: u8)
    ensures
        named_key("F"@ + decimal(number as int)) == Some(TerminalKey::Function(number)),
{
    reveal_strlit("F");
    let name = "F"@ + decimal(number as int);
    lemma_decimal(number as int);
    assert(name.skip(1) =~= decimal(number as int));
    assert(is_digit(decimal(number as int)[0]));
    assert(crate::text::without_plus(name.skip(1)) == name.skip(1));
    assert(parsed(name.skip(1), 255) == Some(number as int));
    lemma_table(name);
    lemma_names();
    lemma_not_named(name);
}

/// A name that begins with an F is that of a function key or of none.
proof fn lemma_not_named(name: Seq<char>)
    requires
        name.len() > 0,
        name[0] == 'F',
    ensures
        named_key(name) is Some ==> named_key(name)->0 is Function,
        crate::keys::function_number(name) is Some ==> named_key(name) == Some(
            TerminalKey::Function(crate::keys::function_number(name)->0 as u8),
        ),
{
    reveal_strlit("Space");
    reveal_strlit("Enter");
    reveal_strlit("Tab");
    reveal_strlit("Backspace");
    reveal_strlit("Escape");
    reveal_strlit("ArrowUp");
    reveal_strlit("ArrowDown");
    reveal_strlit("ArrowLeft");
    reveal_strlit("ArrowRight");
    reveal_strlit("Home");
    reveal_strlit("End");
    reveal_strlit("PageUp");
    reveal_strlit("PageDown");
    reveal_strlit("Insert");
    reveal_strlit("Delete");
    reveal_strlit("Help");
    reveal_strlit("ContextMenu");
    reveal_strlit("CapsLock");
    reveal_strlit("NumLock");
    reveal_strlit("ScrollLock");
    reveal_strlit("PrintScreen");
    reveal_strlit("Pause");
    reveal_strlit("Shift");
    reveal_strlit("Control");
    reveal_strlit("Alt");
    reveal_strlit("Super");
}

/// A number in decimal is read back as itself.
proof fn lemma_decimal(value: int)
    requires
        value >= 0,
    ensures
        decimal(value).len() > 0,
        all_digits(decimal(value)),
        digits_value(decimal(value)) == value,
    decreases value,
{
    if value >= 10 {
        lemma_decimal(value / 10);
        assert(decimal(value).drop_last() =~= decimal(value / 10));
    } else {
        assert(decimal(value).drop_last() =~= Seq::<char>::empty());
        assert(digits_value(decimal(value).drop_last()) == 0);
    }
}

/// Two different function keys written without leading zeros or a sign have different
/// translations: a name is an F and the number of its key.
pub proof fn law_function_keys_are_told_apart(name: Seq<char>, number: u8)
    requires
        named_key(name) == Some(TerminalKey::Function(number)),
        name.len() > 1,
        name[1] != '0' || name.len() == 2,
        name[1] != '+',
    ensures
        name == "F"@ + decimal(number as int),
{
    reveal_strlit("F");
    lemma_table(name);
    let digits = name.skip(1);
    assert(digits[0] == name[1]);
    assert(crate::text::without_plus(digits) == digits);
    lemma_canonical(digits);
    assert(name =~= "F"@ + digits);
}

/// The name is no function key's with a sign or with leading zeros before its number.
pub open spec fn is_plainly_spelled(name: Seq<char>) -> bool {
    name.len() < 3 || name[0] != 'F' || (name[1] != '0' && name[1] != '+')
}

/// No two different names give the same terminal key: their translations differ wherever both are
/// there. Only the number of a function key can be spelled in several ways, as in "F1" and "F01".
pub proof fn law_names_of_keys_are_not_shared(left: Seq<char>, right: Seq<char>)
    requires
        left != right,
        named_key(left) is Some,
        named_key(right) is Some,
        is_plainly_spelled(left),
        is_plainly_spelled(right),
    ensures
        named_key(left) != named_key(right),
{
    law_named_keys_keep_their_names(left, named_key(left)->0);
    law_named_keys_keep_their_names(right, named_key(right)->0);
    if named_key(left) == named_key(right) && named_key(left)->0 is Function {
        lemma_table(left);
        lemma_table(right);
        let number = named_key(left)->0->Function_0;
        lemma_numbered(left, number);
        lemma_numbered(right, number);
        law_function_keys_are_told_apart(left, number);
        law_function_keys_are_told_apart(right, number);
    }
}

/// A function key's name is an F with something behind it.
proof fn lemma_numbered(name: Seq<char>, number: u8)
    requires
        named_key(name) == Some(TerminalKey::Function(number)),
        is_plainly_spelled(name),
    ensures
        name.len() > 1,
        name[0] == 'F',
        name[1] != '0' || name.len() == 2,
        name[1] != '+',
{
    let digits = name.skip(1);
    assert(digits.len() == name.len() - 1);
    if name.len() > 1 {
        assert(digits[0] == name[1]);
        if name[1] == '+' {
            assert(digits.skip(1).len() == name.len() - 2);
        }
    }
}

proof fn lemma_digit(c: char)
    requires
        is_digit(c),
    ensures
        digit(c as u32 - '0' as u32) == c,
{
}

proof fn lemma_canonical(digits: Seq<char>)
    requires
        digits.len() > 0,
        all_digits(digits),
        digits[0] != '0' || digits.len() == 1,
    ensures
        digits_value(digits) >= 0,
        digits[0] != '0' ==> digits_value(digits) > 0,
        decimal(digits_value(digits)) == digits,
    decreases digits.len(),
{
    let front = digits.drop_last();
    assert(is_digit(digits[digits.len() - 1]));
    lemma_digit(digits[digits.len() - 1]);
    assert(is_digit(digits[0]));
    if digits.len() == 1 {
        assert(digits_value(front) == 0);
        assert(decimal(digits_value(digits)) =~= digits);
    } else {
        assert forall|i: int| 0 <= i < front.len() implies is_digit(#[trigger] front[i]) by {
            assert(front[i] == digits[i]);
        }
        lemma_canonical(front);
        let value = digits_value(digits);
        assert(value >= 10);
        assert(value / 10 == digits_value(front));
        assert(decimal(value) =~= digits);
    }
}

/// The Option keys act as Alt by side where the user named one.
pub proof fn law_option_keys_act_as_alt_by_side(
    mode: OptionAsAlt,
    left: bool,
    right: bool,
    alt: bool,
)
    requires
        call_ensures(option_as_alt, (mode, left, right), alt),
    ensures
        mode == OptionAsAlt::False ==> !alt,
        mode == OptionAsAlt::True ==> alt,
        mode == OptionAsAlt::Left ==> (alt <==> left),
        mode == OptionAsAlt::Right ==> (alt <==> right),
{
}

/// The code of a key that a keyboard has a second time, on its right or on its numpad.
pub open spec fn code_of(key: TerminalKey) -> Option<Seq<char>> {
    match key {
        TerminalKey::ShiftRight => Some("ShiftRight"@),
        TerminalKey::ControlRight => Some("ControlRight"@),
        TerminalKey::AltRight => Some("AltRight"@),
        TerminalKey::SuperRight => Some("SuperRight"@),
        TerminalKey::KeypadEnter => Some("NumpadEnter"@),
        TerminalKey::KeypadDecimal => Some("NumpadDecimal"@),
        TerminalKey::KeypadAdd => Some("NumpadAdd"@),
        TerminalKey::KeypadSubtract => Some("NumpadSubtract"@),
        TerminalKey::KeypadMultiply => Some("NumpadMultiply"@),
        TerminalKey::KeypadDivide => Some("NumpadDivide"@),
        TerminalKey::KeypadEqual => Some("NumpadEqual"@),
        TerminalKey::KeypadSeparator => Some("NumpadComma"@),
        TerminalKey::Keypad(n) => if n < 10 {
            Some("Numpad"@ + decimal(n as int))
        } else {
            None
        },
        _ => None,
    }
}

/// The keys on the right and on the numpad are told by their codes, each by its own: no other code
/// stands for one of them, and they stand for no other key.
pub proof fn law_second_keys_go_by_their_codes(code: Seq<char>, key: TerminalKey)
    ensures
        coded_key(code) == Some(key) <==> code_of(key) == Some(code),
{
    lemma_codes();
    lemma_numpad();
    assert(code_of(TerminalKey::ShiftRight) == Some("ShiftRight"@));
    assert(code_of(TerminalKey::ControlRight) == Some("ControlRight"@));
    assert(code_of(TerminalKey::AltRight) == Some("AltRight"@));
    assert(code_of(TerminalKey::SuperRight) == Some("SuperRight"@));
    assert(code_of(TerminalKey::KeypadEnter) == Some("NumpadEnter"@));
    assert(code_of(TerminalKey::KeypadDecimal) == Some("NumpadDecimal"@));
    assert(code_of(TerminalKey::KeypadAdd) == Some("NumpadAdd"@));
    assert(code_of(TerminalKey::KeypadSubtract) == Some("NumpadSubtract"@));
    assert(code_of(TerminalKey::KeypadMultiply) == Some("NumpadMultiply"@));
    assert(code_of(TerminalKey::KeypadDivide) == Some("NumpadDivide"@));
    assert(code_of(TerminalKey::KeypadEqual) == Some("NumpadEqual"@));
    assert(code_of(TerminalKey::KeypadSeparator) == Some("NumpadComma"@));
    assert(code_of(TerminalKey::Keypad(0)) == Some("Numpad0"@));
    assert(code_of(TerminalKey::Keypad(1)) == Some("Numpad1"@));
    assert(code_of(TerminalKey::Keypad(2)) == Some("Numpad2"@));
    assert(code_of(TerminalKey::Keypad(3)) == Some("Numpad3"@));
    assert(code_of(TerminalKey::Keypad(4)) == Some("Numpad4"@));
    assert(code_of(TerminalKey::Keypad(5)) == Some("Numpad5"@));
    assert(code_of(TerminalKey::Keypad(6)) == Some("Numpad6"@));
    assert(code_of(TerminalKey::Keypad(7)) == Some("Numpad7"@));
    assert(code_of(TerminalKey::Keypad(8)) == Some("Numpad8"@));
    assert(code_of(TerminalKey::Keypad(9)) == Some("Numpad9"@));
    if coded_key(code) is Some {
        assert(code_of(coded_key(code)->0) == Some(code));
    }
    if code_of(key) == Some(code) {
        assert(coded_key(code) is Some);
    }
}

/// The codes of the digits on the numpad.
proof fn lemma_numpad()
    ensures
        "Numpad0"@ == "Numpad"@ + decimal(0),
        "Numpad1"@ == "Numpad"@ + decimal(1),
        "Numpad2"@ == "Numpad"@ + decimal(2),
        "Numpad3"@ == "Numpad"@ + decimal(3),
        "Numpad4"@ == "Numpad"@ + decimal(4),
        "Numpad5"@ == "Numpad"@ + decimal(5),
        "Numpad6"@ == "Numpad"@ + decimal(6),
        "Numpad7"@ == "Numpad"@ + decimal(7),
        "Numpad8"@ == "Numpad"@ + decimal(8),
        "Numpad9"@ == "Numpad"@ + decimal(9),
{
    reveal_strlit("Numpad");
    reveal_strlit("Numpad0");
    assert("Numpad0"@ =~= "Numpad"@ + decimal(0));
    reveal_strlit("Numpad1");
    assert("Numpad1"@ =~= "Numpad"@ + decimal(1));
    reveal_strlit("Numpad2");
    assert("Numpad2"@ =~= "Numpad"@ + decimal(2));
    reveal_strlit("Numpad3");
    assert("Numpad3"@ =~= "Numpad"@ + decimal(3));
    reveal_strlit("Numpad4");
    assert("Numpad4"@ =~= "Numpad"@ + decimal(4));
    reveal_strlit("Numpad5");
    assert("Numpad5"@ =~= "Numpad"@ + decimal(5));
    reveal_strlit("Numpad6");
    assert("Numpad6"@ =~= "Numpad"@ + decimal(6));
    reveal_strlit("Numpad7");
    assert("Numpad7"@ =~= "Numpad"@ + decimal(7));
    reveal_strlit("Numpad8");
    assert("Numpad8"@ =~= "Numpad"@ + decimal(8));
    reveal_strlit("Numpad9");
    assert("Numpad9"@ =~= "Numpad"@ + decimal(9));
}

/// The codes are different from each other.
proof fn lemma_codes()
    ensures
        forall|a: TerminalKey, b: TerminalKey|
            #![trigger code_of(a), code_of(b)]
            code_of(a) is Some && code_of(a) == code_of(b) ==> a == b,
{
    reveal_strlit("Numpad");
    reveal_strlit("ShiftRight");
    reveal_strlit("ControlRight");
    reveal_strlit("AltRight");
    reveal_strlit("SuperRight");
    reveal_strlit("NumpadEnter");
    reveal_strlit("NumpadDecimal");
    reveal_strlit("NumpadAdd");
    reveal_strlit("NumpadSubtract");
    reveal_strlit("NumpadMultiply");
    reveal_strlit("NumpadDivide");
    reveal_strlit("NumpadEqual");
    reveal_strlit("NumpadComma");
    assert forall|a: TerminalKey, b: TerminalKey|
        #![trigger code_of(a), code_of(b)]
        code_of(a) is Some && code_of(a) == code_of(b) implies a == b by {
        let s = code_of(a)->0;
        let t = code_of(b)->0;
        assert(s.len() == t.len() && s[0] == t[0] && s[s.len() - 1] == t[t.len() - 1] && s[6]
            == t[6] && s[1] == t[1]);
        if a is Keypad && b is Keypad {
            assert(s[6] == digit(a->Keypad_0 as int) && t[6] == digit(b->Keypad_0 as int));
        }
    }
}

/// What a key on the right or on the numpad is translated to: the terminal's key for that place
/// where it has one, and otherwise what the key means anywhere.
pub proof fn law_keys_are_told_by_their_place(
    logical: Key,
    physical: PhysicalKey,
    location: KeyLocation,
)
    ensures
        ({
            let anywhere = key_code(logical, PhysicalKey::Unidentified, KeyLocation::Standard);
            let here = key_code(logical, physical, location);
            let coded = physical is Code && coded_key(physical->Code_0@) is Some;
            &&& !coded && (location == KeyLocation::Standard || location == KeyLocation::Left)
                ==> here == anywhere
            &&& coded && (location == KeyLocation::Standard || location == KeyLocation::Left)
                ==> here == coded_key(physical->Code_0@)->0
            &&& location == KeyLocation::Right && anywhere == TerminalKey::Shift ==> here
                == TerminalKey::ShiftRight
            &&& location == KeyLocation::Right && anywhere == TerminalKey::Control ==> here
                == TerminalKey::ControlRight
            &&& location == KeyLocation::Right && anywhere == TerminalKey::Alt ==> here
                == TerminalKey::AltRight
            &&& location == KeyLocation::Right && anywhere == TerminalKey::Super ==> here
                == TerminalKey::SuperRight
            &&& location == KeyLocation::Right && !is_modifier_key(anywhere) && !coded ==> here
                == anywhere
            &&& location == KeyLocation::Numpad && anywhere == TerminalKey::Left ==> here
                == TerminalKey::KeypadLeft
            &&& location == KeyLocation::Numpad && anywhere == TerminalKey::Right ==> here
                == TerminalKey::KeypadRight
            &&& location == KeyLocation::Numpad && anywhere == TerminalKey::Up ==> here
                == TerminalKey::KeypadUp
            &&& location == KeyLocation::Numpad && anywhere == TerminalKey::Down ==> here
                == TerminalKey::KeypadDown
            &&& location == KeyLocation::Numpad && anywhere == TerminalKey::PageUp ==> here
                == TerminalKey::KeypadPageUp
            &&& location == KeyLocation::Numpad && anywhere == TerminalKey::PageDown ==> here
                == TerminalKey::KeypadPageDown
            &&& location == KeyLocation::Numpad && anywhere == TerminalKey::Home ==> here
                == TerminalKey::KeypadHome
            &&& location == KeyLocation::Numpad && anywhere == TerminalKey::End ==> here
                == TerminalKey::KeypadEnd
            &&& location == KeyLocation::Numpad && anywhere == TerminalKey::Insert ==> here
                == TerminalKey::KeypadInsert
            &&& location == KeyLocation::Numpad && anywhere == TerminalKey::Delete ==> here
                == TerminalKey::KeypadDelete
            &&& location == KeyLocation::Numpad && anywhere == TerminalKey::Enter ==> here
                == TerminalKey::KeypadEnter
        }),
{
    if let Key::Named(name) = logical {
        law_named_keys_keep_their_names(name@, TerminalKey::ShiftRight);
        law_named_keys_keep_their_names(name@, TerminalKey::ControlRight);
        law_named_keys_keep_their_names(name@, TerminalKey::AltRight);
        law_named_keys_keep_their_names(name@, TerminalKey::SuperRight);
    }
}

/// A digit on the numpad is the keypad's key of its value; a numpad's Clear is the keypad's
/// Begin.
pub proof fn law_numpad_digits_are_keypad_keys(
    text: String,
    clear: String,
    physical: PhysicalKey,
    value: u8,
)
    requires
        value < 10,
        text@ == decimal(value as int),
        clear@ == "Clear"@,
    ensures
        key_code(Key::Character(text), physical, KeyLocation::Numpad) == TerminalKey::Keypad(value),
        key_code(Key::Named(clear), physical, KeyLocation::Numpad) == TerminalKey::KeypadBegin,
        key_code(Key::Named(clear), PhysicalKey::Unidentified, KeyLocation::Standard)
            == TerminalKey::Unidentified,
{
    assert(text@[0] == digit(value as int));
    lemma_clear();
}

proof fn lemma_clear()
    ensures
        named_key("Clear"@) is None,
{
    reveal_strlit("Clear");
    reveal_strlit("Space");
    reveal_strlit("Enter");
    reveal_strlit("Tab");
    reveal_strlit("Backspace");
    reveal_strlit("Escape");
    reveal_strlit("ArrowUp");
    reveal_strlit("ArrowDown");
    reveal_strlit("ArrowLeft");
    reveal_strlit("ArrowRight");
    reveal_strlit("Home");
    reveal_strlit("End");
    reveal_strlit("PageUp");
    reveal_strlit("PageDown");
    reveal_strlit("Insert");
    reveal_strlit("Delete");
    reveal_strlit("Help");
    reveal_strlit("ContextMenu");
    reveal_strlit("CapsLock");
    reveal_strlit("NumLock");
    reveal_strlit("ScrollLock");
    reveal_strlit("PrintScreen");
    reveal_strlit("Pause");
    reveal_strlit("Shift");
    reveal_strlit("Control");
    reveal_strlit("Alt");
    reveal_strlit("Super");
    assert("Clear"@[0] == 'C');
}

/// A character's key is its first character; keys without a name that is known are unidentified.
pub proof fn law_characters_are_their_own_keys(text: String, name: String)
    ensures
        text@.len() > 0 ==> logical_terminal_key(Key::Character(text)) == TerminalKey::Char(text@[0]),
        text@.len() == 0 ==> logical_terminal_key(Key::Character(text))
            == TerminalKey::Unidentified,
        named_key(name@) is None ==> logical_terminal_key(Key::Named(name))
            == TerminalKey::Unidentified,
        named_key(name@) is Some ==> Some(logical_terminal_key(Key::Named(name))) == named_key(
            name@,
        ),
        logical_terminal_key(Key::Other) == TerminalKey::Unidentified,
{
}

/// The text of a key is kept whole unless it begins with a control character.
pub proof fn law_control_characters_are_no_text(text: Seq<char>)
    ensures
        spec_key_text(None) is None,
        text.len() == 0 ==> spec_key_text(Some(text)) is None,
        text.len() > 0 && text[0] as u32 >= 32 && text[0] as u32 != 127 ==> spec_key_text(Some(text))
            == Some(text),
        text.len() > 0 && ((text[0] as u32) < 32 || text[0] as u32 == 127) ==> spec_key_text(Some(text))
            is None,
{
}

/// A press adds its key's modifier, and a release takes it away unless the key on the other side is
/// still down; the others stay. Only macOS needs the correction.
pub proof fn law_modifier_keys_count_at_once(
    key: TerminalKey,
    state: ElementState,
    held: HeldModifiers,
    macos: bool,
    modifiers: Modifiers,
)
    requires
        call_ensures(key_modifiers, (key, state, held, macos), modifiers),
    ensures
        ({
            let shift = key == TerminalKey::Shift || key == TerminalKey::ShiftRight;
            let control = key == TerminalKey::Control || key == TerminalKey::ControlRight;
            let alt = key == TerminalKey::Alt || key == TerminalKey::AltRight;
            let super_key = key == TerminalKey::Super || key == TerminalKey::SuperRight;
            let pressed = state == ElementState::Pressed;
            &&& !macos ==> modifiers == held.state
            &&& !shift ==> modifiers.shift == held.state.shift
            &&& !control ==> modifiers.control == held.state.control
            &&& !alt ==> modifiers.alt == held.state.alt
            &&& !super_key ==> modifiers.super_key == held.state.super_key
            &&& macos && pressed && shift ==> modifiers.shift
            &&& macos && pressed && control ==> modifiers.control
            &&& macos && pressed && alt ==> modifiers.alt
            &&& macos && pressed && super_key ==> modifiers.super_key
            &&& macos && !pressed && key == TerminalKey::Shift ==> modifiers.shift
                == held.right.shift
            &&& macos && !pressed && key == TerminalKey::ShiftRight ==> modifiers.shift
                == held.left.shift
            &&& macos && !pressed && key == TerminalKey::Control ==> modifiers.control
                == held.right.control
            &&& macos && !pressed && key == TerminalKey::ControlRight ==> modifiers.control
                == held.left.control
            &&& macos && !pressed && key == TerminalKey::Alt ==> modifiers.alt == held.right.alt
            &&& macos && !pressed && key == TerminalKey::AltRight ==> modifiers.alt == held.left.alt
            &&& macos && !pressed && key == TerminalKey::Super ==> modifiers.super_key
                == held.right.super_key
            &&& macos && !pressed && key == TerminalKey::SuperRight ==> modifiers.super_key
                == held.left.super_key
        }),
{
}

/// Modifiers are consumed only where they are held and a text came of them; Control and Super never
/// are. On macOS Shift always is, and Option where it composes; elsewhere both only where the text
/// is not the key's own, and Alt only where it gave a character beyond ASCII.
pub proof fn law_consumed_modifiers_made_the_text(
    unmodified: Key,
    text: Seq<char>,
    mods: Modifiers,
    option_as_alt: bool,
)
    ensures
        ({
            let there = spec_consumed(unmodified, Some(text), mods, option_as_alt, true);
            let here = spec_consumed(unmodified, Some(text), mods, option_as_alt, false);
            let ascii = forall|i: int| 0 <= i < text.len() ==> '\0' <= (#[trigger] text[i])
                <= '\u{7f}';
            &&& !there.control && !there.super_key && !here.control && !here.super_key
            &&& there.shift ==> mods.shift
            &&& there.alt ==> mods.alt
            &&& here.shift ==> mods.shift
            &&& here.alt ==> mods.alt
            &&& text.len() > 0 && mods.shift ==> there.shift
            &&& text.len() > 0 && mods.alt ==> (there.alt <==> !option_as_alt)
            &&& text.len() > 0 && mods.shift ==> (here.shift <==> unmodified.spec_text() != Some(
                text,
            ))
            &&& text.len() > 0 && mods.alt ==> (here.alt <==> unmodified.spec_text() != Some(text)
                && !ascii)
            &&& text.len() == 0 ==> !there.shift && !there.alt && !here.shift && !here.alt
        }),
        ({
            let none = spec_consumed(unmodified, None, mods, option_as_alt, true);
            !none.shift && !none.control && !none.alt && !none.super_key
        }),
        ({
            let none = spec_consumed(unmodified, None, mods, option_as_alt, false);
            !none.shift && !none.control && !none.alt && !none.super_key
        }),
{
}

/// A character key types itself, and five of the named ones a character of their own.
pub proof fn law_keys_type_their_text(text: String, name: String)
    ensures
        Key::Character(text).spec_text() == Some(text@),
        Key::Other.spec_text() is None,
        name@ == "Enter"@ ==> Key::Named(name).spec_text() == Some(seq!['\r']),
        name@ == "Backspace"@ ==> Key::Named(name).spec_text() == Some(seq!['\u{8}']),
        name@ == "Tab"@ ==> Key::Named(name).spec_text() == Some(seq!['\t']),
        name@ == "Space"@ ==> Key::Named(name).spec_text() == Some(seq![' ']),
        name@ == "Escape"@ ==> Key::Named(name).spec_text() == Some(seq!['\u{1b}']),
        Key::Named(name).spec_text() is Some ==> name@ == "Enter"@ || name@ == "Backspace"@ || name@
            == "Tab"@ || name@ == "Space"@ || name@ == "Escape"@,
{
    reveal_strlit("Enter");
    reveal_strlit("Backspace");
    reveal_strlit("Tab");
    reveal_strlit("Space");
    reveal_strlit("Escape");
    assert("Enter"@.len() == 5 && "Space"@.len() == 5 && "Escape"@.len() == 6);
    assert("Backspace"@.len() == 9 && "Tab"@.len() == 3);
    assert("Enter"@[0] == 'E' && "Space"@[0] == 'S');
    reveal_strlit("\r");
    reveal_strlit("\u{8}");
    reveal_strlit("\t");
    reveal_strlit(" ");
    reveal_strlit("\u{1b}");
    assert("\r"@ =~= seq!['\r']);
    assert("\u{8}"@ =~= seq!['\u{8}']);
    assert("\t"@ =~= seq!['\t']);
    assert(" "@ =~= seq![' ']);
    assert("\u{1b}"@ =~= seq!['\u{1b}']);
}

/// A keyboard event is handed on with its own key, text and modifiers, as a press, a repetition or
/// a release, with the character that the key gives alone. Only one with neither a key nor a text
/// is not.
pub proof fn law_key_events_are_handed_on(
    event: &KeyEvent,
    modifiers: HeldModifiers,
    composing: bool,
    option_as_alt: bool,
    macos: bool,
    handed: Option<TerminalKeyEvent>,
)
    requires
        call_ensures(terminal_key, (event, modifiers, composing, option_as_alt, macos), handed),
    ensures
        ({
            let numpad = event.location == KeyLocation::Numpad;
            let key = if numpad {
                key_code(event.logical_key, event.physical_key, event.location)
            } else {
                key_code(event.unmodified, event.physical_key, event.location)
            };
            let printable = event.text is Some && event.text->0@.len() > 0 && event.text->0@[0]
                as u32 >= 32 && event.text->0@[0] as u32 != 127;
            &&& handed is None <==> key == TerminalKey::Unidentified && !printable
            &&& handed matches Some(found) ==> {
                &&& found.key == key
                &&& printable ==> found.text is Some && found.text->0@ == event.text->0@
                &&& !printable ==> found.text is None
                &&& event.state == ElementState::Released <==> found.action == KeyAction::Release
                &&& event.state == ElementState::Pressed && event.repeat <==> found.action
                    == KeyAction::Repeat
                &&& event.unmodified matches Key::Character(text) ==> text@.len() > 0
                    ==> found.unshifted == Some(text@[0])
                &&& event.unmodified is Other ==> found.unshifted is None
                &&& found.composing == composing
                &&& !macos ==> found.modifiers == modifiers.state
                &&& !is_modifier_key(key) ==> found.modifiers == modifiers.state
                &&& !found.consumed_modifiers.control && !found.consumed_modifiers.super_key
                &&& found.consumed_modifiers.shift ==> found.modifiers.shift && printable
                &&& found.consumed_modifiers.alt ==> found.modifiers.alt && printable
                &&& macos && printable && found.modifiers.shift ==> found.consumed_modifiers.shift
                &&& macos && printable && found.modifiers.alt && !option_as_alt
                    ==> found.consumed_modifiers.alt
            }
        }),
{
}

/// Composed text comes from no key and with no modifiers.
pub proof fn law_composed_text_has_no_key(text: String, event: TerminalKeyEvent)
    requires
        call_ensures(text_event, (text,), event),
    ensures
        event.text == Some(text),
        event.key == TerminalKey::Unidentified && event.action == KeyAction::Press,
        !event.modifiers.shift && !event.modifiers.control && !event.modifiers.alt
            && !event.modifiers.super_key,
        !event.consumed_modifiers.shift && !event.consumed_modifiers.control
            && !event.consumed_modifiers.alt && !event.consumed_modifiers.super_key,
        event.unshifted is None && !event.composing,
{
}

/// Bytes that a press or a repetition sends are typing, those of a modifier key or of a release are
/// not.
pub proof fn law_typing_reveals_the_prompt(
    bytes: &Vec<u8>,
    event: &TerminalKeyEvent,
    typing: bool,
)
    requires
        call_ensures(reveals_prompt, (bytes, event), typing),
    ensures
        bytes@.len() == 0 ==> !typing,
        event.action == KeyAction::Release ==> !typing,
        event.key == TerminalKey::Shift || event.key == TerminalKey::ShiftRight || event.key
            == TerminalKey::Control || event.key == TerminalKey::ControlRight || event.key
            == TerminalKey::Alt || event.key == TerminalKey::AltRight || event.key
            == TerminalKey::Super || event.key == TerminalKey::SuperRight ==> !typing,
        bytes@.len() > 0 && event.action != KeyAction::Release && (event.key is Char || event.key
            is Function || event.key == TerminalKey::Enter || event.key == TerminalKey::Unidentified
            || event.key == TerminalKey::Backspace || event.key == TerminalKey::Tab) ==> typing,
{
}

/// A binding fires only on exactly its modifiers, and then on every key where it catches all.
pub proof fn law_bindings_fire_on_exactly_their_modifiers(
    trigger: KeyTrigger,
    event: KeyEvent,
    mods: Modifiers,
)
    ensures
        triggers(trigger, event, mods) ==> trigger.modifiers.shift == mods.shift
            && trigger.modifiers.control == mods.control && trigger.modifiers.alt == mods.alt
            && trigger.modifiers.super_key == mods.super_key,
        trigger.modifiers == mods && trigger.key@ == "catch_all"@ ==> triggers(trigger, event, mods),
        trigger.key@ != "catch_all"@ && !trigger.physical && event.unmodified is Other ==> !triggers(
            trigger,
            event,
            mods,
        ),
{
}

/// A binding by meaning fires on the key of its name, whatever the place of the key; one by place
/// fires on the key with its code, whatever the key means.
pub proof fn law_bindings_fire_on_their_key(
    trigger: KeyTrigger,
    event: KeyEvent,
    other: KeyEvent,
    mods: Modifiers,
)
    requires
        trigger.modifiers == mods,
    ensures
        !trigger.physical && event.unmodified is Character && event.unmodified->Character_0@
            == trigger.key@ ==> triggers(trigger, event, mods),
        !trigger.physical && event.unmodified is Named && event.unmodified->Named_0@ == trigger.key@
            ==> triggers(trigger, event, mods),
        trigger.physical && event.physical_key == other.physical_key ==> triggers(
            trigger,
            event,
            mods,
        ) == triggers(trigger, other, mods),
        !trigger.physical && event.unmodified == other.unmodified ==> triggers(trigger, event, mods)
            == triggers(trigger, other, mods),
{
}

/// A chord is held while each of its modifiers is, whatever else is held.
pub proof fn law_chords_are_held_with_more(chord: Modifiers, current: Modifiers)
    ensures
        holds(chord, current) ==> (chord.shift ==> current.shift) && (chord.control
            ==> current.control) && (chord.alt ==> current.alt) && (chord.super_key
            ==> current.super_key),
        (current.shift || !chord.shift) && (current.control || !chord.control) && (current.alt
            || !chord.alt) && (current.super_key || !chord.super_key) ==> holds(chord, current),
{
}

/// Keys that go by several names are the same under each of them.
pub proof fn law_keys_have_one_name()
    ensures
        normalized("ArrowLeft"@) == "arrow_left"@ && normalized("arrow_left"@) == "arrow_left"@,
        normalized("ArrowRight"@) == "arrow_right"@ && normalized("arrow_right"@) == "arrow_right"@,
        normalized("ArrowUp"@) == "arrow_up"@ && normalized("arrow_up"@) == "arrow_up"@,
        normalized("ArrowDown"@) == "arrow_down"@ && normalized("arrow_down"@) == "arrow_down"@,
        normalized("PageUp"@) == "page_up"@ && normalized("page_up"@) == "page_up"@,
        normalized("PageDown"@) == "page_down"@ && normalized("page_down"@) == "page_down"@,
        normalized("Space"@) == seq![' '] && normalized("space"@) == seq![' '] && normalized(
            seq![' '],
        ) == seq![' '],
        normalized("Backquote"@) == seq!['`'] && normalized("backquote"@) == seq!['`'] && normalized(
            seq!['`'],
        ) == seq!['`'],
{
    reveal_strlit("ArrowLeft");
    reveal_strlit("arrow_left");
    reveal_strlit("ArrowRight");
    reveal_strlit("arrow_right");
    reveal_strlit("ArrowUp");
    reveal_strlit("arrow_up");
    reveal_strlit("ArrowDown");
    reveal_strlit("arrow_down");
    reveal_strlit("PageUp");
    reveal_strlit("page_up");
    reveal_strlit("PageDown");
    reveal_strlit("page_down");
    reveal_strlit("Space");
    reveal_strlit("space");
    reveal_strlit(" ");
    reveal_strlit("Backquote");
    reveal_strlit("backquote");
    reveal_strlit("`");
    reveal_strlit("Key");
    reveal_strlit("key_");
    reveal_strlit("Digit");
    reveal_strlit("digit_");
    assert(" "@ =~= seq![' ']);
    assert("`"@ =~= seq!['`']);
    lemma_plain("arrow_left"@);
    lemma_plain("arrow_right"@);
    lemma_plain("arrow_up"@);
    lemma_plain("arrow_down"@);
    lemma_plain("page_up"@);
    lemma_plain("page_down"@);
    lemma_plain(seq![' ']);
    lemma_plain(seq!['`']);
    assert("ArrowLeft"@.len() == 9 && "ArrowRight"@.len() == 10 && "ArrowUp"@.len() == 7);
    assert("ArrowDown"@.len() == 9 && "PageUp"@.len() == 6 && "PageDown"@.len() == 8);
    assert("ArrowLeft"@[5] == 'L' && "ArrowDown"@[5] == 'D');
    assert("Space"@.len() == 5 && "space"@.len() == 5);
    assert("backquote"@.len() == 9 && "Backquote"@.len() == 9);
    assert("backquote"@[0] == 'b' && "Backquote"@[0] == 'B' && "ArrowLeft"@[0] == 'A');
    assert("ArrowDown"@[0] == 'A');
}

/// A name in small letters without a special form is compared as it is.
proof fn lemma_plain(name: Seq<char>)
    requires
        name.len() > 0,
        name[0] != 'K' && name[0] != 'k' && name[0] != 'D' && name[0] != 'd',
        name[0] != 's' && name[0] != 'S' && name[0] != 'b' && name[0] != 'B',
        name[0] != 'A' && name[0] != 'P',
        forall|i: int|
            0 <= i < name.len() ==> '\0' <= (#[trigger] name[i]) <= '\u{7f}' && !('A' <= name[i]
                <= 'Z'),
    ensures
        normalized(name) == name,
{
    reveal_strlit("space");
    reveal_strlit("Space");
    reveal_strlit("backquote");
    reveal_strlit("Backquote");
    reveal_strlit("ArrowLeft");
    reveal_strlit("ArrowRight");
    reveal_strlit("ArrowUp");
    reveal_strlit("ArrowDown");
    reveal_strlit("PageUp");
    reveal_strlit("PageDown");
    reveal_strlit("Key");
    reveal_strlit("key_");
    reveal_strlit("Digit");
    reveal_strlit("digit_");
    if crate::text::has_prefix(name, "Key"@) {
        assert(name.subrange(0, "Key"@.len() as int)[0] == name[0]);
    }
    if crate::text::has_prefix(name, "key_"@) {
        assert(name.subrange(0, "key_"@.len() as int)[0] == name[0]);
    }
    if crate::text::has_prefix(name, "Digit"@) {
        assert(name.subrange(0, "Digit"@.len() as int)[0] == name[0]);
    }
    if crate::text::has_prefix(name, "digit_"@) {
        assert(name.subrange(0, "digit_"@.len() as int)[0] == name[0]);
    }
    assert(vstd::utf8::is_ascii_chars(name));
    assert(lowered(name) =~= name);
}

/// The code of the key that prints a character on an American keyboard, where it is neither letter
/// nor digit.
pub open spec fn code_printing(c: char) -> Option<Seq<char>> {
    match c {
        '`' => Some("Backquote"@),
        ' ' => Some("Space"@),
        '-' => Some("Minus"@),
        '=' => Some("Equal"@),
        '[' => Some("BracketLeft"@),
        ']' => Some("BracketRight"@),
        '\\' => Some("Backslash"@),
        ';' => Some("Semicolon"@),
        '\'' => Some("Quote"@),
        ',' => Some("Comma"@),
        '.' => Some("Period"@),
        '/' => Some("Slash"@),
        _ => None,
    }
}

/// Each key of punctuation goes by the character that it prints.
pub proof fn law_punctuation_goes_by_what_it_prints(code: Seq<char>, c: char)
    ensures
        printed(code) == Some(seq![c]) <==> code_printing(c) == Some(code),
{
    reveal_strlit("Backquote");
    reveal_strlit("`");
    assert("`"@ =~= seq!['`']);
    reveal_strlit("Space");
    reveal_strlit(" ");
    assert(" "@ =~= seq![' ']);
    reveal_strlit("Minus");
    reveal_strlit("-");
    assert("-"@ =~= seq!['-']);
    reveal_strlit("Equal");
    reveal_strlit("=");
    assert("="@ =~= seq!['=']);
    reveal_strlit("BracketLeft");
    reveal_strlit("[");
    assert("["@ =~= seq!['[']);
    reveal_strlit("BracketRight");
    reveal_strlit("]");
    assert("]"@ =~= seq![']']);
    reveal_strlit("Backslash");
    reveal_strlit("\\");
    assert("\\"@ =~= seq!['\\']);
    reveal_strlit("Semicolon");
    reveal_strlit(";");
    assert(";"@ =~= seq![';']);
    reveal_strlit("Quote");
    reveal_strlit("'");
    assert("'"@ =~= seq!['\'']);
    reveal_strlit("Comma");
    reveal_strlit(",");
    assert(","@ =~= seq![',']);
    reveal_strlit("Period");
    reveal_strlit(".");
    assert("."@ =~= seq!['.']);
    reveal_strlit("Slash");
    reveal_strlit("/");
    assert("/"@ =~= seq!['/']);
    assert(forall|a: char, b: char| #[trigger] seq![a] == #[trigger] seq![b] ==> a == b) by {
        assert forall|a: char, b: char| #[trigger] seq![a] == #[trigger] seq![b] implies a == b by {
            assert(seq![a][0] == a && seq![b][0] == b);
        }
    }
    assert("Backquote"@.len() == 9 && "Backslash"@.len() == 9 && "Semicolon"@.len() == 9);
    assert("Backquote"@[4] == 'q' && "Backslash"@[4] == 's' && "Semicolon"@[4] == 'c');
    assert("Space"@.len() == 5 && "Minus"@.len() == 5 && "Equal"@.len() == 5);
    assert("Quote"@.len() == 5 && "Comma"@.len() == 5 && "Slash"@.len() == 5);
    assert("Space"@[1] == 'p' && "Minus"@[1] == 'i' && "Equal"@[1] == 'q');
    assert("Quote"@[1] == 'u' && "Comma"@[1] == 'o' && "Slash"@[1] == 'l');
    assert("BracketLeft"@.len() == 11 && "BracketRight"@.len() == 12 && "Period"@.len() == 6);
}

/// A place on the keyboard goes by what it prints, by its letter or digit, or by the name of its
/// code; an unknown one has no name.
pub proof fn law_places_go_by_what_they_print(code: String)
    ensures
        printed(code@) is Some ==> spec_physical_name(PhysicalKey::Code(code)) == printed(code@)->0,
        printed(code@) is None ==> spec_physical_name(PhysicalKey::Code(code)) == normalized(code@),
        spec_physical_name(PhysicalKey::Unidentified).len() == 0,
{
}

} // verus!
