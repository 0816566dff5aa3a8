use rustty_core::keys::{
    chord_held, consumed_modifiers, key_alias, key_modifiers, normalize_name, option_as_alt,
    physical_name, reveals_prompt, terminal_key, terminal_key_code, terminal_key_text,
    terminal_named_key, text_event, ElementState, HeldModifiers, Key, KeyAction, KeyAlias,
    KeyEvent, KeyLocation, KeyTrigger, Modifiers, OptionAsAlt, PhysicalKey, TerminalKey,
    TerminalKeyEvent,
};
use winit::keyboard::{KeyCode, NamedKey};

const NONE: Modifiers = Modifiers {
    shift: false,
    control: false,
    alt: false,
    super_key: false,
};
const ALL: Modifiers = Modifiers {
    shift: true,
    control: true,
    alt: true,
    super_key: true,
};

fn named(key: NamedKey) -> Key {
    Key::Named(format!("{key:?}"))
}

fn code(code: KeyCode) -> PhysicalKey {
    PhysicalKey::Code(format!("{code:?}"))
}

fn press(key: TerminalKey) -> TerminalKeyEvent {
    TerminalKeyEvent {
        key,
        text: None,
        modifiers: NONE,
        consumed_modifiers: NONE,
        action: KeyAction::Press,
        unshifted: None,
        composing: false,
    }
}

#[test]
fn named_keys_and_right_modifiers_keep_their_terminal_identity() {
    let unknown = PhysicalKey::Unidentified;
    for (key, expected) in [
        (NamedKey::Help, TerminalKey::Help),
        (NamedKey::ContextMenu, TerminalKey::ContextMenu),
    ] {
        assert_eq!(
            terminal_key_code(&named(key), &unknown, KeyLocation::Standard),
            expected
        );
    }
    for (key, location, physical, expected) in [
        (
            NamedKey::Shift,
            KeyLocation::Right,
            KeyCode::ShiftRight,
            TerminalKey::ShiftRight,
        ),
        (
            NamedKey::Control,
            KeyLocation::Right,
            KeyCode::ControlRight,
            TerminalKey::ControlRight,
        ),
        (
            NamedKey::Alt,
            KeyLocation::Right,
            KeyCode::AltRight,
            TerminalKey::AltRight,
        ),
        (
            NamedKey::Super,
            KeyLocation::Right,
            KeyCode::SuperRight,
            TerminalKey::SuperRight,
        ),
        (
            NamedKey::CapsLock,
            KeyLocation::Standard,
            KeyCode::CapsLock,
            TerminalKey::CapsLock,
        ),
        (
            NamedKey::ScrollLock,
            KeyLocation::Standard,
            KeyCode::ScrollLock,
            TerminalKey::ScrollLock,
        ),
        (
            NamedKey::NumLock,
            KeyLocation::Numpad,
            KeyCode::NumLock,
            TerminalKey::NumLock,
        ),
        (
            NamedKey::PrintScreen,
            KeyLocation::Standard,
            KeyCode::PrintScreen,
            TerminalKey::PrintScreen,
        ),
        (
            NamedKey::Pause,
            KeyLocation::Standard,
            KeyCode::Pause,
            TerminalKey::Pause,
        ),
    ] {
        assert_eq!(
            terminal_key_code(&named(key), &code(physical), location),
            expected
        );
        assert_eq!(terminal_key_code(&named(key), &unknown, location), expected);
    }
}

#[test]
fn numpad_navigation_and_extra_keys_survive_physical_digit_mapping() {
    for (key, physical, expected) in [
        (NamedKey::ArrowLeft, KeyCode::Numpad4, TerminalKey::KeypadLeft),
        (NamedKey::ArrowRight, KeyCode::Numpad6, TerminalKey::KeypadRight),
        (NamedKey::ArrowUp, KeyCode::Numpad8, TerminalKey::KeypadUp),
        (NamedKey::ArrowDown, KeyCode::Numpad2, TerminalKey::KeypadDown),
        (NamedKey::PageUp, KeyCode::Numpad9, TerminalKey::KeypadPageUp),
        (NamedKey::PageDown, KeyCode::Numpad3, TerminalKey::KeypadPageDown),
        (NamedKey::Home, KeyCode::Numpad7, TerminalKey::KeypadHome),
        (NamedKey::End, KeyCode::Numpad1, TerminalKey::KeypadEnd),
        (NamedKey::Insert, KeyCode::Numpad0, TerminalKey::KeypadInsert),
        (NamedKey::Delete, KeyCode::NumpadDecimal, TerminalKey::KeypadDelete),
        (NamedKey::Clear, KeyCode::Numpad5, TerminalKey::KeypadBegin),
    ] {
        assert_eq!(
            terminal_key_code(&named(key), &code(physical), KeyLocation::Numpad),
            expected
        );
    }
    for (logical, physical, expected) in [
        (
            Key::Character("5".into()),
            KeyCode::Numpad5,
            TerminalKey::Keypad(5),
        ),
        (
            Key::Character("=".into()),
            KeyCode::NumpadEqual,
            TerminalKey::KeypadEqual,
        ),
        (
            Key::Character(",".into()),
            KeyCode::NumpadComma,
            TerminalKey::KeypadSeparator,
        ),
        (
            named(NamedKey::Enter),
            KeyCode::NumpadEnter,
            TerminalKey::KeypadEnter,
        ),
    ] {
        assert_eq!(
            terminal_key_code(&logical, &code(physical), KeyLocation::Numpad),
            expected
        );
    }
    assert_eq!(
        terminal_key_code(&Key::Other, &PhysicalKey::Unidentified, KeyLocation::Standard),
        TerminalKey::Unidentified
    );
}

#[test]
fn physical_number_pad_keys_keep_their_identity_without_num_lock() {
    for (physical, expected) in [
        (KeyCode::NumpadAdd, TerminalKey::KeypadAdd),
        (KeyCode::NumpadSubtract, TerminalKey::KeypadSubtract),
        (KeyCode::NumpadMultiply, TerminalKey::KeypadMultiply),
        (KeyCode::NumpadDivide, TerminalKey::KeypadDivide),
        (KeyCode::NumpadDecimal, TerminalKey::KeypadDecimal),
        (KeyCode::Numpad0, TerminalKey::Keypad(0)),
        (KeyCode::Numpad9, TerminalKey::Keypad(9)),
        (KeyCode::KeyA, TerminalKey::Char('a')),
    ] {
        assert_eq!(
            terminal_key_code(
                &Key::Character("a".into()),
                &code(physical),
                KeyLocation::Standard
            ),
            expected
        );
    }
}

#[test]
fn function_keys_are_read_from_their_names() {
    assert_eq!(
        terminal_named_key(&format!("{:?}", NamedKey::F1)),
        Some(TerminalKey::Function(1))
    );
    assert_eq!(
        terminal_named_key(&format!("{:?}", NamedKey::F35)),
        Some(TerminalKey::Function(35))
    );
    for name in ["F", "F1x", "F256", "Find", "FavoriteClear0", "Copy", ""] {
        assert_eq!(terminal_named_key(name), None, "{name}");
    }
    assert_eq!(
        terminal_named_key(&format!("{:?}", NamedKey::Space)),
        Some(TerminalKey::Char(' '))
    );
}

#[test]
fn option_policy_uses_native_modifier_sides() {
    for (left, right, expected) in [
        (false, false, [false, true, false, false]),
        (true, false, [false, true, true, false]),
        (false, true, [false, true, false, true]),
        (true, true, [false, true, true, true]),
    ] {
        assert_eq!(
            [
                OptionAsAlt::False,
                OptionAsAlt::True,
                OptionAsAlt::Left,
                OptionAsAlt::Right,
            ]
            .map(|mode| option_as_alt(mode, left, right)),
            expected
        );
    }
}

#[test]
fn modifier_key_events_apply_before_winit_updates_modifier_state() {
    let held = |state| HeldModifiers {
        state,
        left: NONE,
        right: NONE,
    };
    let without = |key| match key {
        TerminalKey::Shift | TerminalKey::ShiftRight => Modifiers { shift: false, ..ALL },
        TerminalKey::Control | TerminalKey::ControlRight => Modifiers {
            control: false,
            ..ALL
        },
        TerminalKey::Alt | TerminalKey::AltRight => Modifiers { alt: false, ..ALL },
        _ => Modifiers {
            super_key: false,
            ..ALL
        },
    };
    for key in [
        TerminalKey::Shift,
        TerminalKey::ShiftRight,
        TerminalKey::Control,
        TerminalKey::ControlRight,
        TerminalKey::Alt,
        TerminalKey::AltRight,
        TerminalKey::Super,
        TerminalKey::SuperRight,
    ] {
        let other = without(key);
        assert_eq!(
            key_modifiers(key, ElementState::Pressed, held(other), true),
            ALL
        );
        assert_eq!(
            key_modifiers(key, ElementState::Released, held(ALL), true),
            other
        );
        // Elsewhere the modifiers are those that were reported.
        assert_eq!(
            key_modifiers(key, ElementState::Released, held(ALL), false),
            ALL
        );
        // The opposite key keeps its modifier held.
        let both = HeldModifiers {
            state: ALL,
            left: ALL,
            right: ALL,
        };
        assert_eq!(key_modifiers(key, ElementState::Released, both, true), ALL);
    }
    let held_state = Modifiers {
        shift: true,
        alt: true,
        ..NONE
    };
    assert_eq!(
        key_modifiers(
            TerminalKey::Char('x'),
            ElementState::Released,
            held(held_state),
            true
        ),
        held_state
    );
}

#[test]
fn option_translation_consumes_ascii_and_unicode_without_consuming_terminal_alt() {
    let alt_held = Modifiers { alt: true, ..NONE };
    for (base, composed) in [('8', "{"), ('e', "é")] {
        for alt in [false, true] {
            let unmodified = Key::Character(base.to_string());
            let text = if alt {
                base.to_string()
            } else {
                composed.into()
            };
            let consumed = consumed_modifiers(&unmodified, Some(&text), alt_held, alt, true);
            assert_eq!(consumed.alt, !alt);
        }
    }
    let consumed = consumed_modifiers(
        &named(NamedKey::Space),
        Some(" "),
        Modifiers {
            shift: true,
            control: true,
            super_key: true,
            alt: false,
        },
        false,
        true,
    );
    assert!(consumed.shift);
    assert!(!consumed.control && !consumed.super_key);
    assert_eq!(
        consumed_modifiers(
            &named(NamedKey::Space),
            None,
            Modifiers {
                shift: true,
                alt: true,
                ..NONE
            },
            false,
            true
        ),
        NONE
    );
}

#[test]
fn elsewhere_only_changed_text_consumes_modifiers() {
    let both = Modifiers {
        shift: true,
        alt: true,
        ..NONE
    };
    let a = Key::Character("a".into());
    assert_eq!(
        consumed_modifiers(&a, Some("A"), both, false, false),
        Modifiers { shift: true, ..NONE }
    );
    assert_eq!(consumed_modifiers(&a, Some("a"), both, false, false), NONE);
    assert_eq!(
        consumed_modifiers(&a, Some("å"), both, false, false),
        both
    );
    assert_eq!(
        consumed_modifiers(&named(NamedKey::Enter), Some("\r"), both, false, false),
        NONE
    );
    assert_eq!(consumed_modifiers(&a, Some(""), both, false, true), NONE);
}

#[test]
fn modifier_keys_preserve_scrollback_and_selection() {
    for flags in [0, 5, 7, 11] {
        for key in [
            TerminalKey::Shift,
            TerminalKey::ShiftRight,
            TerminalKey::Control,
            TerminalKey::ControlRight,
            TerminalKey::Alt,
            TerminalKey::AltRight,
            TerminalKey::Super,
            TerminalKey::SuperRight,
        ] {
            for action in [KeyAction::Press, KeyAction::Repeat, KeyAction::Release] {
                let bytes = if flags == 11 {
                    b"\x1b[57441u".to_vec()
                } else {
                    Vec::new()
                };
                let event = TerminalKeyEvent {
                    action,
                    ..press(key)
                };
                assert!(
                    !reveals_prompt(&bytes, &event),
                    "{flags} {key:?} {action:?}"
                );
            }
        }
    }
}

#[test]
fn only_encoded_key_presses_reset_scrollback_and_selection() {
    for locked in [false, true] {
        for (action, typing) in [
            (KeyAction::Press, true),
            (KeyAction::Repeat, true),
            (KeyAction::Release, false),
        ] {
            let bytes = if locked { Vec::new() } else { b"x".to_vec() };
            let event = TerminalKeyEvent {
                action,
                ..press(TerminalKey::Char('x'))
            };
            assert_eq!(reveals_prompt(&bytes, &event), typing && !locked);
        }
    }
}

#[test]
fn aliases_and_modifier_release_preserve_peek_chord() {
    assert_eq!(normalize_name("key_a"), "a");
    assert_eq!(physical_name(&code(KeyCode::KeyA)), "a");
    assert_eq!(normalize_name("backquote"), "`");
    let chord = Modifiers {
        control: true,
        super_key: true,
        ..NONE
    };
    assert!(chord_held(
        chord,
        Modifiers {
            shift: true,
            ..chord
        }
    ));
    assert!(!chord_held(
        chord,
        Modifiers {
            control: false,
            ..chord
        }
    ));
}

#[test]
fn names_of_keys_agree_with_the_native_ones() {
    for (physical, expected) in [
        (KeyCode::Backquote, "`"),
        (KeyCode::Space, " "),
        (KeyCode::Minus, "-"),
        (KeyCode::Equal, "="),
        (KeyCode::BracketLeft, "["),
        (KeyCode::BracketRight, "]"),
        (KeyCode::Backslash, "\\"),
        (KeyCode::Semicolon, ";"),
        (KeyCode::Quote, "'"),
        (KeyCode::Comma, ","),
        (KeyCode::Period, "."),
        (KeyCode::Slash, "/"),
        (KeyCode::Digit7, "7"),
        (KeyCode::ArrowLeft, "arrow_left"),
        (KeyCode::PageDown, "page_down"),
        (KeyCode::F5, "f5"),
    ] {
        assert_eq!(physical_name(&code(physical)), expected);
    }
    assert_eq!(physical_name(&PhysicalKey::Unidentified), "");
    assert_eq!(normalize_name("digit_3"), "3");
    assert_eq!(normalize_name("ÄRGER"), "ärger");
    assert!(matches!(key_alias("KeyQ"), KeyAlias::Lower(rest) if rest == "Q"));
    assert!(matches!(key_alias("Space"), KeyAlias::Fixed(text) if text == " "));
}

#[test]
fn bindings_match_meaning_place_and_anything() {
    let event = KeyEvent {
        physical_key: code(KeyCode::KeyQ),
        logical_key: Key::Character("A".into()),
        unmodified: Key::Character("a".into()),
        text: Some("A".into()),
        location: KeyLocation::Standard,
        state: ElementState::Pressed,
        repeat: false,
    };
    let trigger = |key: &str, physical, modifiers| KeyTrigger {
        modifiers,
        physical,
        key: key.into(),
    };
    assert!(rustty_core::keys::matches(&trigger("a", false, NONE), &event, NONE));
    assert!(rustty_core::keys::matches(&trigger("key_q", true, NONE), &event, NONE));
    assert!(!rustty_core::keys::matches(&trigger("key_a", true, NONE), &event, NONE));
    assert!(!rustty_core::keys::matches(&trigger("a", false, ALL), &event, NONE));
    assert!(rustty_core::keys::matches(&trigger("catch_all", false, ALL), &event, ALL));
    let arrow = KeyEvent {
        unmodified: named(NamedKey::ArrowLeft),
        ..event.clone()
    };
    assert!(rustty_core::keys::matches(&trigger("arrow_left", false, NONE), &arrow, NONE));
    let dead = KeyEvent {
        unmodified: Key::Other,
        ..event
    };
    assert!(!rustty_core::keys::matches(&trigger("a", false, NONE), &dead, NONE));
}

#[test]
fn terminal_events_carry_key_text_modifiers_and_action() {
    let held = HeldModifiers {
        state: Modifiers { shift: true, ..NONE },
        left: Modifiers { shift: true, ..NONE },
        right: NONE,
    };
    let event = KeyEvent {
        physical_key: code(KeyCode::KeyA),
        logical_key: Key::Character("A".into()),
        unmodified: Key::Character("a".into()),
        text: Some("A".into()),
        location: KeyLocation::Standard,
        state: ElementState::Pressed,
        repeat: true,
    };
    let terminal = terminal_key(&event, held, false, false, true).unwrap();
    assert_eq!(terminal.key, TerminalKey::Char('a'));
    assert_eq!(terminal.text.as_deref(), Some("A"));
    assert_eq!(terminal.action, KeyAction::Repeat);
    assert_eq!(terminal.unshifted, Some('a'));
    assert!(terminal.modifiers.shift && terminal.consumed_modifiers.shift);
    // The control text of Tab stays out, so that its modifiers are encoded.
    let tab = KeyEvent {
        unmodified: named(NamedKey::Tab),
        logical_key: named(NamedKey::Tab),
        physical_key: code(KeyCode::Tab),
        text: Some("\t".into()),
        repeat: false,
        ..event.clone()
    };
    let terminal = terminal_key(&tab, held, false, false, true).unwrap();
    assert_eq!((terminal.key, terminal.text), (TerminalKey::Tab, None));
    assert_eq!(terminal.consumed_modifiers, NONE);
    assert_eq!(terminal.unshifted, Some('\t'));
    let dead = KeyEvent {
        unmodified: Key::Other,
        logical_key: Key::Other,
        physical_key: PhysicalKey::Unidentified,
        text: None,
        ..event
    };
    assert!(terminal_key(&dead, held, false, false, true).is_none());
    assert_eq!(terminal_key_text(Some("\u{7f}")), None);
    assert_eq!(terminal_key_text(Some("é")), Some("é"));
    assert_eq!(terminal_key_text(Some("")), None);
    assert_eq!(terminal_key_text(None), None);
    let committed = text_event("日本語".into());
    assert_eq!(committed.key, TerminalKey::Unidentified);
    assert_eq!(committed.text.as_deref(), Some("日本語"));
    assert_eq!(named(NamedKey::Escape).to_text().as_deref(), Some("\u{1b}"));
    assert_eq!(named(NamedKey::Home).to_text(), None);
}

#[test]
fn shifted_control_keys_keep_shift_and_printable_ones_use_it_up() {
    let shift = Modifiers {
        shift: true,
        ..NONE
    };
    for (name, text) in [
        (NamedKey::Tab, "\t"),
        (NamedKey::Enter, "\r"),
        (NamedKey::Backspace, "\u{8}"),
    ] {
        let text = terminal_key_text(Some(text));
        assert_eq!(text, None);
        assert_eq!(
            consumed_modifiers(&named(name), text, shift, false, true),
            NONE
        );
    }
    for (base, shifted) in [("a", "A"), (" ", " "), ("é", "É")] {
        let text = terminal_key_text(Some(shifted));
        assert_eq!(text, Some(shifted));
        let key = Key::Character(base.into());
        assert_eq!(consumed_modifiers(&key, text, shift, false, true), shift);
    }
}

#[test]
fn letters_and_digits_have_one_name_in_all_spellings() {
    for capital in 'A'..='Z' {
        let letter = capital.to_ascii_lowercase().to_string();
        assert_eq!(normalize_name(&format!("Key{capital}")), letter);
        assert_eq!(normalize_name(&format!("key_{letter}")), letter);
        assert_eq!(normalize_name(&capital.to_string()), letter);
    }
    for digit in '0'..='9' {
        assert_eq!(normalize_name(&format!("Digit{digit}")), digit.to_string());
        assert_eq!(normalize_name(&format!("digit_{digit}")), digit.to_string());
    }
    assert_eq!(normalize_name("ÄÖ"), "äö");
}

#[test]
fn a_modifier_lasts_while_its_other_key_is_held() {
    let released = ElementState::Released;
    let only = |field: usize| Modifiers {
        shift: field == 0,
        control: field == 1,
        alt: field == 2,
        super_key: field == 3,
    };
    for (field, [left, right]) in [
        [TerminalKey::Shift, TerminalKey::ShiftRight],
        [TerminalKey::Control, TerminalKey::ControlRight],
        [TerminalKey::Alt, TerminalKey::AltRight],
        [TerminalKey::Super, TerminalKey::SuperRight],
    ]
    .into_iter()
    .enumerate()
    {
        let held = |left, right| HeldModifiers {
            state: only(field),
            left,
            right,
        };
        let after = |key, held| key_modifiers(key, released, held, true);
        assert_eq!(after(left, held(only(field), only(field))), only(field));
        assert_eq!(after(right, held(only(field), only(field))), only(field));
        assert_eq!(after(left, held(only(field), NONE)), NONE);
        assert_eq!(after(right, held(NONE, only(field))), NONE);
    }
}
