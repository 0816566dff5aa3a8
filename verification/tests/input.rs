use rustty_core::actions::{search_shortcut, Action, Direction};
use rustty_core::geometry::{Pos, Rect, Scalar};
use rustty_core::input::{
    defer_pointer_move, edit_menu_action, filter_egui_events, global_key_is_consumed,
    key_is_consumed, mouse_reporting, press_point, selection_press, EditEvent, EditKey,
    MouseShiftCapture, SelectionDrag, UiEvent, UiEventKind,
};
use rustty_core::keys::ElementState;
use rustty_core::screen::{GridPoint, Selection};
use std::collections::HashSet;

fn pos(x: f32, y: f32) -> Pos {
    Pos {
        x: Scalar { bits: x.to_bits() },
        y: Scalar { bits: y.to_bits() },
    }
}

#[test]
fn shift_mouse_capture_follows_application_requests_and_user_overrides() {
    for (policy, expected) in [
        (MouseShiftCapture::False, [false, false, true]),
        (MouseShiftCapture::True, [true, false, true]),
        (MouseShiftCapture::Never, [false, false, false]),
        (MouseShiftCapture::Always, [true, true, true]),
    ] {
        for (request, expected) in [None, Some(false), Some(true)].into_iter().zip(expected) {
            assert_eq!(
                mouse_reporting(1002, request, true, policy),
                expected,
                "{policy:?} {request:?}",
            );
            assert!(mouse_reporting(1002, request, false, policy));
            assert!(!mouse_reporting(0, request, true, policy));
        }
    }
}

#[test]
fn selection_requires_pointer_movement_and_can_select_one_cell() {
    let anchor = GridPoint { row: 1, col: 2 };
    let press = pos(20.0, 10.0);
    let mut drag = SelectionDrag::new(anchor, press);
    // The repeated position of a release is a click, without a drag.
    assert_eq!(drag.update(press, anchor, false), None);
    let within_cell = pos(21.0, 10.0);
    assert_eq!(
        drag.update(within_cell, anchor, false),
        Some(Selection {
            start: anchor,
            end: anchor,
            rectangular: false
        })
    );
    assert_eq!(drag.update(within_cell, anchor, false), None);
    let other = GridPoint { row: 1, col: 5 };
    assert_eq!(
        drag.update(pos(50.0, 10.0), other, true).unwrap().end,
        other
    );
    // Returning to the press position after a drag selects the anchor cell.
    assert_eq!(
        drag.update(press, anchor, true),
        Some(Selection {
            start: anchor,
            end: anchor,
            rectangular: true
        })
    );
}

#[test]
fn presses_select_leading_cells_and_double_clicks_whole_links() {
    let point = GridPoint { row: 4, col: 3 };
    assert_eq!(press_point(point, 0), GridPoint { row: 4, col: 2 });
    assert_eq!(press_point(point, 2), point);
    let first = GridPoint { row: 4, col: 0 };
    assert_eq!(press_point(first, 0), first);
    let word = Some(Selection {
        start: first,
        end: point,
        rectangular: false,
    });
    let link = Some((first, GridPoint { row: 5, col: 7 }));
    assert_eq!(selection_press(1, word, link), word);
    assert_eq!(selection_press(2, word, None), word);
    assert_eq!(
        selection_press(2, word, link).unwrap().end,
        GridPoint { row: 5, col: 7 }
    );
}

#[test]
fn scalars_compare_as_single_precision_numbers() {
    let values = [
        f32::NEG_INFINITY,
        -2.5,
        -1.0,
        -0.0,
        0.0,
        f32::MIN_POSITIVE,
        1.0,
        1.5,
        f32::INFINITY,
        f32::NAN,
        -f32::NAN,
    ];
    for a in values {
        for b in values {
            let (x, y) = (Scalar { bits: a.to_bits() }, Scalar { bits: b.to_bits() });
            assert_eq!(x.same(y), a == b, "{a} {b}");
            assert_eq!(x.is_at_most(y), a <= b, "{a} {b}");
        }
        assert_eq!(Scalar { bits: a.to_bits() }.is_nan(), a.is_nan());
    }
    let rect = Rect {
        min: pos(-1.0, 2.0),
        max: pos(3.0, 4.0),
    };
    let native = egui::Rect::from_min_max(egui::pos2(-1.0, 2.0), egui::pos2(3.0, 4.0));
    for x in [-1.5, -1.0, 0.0, 3.0, 3.1] {
        for y in [1.9, 2.0, 3.0, 4.0, 5.0] {
            assert_eq!(rect.contains(pos(x, y)), native.contains(egui::pos2(x, y)));
        }
    }
}

#[test]
fn rebuilding_global_hotkeys_consumes_orphan_events_and_clears_stale_keys() {
    let key = 20;
    let other = 1;
    let mut consumed = HashSet::from([key]);
    for (physical, state, repeat, expected) in [
        (other, ElementState::Pressed, false, false),
        (key, ElementState::Pressed, true, true),
        (key, ElementState::Pressed, true, true),
        (key, ElementState::Released, false, true),
        (key, ElementState::Released, false, false),
    ] {
        assert_eq!(
            global_key_is_consumed(&mut consumed, physical, state, repeat),
            expected
        );
    }
    assert!(consumed.is_empty());

    // The system consumed the previous release, then the binding was removed.
    // The next ordinary press, its repeats, and its release must all work.
    consumed.insert(key);
    for (state, repeat) in [
        (ElementState::Pressed, false),
        (ElementState::Pressed, true),
        (ElementState::Released, false),
    ] {
        assert!(!global_key_is_consumed(&mut consumed, key, state, repeat));
    }
    assert!(consumed.is_empty());
}

#[test]
fn dismissing_ui_consumes_held_key_repeats_and_releases_before_terminal_input_resumes() {
    // Escape, Enter and Space.
    for physical in [1, 2, 3] {
        let mut consumed = HashSet::new();
        assert!(key_is_consumed(
            &mut consumed,
            physical,
            ElementState::Pressed,
            true
        ));
        // Escape dismisses a dialog; Enter/Space activates its focused button.
        // That frame closes the UI before the next native keyboard event.
        for state in [ElementState::Pressed, ElementState::Released] {
            assert!(key_is_consumed(&mut consumed, physical, state, false));
        }
        assert!(consumed.is_empty());
        assert!(!key_is_consumed(
            &mut consumed,
            physical,
            ElementState::Pressed,
            false
        ));
    }
    // The shortcut that opened an editor stays consumed after the editor closes.
    let (v, a) = (22, 1);
    let mut consumed = HashSet::from([v]);
    assert!(key_is_consumed(
        &mut consumed,
        v,
        ElementState::Pressed,
        false
    ));
    assert!(!key_is_consumed(
        &mut consumed,
        a,
        ElementState::Pressed,
        false
    ));
    assert!(key_is_consumed(
        &mut consumed,
        v,
        ElementState::Released,
        false
    ));
    assert!(consumed.is_empty());
}

#[test]
fn find_shortcuts_keep_navigation_available_without_stealing_editor_commands() {
    for action in [
        Action::StartSearch,
        Action::NavigateSearch { next: true },
        Action::NavigateSearch { next: false },
        Action::EndSearch,
        Action::GotoSplit(Direction::Left),
        Action::NextTab,
    ] {
        assert!(search_shortcut(&action), "{action:?}");
    }
    for action in [
        Action::SelectAll,
        Action::CopyToClipboard,
        Action::PasteFromClipboard,
        Action::Undo,
    ] {
        assert!(!search_shortcut(&action), "{action:?}");
    }
    assert!(!search_shortcut(&Action::Text(b"terminal input".to_vec())));
}

/// The native form of the events that a menu makes up.
fn native(events: Vec<EditEvent>) -> Vec<egui::Event> {
    events
        .into_iter()
        .map(|event| match event {
            EditEvent::Copy => egui::Event::Copy,
            EditEvent::Paste(text) => egui::Event::Paste(text),
            EditEvent::Key {
                key,
                shift,
                pressed,
            } => egui::Event::Key {
                key: match key {
                    EditKey::A => egui::Key::A,
                    EditKey::Z => egui::Key::Z,
                },
                physical_key: None,
                pressed,
                repeat: false,
                modifiers: egui::Modifiers {
                    command: true,
                    ctrl: true,
                    shift,
                    ..Default::default()
                },
            },
        })
        .collect()
}

struct Editor {
    context: egui::Context,
    text: String,
    time: f64,
}

impl Editor {
    fn draw(&mut self, focus: bool, events: Vec<egui::Event>) -> egui::PlatformOutput {
        self.time += 0.1;
        let raw = egui::RawInput {
            screen_rect: Some(egui::Rect::from_min_size(
                egui::Pos2::ZERO,
                egui::vec2(600.0, 400.0),
            )),
            focused: true,
            time: Some(self.time),
            events,
            ..Default::default()
        };
        let mut output = self.context.run_ui(raw, |root| {
            let id = egui::Id::new("editor");
            if focus {
                root.memory_mut(|memory| memory.request_focus(id));
            }
            root.add(egui::TextEdit::singleline(&mut self.text).id(id));
        });
        output.textures_delta.clear();
        output.platform_output
    }
}

#[test]
fn native_edit_actions_reach_the_focused_editor_and_leave_terminal_routing_intact() {
    let mut frame = Editor {
        context: egui::Context::default(),
        text: String::new(),
        time: 0.0,
    };
    frame.draw(false, vec![]);
    frame.draw(true, vec![]);
    frame.draw(false, vec![egui::Event::Text("work 日誌".into())]);
    assert_eq!(frame.text, "work 日誌");

    let events = edit_menu_action(&Action::SelectAll, true, None).unwrap();
    frame.draw(false, native(events));
    assert!(!frame.context.input(|input| input.key_down(egui::Key::A)));

    let events = edit_menu_action(&Action::CopyToClipboard, true, None).unwrap();
    let output = frame.draw(false, native(events));
    assert!(output
        .commands
        .contains(&egui::OutputCommand::CopyText("work 日誌".into())));

    // Let egui establish an undo point before replacing the selection.
    frame.time += 2.0;
    frame.draw(false, vec![]);

    let events =
        edit_menu_action(&Action::PasteFromClipboard, true, Some("replacement".into())).unwrap();
    frame.draw(false, native(events));
    assert_eq!(frame.text, "replacement");

    for (action, expected) in [(Action::Undo, "work 日誌"), (Action::Redo, "replacement")] {
        let events = edit_menu_action(&action, true, None).unwrap();
        frame.draw(false, native(events));
        assert_eq!(frame.text, expected, "{action:?}");
        assert!(!frame.context.input(|input| input.key_down(egui::Key::Z)));
    }

    // Another window's focused editor must not redirect terminal actions.
    assert!(frame.context.text_edit_focused());
    for action in [
        Action::CopyToClipboard,
        Action::PasteFromClipboard,
        Action::SelectAll,
        Action::Undo,
        Action::Redo,
    ] {
        assert!(edit_menu_action(&action, false, Some("terminal".into())).is_none());
    }
    assert_eq!(
        edit_menu_action(&Action::PasteFromClipboard, true, None),
        Some(vec![])
    );
    assert_eq!(edit_menu_action(&Action::NewTab, true, None), None);
    assert_eq!(
        edit_menu_action(&Action::Redo, true, None).unwrap()[0],
        EditEvent::Key {
            key: EditKey::Z,
            shift: true,
            pressed: true
        }
    );
}

#[test]
fn typed_events_stay_out_of_the_user_interface_and_motion_is_taken_back() {
    let event = |kind, native| UiEvent { kind, native };
    let all = || {
        vec![
            event(UiEventKind::Key, 1),
            event(UiEventKind::Other, 2),
            event(UiEventKind::Text, 3),
            event(UiEventKind::Paste, 4),
            event(UiEventKind::Copy, 5),
            event(UiEventKind::Cut, 6),
            event(UiEventKind::Ime, 7),
            event(UiEventKind::PointerMoved(pos(1.0, 2.0)), 8),
        ]
    };
    let natives = |events: Vec<UiEvent<i32>>| -> Vec<i32> {
        events.into_iter().map(|event| event.native).collect()
    };
    assert_eq!(natives(filter_egui_events(all(), false)), [2, 8]);
    assert_eq!(
        natives(filter_egui_events(all(), true)),
        [1, 2, 3, 4, 5, 6, 7, 8]
    );
    let mut events = all();
    let moved = defer_pointer_move(&mut events).unwrap();
    assert!(moved.same(pos(1.0, 2.0)));
    assert_eq!(events.len(), 7);
    assert!(defer_pointer_move(&mut events).is_none());
    assert!(defer_pointer_move::<i32>(&mut Vec::new()).is_none());
}

/// Takes the last move back out of events of the toolkit.
fn defer_native(raw: &mut egui::RawInput) -> Option<egui::Pos2> {
    let mut events = std::mem::take(&mut raw.events)
        .into_iter()
        .map(|native| UiEvent {
            kind: match &native {
                egui::Event::PointerMoved(at) => UiEventKind::PointerMoved(pos(at.x, at.y)),
                _ => UiEventKind::Other,
            },
            native,
        })
        .collect();
    let position = defer_pointer_move(&mut events);
    raw.events = events.into_iter().map(|event| event.native).collect();
    position.map(|at| egui::pos2(f32::from_bits(at.x.bits), f32::from_bits(at.y.bits)))
}

#[test]
fn passive_pointer_motion_does_not_restart_egui_repaints_or_discard_clicks() {
    let context = egui::Context::default();
    let rect = egui::Rect::from_min_size(egui::Pos2::ZERO, egui::vec2(600.0, 400.0));
    let mut time = 0.0;
    let mut draw = |events| {
        time += 0.1;
        let mut clicked = false;
        let mut output = context.run_ui(
            egui::RawInput {
                screen_rect: Some(rect),
                time: Some(time),
                events,
                ..Default::default()
            },
            |root| {
                egui::CentralPanel::default().show(root, |ui| {
                    clicked = ui
                        .interact(
                            rect,
                            egui::Id::new("terminal"),
                            egui::Sense::click_and_drag(),
                        )
                        .clicked();
                });
            },
        );
        output.textures_delta.clear();
        clicked
    };
    // Entering the terminal is delivered normally, then the UI settles.
    draw(vec![egui::Event::PointerMoved(egui::pos2(10.0, 10.0))]);
    for _ in 0..4 {
        draw(Vec::new());
    }
    assert!(!context.has_requested_repaint());
    let mut raw = egui::RawInput::default();
    let mut latest = None;
    for frame in 0..10 {
        for pixel in 0..100 {
            raw.events.push(egui::Event::PointerMoved(egui::pos2(
                20.0 + pixel as f32,
                20.0 + frame as f32,
            )));
            latest = defer_native(&mut raw);
            assert!(raw.events.is_empty());
        }
        // An unrelated redraw, such as cursor blinking, must stay idle afterward.
        draw(std::mem::take(&mut raw.events));
        assert!(!context.has_requested_repaint());
    }
    // egui-winit's button event carries the latest native coordinates, even
    // when the intervening terminal hover events were deferred.
    let position = latest.unwrap();
    raw.events.push(egui::Event::PointerButton {
        pos: position,
        button: egui::PointerButton::Primary,
        pressed: true,
        modifiers: Default::default(),
    });
    raw.events.push(egui::Event::PointerMoved(position));
    assert_eq!(defer_native(&mut raw), Some(position));
    assert_eq!(raw.events.len(), 1);
    draw(std::mem::take(&mut raw.events));
    assert_eq!(
        context.input(|input| input.pointer.latest_pos()),
        Some(position)
    );
    assert!(draw(vec![egui::Event::PointerButton {
        pos: position,
        button: egui::PointerButton::Primary,
        pressed: false,
        modifiers: Default::default(),
    }]));
}
