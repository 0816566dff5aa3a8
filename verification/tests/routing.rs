use rustty_core::actions::Action;
use rustty_core::application::SearchStep;
use rustty_core::formats::dropped_path;
use rustty_core::geometry::{Pos, Rect, Scalar};
use rustty_core::host::{
    Axis, Divider, Host, MouseAction as Pointer, MouseButton as Button, PendingPaste,
};
use rustty_core::input::{mouse_reporting, MouseShiftCapture};
use rustty_core::mouse::{scroll_step, MouseRoute, PointerContext, ScrollModes, ScrollStep};
use rustty_core::mouse::PointerCursor;
use rustty_core::clipboard::PasteStep;
use rustty_core::time::{Instant, MILLISECOND, SECOND};

const START: Instant = Instant { nanos: 3_600 * SECOND };

fn pos(x: f32, y: f32) -> Pos {
    Pos {
        x: Scalar { bits: x.to_bits() },
        y: Scalar { bits: y.to_bits() },
    }
}

fn rect(x: f32, y: f32, width: f32, height: f32) -> Rect {
    Rect {
        min: pos(x, y),
        max: pos(x + width, y + height),
    }
}

/// Two panes side by side, with a gap between them.
fn host() -> Host {
    let mut host = Host::new(1, false, START, pos(0.0, 0.0));
    host.rects = vec![
        (5, rect(1.0, 1.0, 98.0, 98.0)),
        (6, rect(101.0, 1.0, 98.0, 98.0)),
    ];
    host.content = rect(0.0, 0.0, 200.0, 100.0);
    host.pointer_inside = true;
    host
}

/// A window of which one pane has the focus.
struct Desk {
    host: Host,
    focused: u64,
    divider: Option<Divider>,
    now: Instant,
}

impl Desk {
    fn window_focus(&mut self, focused: bool) {
        self.host.focus_changed(focused);
        self.sync();
    }

    fn sync(&mut self) {
        let target = self.host.target(Some(self.focused));
        self.host.sync_focus(target, self.now);
    }

    /// A button of the mouse goes down or comes up; `None` is one that terminals do not know.
    fn button(&mut self, pressed: bool, button: Option<Button>) -> MouseRoute {
        self.now = self.now.after(MILLISECOND);
        if pressed {
            self.host.press_begun();
        }
        let mut route = MouseRoute::Nothing;
        if !self.host.modal_input() {
            let action = if pressed {
                self.host.button_pressed(button);
                Pointer::Press
            } else {
                Pointer::Release
            };
            route = match self.host.press_find(action, button, false) {
                Some(pane) => MouseRoute::Pane { pane, focus: true },
                None => self.route(action, button),
            };
            if let MouseRoute::Pane { pane, focus: true } = route {
                self.focused = pane;
            }
            if !pressed {
                self.host.button_released();
            }
        }
        self.sync();
        route
    }

    fn route(&mut self, action: Pointer, button: Option<Button>) -> MouseRoute {
        let context = PointerContext {
            over_ui: false,
            divider: self.divider,
            quadrant: None,
            focused: Some(self.focused),
        };
        self.host.route_mouse(action, button, context)
    }

    fn expect(&self, pane: u64, visible: bool) {
        assert_eq!(self.focused, pane);
        let hint = &self.host.focus_hint;
        assert_eq!(hint.visible(pane, self.now), visible);
        assert_eq!(hint.deadline(self.now).is_some(), visible);
    }
}

fn desk() -> Desk {
    Desk {
        host: host(),
        focused: 5,
        divider: None,
        now: START,
    }
}

#[test]
fn focus_labels_survive_focus_clicks_and_dismiss_on_later_clicks() {
    let left = Some(Button::Left);
    let mut desk = desk();
    // The activating press never arrives; its release keeps the hint.
    desk.window_focus(false);
    desk.expect(5, false);
    desk.window_focus(true);
    desk.expect(5, true);
    desk.host.mouse = pos(24.0, 76.0);
    desk.button(false, left);
    desk.expect(5, true);
    desk.button(true, left);
    desk.expect(5, false);
    desk.button(false, left);
    desk.expect(5, false);
    let places = [(5, pos(24.0, 76.0)), (6, pos(124.0, 76.0))];
    let buttons = [left, Some(Button::Middle), Some(Button::Right), None, None];
    for (index, button) in buttons.into_iter().enumerate() {
        let (pane, place) = places[(index + 1) % 2];
        desk.host.mouse = place;
        desk.expect(places[index % 2].0, false);
        assert_eq!(
            desk.button(true, button),
            MouseRoute::Pane { pane, focus: true }
        );
        desk.expect(pane, true);
        desk.button(false, button);
        desk.expect(pane, true);
        // The wheel reaches the pane under the pointer and leaves the hint alone.
        assert_eq!(
            desk.route(Pointer::Press, Some(Button::WheelUp)),
            MouseRoute::Pane { pane, focus: false }
        );
        desk.expect(pane, true);
        // Dismissing the hint does not swallow the click.
        assert_eq!(
            desk.button(true, button),
            MouseRoute::Pane { pane, focus: true }
        );
        desk.expect(pane, false);
        desk.button(false, button);
        desk.expect(pane, false);
    }
}

#[test]
fn clicks_that_dismiss_the_hint_reach_find_dividers_and_dialogs() {
    let left = Some(Button::Left);
    let mut desk = desk();
    for target in ["search", "divider", "modal"] {
        desk.window_focus(false);
        desk.window_focus(true);
        desk.expect(5, true);
        desk.host.mouse = pos(50.0, 50.0);
        match target {
            "search" => desk.host.search_rects = vec![(5, rect(40.0, 40.0, 20.0, 20.0))],
            "divider" => {
                desk.divider = Some(Divider {
                    split: 9,
                    axis: Axis::Horizontal,
                })
            }
            _ => desk.host.palette = true,
        }
        desk.button(true, left);
        desk.expect(5, false);
        assert_eq!(desk.host.search_focus.is_some(), target == "search");
        assert_eq!(desk.host.divider_drag.is_some(), target == "divider");
        if target == "divider" {
            desk.host.mouse = pos(74.0, 50.0);
            assert!(matches!(
                desk.route(Pointer::Move, left),
                MouseRoute::Divide { follows: true, .. }
            ));
        }
        desk.button(false, left);
        desk.expect(5, false);
        assert!(desk.host.divider_drag.is_none());
        desk.host.search_rects.clear();
        desk.host.search_focus = None;
        desk.divider = None;
        desk.host.palette = false;
    }
    desk.window_focus(false);
    desk.window_focus(true);
    desk.expect(5, true);
    let focused = desk.host.target(Some(5));
    assert!(desk.host.terminal_input(5, focused, desk.now));
    desk.expect(5, false);
}

#[test]
fn find_follows_clicks_scrolling_tabs_and_its_own_end() {
    let left = Some(Button::Left);
    let mut desk = desk();
    desk.window_focus(true);
    for pane in [5, 6] {
        desk.focused = pane;
        assert_eq!(
            desk.host
                .search_action(pane, &Action::StartSearch, true, pane == 6),
            SearchStep::Open { selection: false }
        );
        desk.host.begin_frame(pane, true, START);
        assert_eq!(desk.host.search_focus, Some(pane));
        assert!(desk.host.focuses_find(pane));
        desk.host.focus_text_input = false;
        assert_eq!(desk.host.find_drawn(None, Some(pane), pane), None);
    }
    desk.host.search_rects = vec![
        (5, rect(60.0, 2.0, 30.0, 20.0)),
        (6, rect(160.0, 2.0, 30.0, 20.0)),
    ];
    // Enter hands the keyboard back to the terminal.
    assert_eq!(desk.host.find_drawn(None, None, 6), None);
    assert!(!desk.host.ui_input());
    // Clicking an overlay focuses its pane.
    desk.host.mouse = pos(75.0, 10.0);
    desk.button(true, left);
    assert_eq!((desk.focused, desk.host.search_focus), (5, Some(5)));
    desk.button(false, left);
    // Another pane still scrolls, and Find keeps the keyboard.
    desk.host.mouse = pos(150.0, 50.0);
    assert_eq!(desk.host.scroll_target(false), Some(Some(6)));
    assert_eq!(desk.host.search_focus, Some(5));
    // Clicking terminal content takes it back.
    desk.button(true, left);
    desk.button(false, left);
    assert_eq!(desk.focused, 6);
    assert!(!desk.host.ui_input());
    // A hidden tab's Find keeps neither input nor its place.
    desk.host.search_action(6, &Action::StartSearch, true, true);
    desk.host.focus_moved(Some(6), Some(7));
    assert!(!desk.host.ui_input() && desk.host.search_rects.is_empty());
    assert_eq!(
        desk.host.search_action(6, &Action::EndSearch, true, true),
        SearchStep::Close
    );
    assert!(!desk.host.ui_input());
}

#[test]
fn scrolling_and_drops_follow_the_pointer_without_changing_focus() {
    let mut host = host();
    host.mouse = pos(150.0, 50.0);
    let shape = |host: &Host, name| match host.pointer_cursor(None, Some(name)) {
        Some(PointerCursor::Named(name)) => Some(name),
        _ => None,
    };
    assert_eq!(shape(&host, "pointer").as_deref(), Some("pointer"));
    assert_eq!(shape(&host, "wait").as_deref(), Some("wait"));
    for (mode, shift, capture) in [
        (0, false, false),
        (1000, false, false),
        (1000, true, false),
        (1000, true, true),
    ] {
        let reporting = mouse_reporting(mode, Some(capture), shift, MouseShiftCapture::False);
        assert_eq!(reporting, mode != 0 && (!shift || capture));
        let modes = ScrollModes {
            reporting,
            alternate_screen: false,
            mouse_mode: mode,
            alternate_scroll: true,
            application_keys: false,
        };
        for rows in [3, 1, -3, -1, 200, -200] {
            let step = scroll_step(rows, modes);
            if reporting {
                assert_eq!(
                    step,
                    ScrollStep::Wheel {
                        count: rows.unsigned_abs().min(128),
                        up: rows > 0
                    }
                );
            } else {
                assert_eq!(step, ScrollStep::Viewport);
            }
        }
    }
    // Alternate scrolling follows the cursor-key mode, and only where it is enabled.
    for (enabled, application) in [(true, false), (true, true), (false, true)] {
        let modes = ScrollModes {
            reporting: false,
            alternate_screen: true,
            mouse_mode: 0,
            alternate_scroll: enabled,
            application_keys: application,
        };
        for (rows, count) in [(3, 3), (-3, 3), (200, 128), (-200, 128), (0, 0)] {
            let key = [
                0x1b,
                if application { b'O' } else { b'[' },
                if rows > 0 { b'A' } else { b'B' },
            ];
            let expected = if enabled {
                ScrollStep::Keys {
                    bytes: key.repeat(count),
                    deselect: count != 0,
                }
            } else {
                ScrollStep::Viewport
            };
            assert_eq!(scroll_step(rows, modes), expected);
        }
    }
    // A stale last position after leaving the window keeps no target.
    assert_eq!(host.scroll_target(false), Some(Some(6)));
    host.pointer_inside = false;
    assert_eq!(host.scroll_target(false), Some(None));
    host.pointer_inside = true;
    host.mouse = pos(-1.0, -1.0);
    assert_eq!(host.scroll_target(false), Some(None));
    // A drag from elsewhere enters without moving the ordinary pointer.
    host.pointer_inside = false;
    assert_eq!(host.drop_target(pos(150.0, 50.0), false), Some(6));
    assert_eq!(host.drop_target(pos(0.0, 0.0), false), None);
    assert_eq!(host.drop_target(pos(150.0, 50.0), true), None);
    let text = dropped_path("/tmp/rustty's dropped file.txt");
    assert_eq!(text, "'/tmp/rustty'\\''s dropped file.txt' ");
    let paste = PendingPaste {
        pane: 6,
        data: text.into_bytes(),
    };
    assert!(matches!(
        host.paste(paste, true, true, true),
        PasteStep::Send(paste) if paste.pane == 6
    ));
}
