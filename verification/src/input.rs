//! Route input to the active editor or to the terminal.
use crate::actions::Action;
use crate::geometry::Pos;
use crate::keys::ElementState;
use crate::screen::{GridPoint, Selection};
use std::collections::HashSet;
use vstd::prelude::*;

verus! {

/// Whether Shift keeps the mouse from programs that asked for it.
#[derive(Clone, Copy, Debug, PartialEq, Eq, Structural)]
pub enum MouseShiftCapture {
    False,
    True,
    Always,
    Never,
}

/// Programs receive the mouse where they asked for it, unless the user holds Shift and neither
/// the policy nor, where it leaves that open, the program captures Shift.
pub open spec fn reports_mouse(
    mouse_mode: u16,
    program_captures: Option<bool>,
    shift: bool,
    policy: MouseShiftCapture,
) -> bool {
    mouse_mode != 0 && (!shift || match policy {
        MouseShiftCapture::Always => true,
        MouseShiftCapture::Never => false,
        MouseShiftCapture::True => program_captures != Some(false),
        MouseShiftCapture::False => program_captures == Some(true),
    })
}

/// Share the application's Shift override between mouse buttons and scrolling.
pub fn mouse_reporting(
    mouse_mode: u16,
    program_captures: Option<bool>,
    shift: bool,
    policy: MouseShiftCapture,
) -> (reports: bool)
    ensures
        reports == reports_mouse(mouse_mode, program_captures, shift, policy),
{
    let capture = match policy {
        MouseShiftCapture::Always => true,
        MouseShiftCapture::Never => false,
        MouseShiftCapture::False | MouseShiftCapture::True => match program_captures {
            Some(capture) => capture,
            None => policy == MouseShiftCapture::True,
        },
    };
    mouse_mode != 0 && (!shift || capture)
}

/// Selection begins on pointer movement, including movement within one cell.
#[derive(Clone, Copy, Debug)]
pub struct SelectionDrag {
    pub anchor: GridPoint,
    pub position: Pos,
}

impl SelectionDrag {
    pub fn new(anchor: GridPoint, position: Pos) -> (drag: SelectionDrag)
        ensures
            drag == (SelectionDrag { anchor, position }),
    {
        SelectionDrag { anchor, position }
    }

    /// Follows the pointer. Its position is repeated before a button is released: that alone
    /// must not turn a click into a one-cell selection.
    pub fn update(&mut self, position: Pos, end: GridPoint, rectangular: bool) -> (selection:
        Option<Selection>)
        ensures
            selection == if old(self).position.equals(position) {
                None
            } else {
                Some(Selection { start: old(self).anchor, end, rectangular })
            },
            *final(self) == if old(self).position.equals(position) {
                *old(self)
            } else {
                SelectionDrag { position, ..*old(self) }
            },
    {
        if self.position.same(position) {
            return None;
        }
        self.position = position;
        Some(Selection { start: self.anchor, end, rectangular })
    }
}

/// The cell that a press selects from: the leading half of a wide character.
pub open spec fn pressed_cell(point: GridPoint, width: u8) -> GridPoint {
    if width == 0 && point.col > 0 {
        GridPoint { col: (point.col - 1) as usize, ..point }
    } else {
        point
    }
}

pub fn press_point(point: GridPoint, width: u8) -> (cell: GridPoint)
    ensures
        cell == pressed_cell(point, width),
{
    if width == 0 && point.col > 0 {
        GridPoint { row: point.row, col: point.col - 1 }
    } else {
        point
    }
}

/// Use terminal word boundaries, except that a double-click selects a whole link. `gesture` is
/// what the terminal's boundaries make of the press, `link` the link at the pressed cell.
pub fn selection_press(
    click_count: u32,
    gesture: Option<Selection>,
    link: Option<(GridPoint, GridPoint)>,
) -> (selection: Option<Selection>)
    ensures
        selection == match link {
            Some((start, end)) if click_count == 2 => Some(
                Selection { start, end, rectangular: false },
            ),
            _ => gesture,
        },
{
    match link {
        Some((start, end)) if click_count == 2 => Some(
            Selection { start, end, rectangular: false },
        ),
        _ => gesture,
    }
}

/// What the user interface is told about.
#[derive(Clone, Copy, Debug)]
pub enum UiEventKind {
    PointerMoved(Pos),
    Key,
    Text,
    Paste,
    Copy,
    Cut,
    Ime,
    Other,
}

/// An event of the user interface, with the host's own form of it.
pub struct UiEvent<E> {
    pub kind: UiEventKind,
    pub native: E,
}

impl UiEventKind {
    /// The event came from the keyboard or an input method.
    pub open spec fn is_typed(self) -> bool {
        match self {
            UiEventKind::Key
            | UiEventKind::Text
            | UiEventKind::Paste
            | UiEventKind::Copy
            | UiEventKind::Cut
            | UiEventKind::Ime => true,
            _ => false,
        }
    }

    fn typed(self) -> (typed: bool)
        ensures
            typed == self.is_typed(),
    {
        match self {
            UiEventKind::Key
            | UiEventKind::Text
            | UiEventKind::Paste
            | UiEventKind::Copy
            | UiEventKind::Cut
            | UiEventKind::Ime => true,
            _ => false,
        }
    }
}

/// Takes back a movement of the pointer that came last, without waking the user interface for a
/// pointer over the terminal.
pub fn defer_pointer_move<E>(events: &mut Vec<UiEvent<E>>) -> (position: Option<Pos>)
    ensures
        match position {
            Some(position) => {
                &&& old(events)@.len() > 0
                &&& old(events)@.last().kind == UiEventKind::PointerMoved(position)
                &&& final(events)@ == old(events)@.drop_last()
            },
            None => {
                &&& old(events)@.len() == 0 || !(old(events)@.last().kind is PointerMoved)
                &&& final(events)@ == old(events)@
            },
        },
{
    let count: usize = events.len();
    if count == 0 {
        return None;
    }
    let moved = match events[count - 1].kind {
        UiEventKind::PointerMoved(position) => Some(position),
        _ => None,
    };
    if moved.is_some() {
        events.pop();
        assert(events@ =~= old(events)@.drop_last());
    }
    moved
}

/// Terminal keyboard and IME events are already handled by the native event loop.
pub fn filter_egui_events<E>(events: Vec<UiEvent<E>>, ui_input: bool) -> (kept: Vec<UiEvent<E>>)
    ensures
        kept@ == if ui_input {
            events@
        } else {
            events@.filter(|event: UiEvent<E>| !event.kind.is_typed())
        },
{
    if ui_input {
        return events;
    }
    let ghost all = events@;
    let ghost pred = |event: UiEvent<E>| !event.kind.is_typed();
    let mut kept: Vec<UiEvent<E>> = Vec::new();
    proof {
        reveal(Seq::filter);
        assert(all.take(0).filter(pred) =~= Seq::empty());
    }
    for event in iter: events
        invariant
            iter.seq() == all,
            pred == (|event: UiEvent<E>| !event.kind.is_typed()),
            kept@ == all.take(iter.index()).filter(pred),
    {
        proof {
            let i = iter.index();
            reveal(Seq::filter);
            assert(all.take(i + 1).drop_last() =~= all.take(i));
            assert(all.take(i + 1).last() == event);
        }
        if !event.kind.typed() {
            kept.push(event);
        }
    }
    assert(all.take(all.len() as int) =~= all);
    kept
}

/// The keys that stay consumed after an event, and whether it was consumed.
pub open spec fn consumption(
    consumed: Set<u64>,
    key: u64,
    state: ElementState,
    ui_input: bool,
) -> (Set<u64>, bool) {
    if state == ElementState::Released {
        (consumed.remove(key), consumed.contains(key) || ui_input)
    } else if ui_input {
        (consumed.insert(key), true)
    } else {
        (consumed, consumed.contains(key))
    }
}

/// Keep UI and shortcut presses out of the terminal through their physical release.
pub fn key_is_consumed(
    consumed: &mut HashSet<u64>,
    key: u64,
    state: ElementState,
    ui_input: bool,
) -> (is_consumed: bool)
    ensures
        (final(consumed)@, is_consumed) == consumption(old(consumed)@, key, state, ui_input),
{
    if state == ElementState::Released {
        let held = consumed.remove(&key);
        assert(consumed@ =~= old(consumed)@.remove(key));
        held || ui_input
    } else if ui_input {
        consumed.insert(key);
        true
    } else {
        consumed.contains(&key)
    }
}

/// The same for a key whose global hotkey was unregistered while it was held.
pub open spec fn global_consumption(
    consumed: Set<u64>,
    key: u64,
    state: ElementState,
    repeat: bool,
) -> (Set<u64>, bool) {
    consumption(
        if state == ElementState::Pressed && !repeat {
            consumed.remove(key)
        } else {
            consumed
        },
        key,
        state,
        false,
    )
}

/// Unregistering a held global hotkey can expose its repeats and release to the window. The
/// system normally consumes the release itself, so that a fresh press clears any record left
/// behind by a completed chord.
pub fn global_key_is_consumed(
    consumed: &mut HashSet<u64>,
    key: u64,
    state: ElementState,
    repeat: bool,
) -> (is_consumed: bool)
    ensures
        (final(consumed)@, is_consumed) == global_consumption(
            old(consumed)@,
            key,
            state,
            repeat,
        ),
{
    if state == ElementState::Pressed && !repeat {
        consumed.remove(&key);
        assert(consumed@ =~= old(consumed)@.remove(key));
    }
    key_is_consumed(consumed, key, state, false)
}

/// What repeats of a held key leave, where the user interface has the keyboard or not at each.
pub open spec fn after_repeats(consumed: Set<u64>, key: u64, ui: Seq<bool>) -> Set<u64>
    decreases ui.len(),
{
    if ui.len() == 0 {
        consumed
    } else {
        consumption(
            after_repeats(consumed, key, ui.drop_last()),
            key,
            ElementState::Pressed,
            ui.last(),
        ).0
    }
}

proof fn lemma_repeats(consumed: Set<u64>, key: u64, ui: Seq<bool>)
    requires
        consumed.contains(key),
    ensures
        after_repeats(consumed, key, ui) == consumed,
    decreases ui.len(),
{
    if ui.len() > 0 {
        lemma_repeats(consumed, key, ui.drop_last());
        assert(consumed.insert(key) =~= consumed);
    }
}

/// A press that the user interface took stays out of the terminal until its release, through all
/// its repeats and whatever is open by then, and no longer.
pub proof fn law_consumed_press_is_consumed_through_its_release(
    consumed: Set<u64>,
    key: u64,
    ui: Seq<bool>,
    ui_last: bool,
)
    ensures
        ({
            let (pressed, taken) = consumption(consumed, key, ElementState::Pressed, true);
            let held = after_repeats(pressed, key, ui);
            let (released, last) = consumption(held, key, ElementState::Released, ui_last);
            &&& taken && last
            &&& consumption(held, key, ElementState::Pressed, ui_last).1
            &&& !released.contains(key)
            &&& !consumption(released, key, ElementState::Pressed, false).1
        }),
{
    lemma_repeats(consumed.insert(key), key, ui);
}

/// Consuming one key changes nothing about the others.
pub proof fn law_consuming_a_key_leaves_the_others(
    consumed: Set<u64>,
    key: u64,
    other: u64,
    state: ElementState,
    ui_input: bool,
)
    requires
        other != key,
    ensures
        consumption(consumed, key, state, ui_input).0.contains(other) == consumed.contains(other),
{
}

/// A fresh press of a global hotkey reaches the terminal, though its last release was never
/// seen; its repeats do not clear the record.
pub proof fn law_fresh_press_clears_a_stale_hotkey(consumed: Set<u64>, key: u64)
    ensures
        !global_consumption(consumed, key, ElementState::Pressed, false).1,
        !global_consumption(consumed, key, ElementState::Pressed, false).0.contains(key),
        global_consumption(consumed, key, ElementState::Pressed, true).1 == consumed.contains(key),
        global_consumption(consumed, key, ElementState::Released, false).1 == consumed.contains(
            key,
        ),
{
}

/// A letter of an editing shortcut.
#[derive(Clone, Copy, Debug, PartialEq, Eq, Structural)]
pub enum EditKey {
    A,
    Z,
}

/// An event that a menu makes up for the text field that has the focus.
#[derive(Clone, Debug, PartialEq, Eq)]
pub enum EditEvent {
    Copy,
    Paste(String),
    /// A key with the platform's command modifier.
    Key { key: EditKey, shift: bool, pressed: bool },
}

/// The action edits text.
pub open spec fn is_edit(action: Action) -> bool {
    action is CopyToClipboard || action is PasteFromClipboard || action is PasteFromSelection
        || action is SelectAll || action is Undo || action is Redo
}

/// The events that stand for an editing action.
pub open spec fn edit_events(action: Action, clipboard: Option<String>) -> Seq<EditEvent> {
    let key = if action is SelectAll {
        EditKey::A
    } else {
        EditKey::Z
    };
    if action is CopyToClipboard {
        seq![EditEvent::Copy]
    } else if action is PasteFromClipboard || action is PasteFromSelection {
        match clipboard {
            Some(text) => seq![EditEvent::Paste(text)],
            None => Seq::empty(),
        }
    } else {
        seq![
            EditEvent::Key { key, shift: action is Redo, pressed: true },
            EditEvent::Key { key, shift: action is Redo, pressed: false },
        ]
    }
}

/// Native menu shortcuts bypass keyboard events, so feed the owning UI explicitly. Returns the
/// events for it, or nothing where the action is not the UI's.
pub fn edit_menu_action(action: &Action, ui_input: bool, clipboard: Option<String>) -> (events:
    Option<Vec<EditEvent>>)
    ensures
        events is Some <==> ui_input && is_edit(*action),
        events is Some ==> events->0@ == edit_events(*action, clipboard),
{
    if !ui_input {
        return None;
    }
    let mut events: Vec<EditEvent> = Vec::new();
    match action {
        Action::CopyToClipboard => events.push(EditEvent::Copy),
        Action::PasteFromClipboard | Action::PasteFromSelection => {
            if let Some(text) = clipboard {
                events.push(EditEvent::Paste(text));
            }
        },
        Action::SelectAll | Action::Undo | Action::Redo => {
            let key = match action {
                Action::SelectAll => EditKey::A,
                _ => EditKey::Z,
            };
            let shift = match action {
                Action::Redo => true,
                _ => false,
            };
            // A menu click has no real key release to clear the held-key state.
            events.push(EditEvent::Key { key, shift, pressed: true });
            events.push(EditEvent::Key { key, shift, pressed: false });
        },
        _ => {
            return None;
        },
    }
    assert(events@ =~= edit_events(*action, clipboard));
    Some(events)
}

} // verus!
