//! What a window does with the keyboard, the clipboard and the user's answers.
use crate::actions::{search_shortcut, Action, Direction};
use crate::application::{find_step, without_rect, ActionStart, ClosePolicy, SearchStep};
use crate::clipboard::{
    clipboard_policy, finish_clipboard, paste_needs_confirmation, paste_route, preview,
    trusts_brackets, ClipboardReply, ClipboardRequest, CopyOnSelect, PasteRoute, PasteStep,
};
use crate::geometry::{Pos, Rect};
use crate::host::{ClipboardAccess, Confirmation, Host, Navigation, Peek, PendingPaste};
use crate::input::{
    consumption, defer_pointer_move, edit_events, filter_egui_events, global_consumption, is_edit,
    press_point, reports_mouse, selection_press, EditEvent, EditKey, MouseShiftCapture,
    SelectionDrag, UiEvent, UiEventKind,
};
use crate::keyboard::{
    completed, goes_on, is_peek_chord, matched, peeks, BindingFlags, KeyBinding, KeyMatch, PeekStep,
};
use crate::keys::{triggers, ElementState, HeldModifiers, KeyEvent, Modifiers};
use crate::panes::PaneState;
use crate::presentation::Id;
use crate::screen::{GridPoint, Selection};
use crate::time::Instant;
use crate::workspace::{any_interrupted, ConfirmCloseSurface, Workspace};
use std::collections::HashMap;
use vstd::prelude::*;

verus! {

/// A dialog, a list, a message or a waiting request makes a window modal; a Find field takes the
/// keyboard without that.
pub proof fn law_dialogs_take_the_keyboard(host: Host)
    ensures
        host.palette ==> host.is_modal(),
        host.popup_open ==> host.is_modal(),
        host.messages_open ==> host.is_modal(),
        host.layout_picker ==> host.is_modal(),
        host.confirm is Some ==> host.is_modal(),
        host.clipboard_requests@.len() > 0 ==> host.is_modal(),
        host.is_modal() ==> host.palette || host.popup_open || host.messages_open
            || host.layout_picker || host.confirm is Some || host.clipboard_requests@.len() > 0,
        host.is_modal() ==> host.takes_keyboard(),
        host.search_focus is Some ==> host.takes_keyboard(),
        host.takes_keyboard() && host.search_focus is None ==> host.is_modal(),
        host.finding() <==> host.search_focus is Some && !host.is_modal(),
{
}

/// A window shows something while it is up and uncovered, and the keyboard reaches a pane only
/// through a window that is up and focused.
pub proof fn law_the_keyboard_reaches_a_visible_window(host: Host, focused: Option<Id>)
    ensures
        host.shows() ==> host.visible && !host.occluded,
        host.visible && !host.occluded ==> host.shows(),
        host.keyboard_target(focused) is Some ==> host.focused && host.visible,
        host.focused && host.visible ==> host.keyboard_target(focused) == focused,
{
}

/// A pane's title is shown where it is read out, and where the user is asked about that pane.
pub proof fn law_titles_are_shown_where_they_are_asked_about(host: Host, pane: Id)
    ensures
        host.titles(pane, true),
        host.confirm is None && host.clipboard_requests@.len() == 0 ==> !host.titles(pane, false),
        host.confirm matches Some(Confirmation::Paste(paste)) ==> paste.pane == pane
            ==> host.titles(pane, false),
        host.clipboard_requests@.len() > 0 && host.clipboard_requests@[0].0 == pane ==> host.titles(
            pane,
            false,
        ),
        host.titles(pane, false) ==> (host.clipboard_requests@.len() > 0
            && host.clipboard_requests@[0].0 == pane) || (host.confirm is Some && host.confirm->0
            is Paste && host.confirm->0->Paste_0.pane == pane),
{
}

/// A window that gives the keyboard away lets go of the pointer and of what was being composed.
pub proof fn law_yielding_lets_go(yields: bool)
    ensures
        forall|host: &mut Host|
            #![trigger call_ensures(Host::yield_to_ui, (host,), yields)]
            call_ensures(Host::yield_to_ui, (host,), yields) ==> {
                let after = *final(host);
                &&& host.search_focus is Some ==> yields
                &&& host.palette ==> yields
                &&& yields ==> after.mouse_button is None && after.selection_drag is None
                    && after.divider_drag is None && !after.composing && after.preedit@.len() == 0
                    && after.preedit_selection is None
                &&& yields ==> after.modifiers == host.modifiers && after.consumed_keys
                    == host.consumed_keys && after.peek == host.peek && after.search_focus
                    == host.search_focus
                &&& !yields ==> after == *host
            },
{
}

/// A window that loses the focus forgets the keys, the modifiers, the peek and what was being
/// composed or dragged; one that gains it forgets nothing.
pub proof fn law_losing_the_focus_lets_go(focused: bool)
    ensures
        forall|host: &mut Host|
            #![trigger call_ensures(Host::focus_changed, (host, focused), ())]
            call_ensures(Host::focus_changed, (host, focused), ()) ==> {
                let after = *final(host);
                &&& after.focused == focused
                &&& focused ==> after == (Host { focused: true, ..*host })
                &&& !focused ==> {
                    &&& after.peek is None && after.sequence_len == 0 && after.sequence@.len() == 0
                    &&& after.mouse_button is None && after.selection_drag is None
                    &&& after.divider_drag is None && !after.composing
                    &&& after.preedit@.len() == 0 && after.preedit_selection is None
                    &&& after.consumed_keys@.len() == 0
                    &&& !after.modifiers.state.shift && !after.modifiers.state.control
                    &&& !after.modifiers.state.alt && !after.modifiers.state.super_key
                    &&& !after.modifiers.left.alt && !after.modifiers.right.alt
                    &&& !after.modifiers.left.shift && !after.modifiers.right.shift
                    &&& !after.modifiers.left.control && !after.modifiers.right.control
                    &&& !after.modifiers.left.super_key && !after.modifiers.right.super_key
                    &&& after.search_focus == host.search_focus && after.confirm == host.confirm
                    &&& after.clipboard_requests == host.clipboard_requests
                    &&& after.visible == host.visible && after.rects == host.rects
                }
            },
{
}

/// The quick window hides when it loses the focus where the user wants it, but not under a dialog
/// or a Find field.
pub proof fn law_only_the_quick_window_hides(
    host: &Host,
    quick: bool,
    lost: bool,
    autohide: bool,
    hides: bool,
)
    requires
        call_ensures(Host::hides_on_blur, (host, quick, lost, autohide), hides),
    ensures
        hides ==> quick && lost && autohide,
        hides ==> host.search_focus is None && host.confirm is None && !host.palette,
        quick && lost && autohide && !host.takes_keyboard() ==> hides,
{
}

/// A covered window draws nothing until it is uncovered, which draws it at once.
pub proof fn law_covered_windows_have_no_deadline(occluded: bool, repaint: bool)
    ensures
        forall|host: &mut Host|
            #![trigger call_ensures(Host::occlusion_changed, (host, occluded), repaint)]
            call_ensures(Host::occlusion_changed, (host, occluded), repaint) ==> {
                let after = *final(host);
                &&& after.occluded == occluded
                &&& occluded ==> after.deadline is None && !repaint
                &&& !occluded ==> after.deadline == host.deadline && repaint
                &&& after == (Host { occluded, deadline: after.deadline, ..*host })
            },
{
}

/// A text is being composed exactly while it is not empty, and ends as if there had been none.
pub proof fn law_composition_lasts_while_there_is_text(
    text: String,
    selection: Option<(usize, usize)>,
)
    ensures
        forall|host: &mut Host|
            #![trigger call_ensures(Host::preedit_changed, (host, text, selection), ())]
            call_ensures(Host::preedit_changed, (host, text, selection), ()) ==> {
                let after = *final(host);
                &&& after.preedit == text && after.preedit_selection == selection
                &&& after.composing <==> text@.len() > 0
                &&& after == (Host {
                    composing: after.composing,
                    preedit: text,
                    preedit_selection: selection,
                    ..*host
                })
            },
        forall|host: &mut Host|
            #![trigger call_ensures(Host::preedit_ended, (host,), ())]
            call_ensures(Host::preedit_ended, (host,), ()) ==> {
                let after = *final(host);
                &&& !after.composing && after.preedit@.len() == 0 && after.preedit_selection is None
                &&& after == (Host {
                    composing: false,
                    preedit: after.preedit,
                    preedit_selection: None,
                    ..*host
                })
            },
{
}

/// The palette opens with an empty field that has the keyboard, and hands it back to Find where
/// that had it.
pub proof fn law_the_palette_opens_and_closes()
    ensures
        forall|host: &mut Host|
            #![trigger call_ensures(Host::toggle_palette, (host,), ())]
            call_ensures(Host::toggle_palette, (host,), ()) ==> {
                let after = *final(host);
                &&& after.palette != host.palette
                &&& after.palette_query@.len() == 0
                &&& after.palette ==> after.focus_text_input
                &&& !after.palette ==> after.focus_text_input == (host.search_focus is Some)
                &&& after.search_focus == host.search_focus && after.confirm == host.confirm
            },
        forall|host: &mut Host|
            #![trigger call_ensures(Host::close_palette, (host,), ())]
            call_ensures(Host::close_palette, (host,), ()) ==> {
                let after = *final(host);
                &&& !after.palette
                &&& after.focus_text_input == (host.search_focus is Some)
                &&& after == (Host {
                    palette: false,
                    focus_text_input: after.focus_text_input,
                    ..*host
                })
            },
{
}

/// A move of the focus to another pane, and the choice of a tab, close the Find field.
pub proof fn law_moves_of_the_focus_leave_find(before: Option<Id>, after: Option<Id>)
    ensures
        forall|host: &mut Host|
            #![trigger call_ensures(Host::focus_moved, (host, before, after), ())]
            call_ensures(Host::focus_moved, (host, before, after), ()) ==> {
                let moved = *final(host);
                &&& before == after ==> moved == *host
                &&& before != after ==> moved.search_focus is None && moved.search_rects@.len() == 0
                &&& moved.peek == host.peek
            },
        forall|host: &mut Host|
            #![trigger call_ensures(Host::tab_selected, (host,), ())]
            call_ensures(Host::tab_selected, (host,), ()) ==> {
                let chosen = *final(host);
                &&& chosen.search_focus is None && chosen.search_rects@.len() == 0 && chosen.peek
                    is None
                &&& chosen.confirm == host.confirm && chosen.palette == host.palette
            },
{
}

/// A frame that is due is drawn at once, and a later one is waited for, unless an earlier one is
/// waited for already.
pub proof fn law_frames_are_drawn_when_due(deadline: Instant, now: Instant, repaint: bool)
    ensures
        forall|host: &mut Host|
            #![trigger call_ensures(Host::request_frame, (host, deadline, now), repaint)]
            call_ensures(Host::request_frame, (host, deadline, now), repaint) ==> {
                let after = *final(host);
                &&& repaint <==> deadline.nanos <= now.nanos
                &&& repaint ==> after == *host
                &&& !repaint ==> after.deadline is Some && after.deadline->0.nanos
                    <= deadline.nanos
                &&& !repaint && host.deadline is None ==> after.deadline == Some(deadline)
                &&& !repaint && host.deadline is Some ==> after.deadline->0.nanos
                    <= host.deadline->0.nanos && (after.deadline == Some(deadline)
                    || after.deadline == host.deadline)
                &&& after == (Host { deadline: after.deadline, ..*host })
            },
        forall|host: &mut Host, result: (bool, Option<Instant>)|
            #![trigger call_ensures(Host::wait_for, (host, now), result)]
            call_ensures(Host::wait_for, (host, now), result) ==> {
                let after = *final(host);
                &&& result.0 <==> host.deadline is Some && host.deadline->0.nanos <= now.nanos
                &&& result.0 ==> after.deadline is None && result.1 is None
                &&& !result.0 ==> after == *host
                &&& result.1 is Some ==> result.1->0.nanos > now.nanos && host.visible
                    && !host.occluded
                &&& !result.0 && host.visible && !host.occluded ==> result.1 == host.deadline
            },
{
}

/// Typing into the focused pane shows its cursor anew; into another one it changes nothing but the
/// hint.
pub proof fn law_typing_shows_the_cursor(
    pane: Id,
    focused: Option<Id>,
    now: Instant,
    repaint: bool,
)
    ensures
        forall|host: &mut Host|
            #![trigger call_ensures(Host::terminal_input, (host, pane, focused, now), repaint)]
            call_ensures(Host::terminal_input, (host, pane, focused, now), repaint) ==> {
                let after = *final(host);
                &&& repaint <==> host.focused && host.visible && focused == Some(pane)
                &&& repaint ==> after.cursor_blink_started == now
                &&& repaint ==> after.focus_hint.expires is None
                &&& !repaint ==> after.cursor_blink_started == host.cursor_blink_started
                &&& after == (Host {
                    focus_hint: after.focus_hint,
                    cursor_blink_started: after.cursor_blink_started,
                    ..*host
                })
            },
{
}

/// A clipboard request that is denied or allowed outright waits for nobody; one that the user is
/// asked about waits behind those before it, and is denied where too many wait.
pub proof fn law_clipboard_requests_wait_in_line(
    pane: Id,
    request: usize,
    policy: ClipboardAccess,
    supported: bool,
    decision: Option<bool>,
)
    ensures
        forall|host: &mut Host|
            #![trigger call_ensures(Host::queue_clipboard, (host, pane, request, policy, supported), decision)]
            call_ensures(
                Host::queue_clipboard,
                (host, pane, request, policy, supported),
                decision,
            ) ==> {
                let after = *final(host);
                let waiting = host.clipboard_requests@;
                &&& policy == ClipboardAccess::Deny ==> decision == Some(false)
                &&& policy == ClipboardAccess::Allow ==> decision == Some(true)
                &&& policy == ClipboardAccess::Ask && !supported ==> decision == Some(true)
                &&& policy == ClipboardAccess::Ask && supported && waiting.len() < 16 ==> decision
                    is None
                &&& policy == ClipboardAccess::Ask && supported && waiting.len() >= 16 ==> decision
                    == Some(false)
                &&& decision is None ==> after.clipboard_requests@.len() == waiting.len() + 1
                    && after.clipboard_requests@.last() == (pane, request)
                &&& decision is Some ==> after.clipboard_requests@ == waiting
                &&& forall|i: int|
                    0 <= i < waiting.len() ==> #[trigger] after.clipboard_requests@[i] == waiting[i]
            },
        forall|host: &mut Host, answered: Option<(Id, usize)>|
            #![trigger call_ensures(Host::answer_clipboard, (host,), answered)]
            call_ensures(Host::answer_clipboard, (host,), answered) ==> {
                let after = *final(host);
                let waiting = host.clipboard_requests@;
                &&& waiting.len() == 0 ==> answered is None
                &&& waiting.len() > 0 ==> answered == Some(waiting[0])
                    && after.clipboard_requests@.len() == waiting.len() - 1
                &&& forall|i: int|
                    0 <= i < waiting.len() - 1 ==> #[trigger] after.clipboard_requests@[i]
                        == waiting[i + 1]
            },
{
}

/// A move of the focus performed leads to the target; one that leads nowhere warns at the pane that
/// it came from. Moves by quadrant open a peek, others none.
pub proof fn law_moves_of_the_focus_lead_or_warn(
    direction: Direction,
    from: Option<Id>,
    target: Option<Id>,
    begun: Option<Peek>,
    unzoomed: bool,
    now: Instant,
    navigation: Navigation,
)
    ensures
        forall|host: &mut Host|
            #![trigger call_ensures(Host::navigate, (host, direction, from, target, begun, unzoomed, now), navigation)]
            now.nanos + 500_000_000 <= u64::MAX && call_ensures(
                Host::navigate,
                (host, direction, from, target, begun, unzoomed, now),
                navigation,
            ) ==> {
                let after = *final(host);
                let quadrant = direction == Direction::QuadrantLeft || direction
                    == Direction::QuadrantRight || direction == Direction::QuadrantUp || direction
                    == Direction::QuadrantDown;
                let moved = target is Some && target != from;
                &&& moved ==> navigation.focus == target && navigation.performed && !navigation.warn
                &&& !moved ==> navigation.focus is None && !navigation.rezoom
                &&& moved ==> (navigation.rezoom <==> !quadrant)
                &&& !quadrant ==> !navigation.unzoom && after.peek == host.peek
                &&& moved && quadrant ==> navigation.unzoom
                &&& !moved && !quadrant && unzoomed ==> navigation.performed && !navigation.warn
                &&& !moved && (quadrant || !unzoomed) && from is Some ==> navigation.warn
                    && after.navigation_warning is Some && (after.navigation_warning->0).0 == from->0
                    && (after.navigation_warning->0).1.nanos == now.nanos + 500_000_000
                &&& !moved && !quadrant && !unzoomed ==> !navigation.performed
                &&& !navigation.warn && navigation.performed ==> after.navigation_warning is None
                &&& navigation.warn ==> from is Some
                &&& quadrant && host.peek is None && begun is None ==> after.peek is None
                &&& quadrant && (host.peek is Some || begun is Some) ==> {
                    let peek = if host.peek is Some {
                        host.peek->0
                    } else {
                        begun->0
                    };
                    &&& after.peek is Some
                    &&& after.peek->0.navigation_used && after.peek->0.chord == peek.chord
                    &&& target is Some ==> after.peek->0.target == target->0
                    &&& target is None ==> after.peek->0.target == peek.target
                    &&& navigation.unzoom
                    &&& from is Some ==> navigation.performed
                }
                &&& after == (Host {
                    peek: after.peek,
                    navigation_warning: after.navigation_warning,
                    ..*host
                })
            },
{
}

/// A move by quadrant begins a peek unless one is there; another move that leads nowhere asks to
/// leave the zoom.
pub proof fn law_peeks_begin_with_quadrants(
    host: &Host,
    direction: Direction,
    from: Option<Id>,
    target: Option<Id>,
    begins: bool,
    asks: bool,
)
    requires
        call_ensures(Host::begins_peek, (host, direction), begins),
        call_ensures(Host::asks_to_unzoom, (direction, from, target), asks),
    ensures
        direction == Direction::Left || direction == Direction::Right || direction == Direction::Up
            || direction == Direction::Down || direction == Direction::Previous || direction
            == Direction::Next ==> !begins && (asks <==> target is None || target == from),
        direction == Direction::QuadrantLeft || direction == Direction::QuadrantRight || direction
            == Direction::QuadrantUp || direction == Direction::QuadrantDown ==> !asks && (begins
            <==> host.peek is None),
{
}

/// Programs that asked for the mouse get it without Shift. With Shift the policy decides, and where
/// that leaves it open the program: under `True` it may refuse Shift, under `False` it has to ask.
pub proof fn law_shift_keeps_the_mouse_from_programs(
    mouse_mode: u16,
    captures: Option<bool>,
    shift: bool,
    policy: MouseShiftCapture,
)
    ensures
        mouse_mode == 0 ==> !reports_mouse(mouse_mode, captures, shift, policy),
        mouse_mode != 0 ==> reports_mouse(mouse_mode, captures, false, policy),
        !reports_mouse(mouse_mode, captures, true, MouseShiftCapture::Never),
        mouse_mode != 0 ==> {
            &&& reports_mouse(mouse_mode, captures, true, MouseShiftCapture::Always)
            &&& reports_mouse(mouse_mode, None, true, MouseShiftCapture::True)
            &&& !reports_mouse(mouse_mode, None, true, MouseShiftCapture::False)
            &&& reports_mouse(mouse_mode, Some(true), true, MouseShiftCapture::True)
            &&& reports_mouse(mouse_mode, Some(true), true, MouseShiftCapture::False)
            &&& !reports_mouse(mouse_mode, Some(false), true, MouseShiftCapture::True)
            &&& !reports_mouse(mouse_mode, Some(false), true, MouseShiftCapture::False)
        },
{
}

/// A drag gives a selection from its anchor once the pointer moves, of the shape that is asked for,
/// and stays anchored.
pub proof fn law_drags_stay_anchored(
    position: Pos,
    end: GridPoint,
    rectangular: bool,
    selection: Option<Selection>,
)
    ensures
        forall|drag: &mut SelectionDrag|
            #![trigger call_ensures(SelectionDrag::update, (drag, position, end, rectangular), selection)]
            call_ensures(SelectionDrag::update, (drag, position, end, rectangular), selection) ==> {
                let after = *final(drag);
                &&& after.anchor == drag.anchor
                &&& selection is None <==> drag.position.x.equals(position.x)
                    && drag.position.y.equals(position.y)
                &&& selection is Some ==> selection->0.start == drag.anchor && selection->0.end == end
                    && selection->0.rectangular == rectangular && after.position == position
                &&& selection is None ==> after == *drag
            },
        forall|anchor: GridPoint, drag: SelectionDrag|
            #![trigger call_ensures(SelectionDrag::new, (anchor, position), drag)]
            call_ensures(SelectionDrag::new, (anchor, position), drag) ==> drag.anchor == anchor
                && drag.position == position,
{
}

/// A press on the second half of a wide character is one on its first half; elsewhere it stays where
/// it is.
pub proof fn law_presses_reach_whole_characters(point: GridPoint, width: u8, cell: GridPoint)
    requires
        call_ensures(press_point, (point, width), cell),
    ensures
        cell.row == point.row,
        width > 0 ==> cell.col == point.col,
        width == 0 && point.col > 0 ==> cell.col == point.col - 1,
        point.col == 0 ==> cell.col == 0,
{
}

/// A double click on a link selects the link, in lines; any other press selects as the gesture
/// does.
pub proof fn law_double_clicks_select_links(
    click_count: u32,
    gesture: Option<Selection>,
    link: Option<(GridPoint, GridPoint)>,
    selection: Option<Selection>,
)
    requires
        call_ensures(selection_press, (click_count, gesture, link), selection),
    ensures
        click_count == 2 && link is Some ==> selection is Some && selection->0.start == (link->0).0
            && selection->0.end == (link->0).1 && !selection->0.rectangular,
        click_count != 2 || link is None ==> selection == gesture,
{
}

/// The user interface gets what is typed only where it has the keyboard; all else it gets always,
/// in order.
pub proof fn law_typing_stays_out_of_the_interface<E>(
    events: Vec<UiEvent<E>>,
    ui_input: bool,
    kept: Vec<UiEvent<E>>,
    event: UiEvent<E>,
)
    requires
        call_ensures(filter_egui_events, (events, ui_input), kept),
    ensures
        ui_input ==> kept@ == events@,
        !ui_input ==> {
            let typed = event.kind == UiEventKind::Key || event.kind == UiEventKind::Text
                || event.kind == UiEventKind::Paste || event.kind == UiEventKind::Copy || event.kind
                == UiEventKind::Cut || event.kind == UiEventKind::Ime;
            kept@.contains(event) <==> events@.contains(event) && !typed
        },
{
    if !ui_input {
        let quiet = |event: UiEvent<E>| !event.kind.is_typed();
        assert(kept@ == events@.filter(quiet));
        if kept@.contains(event) {
            let i = kept@.index_of(event);
            events@.lemma_filter_pred(quiet, i);
            events@.lemma_filter_contains_rev(quiet, event);
        }
        if events@.contains(event) && quiet(event) {
            let i = events@.index_of(event);
            assert(events@[i] == event);
            events@.lemma_filter_contains(quiet, i);
        }
    }
}

/// A press that the user interface takes is kept from the terminal to its release, also when the
/// interface has gone by then; the release lets the key go.
pub proof fn law_keys_are_kept_until_released(consumed: Set<u64>, key: u64, other: u64, ui: bool)
    ensures
        ({
            let (held, taken) = consumption(consumed, key, ElementState::Pressed, ui);
            let (left, released) = consumption(consumed, key, ElementState::Released, ui);
            &&& ui ==> taken && held.contains(key)
            &&& consumed.contains(key) ==> taken && released
            &&& !ui && !consumed.contains(key) ==> !taken && !released && !held.contains(key)
            &&& ui ==> released
            &&& !left.contains(key)
            &&& other != key ==> held.contains(other) == consumed.contains(other)
                && left.contains(other) == consumed.contains(other)
        }),
{
}

/// A global hotkey's fresh press is never taken for one that is still kept; repetitions and
/// releases are.
pub proof fn law_fresh_hotkeys_are_free(consumed: Set<u64>, key: u64)
    ensures
        ({
            let (fresh, taken) = global_consumption(consumed, key, ElementState::Pressed, false);
            !taken && !fresh.contains(key)
        }),
        global_consumption(consumed, key, ElementState::Pressed, true).1 <==> consumed.contains(key),
        global_consumption(consumed, key, ElementState::Released, false).1 <==> consumed.contains(
            key,
        ),
        !global_consumption(consumed, key, ElementState::Released, false).0.contains(key),
{
}

/// An editing action reaches a text field as what the user would have typed: copying, pasting the
/// clipboard where it holds text, selecting all with A, undoing with Z and redoing with Shift and Z,
/// each key pressed and let go.
pub proof fn law_editing_actions_type(clipboard: Option<String>)
    ensures
        edit_events(Action::CopyToClipboard, clipboard) == seq![EditEvent::Copy],
        clipboard is None ==> edit_events(Action::PasteFromClipboard, clipboard).len() == 0
            && edit_events(Action::PasteFromSelection, clipboard).len() == 0,
        clipboard is Some ==> edit_events(Action::PasteFromClipboard, clipboard) == seq![
            EditEvent::Paste(clipboard->0),
        ] && edit_events(Action::PasteFromSelection, clipboard) == seq![
            EditEvent::Paste(clipboard->0),
        ],
        edit_events(Action::SelectAll, clipboard) == seq![
            EditEvent::Key { key: EditKey::A, shift: false, pressed: true },
            EditEvent::Key { key: EditKey::A, shift: false, pressed: false },
        ],
        edit_events(Action::Undo, clipboard) == seq![
            EditEvent::Key { key: EditKey::Z, shift: false, pressed: true },
            EditEvent::Key { key: EditKey::Z, shift: false, pressed: false },
        ],
        edit_events(Action::Redo, clipboard) == seq![
            EditEvent::Key { key: EditKey::Z, shift: true, pressed: true },
            EditEvent::Key { key: EditKey::Z, shift: true, pressed: false },
        ],
        is_edit(Action::CopyToClipboard) && is_edit(Action::PasteFromClipboard) && is_edit(
            Action::PasteFromSelection,
        ) && is_edit(Action::SelectAll) && is_edit(Action::Undo) && is_edit(Action::Redo),
        !is_edit(Action::CloseTab) && !is_edit(Action::NewTab) && !is_edit(Action::Quit) && !is_edit(
            Action::ClearScreen,
        ),
{
}

/// In Find the actions on the application work; those on the terminal and on text do not, since the
/// field has the keyboard.
pub proof fn law_find_keeps_the_application_at_hand(action: &Action, available: bool)
    requires
        call_ensures(search_shortcut, (action,), available),
    ensures
        *action is StartSearch || *action is EndSearch || *action is SearchSelection || *action
            is NavigateSearch ==> available,
        *action is NewWindow || *action is NewTab || *action is NewSplit || *action is Quit
            ==> available,
        *action is CloseSurface || *action is CloseTab || *action is CloseWindow || *action
            is CloseAllWindows ==> available,
        *action is GotoSplit || *action is ResizeSplit || *action is EqualizeSplits || *action
            is ToggleSplitZoom || *action is ToggleQuadrantZoom ==> available,
        *action is NextTab || *action is PreviousTab || *action is LastTab || *action is GotoTab
            || *action is MoveTab ==> available,
        *action is ToggleQuickTerminal || *action is ToggleFullscreen || *action
            is ToggleCommandPalette ==> available,
        *action is ReloadConfig || *action is OpenConfig || *action is OpenLayout ==> available,
        *action is IncreaseFontSize || *action is DecreaseFontSize || *action is ResetFontSize
            ==> available,
        is_edit(*action) ==> !available,
        *action is Text || *action is Ignore || *action is Unbind || *action is ClearScreen
            ==> !available,
        *action is ScrollToTop || *action is ScrollToBottom || *action is ScrollPageUp || *action
            is ScrollPageDown || *action is ScrollToSelection || *action is JumpToPrompt
            ==> !available,
{
}

/// The actions that close are those five, and what changes the layout can be brought back, quitting
/// apart.
pub proof fn law_layout_changes_are_remembered(action: &Action, closes: bool, remembers: bool)
    requires
        call_ensures(Action::closes, (action,), closes),
        call_ensures(Action::remembers, (action,), remembers),
    ensures
        closes <==> *action == Action::CloseSurface || *action == Action::CloseTab || *action
            == Action::CloseWindow || *action == Action::CloseAllWindows || *action == Action::Quit,
        closes ==> (remembers <==> *action != Action::Quit),
        *action is NewWindow || *action is NewTab || *action is NewSplit || *action is ResizeSplit
            || *action is EqualizeSplits ==> remembers,
        *action is GotoSplit || *action is NextTab || *action is PreviousTab || *action is GotoTab
            || *action is MoveTab || *action is Undo || *action is Redo || *action is Text
            ==> !remembers,
{
}

/// The bindings that go on with a key are those of the candidates whose next key it is, in their
/// order: none of a table of its own, and in Find none with an action that stays there.
pub proof fn law_bindings_go_on_with_their_next_key(
    bindings: Seq<KeyBinding>,
    candidates: Seq<usize>,
    step: int,
    event: KeyEvent,
    mods: Modifiers,
    in_find: bool,
    index: usize,
)
    ensures
        matched(bindings, candidates, step, event, mods, in_find).contains(index)
            <==> candidates.contains(index) && ({
            let binding = bindings[index as int];
            &&& !binding.in_table
            &&& 0 <= step < binding.trigger@.len()
            &&& triggers(binding.trigger@[step], event, mods)
            &&& in_find ==> forall|i: int|
                0 <= i < binding.actions@.len() ==> !crate::actions::stays_in_find(
                    #[trigger] binding.actions@[i],
                )
        }),
    decreases candidates.len(),
{
    if candidates.len() > 0 {
        let front = candidates.drop_last();
        law_bindings_go_on_with_their_next_key(bindings, front, step, event, mods, in_find, index);
        let before = matched(bindings, front, step, event, mods, in_find);
        let all = matched(bindings, candidates, step, event, mods, in_find);
        let last = candidates.last();
        if candidates.contains(index) && index != last {
            let i = candidates.index_of(index);
            assert(front[i] == index);
        }
        if front.contains(index) {
            let i = front.index_of(index);
            assert(candidates[i] == index);
        }
        assert(candidates[candidates.len() - 1] == last);
        if goes_on(bindings[last as int], step, event, mods, in_find) {
            assert(all == before.push(last));
            assert(all[all.len() - 1] == last);
            if before.contains(index) {
                let i = before.index_of(index);
                assert(all[i] == index);
            }
            if all.contains(index) && index != last {
                let i = all.index_of(index);
                assert(before[i] == index);
            }
        }
    }
}

/// Of the bindings that a key completes the last one wins.
pub proof fn law_the_last_binding_wins(
    bindings: Seq<KeyBinding>,
    found: Seq<usize>,
    length: int,
    i: int,
)
    requires
        0 <= i < found.len(),
    ensures
        completed(bindings, found, length) matches Some(index) ==> found.contains(index)
            && bindings[index as int].trigger@.len() == length,
        bindings[found[i] as int].trigger@.len() == length ==> completed(bindings, found, length)
            is Some,
        bindings[found[i] as int].trigger@.len() == length && (forall|j: int|
            i < j < found.len() ==> bindings[#[trigger] found[j] as int].trigger@.len() != length)
            ==> completed(bindings, found, length) == Some(found[i]),
    decreases found.len(),
{
    assert(found[found.len() - 1] == found.last());
    if bindings[found.last() as int].trigger@.len() != length {
        let front = found.drop_last();
        if i < front.len() {
            law_the_last_binding_wins(bindings, front, length, i);
        } else if front.len() > 0 {
            law_the_last_binding_wins(bindings, front, length, 0);
        }
        if let Some(index) = completed(bindings, front, length) {
            if front.len() > 0 {
                assert(front.contains(index));
                let k = front.index_of(index);
                assert(found[k] == index);
            }
        }
        if i < front.len() && (forall|j: int|
            i < j < found.len() ==> bindings[#[trigger] found[j] as int].trigger@.len() != length) {
            assert forall|j: int| i < j < front.len() implies bindings[
                #[trigger] front[j] as int].trigger@.len() != length by {
                assert(found[j] == front[j]);
            }
            law_the_last_binding_wins(bindings, front, length, i);
        }
    }
}

/// A key completes a binding whose keys were all pressed, the last such one; where none is complete
/// the sequence goes on while a binding waits, and is over otherwise.
pub proof fn law_sequences_of_keys_complete_bindings(
    bindings: &Vec<KeyBinding>,
    event: &KeyEvent,
    found: KeyMatch,
)
    ensures
        forall|host: &mut Host|
            #![trigger call_ensures(Host::match_binding, (host, bindings, event), found)]
            host.sequence_len < usize::MAX && call_ensures(
                Host::match_binding,
                (host, bindings, event),
                found,
            ) ==> {
                let after = *final(host);
                let mods = host.modifiers.state;
                &&& found matches KeyMatch::Complete(index) ==> {
                    let binding = bindings@[index as int];
                    &&& binding.trigger@.len() == host.sequence_len + 1
                    &&& !binding.in_table
                    &&& triggers(binding.trigger@[host.sequence_len as int], *event, mods)
                    &&& host.sequence_len > 0 ==> host.sequence@.contains(index)
                }
                &&& found == KeyMatch::Pending ==> after.sequence_len == host.sequence_len + 1
                    && after.sequence@.len() > 0
                &&& found != KeyMatch::Pending ==> after.sequence_len == 0 && after.sequence@.len()
                    == 0
                &&& found == KeyMatch::Unbound && host.sequence_len == 0 && !host.finding() ==> (
                forall|i: int|
                    0 <= i < bindings@.len() && !(#[trigger] bindings@[i]).in_table
                        && bindings@[i].trigger@.len() > 0 ==> !triggers(
                        bindings@[i].trigger@[0],
                        *event,
                        mods,
                    ))
            },
{
    assert forall|host: &mut Host|
        #![trigger call_ensures(Host::match_binding, (host, bindings, event), found)]
        host.sequence_len < usize::MAX && call_ensures(
            Host::match_binding,
            (host, bindings, event),
            found,
        ) implies {
        let after = *final(host);
        let mods = host.modifiers.state;
        &&& found matches KeyMatch::Complete(index) ==> {
            let binding = bindings@[index as int];
            &&& binding.trigger@.len() == host.sequence_len + 1
            &&& !binding.in_table
            &&& triggers(binding.trigger@[host.sequence_len as int], *event, mods)
            &&& host.sequence_len > 0 ==> host.sequence@.contains(index)
        }
        &&& found == KeyMatch::Pending ==> after.sequence_len == host.sequence_len + 1
            && after.sequence@.len() > 0
        &&& found != KeyMatch::Pending ==> after.sequence_len == 0 && after.sequence@.len() == 0
        &&& found == KeyMatch::Unbound && host.sequence_len == 0 && !host.finding() ==> (forall|
            i: int,
        |
            0 <= i < bindings@.len() && !(#[trigger] bindings@[i]).in_table
                && bindings@[i].trigger@.len() > 0 ==> !triggers(
                bindings@[i].trigger@[0],
                *event,
                mods,
            ))
    } by {
        let going_on = (*host).continued(bindings@, *event, (*host).finding());
        let length = host.sequence_len + 1;
        if going_on.len() > 0 {
            law_the_last_binding_wins(bindings@, going_on, length, 0);
        }
        if let KeyMatch::Complete(index) = found {
            law_bindings_go_on_with_their_next_key(
                bindings@,
                (*host).candidates(bindings@),
                host.sequence_len as int,
                *event,
                host.modifiers.state,
                (*host).finding(),
                index,
            );
        }
        if found == KeyMatch::Unbound && host.sequence_len == 0 && !(*host).finding() {
            assert(bindings.len() == bindings@.len());
            assert forall|i: int|
                0 <= i < bindings@.len() && !(#[trigger] bindings@[i]).in_table
                    && bindings@[i].trigger@.len() > 0 implies !triggers(
                bindings@[i].trigger@[0],
                *event,
                host.modifiers.state,
            ) by {
                let all = (*host).candidates(bindings@);
                assert(all[i] == i as usize);
                assert(all.contains(i as usize));
                law_bindings_go_on_with_their_next_key(
                    bindings@,
                    all,
                    0,
                    *event,
                    host.modifiers.state,
                    false,
                    i as usize,
                );
            }
        }
    }
}

/// Bindings are looked for on presses alone, and not while a text is composed.
pub proof fn law_bindings_are_sought_on_presses(host: &Host, state: ElementState, seeks: bool)
    requires
        call_ensures(Host::seeks_binding, (host, state), seeks),
    ensures
        state == ElementState::Released ==> !seeks,
        host.composing ==> !seeks,
        state == ElementState::Pressed && !host.composing ==> seeks,
{
}

/// A binding keeps its keys from the terminal where it says so, one that can only be performed
/// sometimes only when it was; the key is kept to its release where the interface was involved.
pub proof fn law_performed_bindings_consume_their_keys(
    key: u64,
    flags: BindingFlags,
    performed: bool,
    ui_before: bool,
    consumed: bool,
)
    ensures
        forall|host: &mut Host|
            #![trigger call_ensures(Host::binding_performed, (host, key, flags, performed, ui_before), consumed)]
            call_ensures(
                Host::binding_performed,
                (host, key, flags, performed, ui_before),
                consumed,
            ) ==> {
                let after = *final(host);
                &&& !flags.consumed ==> !consumed
                &&& flags.consumed && performed ==> consumed
                &&& flags.consumed && !flags.performable ==> consumed
                &&& flags.performable && !performed ==> !consumed
                &&& consumed && ui_before ==> after.consumed_keys@.contains(key)
                &&& consumed && host.search_focus is Some ==> after.consumed_keys@.contains(key)
                &&& !consumed ==> after.consumed_keys@ == host.consumed_keys@
                &&& !ui_before && !host.takes_keyboard() ==> after.consumed_keys@
                    == host.consumed_keys@
                &&& forall|other: u64|
                    other != key ==> (#[trigger] after.consumed_keys@.contains(other)
                        <==> host.consumed_keys@.contains(other))
            },
{
}

/// Any press closes a pane whose program has ended, and is kept from what takes its place.
pub proof fn law_presses_close_ended_panes(
    key: u64,
    state: ElementState,
    exited: bool,
    closes: bool,
)
    ensures
        forall|host: &mut Host|
            #![trigger call_ensures(Host::closes_exited, (host, key, state, exited), closes)]
            call_ensures(Host::closes_exited, (host, key, state, exited), closes) ==> {
                let after = *final(host);
                &&& !exited ==> !closes
                &&& state == ElementState::Released ==> !closes
                &&& exited && state == ElementState::Pressed ==> closes
                &&& closes ==> after.consumed_keys@.contains(key)
                &&& !closes ==> after.consumed_keys@ == host.consumed_keys@
            },
{
}

/// A key that the interface has taken goes no further, and ends as handled exactly if the interface
/// no longer has the keyboard. In Find keys go on to the bindings.
pub proof fn law_taken_keys_go_no_further(
    key: u64,
    state: ElementState,
    repeat: bool,
    end: Option<bool>,
)
    ensures
        forall|host: &mut Host|
            #![trigger call_ensures(Host::intercept_key, (host, key, state, repeat), end)]
            call_ensures(Host::intercept_key, (host, key, state, repeat), end) ==> {
                let after = *final(host);
                &&& host.is_modal() ==> end == Some(false)
                &&& host.is_modal() && state == ElementState::Pressed
                    ==> after.consumed_keys@.contains(key)
                &&& !host.takes_keyboard() && host.consumed_keys@.contains(key) ==> end == Some(true)
                &&& !host.takes_keyboard() && !host.consumed_keys@.contains(key) ==> end is None
                &&& host.finding() && !host.consumed_keys@.contains(key) ==> end is None
                &&& host.finding() && repeat ==> end is None
                &&& host.finding() && host.consumed_keys@.contains(key) && !repeat ==> end == Some(
                    false,
                )
                &&& state == ElementState::Released ==> !after.consumed_keys@.contains(key)
            },
        forall|host: &mut Host|
            #![trigger call_ensures(Host::consume_key, (host, key, state), end)]
            call_ensures(Host::consume_key, (host, key, state), end) ==> {
                let after = *final(host);
                &&& host.takes_keyboard() ==> end == Some(false)
                &&& host.takes_keyboard() && state == ElementState::Pressed
                    ==> after.consumed_keys@.contains(key)
                &&& !host.takes_keyboard() && host.consumed_keys@.contains(key) ==> end == Some(true)
                &&& !host.takes_keyboard() && !host.consumed_keys@.contains(key) ==> end is None
                &&& state == ElementState::Released ==> !after.consumed_keys@.contains(key)
            },
{
}

/// A peek ends when its chord is let go, and begins when the chord of a binding that leads to a
/// quadrant is held over a zoomed one, with nothing else in the way.
pub proof fn law_peeks_last_while_their_chord_is_held(
    modifiers: HeldModifiers,
    bindings: &Vec<KeyBinding>,
    quadrant_zoomed: bool,
    step: PeekStep,
)
    ensures
        forall|host: &mut Host|
            #![trigger call_ensures(Host::modifiers_changed, (host, modifiers, bindings, quadrant_zoomed), step)]
            call_ensures(
                Host::modifiers_changed,
                (host, modifiers, bindings, quadrant_zoomed),
                step,
            ) ==> {
                let after = *final(host);
                let held = modifiers.state;
                let lost = host.peek is Some && ((host.peek->0.chord.shift && !held.shift) || (
                host.peek->0.chord.control && !held.control) || (host.peek->0.chord.alt
                    && !held.alt) || (host.peek->0.chord.super_key && !held.super_key));
                &&& after.modifiers == modifiers
                &&& lost ==> step == PeekStep::Finish(host.peek->0) && after.peek is None
                &&& !lost ==> !(step is Finish) && after.peek == host.peek
                &&& step == PeekStep::Begin ==> host.peek is None && quadrant_zoomed
                    && !host.takes_keyboard()
                &&& host.peek is Some && !lost ==> step == PeekStep::Nothing
                &&& host.peek is None && quadrant_zoomed && !host.takes_keyboard()
                    && is_peek_chord(bindings@, held) ==> step == PeekStep::Begin
                &&& !is_peek_chord(bindings@, held) ==> step != PeekStep::Begin
                &&& after == (Host { modifiers, peek: after.peek, ..*host })
            },
{
}

/// The chord of a peek is that of a single key that leads to a quadrant, with some modifier.
pub proof fn law_peek_chords_lead_to_quadrants(
    bindings: Seq<KeyBinding>,
    current: Modifiers,
    i: int,
    j: int,
)
    requires
        0 <= i < bindings.len(),
        0 <= j < bindings[i].actions@.len(),
        bindings[i].actions@[j] is GotoSplit,
        bindings[i].actions@[j]->GotoSplit_0 == Direction::QuadrantLeft || bindings[i].actions@[
            j]->GotoSplit_0 == Direction::QuadrantRight || bindings[i].actions@[j]->GotoSplit_0
            == Direction::QuadrantUp || bindings[i].actions@[j]->GotoSplit_0
            == Direction::QuadrantDown,
        !bindings[i].in_table,
        bindings[i].trigger@.len() == 1,
        bindings[i].trigger@[0].modifiers == current,
        current.shift || current.control || current.alt || current.super_key,
    ensures
        is_peek_chord(bindings, current),
{
    assert(peeks(bindings[i], current));
}

/// Without such a binding, and without any modifier, there is no peek.
pub proof fn law_other_chords_do_not_peek(bindings: Seq<KeyBinding>, current: Modifiers)
    ensures
        !current.shift && !current.control && !current.alt && !current.super_key ==> !is_peek_chord(
            bindings,
            current,
        ),
        (forall|i: int|
            0 <= i < bindings.len() ==> (#[trigger] bindings[i]).in_table
                || bindings[i].trigger@.len() != 1 || bindings[i].trigger@[0].modifiers != current)
            ==> !is_peek_chord(bindings, current),
        (forall|i: int, j: int|
            0 <= i < bindings.len() && 0 <= j < bindings[i].actions@.len() ==> !((
            #[trigger] bindings[i].actions@[j]) is GotoSplit)) ==> !is_peek_chord(
            bindings,
            current,
        ),
{
}

/// Closing what still runs is asked about where the user wants it, once; an approved action and one
/// that closes nothing are performed, and a text field takes what edits.
pub proof fn law_closing_is_asked_about_once<L>(
    action: Action,
    approved: bool,
    clipboard: Option<String>,
    workspace: &Workspace<L>,
    panes: &HashMap<Id, PaneState>,
    policy: ClosePolicy,
    start: ActionStart,
)
    ensures
        forall|host: &mut Host|
            #![trigger call_ensures(Host::begin_action, (host, action, approved, clipboard, workspace, panes, policy), start)]
            call_ensures(
                Host::begin_action,
                (host, action, approved, clipboard, workspace, panes, policy),
                start,
            ) ==> {
                let after = *final(host);
                &&& start matches ActionStart::Perform(performed) ==> performed == action
                &&& start is Edit <==> host.takes_keyboard() && (action is CopyToClipboard || action
                    is PasteFromClipboard || action is PasteFromSelection || action is SelectAll
                    || action is Undo || action is Redo)
                &&& start is Ask ==> !approved && (action == Action::CloseSurface || action
                    == Action::CloseTab || action == Action::CloseWindow || action
                    == Action::CloseAllWindows || action == Action::Quit)
                &&& policy.confirm == ConfirmCloseSurface::False ==> !(start is Ask)
                &&& start is Ask ==> after.confirm == Some(Confirmation::Close(action))
                &&& !(start is Ask) ==> after == *host
                &&& !approved && (action == Action::CloseSurface || action == Action::CloseTab
                    || action == Action::CloseWindow || action == Action::CloseAllWindows || action
                    == Action::Quit) && any_interrupted(
                    workspace.closing_panes(action, host.id),
                    panes@,
                    policy.confirm,
                    policy.shell_reports,
                ) ==> start is Ask
            },
{
}

/// Find opens at any time, with the selection where asked; it closes and goes from match to match
/// while it is open, and does nothing where it cannot be reached.
pub proof fn law_find_opens_before_it_is_used(action: Action, open: bool, next: bool)
    ensures
        find_step(action, false, open) == SearchStep::Refuse,
        find_step(Action::StartSearch, true, open) == (SearchStep::Open { selection: false }),
        find_step(Action::SearchSelection, true, open) == (SearchStep::Open { selection: true }),
        find_step(Action::EndSearch, true, true) == SearchStep::Close,
        find_step(Action::NavigateSearch { next }, true, true) == (SearchStep::Navigate { next }),
        find_step(Action::EndSearch, true, false) == SearchStep::Refuse,
        find_step(Action::NavigateSearch { next }, true, false) == SearchStep::Refuse,
        !(action is StartSearch) && !(action is SearchSelection) && !(action is EndSearch) && !(
        action is NavigateSearch) ==> find_step(action, true, open) == SearchStep::Refuse,
{
}

/// Opening Find brings the keyboard to its field, closing it takes the field and its own focus
/// away, and no other window state changes.
pub proof fn law_find_takes_and_gives_the_keyboard(
    pane: Id,
    action: &Action,
    reachable: bool,
    open: bool,
    step: SearchStep,
    i: int,
)
    ensures
        forall|host: &mut Host|
            #![trigger call_ensures(Host::search_action, (host, pane, action, reachable, open), step)]
            call_ensures(Host::search_action, (host, pane, action, reachable, open), step) ==> {
                let after = *final(host);
                &&& step == find_step(*action, reachable, open)
                &&& step is Open ==> after.search_focus == Some(pane) && after.focus_text_input
                    && after.search_rects == host.search_rects
                &&& step is Close ==> after.search_focus != Some(pane) && (host.search_focus != Some(
                    pane,
                ) ==> after.search_focus == host.search_focus) && after.search_rects@
                    == without_rect(host.search_rects@, pane)
                &&& step is Navigate || step is Refuse ==> after == *host
                &&& after.peek == host.peek && after.confirm == host.confirm && after.palette
                    == host.palette
            },
{
}

/// What is left without a pane's rectangle are the others.
pub proof fn law_the_other_fields_stay(rects: Seq<(Id, Rect)>, pane: Id, rect: (Id, Rect))
    ensures
        without_rect(rects, pane).contains(rect) <==> rects.contains(rect) && rect.0 != pane,
    decreases rects.len(),
{
    if rects.len() > 0 {
        let front = rects.drop_last();
        let last = rects.last();
        law_the_other_fields_stay(front, pane, rect);
        assert(rects[rects.len() - 1] == last);
        if rects.contains(rect) && rect != last {
            let i = rects.index_of(rect);
            assert(front[i] == rect);
        }
        if front.contains(rect) {
            let i = front.index_of(rect);
            assert(rects[i] == rect);
        }
        let kept = without_rect(front, pane);
        let all = without_rect(rects, pane);
        if last.0 != pane {
            assert(all == kept.push(last));
            assert(all[all.len() - 1] == last);
            if kept.contains(rect) {
                let i = kept.index_of(rect);
                assert(all[i] == rect);
            }
            if all.contains(rect) && rect != last {
                let i = all.index_of(rect);
                assert(kept[i] == rect);
            }
        }
    }
}

/// Reads and writes each go by their own policy. A denial stands; a question is spared where the
/// request was granted before, and for a read that asks for the formats alone.
pub proof fn law_clipboard_access_goes_by_its_policy(
    read_policy: ClipboardAccess,
    write_policy: ClipboardAccess,
    request: ClipboardRequest,
    policy: ClipboardAccess,
)
    requires
        call_ensures(clipboard_policy, (read_policy, write_policy, request), policy),
    ensures
        ({
            let own = if request is Read {
                read_policy
            } else {
                write_policy
            };
            &&& own == ClipboardAccess::Deny ==> policy == ClipboardAccess::Deny
            &&& own == ClipboardAccess::Allow ==> policy == ClipboardAccess::Allow
            &&& own == ClipboardAccess::Ask ==> policy != ClipboardAccess::Deny
            &&& own == ClipboardAccess::Ask ==> (request matches ClipboardRequest::Write {
                granted,
                ..
            } ==> (policy == ClipboardAccess::Allow <==> granted))
            &&& own == ClipboardAccess::Ask ==> (request matches ClipboardRequest::Read {
                granted,
                listing,
                ..
            } ==> (policy == ClipboardAccess::Allow <==> granted || listing))
        }),
{
}

/// A request that the user refused is denied; a permission is remembered only where both the user
/// and the request want it.
pub proof fn law_refused_requests_are_denied(
    request: ClipboardRequest,
    allow: bool,
    remember: bool,
    platform: bool,
    reply: ClipboardReply,
)
    requires
        call_ensures(finish_clipboard, (request, allow, remember, platform), reply),
    ensures
        !allow <==> reply == ClipboardReply::Denied,
        allow && !platform <==> reply == ClipboardReply::Unavailable,
        reply matches ClipboardReply::Access { remember: remembered } ==> {
            &&& remembered ==> remember
            &&& request matches ClipboardRequest::Read { can_remember, .. } ==> (remembered
                <==> remember && can_remember)
            &&& request matches ClipboardRequest::Write { can_remember, .. } ==> (remembered
                <==> remember && can_remember)
        },
{
}

/// A paste goes to a live pane at once, unless it is empty or the user has to be asked; the answer
/// releases it.
pub proof fn law_unsafe_pastes_wait_for_the_user(
    paste: PendingPaste,
    approved: bool,
    alive: bool,
    needed: bool,
    step: PasteStep,
)
    ensures
        forall|host: &mut Host|
            #![trigger call_ensures(Host::paste, (host, paste, approved, alive, needed), step)]
            call_ensures(Host::paste, (host, paste, approved, alive, needed), step) ==> {
                let after = *final(host);
                &&& !alive || paste.data@.len() == 0 ==> step == PasteStep::Ignore
                &&& step matches PasteStep::Send(sent) ==> sent == paste && alive && (approved
                    || !needed)
                &&& alive && paste.data@.len() > 0 && (approved || !needed) ==> step is Send
                &&& alive && paste.data@.len() > 0 && needed && !approved ==> step == PasteStep::Ask
                &&& step == PasteStep::Ask ==> after.confirm == Some(Confirmation::Paste(paste))
                &&& step != PasteStep::Ask ==> after == *host
                &&& after == (Host { confirm: after.confirm, ..*host })
            },
        forall|host: &mut Host, confirmed: Option<Confirmation>|
            #![trigger call_ensures(Host::answer, (host, approved), confirmed)]
            call_ensures(Host::answer, (host, approved), confirmed) ==> {
                let after = *final(host);
                &&& after.confirm is None
                &&& approved ==> confirmed == host.confirm
                &&& !approved ==> confirmed is None
                &&& after == (Host { confirm: None, ..*host })
            },
        forall|host: &mut Host|
            #![trigger call_ensures(Host::drop_stale_paste, (host, alive), ())]
            call_ensures(Host::drop_stale_paste, (host, alive), ()) ==> {
                let after = *final(host);
                &&& alive ==> after == *host
                &&& host.confirm is Some && host.confirm->0 is Close ==> after == *host
                &&& !alive && host.confirm is Some && host.confirm->0 is Paste ==> after.confirm
                    is None
            },
{
}

/// A protected paste is asked about unless it is safe; brackets make it so only where the user
/// trusts them and the program has them.
pub proof fn law_brackets_protect_where_they_are_used(
    bracketed_safe: bool,
    bracketed_mode: bool,
    protection: bool,
    safe: bool,
    trusts: bool,
    needed: bool,
)
    requires
        call_ensures(trusts_brackets, (bracketed_safe, bracketed_mode), trusts),
        call_ensures(paste_needs_confirmation, (protection, safe), needed),
    ensures
        trusts ==> bracketed_safe && bracketed_mode,
        bracketed_safe && bracketed_mode ==> trusts,
        safe ==> !needed,
        !protection ==> !needed,
        protection && !safe ==> needed,
{
}

/// A paste is announced to a program that listens, and typed into any other.
pub proof fn law_listening_programs_are_told_of_pastes(
    alive: bool,
    platform: bool,
    listens: bool,
    route: PasteRoute,
)
    requires
        call_ensures(paste_route, (alive, platform, listens), route),
    ensures
        route == PasteRoute::Done <==> !alive,
        route == PasteRoute::Announce <==> alive && platform && listens,
        route == PasteRoute::Text <==> alive && (!platform || !listens),
{
}

/// A preview shows a paste whole up to four kilobytes, and tells where it is cut.
pub proof fn law_previews_tell_what_is_cut(length: usize, shown: (usize, bool))
    requires
        call_ensures(preview, (length,), shown),
    ensures
        shown.0 <= length && shown.0 <= 4096,
        shown.1 <==> shown.0 < length,
        shown.0 == length || shown.0 == 4096,
{
}

/// Selected text goes where the user wants it: nowhere, to the clipboard, to the selection or to
/// both.
pub proof fn law_selected_text_goes_where_it_should(choice: CopyOnSelect, targets: (bool, bool))
    requires
        call_ensures(CopyOnSelect::targets, (choice,), targets),
    ensures
        choice == CopyOnSelect::Off <==> targets == (false, false),
        choice == CopyOnSelect::Clipboard <==> targets == (true, false),
        choice == CopyOnSelect::Primary <==> targets == (false, true),
        choice == CopyOnSelect::Both <==> targets == (true, true),
{
}

/// A last movement of the pointer is put off, and every other event is kept in its place.
pub proof fn law_last_movements_are_put_off<E>(position: Option<Pos>)
    ensures
        forall|events: &mut Vec<UiEvent<E>>|
            #![trigger call_ensures(defer_pointer_move, (events,), position)]
            call_ensures(defer_pointer_move, (events,), position) ==> {
                let before = events@;
                let after = final(events)@;
                &&& before.len() > 0 && before.last().kind is PointerMoved ==> position is Some
                    && before.last().kind == UiEventKind::PointerMoved(position->0) && after.len()
                    == before.len() - 1
                &&& before.len() == 0 || !(before.last().kind is PointerMoved) ==> position is None
                    && after == before
                &&& forall|i: int| 0 <= i < after.len() ==> #[trigger] after[i] == before[i]
            },
{
}

/// A new window shows unless it is the quick one, and nothing is pressed, open, composed or focused
/// in it.
pub proof fn law_new_windows_are_at_rest(
    id: Id,
    quick: bool,
    now: Instant,
    mouse: Pos,
    host: Host,
)
    requires
        call_ensures(Host::new, (id, quick, now, mouse), host),
    ensures
        host.id == id,
        host.visible <==> !quick,
        !host.focused && !host.occluded && !host.pointer_inside,
        !host.palette && !host.popup_open && !host.messages_open && !host.layout_picker,
        host.confirm is None && host.clipboard_requests@.len() == 0 && host.search_focus is None,
        host.mouse_button is None && host.selection_drag is None && host.divider_drag is None,
        host.peek is None && host.sequence_len == 0 && !host.composing,
        host.mouse == mouse,
{
}

} // verus!
