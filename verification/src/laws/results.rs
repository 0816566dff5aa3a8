//! What callers get of the functions that ask and change.
use crate::actions::Action;
use crate::atlas::{to_straight, AtlasUpload, BitmapFormat, RenderError};
use crate::capture::read_pixels;
use crate::drawing::{compose, composed, ConfigColor, Layer, PaneRenderKey, PreparedPane};
use crate::formats::{directory_from_osc, font_feature, FontFeature};
use crate::frame::{merge_uploads, ComposeError, Frame};
use crate::geometry::{Pos, Rect};
use crate::history::History;
use crate::host::{Axis, Divider, Host, HoveredLink, MouseButton};
use crate::input::{
    edit_menu_action, global_key_is_consumed, key_is_consumed, mouse_reporting, EditEvent,
    MouseShiftCapture,
};
use crate::keys::{
    chord_held, coded_key, consumed_modifiers, named_key, normalize_name, normalized, physical_name,
    printed, terminal_key_code, terminal_key_text, terminal_named_key, ElementState, Key, KeyEvent,
    KeyLocation, KeyTrigger, Modifiers, PhysicalKey, TerminalKey,
};
use crate::labels::{contains_text, progress_style, wants_attention, window_title, write_tab_text};
use crate::laws::painting::in_order;
use crate::laws::text::{has_text, is_faithful};
use crate::lifecycle::{retained_panes, visible_panes, without, NativeWindow};
use crate::mouse::{link_bounds, visible_row, LinkHit, LinkSpan, PointerCursor};
use crate::pane::{InputError, InputQueue};
use crate::panes::{hold_after_exit, PaneState};
use crate::prepare::{decoration, standard_palette, CellPaint, Decoration, RenderOptions, Span};
use crate::presentation::{
    directory_name, Activity, CompletionFlash, FocusHint, Id, Progress, TitleActivity,
};
use crate::runs::{drawn_columns, item_models, split_row, RowItem};
use crate::schedule::earliest;
use crate::screen::{Cell, GridPoint, Rgb, Row, Screen, TerminalColor};
use crate::smoke::{Happening, NativeEvent, Observation, Smoke, SmokeAction, SmokeStep, Stage};
use crate::text::{
    decimal, first_char, from_chars, parse_unsigned, push_decimal, push_signed, strip_prefix,
    to_chars,
};
use crate::time::Instant;
use crate::workspace::{
    choose_tab, has_id, initial_visible_panes, window_contains_pane, window_visible_panes,
    NativeState, Tab, Window, Workspace,
};
use std::collections::{HashMap, HashSet};
use vstd::prelude::*;
use vstd::utf8::encode_utf8;

verus! {

/// A command that starts runs, one that ends does not; both forget what was reported, and the end
/// tells of a stop exactly if no progress goes on.
pub proof fn law_commands_start_and_end(stopped: bool, running: bool)
    ensures
        forall|activity: &mut Activity|
            #![trigger call_ensures(Activity::command_started, (activity,), stopped)]
            call_ensures(Activity::command_started, (activity,), stopped) ==> {
                let after = *final(activity);
                &&& after.command_running && !stopped
                &&& after.title == TitleActivity::Idle && !after.reported_progress
                &&& after.progress == activity.progress && after.progress_deadline
                    == activity.progress_deadline
            },
        forall|activity: &mut Activity|
            #![trigger call_ensures(Activity::command_finished, (activity,), stopped)]
            call_ensures(Activity::command_finished, (activity,), stopped) ==> {
                let after = *final(activity);
                &&& !after.command_running
                &&& stopped <==> activity.command_running && activity.progress_deadline is None
                &&& after.title == TitleActivity::Idle && !after.reported_progress
                &&& after.progress == activity.progress && after.progress_deadline
                    == activity.progress_deadline
            },
        forall|activity: &mut Activity|
            #![trigger call_ensures(Activity::command, (activity, running), stopped)]
            call_ensures(Activity::command, (activity, running), stopped) ==> {
                let after = *final(activity);
                &&& after.command_running == running
                &&& stopped <==> activity.command_running && !running && activity.progress_deadline
                    is None
                &&& after.progress == activity.progress
            },
{
}

/// Progress is taken over as it is reported, ends with state zero and when it is overdue, and tells
/// of a stop exactly if no command runs on.
pub proof fn law_progress_is_taken_over(state: u8, value: Option<u8>, now: Instant, stopped: bool)
    requires
        now.nanos + 15_000_000_000 <= u64::MAX,
    ensures
        forall|activity: &mut Activity|
            #![trigger call_ensures(Activity::progress_reported, (activity, state, value, now), stopped)]
            call_ensures(Activity::progress_reported, (activity, state, value, now), stopped) ==> {
                let after = *final(activity);
                &&& 1 <= state <= 4 ==> after.progress is Some && after.progress->0.state == state
                    && after.progress_deadline is Some && after.progress_deadline->0.nanos
                    == now.nanos + 15_000_000_000 && !stopped
                &&& state == 0 ==> after.progress is None && after.progress_deadline is None
                &&& state == 0 ==> (stopped <==> activity.progress_deadline is Some
                    && !activity.command_running)
                &&& state > 4 ==> after == *activity && !stopped
            },
        forall|activity: &mut Activity|
            #![trigger call_ensures(Activity::expire, (activity, now), stopped)]
            call_ensures(Activity::expire, (activity, now), stopped) ==> {
                let after = *final(activity);
                let due = activity.progress_deadline is Some && activity.progress_deadline->0.nanos
                    <= now.nanos;
                &&& due ==> after.progress is None && after.progress_deadline is None
                &&& !due ==> after == *activity
                &&& stopped <==> due && !activity.command_running
            },
        forall|activity: &mut Activity|
            #![trigger call_ensures(Activity::clear, (activity,), stopped)]
            call_ensures(Activity::clear, (activity,), stopped) ==> {
                let after = *final(activity);
                &&& !after.command_running && after.progress is None && after.progress_deadline
                    is None && after.title == TitleActivity::Idle
                &&& stopped <==> activity.command_running || activity.progress_deadline is Some
            },
        forall|activity: &mut Activity|
            #![trigger call_ensures(Activity::reset_progress_animation, (activity,), ())]
            call_ensures(Activity::reset_progress_animation, (activity,), ()) ==> {
                let after = *final(activity);
                after.progress_started is None && after.progress == activity.progress
                    && after.progress_deadline == activity.progress_deadline
            },
{
}

/// Activity is asked for: whether something runs, whether work is reported, until when progress
/// counts and what it is.
pub proof fn law_activity_is_told(
    activity: &Activity,
    progress: Progress,
    active: bool,
    working: bool,
    deadline: Option<Instant>,
    shown: Option<Progress>,
    share: Option<u8>,
)
    requires
        call_ensures(Activity::is_active, (activity,), active),
        call_ensures(Activity::reported_active, (activity,), working),
        call_ensures(Activity::deadline, (activity,), deadline),
        call_ensures(Activity::progress, (activity,), shown),
        call_ensures(Progress::percentage, (progress,), share),
    ensures
        active <==> activity.command_running || activity.progress_deadline is Some,
        activity.title == TitleActivity::Waiting ==> !working,
        activity.title == TitleActivity::Working ==> working,
        activity.title == TitleActivity::Idle ==> (working <==> activity.reported_progress),
        deadline == activity.progress_deadline && shown == activity.progress,
        progress.value is Some ==> share == progress.value,
        progress.value is None ==> (share == Some(100u8) <==> progress.state == 4) && (share is None
            <==> progress.state != 4),
{
}

/// A title works by its spinner where white space follows, and changes nothing else of the
/// activity.
pub proof fn law_titles_are_classified(title: &str, activity: TitleActivity)
    ensures
        call_ensures(TitleActivity::parse, (title,), activity) && title@.len() > 1
            && crate::presentation::is_spinner(title@[0]) ==> (activity == TitleActivity::Working
            <==> crate::presentation::white_space(title@[1])),
        call_ensures(TitleActivity::parse, (title,), activity) && title@.len() == 1
            && crate::presentation::is_spinner(title@[0]) ==> activity == TitleActivity::Working,
        call_ensures(TitleActivity::parse, (title,), activity) && title@.len() == 0 ==> activity
            == TitleActivity::Idle,
        forall|running: &mut Activity|
            #![trigger call_ensures(Activity::title_changed, (running, title), ())]
            call_ensures(Activity::title_changed, (running, title), ()) ==> {
                let after = *final(running);
                after == (Activity { title: after.title, ..*running })
            },
{
    reveal_strlit("[ ! ] Action Required");
    reveal_strlit("[ . ] Action Required");
    if title@.len() > 0 && crate::presentation::is_spinner(title@[0]) {
        let a = "[ ! ] Action Required"@;
        let b = "[ . ] Action Required"@;
        assert(a[0] == '[' && b[0] == '[');
        if crate::text::has_prefix(title@, a) {
            assert(title@.subrange(0, a.len() as int)[0] == title@[0]);
        }
        if crate::text::has_prefix(title@, b) {
            assert(title@.subrange(0, b.len() as int)[0] == title@[0]);
        }
    }
}

/// A hint shows on the pane that gained the focus, for two seconds or until it is dismissed.
pub proof fn law_hints_show_on_the_new_focus(
    pane: Option<Id>,
    now: Instant,
    changed: bool,
    id: Id,
    later: Instant,
    shown: bool,
    deadline: Option<Instant>,
)
    requires
        now.nanos + 2_000_000_000 <= u64::MAX,
    ensures
        forall|hint: &mut FocusHint|
            #![trigger call_ensures(FocusHint::focus, (hint, pane, now), changed)]
            call_ensures(FocusHint::focus, (hint, pane, now), changed) ==> {
                let after = *final(hint);
                &&& after.pane == pane
                &&& changed <==> hint.pane != pane
                &&& !changed ==> after == *hint
                &&& changed && pane is Some ==> after.expires is Some && after.expires->0.nanos
                    == now.nanos + 2_000_000_000
                &&& changed && pane is None ==> after.expires is None
            },
        forall|hint: &mut FocusHint|
            #![trigger call_ensures(FocusHint::dismiss, (hint,), ())]
            call_ensures(FocusHint::dismiss, (hint,), ()) ==> final(hint).expires is None
                && final(hint).pane == hint.pane,
        forall|hint: &FocusHint|
            #![trigger call_ensures(FocusHint::visible, (hint, id, later), shown)]
            call_ensures(FocusHint::visible, (hint, id, later), shown) ==> (shown <==> hint.pane
                == Some(id) && hint.expires is Some && later.nanos < hint.expires->0.nanos),
        forall|hint: &FocusHint|
            #![trigger call_ensures(FocusHint::deadline, (hint, later), deadline)]
            call_ensures(FocusHint::deadline, (hint, later), deadline) ==> if hint.expires is Some
                && later.nanos < hint.expires->0.nanos {
                deadline == hint.expires
            } else {
                deadline is None
            },
{
}

/// A flash counts from its start until it is cleared.
pub proof fn law_flashes_count_from_their_start(now: Instant, elapsed: Option<u64>)
    ensures
        forall|flash: &mut CompletionFlash|
            #![trigger call_ensures(CompletionFlash::start, (flash, now), ())]
            call_ensures(CompletionFlash::start, (flash, now), ()) ==> final(flash).started == Some(
                now,
            ),
        forall|flash: &mut CompletionFlash|
            #![trigger call_ensures(CompletionFlash::clear, (flash,), ())]
            call_ensures(CompletionFlash::clear, (flash,), ()) ==> final(flash).started is None,
        forall|flash: &CompletionFlash|
            #![trigger call_ensures(CompletionFlash::elapsed, (flash, now), elapsed)]
            call_ensures(CompletionFlash::elapsed, (flash, now), elapsed) ==> {
                &&& flash.started is None <==> elapsed is None
                &&& flash.started is Some && now.nanos >= flash.started->0.nanos ==> elapsed->0
                    == now.nanos - flash.started->0.nanos
            },
{
}

/// A new focus of the window is hinted at, and painted exactly if it is new.
pub proof fn law_new_focus_is_painted(focused: Option<Id>, now: Instant, repaint: bool)
    requires
        now.nanos + 2_000_000_000 <= u64::MAX,
    ensures
        forall|host: &mut Host|
            #![trigger call_ensures(Host::sync_focus, (host, focused, now), repaint)]
            call_ensures(Host::sync_focus, (host, focused, now), repaint) ==> {
                let after = *final(host);
                let target = if host.focused && host.visible {
                    focused
                } else {
                    None
                };
                &&& after.focus_hint.pane == target
                &&& repaint <==> host.focus_hint.pane != target
                &&& !repaint ==> after == *host
                &&& repaint && target is Some ==> after.focus_hint.expires is Some
                    && after.focus_hint.expires->0.nanos == now.nanos + 2_000_000_000
                &&& after == (Host { focus_hint: after.focus_hint, ..*host })
            },
{
}

/// A press dismisses the hint; a button is held from its press to its release, which ends a drag.
pub proof fn law_buttons_are_held_until_released(button: Option<MouseButton>)
    ensures
        forall|host: &mut Host|
            #![trigger call_ensures(Host::press_begun, (host,), ())]
            call_ensures(Host::press_begun, (host,), ()) ==> {
                let after = *final(host);
                after.focus_hint.expires is None && after.focus_hint.pane == host.focus_hint.pane
                    && after == (Host { focus_hint: after.focus_hint, ..*host })
            },
        forall|host: &mut Host|
            #![trigger call_ensures(Host::button_pressed, (host, button), ())]
            call_ensures(Host::button_pressed, (host, button), ()) ==> {
                let after = *final(host);
                after.mouse_button == button && after == (Host { mouse_button: button, ..*host })
            },
        forall|host: &mut Host|
            #![trigger call_ensures(Host::button_released, (host,), ())]
            call_ensures(Host::button_released, (host,), ()) ==> {
                let after = *final(host);
                after.mouse_button is None && after.selection_drag is None && after.divider_drag
                    == host.divider_drag && after.peek == host.peek
            },
{
}

/// What a window is asked: the pane at a place and under the pointer, and who has the keyboard.
pub proof fn law_windows_tell_who_has_the_keyboard(
    host: &Host,
    position: Pos,
    focused: Option<Id>,
    at: Option<Id>,
    under: Option<Id>,
    ui: bool,
    modal: bool,
    shows: bool,
    target: Option<Id>,
)
    requires
        call_ensures(Host::pane_at, (host, position), at),
        call_ensures(Host::hovered_pane, (host,), under),
        call_ensures(Host::ui_input, (host,), ui),
        call_ensures(Host::modal_input, (host,), modal),
        call_ensures(Host::repaints, (host,), shows),
        call_ensures(Host::target, (host, focused), target),
    ensures
        !host.pointer_inside ==> under is None,
        host.pointer_inside && host.mouse == position ==> under == at,
        modal <==> host.palette || host.popup_open || host.messages_open || host.layout_picker
            || host.confirm is Some || host.clipboard_requests@.len() > 0,
        ui <==> modal || host.search_focus is Some,
        shows <==> host.visible && !host.occluded,
        target is Some ==> target == focused && host.focused && host.visible,
        host.focused && host.visible ==> target == focused,
        at matches Some(pane) ==> exists|i: int|
            0 <= i < host.rects@.len() && (#[trigger] host.rects@[i]).0 == pane
                && host.rects@[i].1.encloses(position),
{
    if at is Some {
        lemma_hit(host.rects@, position);
    }
}

proof fn lemma_hit(rects: Seq<(Id, Rect)>, position: Pos)
    ensures
        crate::host::first_hit(rects, position) matches Some(pane) ==> exists|i: int|
            0 <= i < rects.len() && (#[trigger] rects[i]).0 == pane && rects[i].1.encloses(
                position,
            ),
    decreases rects.len(),
{
    if rects.len() > 0 {
        if rects[0].1.encloses(position) {
            assert(rects[0].0 == rects[0].0);
        } else {
            let rest = rects.drop_first();
            lemma_hit(rest, position);
            if let Some(pane) = crate::host::first_hit(rects, position) {
                let i = choose|i: int|
                    0 <= i < rest.len() && (#[trigger] rest[i]).0 == pane && rest[i].1.encloses(
                        position,
                    );
                assert(rects[i + 1] == rest[i]);
            }
        }
    }
}

/// A rectangle holds the places between its edges, edges included, and none beside them.
pub proof fn law_rectangles_hold_what_lies_between_their_edges(
    rect: &Rect,
    position: Pos,
    inside: bool,
)
    requires
        call_ensures(Rect::contains, (rect, position), inside),
    ensures
        inside <==> rect.min.x.at_most(position.x) && position.x.at_most(rect.max.x)
            && rect.min.y.at_most(position.y) && position.y.at_most(rect.max.y),
{
}

/// Each of the known named keys gives the terminal key of its own name.
pub proof fn law_named_keys_are_translated(name: &str, key: Option<TerminalKey>, own: TerminalKey)
    requires
        call_ensures(terminal_named_key, (name,), key),
    ensures
        !(own is Function) ==> (key == Some(own) <==> crate::laws::keyboard::name_of(own) == Some(
            name@,
        )),
        key is Some && key->0 is Function ==> name@.len() > 1 && name@[0] == 'F',
{
    crate::laws::keyboard::law_named_keys_keep_their_names(name@, own);
    if key is Some && key->0 is Function {
        assert(name@.skip(1).len() == name@.len() - 1);
    }
}

/// A key is translated by its meaning and its place.
pub proof fn law_keys_are_translated(
    logical: &Key,
    physical: &PhysicalKey,
    location: KeyLocation,
    key: TerminalKey,
)
    requires
        call_ensures(terminal_key_code, (logical, physical, location), key),
    ensures
        (location == KeyLocation::Standard || location == KeyLocation::Left) && *physical
            is Unidentified ==> {
            &&& *logical matches Key::Character(text) ==> text@.len() > 0 ==> key
                == TerminalKey::Char(text@[0])
            &&& *logical matches Key::Named(name) ==> (named_key(name@) == Some(key) || (
            named_key(name@) is None && key == TerminalKey::Unidentified))
            &&& *logical is Other ==> key == TerminalKey::Unidentified
        },
        (location == KeyLocation::Standard || location == KeyLocation::Left) ==> (*physical
            matches PhysicalKey::Code(code) ==> (coded_key(code@) is Some ==> coded_key(code@)
            == Some(key))),
{
}

/// The text of a key event is kept unless it begins with a control character.
pub proof fn law_key_texts_are_kept(text: &str, kept: Option<&str>, none: Option<&str>)
    requires
        call_ensures(terminal_key_text, (Some(text),), kept),
        call_ensures(terminal_key_text, (None,), none),
    ensures
        none is None,
        kept is Some ==> kept->0@ == text@,
        kept is Some <==> text@.len() > 0 && text@[0] as u32 >= 32 && text@[0] as u32 != 127,
{
}

/// Control and Super are never consumed, nor is anything without a text.
pub proof fn law_consumption_needs_a_text(
    unmodified: &Key,
    text: Option<&str>,
    mods: Modifiers,
    option_as_alt: bool,
    macos: bool,
    consumed: Modifiers,
)
    requires
        call_ensures(consumed_modifiers, (unmodified, text, mods, option_as_alt, macos), consumed),
    ensures
        !consumed.control && !consumed.super_key,
        text is None || text->0@.len() == 0 ==> !consumed.shift && !consumed.alt,
        consumed.shift ==> mods.shift,
        consumed.alt ==> mods.alt,
        macos && text is Some && text->0@.len() > 0 ==> consumed.shift == mods.shift && consumed.alt
            == (mods.alt && !option_as_alt),
{
}

/// A binding's key is found under any of its names, and a place by what it prints.
pub proof fn law_bindings_find_their_key(
    trigger: &KeyTrigger,
    event: &KeyEvent,
    mods: Modifiers,
    found: bool,
    name: &str,
    normal: String,
    place: String,
)
    requires
        call_ensures(crate::keys::matches, (trigger, event, mods), found),
        call_ensures(normalize_name, (name,), normal),
        call_ensures(physical_name, (&event.physical_key,), place),
    ensures
        normal@ == normalized(name@),
        event.physical_key matches PhysicalKey::Code(code) ==> printed(code@) is Some ==> place@
            == printed(code@)->0,
        event.physical_key is Unidentified ==> place@.len() == 0,
        found ==> trigger.modifiers == mods,
        trigger.modifiers == mods && trigger.physical && trigger.key@ != "catch_all"@ ==> (found
            <==> normalized(trigger.key@) == place@),
        trigger.modifiers == mods && trigger.key@ == "catch_all"@ ==> found,
        trigger.modifiers == mods && !trigger.physical && event.unmodified is Named
            && event.unmodified->Named_0@ == trigger.key@ ==> found,
        trigger.modifiers == mods && !trigger.physical && event.unmodified is Character
            && event.unmodified->Character_0@ == trigger.key@ ==> found,
{
}

/// A chord is held exactly while each of its modifiers is.
pub proof fn law_chords_are_held_by_their_modifiers(
    chord: Modifiers,
    current: Modifiers,
    held: bool,
)
    requires
        call_ensures(chord_held, (chord, current), held),
    ensures
        held <==> (chord.shift ==> current.shift) && (chord.control ==> current.control) && (
        chord.alt ==> current.alt) && (chord.super_key ==> current.super_key),
{
}

/// Keys that the interface took are kept from the terminal until their release; fresh presses of a
/// global hotkey are not.
pub proof fn law_taken_keys_are_kept(
    key: u64,
    state: ElementState,
    ui_input: bool,
    repeat: bool,
    consumed: bool,
)
    ensures
        forall|keys: &mut HashSet<u64>|
            #![trigger call_ensures(key_is_consumed, (keys, key, state, ui_input), consumed)]
            call_ensures(key_is_consumed, (keys, key, state, ui_input), consumed) ==> {
                &&& consumed <==> ui_input || keys@.contains(key)
                &&& state == ElementState::Released ==> final(keys)@ == keys@.remove(key)
                &&& state == ElementState::Pressed && ui_input ==> final(keys)@ == keys@.insert(key)
                &&& state == ElementState::Pressed && !ui_input ==> final(keys)@ == keys@
            },
        forall|keys: &mut HashSet<u64>|
            #![trigger call_ensures(global_key_is_consumed, (keys, key, state, repeat), consumed)]
            call_ensures(global_key_is_consumed, (keys, key, state, repeat), consumed) ==> {
                &&& state == ElementState::Pressed && !repeat ==> !consumed && final(keys)@
                    == keys@.remove(key)
                &&& state == ElementState::Pressed && repeat ==> (consumed <==> keys@.contains(key))
                    && final(keys)@ == keys@
                &&& state == ElementState::Released ==> (consumed <==> keys@.contains(key))
                    && final(keys)@ == keys@.remove(key)
            },
{
}

/// A menu's editing action goes to a text field that has the keyboard, and to no other place.
pub proof fn law_menus_edit_where_the_keyboard_is(
    action: &Action,
    ui_input: bool,
    clipboard: Option<String>,
    events: Option<Vec<EditEvent>>,
)
    requires
        call_ensures(edit_menu_action, (action, ui_input, clipboard), events),
    ensures
        events is Some ==> ui_input,
        ui_input ==> (events is Some <==> *action is CopyToClipboard || *action is PasteFromClipboard
            || *action is PasteFromSelection || *action is SelectAll || *action is Undo || *action
            is Redo),
        events is Some && *action is CopyToClipboard ==> events->0@ == seq![EditEvent::Copy],
        events is Some && *action is PasteFromClipboard && clipboard is Some ==> events->0@ == seq![
            EditEvent::Paste(clipboard->0),
        ],
{
}

/// Programs get the mouse without Shift wherever they asked for it, and with Shift as the policy
/// says.
pub proof fn law_programs_get_the_mouse(
    mode: u16,
    captures: Option<bool>,
    shift: bool,
    policy: MouseShiftCapture,
    reports: bool,
)
    requires
        call_ensures(mouse_reporting, (mode, captures, shift, policy), reports),
    ensures
        mode == 0 ==> !reports,
        mode != 0 && !shift ==> reports,
        mode != 0 && shift ==> match policy {
            MouseShiftCapture::Always => reports,
            MouseShiftCapture::Never => !reports,
            MouseShiftCapture::True => reports <==> captures is None || captures->0,
            MouseShiftCapture::False => reports <==> captures is Some && captures->0,
        },
{
}

/// The tab that is chosen by its number is that one, or the last where there are fewer.
pub proof fn law_chosen_tabs_go_by_their_number(
    number: usize,
    active: usize,
    count: usize,
    chosen: usize,
)
    requires
        active < count,
        number >= 1,
        call_ensures(choose_tab, (&Action::GotoTab(number), active, count), chosen),
    ensures
        chosen < count,
        number <= count ==> chosen == number - 1,
        number > count ==> chosen == count - 1,
{
}

/// A window's panes are those of its tabs; those on show are the ones of the tab in front, and none
/// in a window that is hidden or covered.
pub proof fn law_windows_tell_their_panes<L>(
    window: &Window<L>,
    pane: Id,
    visible: bool,
    occluded: bool,
    peek: bool,
    native: Option<NativeState>,
    found: bool,
    shown: Vec<Id>,
    first: Vec<Id>,
)
    requires
        window.active_tab < window.tabs@.len(),
        call_ensures(window_contains_pane, (window, pane), found),
        call_ensures(window_visible_panes, (window, visible, occluded, peek), shown),
        call_ensures(initial_visible_panes, (window, native), first),
    ensures
        found <==> exists|i: int|
            0 <= i < window.tabs@.len() && (#[trigger] window.tabs@[i]).panes@.contains(pane),
        !visible || occluded ==> shown@.len() == 0,
        visible && !occluded && !peek ==> shown@ == window.tabs@[window.active_tab as int].visible@,
        visible && !occluded && peek ==> shown@ == window.tabs@[window.active_tab as int].peeked@,
        native is None && window.quick ==> first@.len() == 0,
        native is None && !window.quick ==> first@
            == window.tabs@[window.active_tab as int].visible@,
        native matches Some(state) ==> !state.visible || state.occluded ==> first@.len() == 0,
        native matches Some(state) ==> state.visible && !state.occluded && !state.peek ==> first@
            == window.tabs@[window.active_tab as int].visible@,
{
    crate::laws::tabs::law_windows_hold_the_panes_of_their_tabs(*window, pane);
}

/// The panes of all windows are each of theirs, and a window's tab and focus are those in front.
pub proof fn law_workspaces_tell_their_panes<L>(
    workspace: &Workspace<L>,
    id: Id,
    pane: Id,
    panes: Vec<Id>,
    tab: Option<&Tab<L>>,
    focused: Option<Id>,
    w: int,
)
    requires
        workspace.wf(),
        0 <= w < workspace.windows@.len(),
        workspace.windows@[w].id == id,
        forall|j: int| 0 <= j < w ==> (#[trigger] workspace.windows@[j]).id != id,
        call_ensures(Workspace::<L>::panes, (workspace,), panes),
        call_ensures(Workspace::<L>::tab, (workspace, id), tab),
        call_ensures(Workspace::<L>::focused, (workspace, id), focused),
    ensures
        panes@.contains(pane) <==> exists|i: int|
            0 <= i < workspace.windows@.len() && crate::workspace::contains_pane(
                #[trigger] workspace.windows@[i],
                pane,
            ),
        ({
            let front = workspace.windows@[w].tabs@[workspace.windows@[w].active_tab as int];
            tab is Some && *tab->0 == front && focused == Some(front.focused)
        }),
{
    crate::laws::tabs::law_windows_hold_their_panes(workspace.windows@, pane);
    crate::laws::tabs::law_the_tab_in_front_has_the_focus(*workspace, id, w);
}

/// What closes is what the action names.
pub proof fn law_candidates_are_what_closes<L>(
    workspace: &Workspace<L>,
    action: &Action,
    id: Id,
    panes: Vec<Id>,
    pane: Id,
    w: int,
)
    requires
        workspace.wf(),
        0 <= w < workspace.windows@.len(),
        workspace.windows@[w].id == id,
        forall|j: int| 0 <= j < w ==> (#[trigger] workspace.windows@[j]).id != id,
        call_ensures(Workspace::<L>::close_candidates, (workspace, action, id), panes),
    ensures
        ({
            let window = workspace.windows@[w];
            let tab = window.tabs@[window.active_tab as int];
            &&& *action == Action::CloseSurface ==> (panes@.contains(pane) <==> pane == tab.focused)
            &&& *action == Action::CloseTab ==> (panes@.contains(pane) <==> tab.panes@.contains(
                pane,
            ))
            &&& *action == Action::CloseWindow ==> (panes@.contains(pane) <==> exists|j: int|
                0 <= j < window.tabs@.len() && (#[trigger] window.tabs@[j]).panes@.contains(pane))
        }),
{
    crate::laws::tabs::law_closing_takes_what_it_names(*workspace, id, w, pane);
}

/// An ID is found where it is listed.
pub proof fn law_listed_ids_are_found(ids: &Vec<Id>, id: Id, found: bool, i: int)
    requires
        call_ensures(has_id, (ids, id), found),
    ensures
        0 <= i < ids@.len() && ids@[i] == id ==> found,
        found ==> exists|j: int| 0 <= j < ids@.len() && #[trigger] ids@[j] == id,
{
}

/// A pane is held open where the user asked for it, and behind a run that was too short.
pub proof fn law_panes_are_held_behind_short_runs(
    wait: bool,
    abnormal_runtime: u64,
    millis: u64,
    rest: u64,
    runtime: u64,
    hold: bool,
)
    requires
        rest < 1_000_000,
        runtime == millis * 1_000_000 + rest,
        call_ensures(hold_after_exit, (wait, abnormal_runtime, runtime), hold),
    ensures
        wait ==> hold,
        !wait ==> (hold <==> millis <= abnormal_runtime),
{
}

/// A pane wants attention if it has something unseen; a window's title and a tab's text are those
/// of what they show.
pub proof fn law_labels_are_written_out(
    ids: &Vec<Id>,
    panes: &HashMap<Id, PaneState>,
    wants: bool,
    pane: &PaneState,
    title: String,
    name: &str,
    text: String,
)
    requires
        call_ensures(wants_attention, (ids, panes), wants),
        call_ensures(window_title, (Some(pane),), title),
        call_ensures(write_tab_text, (name, false, 0, false), text),
    ensures
        wants <==> exists|i: int|
            0 <= i < ids@.len() && panes@.contains_key(#[trigger] ids@[i]) && panes@[ids@[i]].unseen,
        pane.title@.len() > 0 ==> title@ == pane.title@ + " — Rustty"@,
        pane.title@.len() == 0 ==> title@ == pane.cwd@ + " — Rustty"@,
        name@.len() <= 26 ==> text@ == name@,
        name@.len() > 26 ==> text@ == name@.subrange(0, 26),
{
    crate::laws::marks::law_windows_go_by_their_pane(pane.title@, pane.cwd@);
    crate::laws::marks::law_tab_labels_add_their_marks(name@, false, 0, false);
}

/// When a pane's activity stops its tab flashes unless it is in front.
pub proof fn law_stops_flash_in_tabs_behind<L>(
    tab: &Tab<L>,
    in_front: bool,
    pane: Id,
    now: Instant,
)
    requires
        tab.id != pane,
    ensures
        forall|flashes: &mut HashMap<Id, CompletionFlash>|
            #![trigger call_ensures(crate::labels::activity_stopped, (flashes, tab, in_front, pane, None, now), ())]
            call_ensures(
                crate::labels::activity_stopped,
                (flashes, tab, in_front, pane, None, now),
                (),
            ) ==> {
                let before = flashes@;
                let after = final(flashes)@;
                let here = tab.panes@.contains(pane);
                &&& !here ==> after == before
                &&& here && !in_front ==> after.contains_key(tab.id) && after[tab.id].started
                    == Some(now)
                &&& here && pane != tab.focused ==> after.contains_key(pane)
                &&& in_front && pane == tab.focused ==> after == before
            },
{
}

/// The colour and the words of progress.
pub proof fn law_progress_is_shown_by_its_state(progress: Progress, style: (Option<Rgb>, String))
    requires
        call_ensures(progress_style, (progress,), style),
    ensures
        progress.state == 2 ==> style.0 == Some(Rgb { r: 255, g: 59, b: 48 }),
        progress.state == 4 ==> style.0 == Some(Rgb { r: 255, g: 149, b: 0 }),
        progress.state != 2 && progress.state != 4 ==> style.0 is None,
{
}

/// A text holds each of its parts.
pub proof fn law_texts_hold_their_parts(text: &str, part: &str, found: bool, i: int)
    requires
        call_ensures(contains_text, (text, part), found),
    ensures
        0 <= i && i + part@.len() <= text@.len() && text@.subrange(i, i + part@.len()) == part@
            ==> found,
        found ==> part@.len() <= text@.len(),
{
    if 0 <= i && i + part@.len() <= text@.len() && text@.subrange(i, i + part@.len()) == part@ {
        assert(text@.skip(i).subrange(0, part@.len() as int) =~= text@.subrange(
            i,
            i + part@.len(),
        ));
        assert(crate::text::has_prefix(text@.skip(i), part@));
    }
}

/// The panes without some others, and those that must be kept.
pub proof fn law_kept_panes_are_told_from_the_others<L>(
    ids: &Vec<Id>,
    kept: &Vec<Id>,
    left: Vec<Id>,
    workspace: &Workspace<L>,
    history: &History<Workspace<L>>,
    held: Vec<Id>,
    pane: Id,
)
    requires
        call_ensures(without, (ids, kept), left),
        call_ensures(retained_panes, (workspace, history), held),
    ensures
        left@.contains(pane) <==> ids@.contains(pane) && !kept@.contains(pane),
        crate::workspace::all_panes(workspace.windows@).contains(pane) ==> held@.contains(pane),
{
    crate::laws::layout::law_the_others_are_left(ids@, kept@, pane);
    let shown = crate::workspace::all_panes(workspace.windows@);
    if shown.contains(pane) {
        let i = shown.index_of(pane);
        assert(held@[i] == pane);
    }
}

/// The rows that a link underlines, and whether two links or places are the same.
pub proof fn law_links_are_told_apart(
    hit: &LinkHit,
    other: &LinkHit,
    same: bool,
    link: &HoveredLink,
    next: &HoveredLink,
    alike: bool,
)
    requires
        call_ensures(LinkHit::same, (hit, other), same),
        call_ensures(HoveredLink::same, (link, next), alike),
    ensures
        hit.pane != other.pane || hit.generation != other.generation || hit.point != other.point
            || hit.viewport_offset != other.viewport_offset ==> !same,
        link.pane != next.pane || link.uri@ != next.uri@ || link.bounds@.len() != next.bounds@.len()
            ==> !alike,
        link.pane == next.pane && link.uri@ == next.uri@ && link.bounds@.len() == 0
            && next.bounds@.len() == 0 ==> alike,
{
}

/// A queue takes input directly while nothing waits, and gives its oldest packet first.
pub proof fn law_queues_give_their_oldest_packet(
    queue: &InputQueue,
    bytes: &Vec<u8>,
    direct: bool,
    front: Option<&Vec<u8>>,
)
    requires
        call_ensures(InputQueue::writes_directly, (queue, bytes), direct),
        call_ensures(InputQueue::front, (queue,), front),
    ensures
        direct <==> bytes@.len() > 0 && queue.packets@.len() == 0,
        queue.packets@.len() == 0 ==> front is None,
        queue.packets@.len() > 0 ==> front is Some && *front->0 == queue.packets@[0],
{
}

/// Only a full queue is told to the user; a session that failed tells of itself.
pub proof fn law_full_queues_are_told(full: Option<String>, failed: Option<String>)
    requires
        call_ensures(InputError::message, (InputError::Full,), full),
        call_ensures(InputError::message, (InputError::Session,), failed),
    ensures
        failed is None,
        full is Some && full->0@
            == "Input queue is full. Wait for the command to read its input."@,
{
}

/// The standard palette has its named colours, its cube and its greys.
pub proof fn law_the_standard_palette_is_whole(
    palette: Vec<Rgb>,
    red: int,
    green: int,
    blue: int,
    grey: int,
)
    requires
        call_ensures(standard_palette, (), palette),
        0 <= red < 6,
        0 <= green < 6,
        0 <= blue < 6,
        0 <= grey < 24,
    ensures
        palette@.len() == 256,
        palette@[0] == (Rgb { r: 0, g: 0, b: 0 }),
        palette@[15] == (Rgb { r: 255, g: 255, b: 255 }),
        ({
            let color = palette@[16 + 36 * red + 6 * green + blue];
            &&& color.r == if red == 0 {
                0
            } else {
                55 + 40 * red
            }
            &&& color.g == if green == 0 {
                0
            } else {
                55 + 40 * green
            }
            &&& color.b == if blue == 0 {
                0
            } else {
                55 + 40 * blue
            }
        }),
        palette@[232 + grey].r == 8 + 10 * grey,
{
    crate::laws::painting::law_the_palette_goes_on_with_a_cube_and_greys(red, green, blue, grey);
    crate::laws::painting::law_the_palette_begins_with_the_named_colours(7);
    crate::laws::painting::law_the_palette_begins_with_the_named_colours(0);
}

/// What is remembered is undone first, and what was undone can be redone.
pub proof fn law_histories_give_their_last_layout<W>(
    layout: W,
    replaced: W,
    timeout: u64,
    now: Instant,
    redo: bool,
    taken: Option<W>,
)
    requires
        timeout > 0,
        now.nanos + timeout <= u64::MAX,
    ensures
        forall|history: &mut History<W>|
            #![trigger call_ensures(History::<W>::remember, (history, layout, timeout, now), ())]
            history.undo@.len() < 50 && call_ensures(
                History::<W>::remember,
                (history, layout, timeout, now),
                (),
            ) ==> {
                let after = *final(history);
                &&& after.undo@.len() == history.undo@.len() + 1 && after.redo@.len() == 0
                &&& after.undo@.last().layout == layout
                &&& after.undo@.last().expires.nanos == now.nanos + timeout
            },
        forall|history: &mut History<W>|
            #![trigger call_ensures(History::<W>::put_back, (history, redo, replaced, timeout, now), ())]
            call_ensures(History::<W>::put_back, (history, redo, replaced, timeout, now), ()) ==> {
                let after = *final(history);
                &&& redo ==> after.undo@.last().layout == replaced && after.redo@ == history.redo@
                &&& !redo ==> after.redo@.last().layout == replaced && after.undo@ == history.undo@
            },
{
    assert forall|history: &mut History<W>|
        #![trigger call_ensures(History::<W>::remember, (history, layout, timeout, now), ())]
        history.undo@.len() < 50 && call_ensures(
            History::<W>::remember,
            (history, layout, timeout, now),
            (),
        ) implies {
        let after = *final(history);
        &&& after.undo@.len() == history.undo@.len() + 1 && after.redo@.len() == 0
        &&& after.undo@.last().layout == layout
        &&& after.undo@.last().expires.nanos == now.nanos + timeout
    } by {
        let model = (*final(history))@;
        assert(model.undo == final(history).undo@ && model.redo == final(history).redo@);
        assert((*history)@.undo == history.undo@);
    }
    assert forall|history: &mut History<W>|
        #![trigger call_ensures(History::<W>::put_back, (history, redo, replaced, timeout, now), ())]
        call_ensures(History::<W>::put_back, (history, redo, replaced, timeout, now), ()) implies {
        let after = *final(history);
        &&& redo ==> after.undo@.last().layout == replaced && after.redo@ == history.redo@
        &&& !redo ==> after.redo@.last().layout == replaced && after.undo@ == history.undo@
    } by {
        let model = (*final(history))@;
        assert(model.undo == final(history).undo@ && model.redo == final(history).redo@);
        assert((*history)@.undo == history.undo@ && (*history)@.redo == history.redo@);
    }
}

/// The events of a window are counted as what they are, and the user's input is told.
pub proof fn law_events_are_told_apart(
    event: NativeEvent,
    happening: (Happening, bool),
    index: usize,
    name: &'static str,
)
    requires
        call_ensures(NativeEvent::happening, (event,), happening),
        call_ensures(Happening::index, (happening.0,), index),
        call_ensures(Happening::name, (happening.0,), name),
    ensures
        index < 14,
        happening.0 == Happening::UserInput <==> name@ == "user-input"@,
        event == NativeEvent::MouseButton || event == NativeEvent::MouseWheel || event
            == NativeEvent::Touch ==> happening == (Happening::UserInput, true),
        event == NativeEvent::Redraw ==> name@ == "redraw"@ && !happening.1,
        event == NativeEvent::Resized ==> name@ == "resize"@ && !happening.1,
        event == NativeEvent::Focused ==> name@ == "focus"@ && !happening.1,
        event == NativeEvent::Ime ==> name@ == "ime"@ && !happening.1,
        event == NativeEvent::Occluded ==> name@ == "occlusion"@ && !happening.1,
        event == NativeEvent::CursorLeft ==> name@ == "cursor-left"@ && !happening.1,
        event == (NativeEvent::CursorMoved { changed: true }) ==> name@ == "cursor-moved"@
            && happening.1,
        event == (NativeEvent::CursorMoved { changed: false }) ==> name@ == "cursor-unchanged"@
            && !happening.1,
{
    reveal_strlit("pty-output");
    reveal_strlit("egui-stale");
    reveal_strlit("egui-immediate");
    reveal_strlit("egui-delayed");
    reveal_strlit("cursor-moved");
    reveal_strlit("cursor-unchanged");
    reveal_strlit("cursor-left");
    reveal_strlit("user-input");
    reveal_strlit("redraw");
    reveal_strlit("resize");
    reveal_strlit("focus");
    reveal_strlit("ime");
    reveal_strlit("occlusion");
    reveal_strlit("other-window-event");
    assert("user-input"@.len() == 10 && "user-input"@[0] == 'u');
    assert("pty-output"@[0] == 'p' && "egui-stale"@[0] == 'e');
}

/// A step of the check remembers the pane that it closes and those it watches, and counts its events
/// anew where it begins to watch.
pub proof fn law_steps_remember_what_they_watch(seen: Observation, step: SmokeStep)
    requires
        seen.now.nanos + 3_000_000_000 <= u64::MAX,
    ensures
        forall|smoke: &mut Smoke|
            #![trigger call_ensures(Smoke::step, (smoke, seen), step)]
            call_ensures(Smoke::step, (smoke, seen), step) ==> {
                let after = *final(smoke);
                &&& step == SmokeStep::Act(SmokeAction::Close) ==> after.closed == Some(
                    (seen.pane, seen.pane_started),
                )
                &&& step != SmokeStep::Act(SmokeAction::Close) ==> after.closed == smoke.closed
                &&& step == SmokeStep::Act(SmokeAction::Type) ==> after.original == Some(seen.pane)
                &&& step == SmokeStep::Act(SmokeAction::Inspect) ==> after.progress_pane == Some(
                    seen.pane,
                ) && after.progress_started == seen.now && after.idle_frames == seen.frames
                &&& step == SmokeStep::Act(SmokeAction::MaskTitles) || step == SmokeStep::Act(
                    SmokeAction::EndTitles,
                ) ==> after.idle_frames == seen.frames
                &&& step == SmokeStep::Act(SmokeAction::ShowTitles) ==> after.header_frames
                    == seen.frames && after.header_prepares == seen.prepares
                &&& step == SmokeStep::Act(SmokeAction::SendTitles) ==> after.active_title_frames
                    == seen.frames && after.active_title_prepares == seen.prepares && (forall|
                    i: int,
                |
                    0 <= i < 14 ==> #[trigger] after.events@[i] == 0)
                &&& step == SmokeStep::Act(SmokeAction::EndTitles) ==> (forall|i: int|
                    0 <= i < 14 ==> #[trigger] after.events@[i] == 0)
                &&& step is Fail || step is Passed ==> after.stage == smoke.stage && after.next
                    == smoke.next && after.idle_frames == smoke.idle_frames
                &&& after.deadline == smoke.deadline && after.pointer == smoke.pointer
                &&& smoke.stage == Stage::Greeting && seen.frames > 0 && seen.greeted
                    && seen.wide_cell ==> step == SmokeStep::Act(SmokeAction::Type) && after.stage
                    == Stage::Echo
            },
{
}

/// Characters are cut, joined, written and read as they stand.
pub proof fn law_texts_are_cut_as_they_stand(
    text: &str,
    chars: Vec<char>,
    slice: &[char],
    from: usize,
    to: usize,
    part: String,
    prefix: &str,
    rest: Option<String>,
    c: Option<char>,
)
    requires
        call_ensures(to_chars, (text,), chars),
        from <= to <= slice@.len(),
        call_ensures(from_chars, (slice, from, to), part),
        call_ensures(strip_prefix, (text, prefix), rest),
        call_ensures(first_char, (text,), c),
    ensures
        chars@ == text@,
        part@.len() == to - from,
        forall|i: int| 0 <= i < to - from ==> #[trigger] part@[i] == slice@[from + i],
        rest matches Some(rest) ==> text@ == prefix@ + rest@,
        text@.len() > 0 ==> c == Some(text@[0]),
        text@.len() == 0 ==> c is None,
{
    crate::laws::data::law_prefixes_are_cut_off(prefix@, Seq::empty(), text@);
    if rest is Some {
        assert(crate::text::after_prefix(text@, prefix@) == Some(rest->0@));
    }
}

/// Masks and pictures are turned into straight pixels, and mapped ones are read pixel by pixel.
pub proof fn law_pixels_are_read_one_by_one(
    pixels: &Vec<u8>,
    white: Vec<u8>,
    mapped: &[u8],
    stride: u32,
    width: u32,
    bgra: bool,
    taken: Vec<u8>,
    row: int,
    col: int,
    pixel: int,
)
    requires
        call_ensures(to_straight, (BitmapFormat::Alpha, pixels), white),
        0 <= pixel < pixels@.len(),
        stride > 0,
        width * 4 <= stride,
        call_ensures(read_pixels, (mapped, stride, width, bgra), taken),
        0 <= row < mapped@.len() as int / stride as int,
        0 <= col < width,
    ensures
        white@[4 * pixel] == 255 && white@[4 * pixel + 3] == pixels@[pixel],
        ({
            let to = 4 * (row * width + col);
            let from = row * stride + 4 * col;
            &&& taken@[to + 1] == mapped@[from + 1] && taken@[to + 3] == mapped@[from + 3]
            &&& !bgra ==> taken@[to] == mapped@[from] && taken@[to + 2] == mapped@[from + 2]
            &&& bgra ==> taken@[to] == mapped@[from + 2] && taken@[to + 2] == mapped@[from]
        }),
{
    crate::laws::data::law_pictures_become_straight_pixel_by_pixel(pixels@, pixel, 0);
    crate::laws::data::law_pixels_stand_at_their_row_and_column(
        mapped@,
        stride as int,
        width as int,
        mapped@.len() as int / stride as int,
        bgra,
        row,
        col,
    );
}

/// The first deadline is the earliest of those there are.
pub proof fn law_the_earliest_deadline_is_given(
    deadlines: &Vec<Option<Instant>>,
    first: Option<Instant>,
    i: int,
)
    requires
        call_ensures(earliest, (deadlines,), first),
        0 <= i < deadlines@.len(),
        deadlines@[i] is Some,
    ensures
        first is Some && first->0.nanos <= deadlines@[i]->0.nanos,
        deadlines@.contains(first),
{
    crate::laws::timing::law_the_first_deadline_is_the_earliest(deadlines@);
}

/// A configured colour is itself, or the cell's.
pub proof fn law_configured_colours_are_resolved(
    color: ConfigColor,
    foreground: Rgb,
    background: Rgb,
    resolved: Rgb,
)
    requires
        call_ensures(ConfigColor::resolve, (color, foreground, background), resolved),
    ensures
        color == ConfigColor::CellForeground ==> resolved == foreground,
        color == ConfigColor::CellBackground ==> resolved == background,
        color matches ConfigColor::Rgb(own) ==> resolved == own,
{
}

/// A directory goes by the last component of its path.
pub proof fn law_directories_are_named(
    path: &str,
    name: Option<String>,
    before: Seq<char>,
    last: Seq<char>,
)
    requires
        call_ensures(directory_name, (path,), name),
        path@ == before + last,
        before.len() == 0 || before.last() == '/',
        last.len() > 0,
        !last.contains('/'),
        last != seq!['.'],
        last != seq!['.', '.'],
    ensures
        name is Some && name->0@ == last,
{
    crate::laws::timing::law_directories_go_by_their_last_component(before, last);
}

/// The lines of a cell, the cursor and the selection are those that the screen and the style ask
/// for.
pub proof fn law_rows_are_asked_for_their_marks(
    cell: &Cell,
    paint: CellPaint,
    options: &RenderOptions,
    lines: Option<Decoration>,
    screen: &Screen,
    row: usize,
    shown: bool,
    span: Option<Span>,
)
    requires
        call_ensures(decoration, (cell, paint, options), lines),
        call_ensures(Screen::cursor_on, (screen, options, row), shown),
        call_ensures(Screen::selection_span, (screen,), span),
    ensures
        lines is Some <==> cell.width > 0 && !cell.style.invisible && (cell.style.blink
            ==> options.blink_visible),
        lines matches Some(lines) ==> lines.underline == cell.style.underline && lines.strikethrough
            == cell.style.strikethrough && lines.overline == cell.style.overline && lines.color
            == paint.foreground,
        lines matches Some(lines) ==> cell.style.underline_color == TerminalColor::Default
            ==> lines.underline_color == paint.foreground,
        shown ==> row == screen.cursor.row && screen.cursor.visible && options.cursor_visible
            && screen.viewport_offset == 0,
        row == screen.cursor.row && screen.cursor.visible && options.cursor_visible
            && screen.viewport_offset == 0 && !options.focused ==> shown,
        screen.selection is None ==> span is None,
{
}

/// A selection covers a cell exactly if the cell lies between its ends.
pub proof fn law_spans_hold_what_lies_between(
    screen: &Screen,
    span: Span,
    row: usize,
    col: usize,
    inside: bool,
    first: int,
    last: int,
)
    requires
        screen.wf(),
        screen.selection is Some,
        0 <= first < screen.rows@.len(),
        0 <= last < screen.rows@.len(),
        screen.rows@[first].id == screen.selection->0.start.row,
        screen.rows@[last].id == screen.selection->0.end.row,
        call_ensures(Screen::selection_span, (screen,), Some(span)),
        call_ensures(Span::contains, (&span, row, col), inside),
    ensures
        ({
            let selection = screen.selection->0;
            let a = (first, selection.start.col as int);
            let b = (last, selection.end.col as int);
            let here = (row as int, col as int);
            &&& !selection.rectangular ==> (inside <==> in_order(a, here, b) || in_order(b, here, a))
            &&& selection.rectangular ==> (inside <==> (first <= row <= last || last <= row
                <= first) && (a.1 <= col <= b.1 || b.1 <= col <= a.1))
        }),
{
    crate::laws::painting::law_selections_cover_what_lies_between_their_ends(
        *screen,
        first,
        last,
        row,
        col,
    );
}

/// A row is split into items that say what their cells hold, and draw each cell that has text once.
pub proof fn law_rows_are_split_faithfully(
    row: &Row,
    paints: &Vec<CellPaint>,
    text_cols: usize,
    options: &RenderOptions,
    items: Vec<RowItem>,
    k: int,
    col: usize,
)
    requires
        text_cols <= row.cells@.len(),
        call_ensures(split_row, (row, paints, text_cols, options), items),
        0 <= k < items@.len(),
    ensures
        is_faithful(row.cells@, paints@, text_cols as int, options.blink_visible, items@[k]@),
        drawn_columns(item_models(items@)).contains(col) <==> col < text_cols && has_text(
            row.cells@[col as int],
            options.blink_visible,
        ),
{
    crate::laws::text::law_items_say_what_their_cells_hold(
        row.cells@,
        paints@,
        text_cols as int,
        options.blink_visible,
        k,
    );
    crate::laws::text::law_text_is_drawn_where_it_stands(
        row.cells@,
        paints@,
        text_cols as int,
        options.blink_visible,
        col,
    );
    assert(item_models(items@)[k] == items@[k]@);
}

/// Numbers are written behind a text in decimal, with a minus where they are below zero, and read
/// as they were written.
pub proof fn law_numbers_are_written_and_read(
    value: u64,
    signed: i32,
    chars: &[char],
    from: usize,
    max: u32,
    number: Option<u32>,
)
    requires
        from <= chars@.len(),
        call_ensures(parse_unsigned, (chars, from, max), number),
    ensures
        forall|text: &mut String|
            #![trigger call_ensures(push_decimal, (text, value), ())]
            call_ensures(push_decimal, (text, value), ()) ==> final(text)@ == text@ + decimal(
                value as int,
            ),
        forall|text: &mut String|
            #![trigger call_ensures(push_signed, (text, signed), ())]
            call_ensures(push_signed, (text, signed), ()) ==> final(text)@ == text@ + if signed < 0 {
                seq!['-'] + decimal(-(signed as int))
            } else {
                decimal(signed as int)
            },
        value <= max && chars@.skip(from as int) == decimal(value as int) ==> number is Some
            && number->0 == value,
        number is Some ==> number->0 <= max,
{
    crate::laws::data::law_written_numbers_are_read(value as int, max as int);
}

/// A font feature is set as it is written.
pub proof fn law_font_features_are_set(
    feature: &str,
    setting: Option<FontFeature>,
    tag: Seq<char>,
    value: int,
)
    requires
        call_ensures(font_feature, (feature,), setting),
        tag.len() > 0,
        tag[0] != '-',
        tag[0] != '+',
        !tag.contains('='),
        encode_utf8(tag).len() == 4,
        0 <= value <= u32::MAX,
    ensures
        feature@ == tag || feature@ == seq!['+'] + tag ==> setting is Some && setting->0.tag@
            == encode_utf8(tag) && setting->0.value == 1,
        feature@ == seq!['-'] + tag ==> setting is Some && setting->0.tag@ == encode_utf8(tag)
            && setting->0.value == 0,
        feature@ == tag + seq!['='] + decimal(value) ==> setting is Some && setting->0.tag@
            == encode_utf8(tag) && setting->0.value == value,
{
    crate::laws::data::law_font_features_are_switched_by_their_sign(tag, value);
}

/// A directory that a program reports is an absolute path, plain ones as they are.
pub proof fn law_directories_are_reported_whole(value: &str, directory: Option<String>)
    requires
        call_ensures(directory_from_osc, (value,), directory),
    ensures
        directory is Some ==> directory->0@.len() > 0 && directory->0@[0] == '/'
            && !directory->0@.contains('\0'),
        value@.len() > 0 && value@[0] == '/' && !value@.contains('\0') ==> directory is Some
            && directory->0@ == value@,
        value@.len() == 0 ==> directory is None,
{
    reveal_strlit("file://");
    if crate::text::has_prefix(value@, "file://"@) {
        assert("file://"@[0] == 'f');
        assert(value@.subrange(0, "file://"@.len() as int)[0] == value@[0]);
    }
}

/// Undo and redo give the last layout that has not expired, each from its own list.
pub proof fn law_histories_are_taken_from_the_end<W>(now: Instant, taken: Option<W>)
    ensures
        forall|history: &mut History<W>|
            #![trigger call_ensures(History::<W>::take, (history, false, now), taken)]
            history.undo@.len() > 0 && history.undo@.last().expires.nanos > now.nanos
                && call_ensures(History::<W>::take, (history, false, now), taken) ==> taken == Some(
                history.undo@.last().layout,
            ),
        forall|history: &mut History<W>|
            #![trigger call_ensures(History::<W>::take, (history, true, now), taken)]
            history.redo@.len() > 0 && history.redo@.last().expires.nanos > now.nanos
                && call_ensures(History::<W>::take, (history, true, now), taken) ==> taken == Some(
                history.redo@.last().layout,
            ),
        forall|history: &mut History<W>, redo: bool|
            #![trigger call_ensures(History::<W>::take, (history, redo, now), taken)]
            call_ensures(History::<W>::take, (history, redo, now), taken) && (if redo {
                history.redo@.len() == 0
            } else {
                history.undo@.len() == 0
            }) ==> taken is None,
{
    assert forall|history: &mut History<W>|
        #![trigger call_ensures(History::<W>::take, (history, false, now), taken)]
        history.undo@.len() > 0 && history.undo@.last().expires.nanos > now.nanos && call_ensures(
            History::<W>::take,
            (history, false, now),
            taken,
        ) implies taken == Some(history.undo@.last().layout) by {
        assert((*history)@.undo == history.undo@);
        assert((*history)@.at(now).undo.last() == history.undo@.last());
    }
    assert forall|history: &mut History<W>|
        #![trigger call_ensures(History::<W>::take, (history, true, now), taken)]
        history.redo@.len() > 0 && history.redo@.last().expires.nanos > now.nanos && call_ensures(
            History::<W>::take,
            (history, true, now),
            taken,
        ) implies taken == Some(history.redo@.last().layout) by {
        assert((*history)@.redo == history.redo@);
        assert((*history)@.at(now).redo.last() == history.redo@.last());
    }
    assert forall|history: &mut History<W>, redo: bool|
        #![trigger call_ensures(History::<W>::take, (history, redo, now), taken)]
        call_ensures(History::<W>::take, (history, redo, now), taken) && (if redo {
            history.redo@.len() == 0
        } else {
            history.undo@.len() == 0
        }) implies taken is None by {
        assert((*history)@.undo == history.undo@ && (*history)@.redo == history.redo@);
        assert(redo ==> (*history)@.at(now).redo.len() == 0);
        assert(!redo ==> (*history)@.at(now).undo.len() == 0);
    }
}

/// A link is underlined on each of its visible rows.
pub proof fn law_links_are_underlined_row_by_row(
    screen: &Screen,
    start: GridPoint,
    end: GridPoint,
    spans: Vec<LinkSpan>,
    first: int,
    last: int,
    row: int,
)
    requires
        screen.wf(),
        call_ensures(link_bounds, (screen, start, end), spans),
        visible_row(*screen, start.row) == Some(first),
        visible_row(*screen, end.row) == Some(last),
        first <= row <= last,
        end.col <= usize::MAX - 255,
    ensures
        spans@.len() == last - first + 1,
        spans@[row - first].row == row,
        row == first ==> spans@[row - first].left == start.col,
        row > first ==> spans@[row - first].left == 0,
{
    crate::laws::pointer::law_links_are_underlined_throughout(
        *screen,
        start,
        end,
        first,
        last,
        row,
    );
}

/// The pointer shows how a divider is dragged before anything else.
pub proof fn law_dividers_shape_the_pointer(
    host: &Host,
    divider: Divider,
    cursor: Option<PointerCursor>,
)
    requires
        call_ensures(Host::choose_pointer, (host, Some(divider), None, false), cursor),
        host.divider_drag is None,
        !host.palette && !host.popup_open && !host.messages_open && !host.layout_picker,
        host.confirm is None && host.clipboard_requests@.len() == 0 && host.peek is None,
        crate::host::first_hit(host.search_rects@, host.mouse) is None,
    ensures
        divider.axis == Axis::Horizontal ==> cursor is Some && cursor->0 is ColResize,
        divider.axis == Axis::Vertical ==> cursor is Some && cursor->0 is RowResize,
{
}

/// Errors are told in words of their own.
pub proof fn law_errors_are_told_in_words(
    generation: String,
    revision: String,
    clip: String,
    full: String,
    font: String,
    reason: String,
)
    requires
        call_ensures(ComposeError::message, (ComposeError::GenerationChanged,), generation),
        call_ensures(ComposeError::message, (ComposeError::ConflictingAtlasRevision,), revision),
        call_ensures(ComposeError::message, (ComposeError::InvalidClip,), clip),
        call_ensures(RenderError::message, (&RenderError::AtlasCapacity,), full),
        call_ensures(RenderError::message, (&RenderError::Font(reason),), font),
    ensures
        generation@ == "pane frames belong to different atlas generations"@,
        revision@ == "pane frames contain conflicting atlas revisions"@,
        clip@ == "invalid pane origin or clipping rectangle"@,
        full@ == "visible terminal glyphs exceed the 64 MiB atlas budget"@,
        font@ == reason@,
{
}

/// A key's text is its own character, and that of five named keys.
pub proof fn law_key_texts_are_their_characters(
    text: String,
    own: Option<String>,
    other: Option<String>,
)
    requires
        call_ensures(Key::to_text, (&Key::Character(text),), own),
        call_ensures(Key::to_text, (&Key::Other,), other),
    ensures
        own is Some && own->0@ == text@,
        other is None,
{
}

/// A prepared pane is used again only for the same contents, generation and look.
pub proof fn law_prepared_panes_are_used_again<F>(
    key: &PaneRenderKey,
    generation: u64,
    serves: bool,
)
    ensures
        forall|pane: &mut PreparedPane<F>|
            #![trigger call_ensures(PreparedPane::<F>::matches, (pane, key, generation), serves)]
            call_ensures(PreparedPane::<F>::matches, (pane, key, generation), serves) ==> {
                &&& serves ==> pane.frame_generation == generation && pane.key.generation
                    == key.generation && pane.key.selection == key.selection && pane.key.cursor
                    == key.cursor && pane.key.viewport_offset == key.viewport_offset
                &&& serves ==> pane.key.options.foreground == key.options.foreground
                    && pane.key.options.background == key.options.background
                &&& serves && pane.blinking_text ==> pane.key.options.blink_visible
                    == key.options.blink_visible
                &&& final(pane).frame == pane.frame && final(pane).frame_generation
                    == pane.frame_generation
            },
{
}

/// The panes on show are those of the tabs in front of windows that are up and uncovered.
pub proof fn law_panes_on_show_are_found<L>(
    workspace: &Workspace<L>,
    natives: &Vec<NativeWindow>,
    visible: HashSet<Id>,
    pane: Id,
    n: int,
    w: int,
)
    requires
        workspace.wf(),
        call_ensures(visible_panes, (workspace, natives), visible),
        0 <= n < natives@.len(),
        0 <= w < workspace.windows@.len(),
        workspace.windows@[w].id == natives@[n].id,
        forall|j: int| 0 <= j < w ==> (#[trigger] workspace.windows@[j]).id != natives@[n].id,
        natives@[n].state.visible,
        !natives@[n].state.occluded,
        !natives@[n].state.peek,
    ensures
        ({
            let tab = workspace.windows@[w].tabs@[workspace.windows@[w].active_tab as int];
            &&& tab.visible@.contains(pane) ==> visible@.contains(pane)
            &&& natives@.len() == 1 && !tab.visible@.contains(pane) ==> !visible@.contains(pane)
        }),
{
    crate::laws::layout::law_panes_show_in_uncovered_windows(*workspace, natives@, pane, n, w);
}

/// A frame that is composed holds the quads of all its layers, bottom first, and fails as its first
/// layer that cannot be composed.
pub proof fn law_composed_frames_hold_their_layers<G, C>(
    size: [u32; 2],
    layers: Vec<Layer<G, C>>,
    result: Result<Frame<G, C>, ComposeError>,
)
    requires
        call_ensures(compose, (size, layers), result),
    ensures
        result matches Ok(frame) ==> frame.size == size && composed(layers@) is Ok && frame.quads@
            == composed(layers@)->Ok_0.quads && frame.blinking_text == composed(
            layers@,
        )->Ok_0.blinking_text && frame.ime_cursor == composed(layers@)->Ok_0.ime_cursor,
        result is Err <==> composed(layers@) is Err,
        layers@.len() == 0 ==> result is Ok && result->Ok_0.quads@.len() == 0,
        layers@.len() > 0 && !layers@[0].clip_valid && layers@.len() == 1 ==> result
            == Err::<Frame<G, C>, ComposeError>(ComposeError::InvalidClip),
{
    if layers@.len() == 1 {
        assert(layers@.drop_last() =~= Seq::<Layer<G, C>>::empty());
        assert(layers@.last() == layers@[0]);
        assert(composed(layers@.drop_last()) is Ok);
    }
}

/// The offset to a row brings that row to the top where it lies in the history.
pub proof fn law_offsets_lead_to_their_row(
    screen: &Screen,
    index: int,
    col: usize,
    offset: Option<usize>,
)
    requires
        screen.wf(),
        0 <= index < screen.rows@.len(),
        call_ensures(
            Screen::offset_to,
            (screen, GridPoint { row: screen.rows@[index].id, col }),
            offset,
        ),
    ensures
        offset is Some,
        index < screen.history_len ==> screen.history_len - offset->0 == index,
        index >= screen.history_len ==> offset->0 == 0,
{
    crate::laws::finding::law_revealed_rows_come_to_the_top(*screen, index, col);
}

/// Updates of two frames go together unless one revision stands for two different ones.
pub proof fn law_updates_go_together(
    own: &Vec<AtlasUpload>,
    other: &Vec<AtlasUpload>,
    uploads: Option<Vec<AtlasUpload>>,
    i: int,
    j: int,
)
    requires
        call_ensures(merge_uploads, (own, other), uploads),
        own@.len() == 1,
        other@.len() == 1,
    ensures
        own@[0].revision == other@[0].revision && own@[0]@ != other@[0]@ ==> uploads is None,
        own@[0].revision != other@[0].revision || own@[0]@ == other@[0]@ ==> uploads is Some,
        uploads matches Some(all) ==> 0 <= i < j < all@.len() ==> all@[i].revision
            < all@[j].revision,
{
    reveal_with_fuel(crate::frame::by_revision, 3);
    reveal_with_fuel(crate::frame::merged, 3);
    assert(own@.drop_last() =~= Seq::<AtlasUpload>::empty());
    assert(other@.drop_last() =~= Seq::<AtlasUpload>::empty());
    assert(own@.last() == own@[0] && other@.last() == other@[0]);
}

} // verus!
