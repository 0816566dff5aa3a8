//! What the pointer does: selecting, links, scrolling and the shape that it takes.
use crate::geometry::{Pos, Rect, Scalar};
use crate::host::{first_hit, Axis, Divider, Host, HoveredLink, MouseAction, MouseButton};
use crate::input::SelectionDrag;
use crate::mouse::{
    cell_under, cursor_key, link_column, link_point, link_spans, repeated, same_links, scroll_count,
    scroll_step, visible_row, LinkConditions, LinkHit, MouseRoute, PointerContext, PointerCursor,
    PointerModel, ScrollModes, ScrollStep, SelectStep,
};
use crate::presentation::Id;
use crate::screen::{GridPoint, Screen};
use vstd::prelude::*;

verus! {

/// Whenever the pointer extends the selection, the new one runs from the anchor of the drag to the
/// cell under the pointer, and is rectangular if and only if Alt is held.
pub proof fn law_drags_extend_the_selection(
    host: Host,
    action: MouseAction,
    button: Option<MouseButton>,
    pane: Id,
    point: GridPoint,
    links: bool,
)
    ensures
        host.select_step(action, button, pane, point, links) matches SelectStep::Extend(selection)
            ==> {
            &&& action == MouseAction::Move
            &&& host.mouse_button == Some(MouseButton::Left)
            &&& host.selection_drag is Some
            &&& selection.start == host.selection_drag->0.anchor
            &&& selection.end == point
            &&& selection.rectangular <==> host.modifiers.state.alt
        },
{
}

/// A drag with the left button extends the selection once the pointer has left the place where the
/// drag began, and not before.
pub proof fn law_drags_begin_with_a_movement(
    host: Host,
    button: Option<MouseButton>,
    pane: Id,
    point: GridPoint,
    links: bool,
    drag: SelectionDrag,
)
    requires
        host.mouse_button == Some(MouseButton::Left),
        host.selection_drag == Some(drag),
    ensures
        ({
            let step = host.select_step(MouseAction::Move, button, pane, point, links);
            &&& step is Extend || step is Nothing
            &&& step is Nothing <==> drag.position.x.equals(host.mouse.x)
                && drag.position.y.equals(host.mouse.y)
        }),
{
}

/// A press of the left button begins a selection, unless Super is held where links open: then it
/// opens a link, which is there if the pointer hovers one of the same pane.
pub proof fn law_presses_select_or_open(
    host: Host,
    pane: Id,
    point: GridPoint,
    links: bool,
)
    ensures
        ({
            let step = host.select_step(
                MouseAction::Press,
                Some(MouseButton::Left),
                pane,
                point,
                links,
            );
            &&& !links || !host.modifiers.state.super_key ==> step == SelectStep::Begin
            &&& links && host.modifiers.state.super_key ==> step is OpenLink
            &&& step matches SelectStep::OpenLink { matches } ==> (matches <==> host.hovered_link
                is Some && host.hovered_link->0.pane == pane)
        }),
{
}

/// A release ends a drag that is there; other buttons, and movements without a drag, select
/// nothing.
pub proof fn law_releases_end_the_drag(
    host: Host,
    action: MouseAction,
    button: Option<MouseButton>,
    pane: Id,
    point: GridPoint,
    links: bool,
)
    ensures
        ({
            let step = host.select_step(action, button, pane, point, links);
            &&& step == SelectStep::Finish <==> action == MouseAction::Release
                && host.selection_drag is Some
            &&& action == MouseAction::Press && button != Some(MouseButton::Left) ==> step
                == SelectStep::Nothing
            &&& action != MouseAction::Press && host.selection_drag is None ==> step
                == SelectStep::Nothing
            &&& action == MouseAction::Move && host.mouse_button != Some(MouseButton::Left) ==> step
                == SelectStep::Nothing
        }),
{
}

/// A divider that is dragged takes every event, and follows movements alone.
pub proof fn law_dragged_dividers_take_all_events(
    host: Host,
    action: MouseAction,
    button: Option<MouseButton>,
    context: PointerContext,
    divider: Divider,
)
    requires
        host.divider_drag == Some(divider),
    ensures
        host.mouse_route(action, button, context) == (MouseRoute::Divide {
            divider,
            follows: action == MouseAction::Move,
        }),
{
}

/// What lies under the user interface gets no event. A free divider is grabbed by the left button
/// and takes nothing else.
pub proof fn law_the_interface_and_dividers_come_first(
    host: Host,
    action: MouseAction,
    button: Option<MouseButton>,
    context: PointerContext,
)
    requires
        host.divider_drag is None,
    ensures
        ({
            let route = host.mouse_route(action, button, context);
            let modal = host.palette || host.popup_open || host.messages_open || host.layout_picker
                || host.confirm is Some || host.clipboard_requests@.len() > 0;
            let left = action == MouseAction::Press && button == Some(MouseButton::Left);
            &&& context.over_ui ==> route == MouseRoute::Nothing
            &&& !context.over_ui && context.divider is Some && host.peek is None && !modal ==> if left {
                route == MouseRoute::Grab
            } else {
                route == MouseRoute::Nothing
            }
            &&& route == MouseRoute::Grab ==> left && context.divider is Some && host.peek is None
                && !modal && !context.over_ui
            &&& !(route is Divide)
        }),
{
}

/// A peek hands no event to a pane: a press of the left button chooses the quadrant under the
/// pointer, and nothing else is done.
pub proof fn law_peeks_choose_quadrants(
    host: Host,
    action: MouseAction,
    button: Option<MouseButton>,
    context: PointerContext,
)
    requires
        host.peek is Some,
        host.divider_drag is None,
        !context.over_ui,
    ensures
        ({
            let route = host.mouse_route(action, button, context);
            let left = action == MouseAction::Press && button == Some(MouseButton::Left);
            &&& left && host.pane_under_pointer() is Some && context.quadrant is Some ==> route
                == MouseRoute::PeekAt(context.quadrant->0)
            &&& !(left && host.pane_under_pointer() is Some && context.quadrant is Some) ==> route
                == MouseRoute::Nothing
        }),
{
}

/// A press goes to the pane under the pointer, and focuses it unless it turns the wheel; a turn of
/// the wheel goes there too; other events go to the focused pane while a button is held or the
/// pointer is over a pane.
pub proof fn law_presses_go_to_the_pane_under_the_pointer(
    host: Host,
    action: MouseAction,
    button: Option<MouseButton>,
    context: PointerContext,
)
    requires
        host.peek is None,
        host.divider_drag is None,
        !context.over_ui,
        context.divider is None,
    ensures
        ({
            let route = host.mouse_route(action, button, context);
            let under = host.pane_under_pointer();
            let wheel = button == Some(MouseButton::WheelUp) || button == Some(
                MouseButton::WheelDown,
            ) || button == Some(MouseButton::WheelLeft) || button == Some(MouseButton::WheelRight);
            &&& wheel && under is Some ==> route == (MouseRoute::Pane {
                pane: under->0,
                focus: false,
            })
            &&& wheel && under is None ==> route == MouseRoute::Nothing
            &&& action == MouseAction::Press && !wheel && under is Some ==> route == (
            MouseRoute::Pane { pane: under->0, focus: true })
            &&& action == MouseAction::Press && under is None ==> route == MouseRoute::Nothing
            &&& action != MouseAction::Press && !wheel && (under is Some || host.mouse_button
                is Some) && context.focused is Some ==> route == (MouseRoute::Pane {
                pane: context.focused->0,
                focus: false,
            })
            &&& action != MouseAction::Press && under is None && host.mouse_button is None ==> route
                == MouseRoute::Nothing
            &&& context.focused is None && action != MouseAction::Press && !wheel ==> route
                == MouseRoute::Nothing
        }),
{
}

/// A press is a click exactly if it does not turn the wheel and nothing modal is open.
pub proof fn law_clicks_are_presses_of_buttons(
    host: Host,
    action: MouseAction,
    button: Option<MouseButton>,
)
    ensures
        host.clicks(action, button) ==> action == MouseAction::Press && button != Some(
            MouseButton::WheelUp,
        ) && button != Some(MouseButton::WheelDown) && button != Some(MouseButton::WheelLeft)
            && button != Some(MouseButton::WheelRight),
        host.clicks(action, button) ==> !host.palette && !host.popup_open && !host.messages_open
            && !host.layout_picker && host.confirm is None && host.clipboard_requests@.len() == 0,
        !host.palette && !host.popup_open && !host.messages_open && !host.layout_picker
            && host.confirm is None && host.clipboard_requests@.len() == 0 && action
            == MouseAction::Press && (button is None || button == Some(MouseButton::Left) || button
            == Some(MouseButton::Middle) || button == Some(MouseButton::Right)) ==> host.clicks(
            action,
            button,
        ),
{
}

/// A scroll is reported once for each row, in either direction alike, up to a limit.
pub proof fn law_scrolls_count_their_rows(rows: int)
    ensures
        scroll_count(rows) == scroll_count(-rows),
        0 <= rows <= 128 ==> scroll_count(rows) == rows,
        rows > 128 ==> scroll_count(rows) == 128,
{
}

/// The key of a scroll is an arrow's: the escape, then an O for an application and a bracket
/// otherwise, then A upward and B downward.
pub proof fn law_scroll_keys_are_arrows(up: bool, application: bool)
    ensures
        cursor_key(up, application).len() == 3,
        cursor_key(up, application)[0] == 27,
        cursor_key(up, application)[1] == if application {
            79u8
        } else {
            91u8
        },
        cursor_key(up, application)[2] == if up {
            65u8
        } else {
            66u8
        },
{
}

/// Repeating a sequence of bytes gives that many copies of it, one behind the other.
pub proof fn law_repeated_bytes_are_copies(bytes: Seq<u8>, count: int, copy: int, i: int)
    requires
        0 <= copy < count,
        0 <= i < bytes.len(),
    ensures
        repeated(bytes, count).len() == count * bytes.len(),
        repeated(bytes, count)[copy * bytes.len() + i] == bytes[i],
    decreases count,
{
    lemma_repeated_length(bytes, count);
    lemma_repeated_length(bytes, count - 1);
    let n = bytes.len() as int;
    assert(copy * n + i < (copy + 1) * n) by (nonlinear_arith)
        requires
            i < n,
    ;
    if copy < count - 1 {
        assert((copy + 1) * n <= (count - 1) * n) by (nonlinear_arith)
            requires
                copy < count - 1,
                0 <= n,
        ;
        assert(0 <= copy * n) by (nonlinear_arith)
            requires
                0 <= copy,
                0 <= n,
        ;
        law_repeated_bytes_are_copies(bytes, count - 1, copy, i);
    }
}

proof fn lemma_repeated_length(bytes: Seq<u8>, count: int)
    requires
        count >= 0,
    ensures
        repeated(bytes, count).len() == count * bytes.len(),
    decreases count,
{
    if count > 0 {
        lemma_repeated_length(bytes, count - 1);
        let n = bytes.len() as int;
        assert((count - 1) * n + n == count * n) by (nonlinear_arith);
    } else {
        assert(0 * bytes.len() == 0);
    }
}

/// Scrolling sends keys exactly on the alternate screen of a program that asked for them and takes
/// no mouse reports.
pub proof fn law_scrolls_send_keys_to_full_screen_programs(modes: ScrollModes)
    ensures
        modes.sends_keys() ==> modes.alternate_screen && modes.alternate_scroll && !modes.reporting
            && modes.mouse_mode == 0,
        modes.alternate_screen && modes.alternate_scroll && !modes.reporting && modes.mouse_mode
            == 0 ==> modes.sends_keys(),
{
}

/// The pane under a position is one whose rectangle the position lies in, edges included, and the
/// first such; there is one exactly if some rectangle holds the position.
pub proof fn law_hits_lie_in_their_rectangle(rects: Seq<(Id, Rect)>, position: Pos, i: int)
    requires
        0 <= i < rects.len(),
        rects[i].1.min.x.at_most(position.x),
        position.x.at_most(rects[i].1.max.x),
        rects[i].1.min.y.at_most(position.y),
        position.y.at_most(rects[i].1.max.y),
        forall|j: int| 0 <= j < i ==> !(#[trigger] rects[j]).1.encloses(position),
    ensures
        first_hit(rects, position) == Some(rects[i].0),
    decreases rects.len(),
{
    if i > 0 {
        assert(!rects[0].1.encloses(position));
        let rest = rects.drop_first();
        assert forall|j: int| 0 <= j < i - 1 implies !(#[trigger] rest[j]).1.encloses(position) by {
            assert(rest[j] == rects[j + 1]);
        }
        law_hits_lie_in_their_rectangle(rest, position, i - 1);
    }
}

/// Where no rectangle holds the position there is no hit.
pub proof fn law_positions_outside_hit_nothing(rects: Seq<(Id, Rect)>, position: Pos)
    requires
        forall|i: int|
            0 <= i < rects.len() ==> !((#[trigger] rects[i]).1.min.x.at_most(position.x)
                && position.x.at_most(rects[i].1.max.x) && rects[i].1.min.y.at_most(position.y)
                && position.y.at_most(rects[i].1.max.y)),
    ensures
        first_hit(rects, position) is None,
    decreases rects.len(),
{
    if rects.len() > 0 {
        let rest = rects.drop_first();
        assert forall|i: int| 0 <= i < rest.len() implies !((#[trigger] rest[i]).1.min.x.at_most(
            position.x,
        ) && position.x.at_most(rest[i].1.max.x) && rest[i].1.min.y.at_most(position.y)
            && position.y.at_most(rest[i].1.max.y)) by {
            assert(rest[i] == rects[i + 1]);
        }
        assert(!(rects[0].1.min.x.at_most(position.x) && position.x.at_most(rects[0].1.max.x)
            && rects[0].1.min.y.at_most(position.y) && position.y.at_most(rects[0].1.max.y)));
        law_positions_outside_hit_nothing(rest, position);
    }
}

/// Positive numbers are ordered as their bits are, negative ones the other way round, and below
/// them; the two zeros are equal, and what is no number is not even equal to itself.
pub proof fn law_scalars_are_ordered_as_numbers(a: Scalar, b: Scalar)
    ensures
        ({
            let nan = |x: Scalar| (0x7f80_0000 < x.bits < 0x8000_0000) || 0xff80_0000 < x.bits;
            &&& nan(a) || nan(b) ==> !a.at_most(b) && !a.equals(b)
            &&& !nan(a) && !nan(b) ==> a.at_most(b) || b.at_most(a)
            &&& a.equals(b) <==> a.at_most(b) && b.at_most(a)
            &&& !nan(a) && !nan(b) && a.bits < 0x8000_0000 && b.bits < 0x8000_0000 ==> (a.at_most(b)
                <==> a.bits <= b.bits)
            &&& !nan(a) && !nan(b) && a.bits > 0x8000_0000 && b.bits > 0x8000_0000 ==> (a.at_most(b)
                <==> a.bits >= b.bits)
            &&& !nan(a) && !nan(b) && a.bits > 0x8000_0000 && b.bits < 0x8000_0000 ==> a.at_most(b)
                && !b.at_most(a)
            &&& a.bits == 0 && b.bits == 0x8000_0000 ==> a.equals(b) && b.equals(a)
        }),
{
}

/// Two rectangles are the same if their corners are, and two positions if their coordinates are.
pub proof fn law_rectangles_are_compared_by_their_edges(a: Rect, b: Rect)
    ensures
        a.equals(b) <==> a.min.x.equals(b.min.x) && a.min.y.equals(b.min.y) && a.max.x.equals(
            b.max.x,
        ) && a.max.y.equals(b.max.y),
        a.min.equals(b.min) <==> a.min.x.equals(b.min.x) && a.min.y.equals(b.min.y),
{
}

/// No pane lies under a pointer that is outside the window.
pub proof fn law_pointers_outside_are_over_no_pane(host: Host)
    ensures
        !host.pointer_inside ==> host.pane_under_pointer() is None,
        host.pointer_inside ==> host.pane_under_pointer() == first_hit(host.rects@, host.mouse),
{
}

/// A position lies on the terminals exactly on a pane whose drawing did not fail, and on the gaps
/// of the content around the panes.
pub proof fn law_terminals_are_live_panes_and_their_gaps(
    host: Host,
    failed: Seq<Id>,
    position: Pos,
    i: int,
)
    requires
        0 <= i < host.rects@.len(),
        host.rects@[i].1.encloses(position),
    ensures
        !failed.contains(host.rects@[i].0) ==> host.over_terminals(failed, position),
        (forall|j: int|
            0 <= j < host.rects@.len() && (#[trigger] host.rects@[j]).1.encloses(position)
                ==> failed.contains(host.rects@[j].0)) ==> !host.over_terminals(failed, position),
{
    lemma_some_hit(host.rects@, position, i);
}

proof fn lemma_some_hit(rects: Seq<(Id, Rect)>, position: Pos, i: int)
    requires
        0 <= i < rects.len(),
        rects[i].1.encloses(position),
    ensures
        first_hit(rects, position) is Some,
    decreases rects.len(),
{
    if !rects[0].1.encloses(position) {
        assert(rects.drop_first()[i - 1] == rects[i]);
        lemma_some_hit(rects.drop_first(), position, i - 1);
    }
}

/// The gaps between the panes belong to the terminals, what lies outside the content does not.
pub proof fn law_gaps_belong_to_the_terminals(host: Host, failed: Seq<Id>, position: Pos)
    requires
        forall|j: int|
            0 <= j < host.rects@.len() ==> !(#[trigger] host.rects@[j]).1.encloses(position),
    ensures
        host.over_terminals(failed, position) <==> host.content.encloses(position),
{
    law_positions_outside_hit_nothing(host.rects@, position);
}

/// The link of a cell is looked up at the cell itself, and for the second half of a wide character
/// at its first half; outside the screen there is none.
pub proof fn law_links_are_looked_up_at_their_cell(screen: Screen, row: int, col: int)
    requires
        screen.wf(),
    ensures
        link_column(screen, row, col, true) is None,
        row < 0 || row >= screen.height() || col < 0 ==> link_column(screen, row, col, false)
            is None,
        0 <= row < screen.height() ==> {
            let cells = screen.rows@[screen.rows@.len() - screen.height()
                - screen.viewport_offset + row].cells@;
            &&& col >= cells.len() ==> link_column(screen, row, col, false) is None
            &&& 0 <= col < cells.len() && (cells[col].width > 0 || col == 0) ==> link_column(
                screen,
                row,
                col,
                false,
            ) == Some(col)
            &&& 0 < col < cells.len() && cells[col].width == 0 ==> link_column(
                screen,
                row,
                col,
                false,
            ) == Some(col - 1)
        },
{
}

/// A link is underlined on each row from its first to its last: from its start on the first one,
/// from the left edge on the others, to the end of its last character on the last one, and to the
/// right edge on the others.
pub proof fn law_links_are_underlined_throughout(
    screen: Screen,
    start: GridPoint,
    end: GridPoint,
    first: int,
    last: int,
    row: int,
)
    requires
        screen.wf(),
        visible_row(screen, start.row) == Some(first),
        visible_row(screen, end.row) == Some(last),
        first <= row <= last,
        end.col <= usize::MAX - 255,
    ensures
        ({
            let spans = link_spans(screen, start, end);
            let span = spans[row - first];
            let cells = screen.rows@[screen.top() + row].cells@;
            &&& spans.len() == last - first + 1
            &&& span.row == row
            &&& row == first ==> span.left == start.col
            &&& row > first ==> span.left == 0
            &&& row < last && span.left <= cells.len() ==> span.left + span.width == cells.len()
            &&& row == last && span.left <= end.col && end.col < cells.len()
                && cells[end.col as int].width > 1 ==> span.left + span.width == end.col
                + cells[end.col as int].width
            &&& row == last && span.left <= end.col && (end.col >= cells.len()
                || cells[end.col as int].width <= 1) ==> span.left + span.width == end.col + 1
        }),
{
    assert(screen.rows.len() == screen.rows@.len());
    let cells = screen.rows@[screen.top() + row].cells;
    assert(cells.len() == cells@.len());
}

/// A row is visible exactly if it stands on the screen from its top on, and is counted from there.
pub proof fn law_visible_rows_are_counted_from_the_top(screen: Screen, i: int)
    requires
        screen.wf(),
        0 <= i < screen.rows@.len(),
    ensures
        ({
            let first = screen.history_len - screen.viewport_offset;
            let height = screen.rows@.len() - screen.history_len;
            let row = visible_row(screen, screen.rows@[i].id);
            &&& first <= i < first + height ==> row == Some(i - first)
            &&& i < first || i >= first + height ==> row is None
        }),
{
    let id = screen.rows@[i].id;
    assert(crate::screen::is_row(screen.rows@, id, i));
    let j = screen.index_of(id)->0;
    assert(crate::screen::is_row(screen.rows@, id, j));
    assert(i == j);
}

/// A link that has one end off the screen is not underlined.
pub proof fn law_links_off_the_screen_are_not_underlined(
    screen: Screen,
    start: GridPoint,
    end: GridPoint,
)
    requires
        visible_row(screen, start.row) is None || visible_row(screen, end.row) is None,
    ensures
        link_spans(screen, start, end).len() == 0,
{
}

/// The pointer shows how a divider can be dragged, the one in hand before the one below it; then
/// that a link can be followed; then what the program in the pane asks for, where the name is
/// known. Behind dialogs, peeks and Find fields the library has no say.
pub proof fn law_pointers_show_what_can_be_done(
    host: Host,
    divider: Option<Divider>,
    shape: Option<Seq<char>>,
    known: bool,
)
    ensures
        ({
            let pointer = host.pointer(divider, shape, known);
            let modal = host.palette || host.popup_open || host.messages_open || host.layout_picker
                || host.confirm is Some || host.clipboard_requests@.len() > 0;
            let away = modal || host.peek is Some || first_hit(host.search_rects@, host.mouse)
                is Some;
            let over = if host.divider_drag is Some {
                host.divider_drag
            } else {
                divider
            };
            let linked = host.hovered_link is Some && host.pane_under_pointer() == Some(
                host.hovered_link->0.pane,
            );
            &&& away ==> pointer is None
            &&& !away && over is Some && over->0.axis == Axis::Horizontal ==> pointer
                == Some(PointerModel::ColResize)
            &&& !away && over is Some && over->0.axis == Axis::Vertical ==> pointer
                == Some(PointerModel::RowResize)
            &&& !away && over is None && linked ==> pointer == Some(PointerModel::Pointer)
            &&& !away && over is None && !linked && known && shape is Some
                && host.pane_under_pointer() is Some ==> pointer == Some(
                PointerModel::Named(shape->0),
            )
            &&& over is None && !linked && (!known || shape is None || host.pane_under_pointer()
                is None) ==> pointer is None
        }),
{
}

/// Two places of a link are the same only if the pane, its contents, its scroll position, the cell
/// and the geometry are.
pub proof fn law_link_places_are_compared_in_full(a: LinkHit, b: LinkHit)
    ensures
        a.equals(b) ==> a.pane == b.pane && a.generation == b.generation && a.viewport_offset
            == b.viewport_offset && a.point == b.point && a.area.equals(b.area) && a.cell.equals(
            b.cell,
        ),
        a.pane == b.pane && a.generation == b.generation && a.viewport_offset == b.viewport_offset
            && a.point == b.point && a.area.equals(b.area) && a.cell.equals(b.cell) ==> a.equals(b),
{
}

/// Two hovered links are the same exactly if the pane, the address and the underlined rectangles
/// are.
pub proof fn law_links_are_compared_in_full(a: HoveredLink, b: HoveredLink, i: int)
    ensures
        a.equals(b) ==> a.pane == b.pane && a.uri@ == b.uri@ && a.bounds@.len() == b.bounds@.len()
            && (0 <= i < a.bounds@.len() ==> a.bounds@[i].equals(b.bounds@[i])),
        a.pane == b.pane && a.uri@ == b.uri@ && a.bounds@.len() == b.bounds@.len() && (forall|
            j: int,
        |
            0 <= j < a.bounds@.len() ==> (#[trigger] a.bounds@[j]).equals(b.bounds@[j]))
            ==> a.equals(b),
        same_links(None, None),
        !same_links(Some(a), None) && !same_links(None, Some(b)),
        same_links(Some(a), Some(b)) <==> a.equals(b),
{
}

/// A selection that is extended runs from the anchor of the drag to the cell under the pointer, and
/// is rectangular if and only if Alt is held; the drag keeps its anchor, begins at the pressed cell
/// and ends with the release. Nothing else of the window changes.
pub proof fn law_selections_follow_the_drag(
    action: MouseAction,
    button: Option<MouseButton>,
    pane: Id,
    point: GridPoint,
    links: bool,
    step: SelectStep,
)
    ensures
        forall|host: &mut Host|
            #![trigger call_ensures(Host::select, (host, action, button, pane, point, links), step)]
            call_ensures(Host::select, (host, action, button, pane, point, links), step) ==> {
                let after = *final(host);
                &&& step matches SelectStep::Extend(selection) ==> {
                    &&& selection.start == host.selection_drag->0.anchor
                    &&& selection.end == point
                    &&& selection.rectangular <==> host.modifiers.state.alt
                    &&& after.selection_drag is Some
                    &&& after.selection_drag->0.anchor == host.selection_drag->0.anchor
                    &&& after.selection_drag->0.position == host.mouse
                }
                &&& step == SelectStep::Begin ==> after.selection_drag == Some(
                    SelectionDrag { anchor: point, position: host.mouse },
                )
                &&& action == MouseAction::Release ==> after.selection_drag is None
                &&& step is OpenLink ==> after.selection_drag is None
                &&& step == SelectStep::Nothing ==> after == *host
                &&& after == (Host { selection_drag: after.selection_drag, ..*host })
            },
{
}

/// An event that a program took ends a selection's drag; all but quiet movements are painted.
pub proof fn law_reported_events_end_the_drag(action: MouseAction, errors: bool, repaint: bool)
    ensures
        forall|host: &mut Host|
            #![trigger call_ensures(Host::mouse_reported, (host, action, errors), repaint)]
            call_ensures(Host::mouse_reported, (host, action, errors), repaint) ==> {
                &&& final(host).selection_drag is None
                &&& *final(host) == (Host { selection_drag: None, ..*host })
                &&& action == MouseAction::Press || action == MouseAction::Release ==> repaint
                &&& action == MouseAction::Move ==> repaint == errors
            },
{
}

/// Movements are ignored unless the left button drags a selection.
pub proof fn law_movements_without_a_drag_are_ignored(
    host: &Host,
    action: MouseAction,
    ignores: bool,
)
    requires
        call_ensures(Host::ignores_motion, (host, action), ignores),
    ensures
        action != MouseAction::Move ==> !ignores,
        action == MouseAction::Move && host.selection_drag is None ==> ignores,
        host.mouse_button == Some(MouseButton::Left) && host.selection_drag is Some ==> !ignores,
        action == MouseAction::Move && host.mouse_button != Some(MouseButton::Left) ==> ignores,
{
}

/// A click into a Find field brings the keyboard there, a click elsewhere takes it away from all of
/// them unless the user interface lies on top; nothing else does.
pub proof fn law_clicks_choose_the_find_field(
    action: MouseAction,
    button: Option<MouseButton>,
    over_ui: bool,
    pane: Option<Id>,
)
    ensures
        forall|host: &mut Host|
            #![trigger call_ensures(Host::press_find, (host, action, button, over_ui), pane)]
            call_ensures(Host::press_find, (host, action, button, over_ui), pane) ==> {
                let after = *final(host);
                let field = first_hit(host.search_rects@, host.mouse);
                &&& action != MouseAction::Press ==> pane is None && after == *host
                &&& host.clicks(action, button) ==> pane == field
                &&& !host.clicks(action, button) ==> pane is None && after == *host
                &&& pane is Some ==> after.search_focus == pane && after.focus_text_input
                    && after.mouse_button is None && after.selection_drag is None
                &&& pane is None ==> after.mouse_button == host.mouse_button
                    && after.selection_drag == host.selection_drag && after.focus_text_input
                    == host.focus_text_input
                &&& host.clicks(action, button) && field is None && !over_ui
                    ==> after.search_focus is None
                &&& field is None && over_ui ==> after == *host
                &&& after == (Host {
                    search_focus: after.search_focus,
                    focus_text_input: after.focus_text_input,
                    mouse_button: after.mouse_button,
                    selection_drag: after.selection_drag,
                    ..*host
                })
            },
{
}

/// A grabbed divider is held until the next release, a peek turns to the quadrant that was clicked,
/// and nothing else changes.
pub proof fn law_grabbed_dividers_are_held_until_released(
    action: MouseAction,
    button: Option<MouseButton>,
    context: PointerContext,
    route: MouseRoute,
)
    ensures
        forall|host: &mut Host|
            #![trigger call_ensures(Host::route_mouse, (host, action, button, context), route)]
            call_ensures(Host::route_mouse, (host, action, button, context), route) ==> {
                let after = *final(host);
                &&& route == host.mouse_route(action, button, context)
                &&& route == MouseRoute::Grab ==> after.divider_drag == context.divider
                &&& host.divider_drag is Some && action == MouseAction::Release
                    ==> after.divider_drag is None
                &&& host.divider_drag is Some && action != MouseAction::Release
                    ==> after.divider_drag == host.divider_drag
                &&& host.divider_drag is None && route != MouseRoute::Grab
                    ==> after.divider_drag is None
                &&& route matches MouseRoute::PeekAt(target) ==> after.peek is Some
                    && after.peek->0.target == target && after.peek->0 == (crate::host::Peek {
                    target,
                    ..host.peek->0
                })
                &&& !(route is PeekAt) ==> after.peek == host.peek
                &&& after == (Host {
                    divider_drag: after.divider_drag,
                    peek: after.peek,
                    ..*host
                })
            },
{
}

/// The cell under a position is the one whose square holds it; positions behind the last cell are
/// the last one's.
pub proof fn law_positions_lie_in_their_cell(
    x: usize,
    y: usize,
    cell_width: u32,
    cell_height: u32,
    cols: u16,
    rows: u16,
    cell: (usize, usize),
)
    requires
        cell_width > 0,
        cell_height > 0,
        cols > 0,
        rows > 0,
        call_ensures(cell_under, (x, y, cell_width, cell_height, cols, rows), cell),
    ensures
        cell.0 < cols && cell.1 < rows,
        cell.0 * cell_width <= x,
        cell.1 * cell_height <= y,
        x < (cell.0 + 1) * cell_width || cell.0 + 1 == cols,
        y < (cell.1 + 1) * cell_height || cell.1 + 1 == rows,
{
    lemma_bounds(x as int, cell_width as int, cols as int, cell.0 as int);
    lemma_bounds(y as int, cell_height as int, rows as int, cell.1 as int);
}

proof fn lemma_bounds(at: int, size: int, count: int, cell: int)
    requires
        at >= 0,
        size > 0,
        count > 0,
        cell == if at / size <= count - 1 {
            at / size
        } else {
            count - 1
        },
    ensures
        0 <= cell < count,
        cell * size <= at,
        at < (cell + 1) * size || cell + 1 == count,
{
    let q = at / size;
    vstd::arithmetic::div_mod::lemma_fundamental_div_mod(at, size);
    vstd::arithmetic::div_mod::lemma_div_pos_is_pos(at, size);
    assert(q * size <= at < (q + 1) * size) by (nonlinear_arith)
        requires
            at == size * q + at % size,
            0 <= at % size < size,
    ;
    if cell < q {
        assert(cell * size <= q * size) by (nonlinear_arith)
            requires
                cell < q,
                size > 0,
        ;
    }
}

/// A program that takes mouse reports is told of each row, a full-screen one that asked for it gets
/// an arrow key for each, and otherwise the viewport moves. Rows above zero scroll upward.
pub proof fn law_scrolls_reach_the_program_or_the_viewport(
    rows: isize,
    modes: ScrollModes,
    step: ScrollStep,
    copy: int,
)
    requires
        call_ensures(scroll_step, (rows, modes), step),
    ensures
        ({
            let keys = modes.alternate_screen && modes.alternate_scroll && modes.mouse_mode == 0;
            let distance = if rows < 0 {
                -(rows as int)
            } else {
                rows as int
            };
            &&& step is Wheel <==> modes.reporting
            &&& step is Keys <==> !modes.reporting && keys
            &&& step is Viewport <==> !modes.reporting && !keys
            &&& step matches ScrollStep::Wheel { count, up } ==> (up <==> rows > 0) && count <= 128
                && (distance <= 128 ==> count == distance) && (distance > 128 ==> count == 128)
            &&& step matches ScrollStep::Keys { bytes, deselect } ==> {
                &&& deselect <==> rows != 0
                &&& bytes@.len() == 3 * scroll_count(rows as int)
                &&& 0 <= copy < scroll_count(rows as int) ==> {
                    let at = 3 * copy;
                    &&& bytes@[at] == 27
                    &&& modes.application_keys ==> bytes@[at + 1] == 79
                    &&& !modes.application_keys ==> bytes@[at + 1] == 91
                    &&& rows > 0 ==> bytes@[at + 2] == 65
                    &&& rows < 0 ==> bytes@[at + 2] == 66
                }
            }
        }),
{
    if let ScrollStep::Keys { bytes, deselect } = step {
        let key = cursor_key(rows > 0, modes.application_keys);
        let n = scroll_count(rows as int);
        law_scroll_keys_are_arrows(rows > 0, modes.application_keys);
        lemma_repeated_length(key, n);
        assert(key.len() == 3);
        let size = key.len() as int;
        assert(n * size == 3 * n) by (nonlinear_arith)
            requires
                size == 3,
        ;
        if 0 <= copy < n {
            law_repeated_bytes_are_copies(key, n, copy, 0);
            law_repeated_bytes_are_copies(key, n, copy, 1);
            law_repeated_bytes_are_copies(key, n, copy, 2);
            assert(copy * size == 3 * copy) by (nonlinear_arith)
                requires
                    size == 3,
            ;
        }
    }
}

/// Scrolling and dropping reach the pane below, unless something lies on top of it.
pub proof fn law_scrolls_and_drops_reach_the_pane_below(
    host: &Host,
    position: Pos,
    over_ui: bool,
    target: Option<Option<Id>>,
    pane: Option<Id>,
)
    requires
        call_ensures(Host::scroll_target, (host, over_ui), target),
        call_ensures(Host::drop_target, (host, position, over_ui), pane),
    ensures
        ({
            let modal = host.palette || host.popup_open || host.messages_open || host.layout_picker
                || host.confirm is Some || host.clipboard_requests@.len() > 0;
            &&& over_ui || modal ==> target is None && pane is None
            &&& host.peek is Some || host.divider_drag is Some ==> target is None
            &&& !over_ui && !modal ==> pane == first_hit(host.rects@, position)
            &&& !over_ui && !modal && host.peek is None && host.divider_drag is None ==> target
                == Some(host.pane_under_pointer())
        }),
{
}

/// Links are looked for only under the pointer of a user who holds Super, where nothing else takes
/// the pointer.
pub proof fn law_links_are_sought_on_demand(
    host: &Host,
    conditions: LinkConditions,
    seeks: bool,
)
    requires
        call_ensures(Host::seeks_link, (host, conditions), seeks),
    ensures
        seeks ==> host.modifiers.state.super_key,
        seeks ==> conditions.links && conditions.platform,
        seeks ==> !conditions.over_ui && !conditions.on_divider,
        seeks ==> !conditions.reporting && !conditions.synchronized,
        seeks ==> host.peek is None && host.divider_drag is None,
        seeks ==> !host.palette && !host.popup_open && !host.messages_open && !host.layout_picker
            && host.confirm is None && host.clipboard_requests@.len() == 0,
        host.modifiers.state.super_key && conditions.links && conditions.platform
            && !conditions.over_ui && !conditions.on_divider && !conditions.reporting
            && !conditions.synchronized && host.peek is None && host.divider_drag is None
            && !host.palette && !host.popup_open && !host.messages_open && !host.layout_picker
            && host.confirm is None && host.clipboard_requests@.len() == 0 ==> seeks,
{
}

/// A link that was found at a place is known there from then on, until the pointer leaves it.
pub proof fn law_found_links_are_known(
    place: LinkHit,
    link: Option<HoveredLink>,
    changed: bool,
    left: bool,
)
    ensures
        forall|host: &mut Host|
            #![trigger call_ensures(Host::found_link, (host, place, link), changed)]
            call_ensures(Host::found_link, (host, place, link), changed) ==> {
                let after = *final(host);
                &&& after.hovered_link == link
                &&& after.link_hit == Some(place)
                &&& (changed <==> !same_links(host.hovered_link, link))
                &&& after == (Host { hovered_link: link, link_hit: Some(place), ..*host })
            },
        forall|host: &mut Host|
            #![trigger call_ensures(Host::leave_link, (host,), left)]
            call_ensures(Host::leave_link, (host,), left) ==> {
                let after = *final(host);
                &&& after.hovered_link is None && after.link_hit is None
                &&& (left <==> host.hovered_link is Some)
                &&& after == (Host { hovered_link: None, link_hit: None, ..*host })
            },
        forall|host: &Host, other: &LinkHit, known: bool|
            #![trigger call_ensures(Host::knows_link, (host, other), known)]
            call_ensures(Host::knows_link, (host, other), known) ==> (known <==> host.link_hit
                is Some && host.link_hit->0.equals(*other)),
{
}

/// A movement is passive only while nothing is pressed or open and the pointer stays over the
/// terminals.
pub proof fn law_passive_movements_stay_over_the_terminals(
    host: &Host,
    position: Pos,
    failed: &Vec<Id>,
    free: bool,
    passive: bool,
)
    requires
        call_ensures(Host::passive_mouse_motion, (host, position, failed, free), passive),
    ensures
        passive ==> free && host.pointer_inside && host.mouse_button is None,
        passive ==> host.peek is None && host.divider_drag is None,
        passive ==> !host.palette && !host.popup_open && !host.messages_open && !host.layout_picker
            && host.confirm is None && host.clipboard_requests@.len() == 0,
        passive ==> host.over_terminals(failed@, host.mouse) && host.over_terminals(
            failed@,
            position,
        ),
        free && host.pointer_inside && host.mouse_button is None && host.peek is None
            && host.divider_drag is None && !host.palette && !host.popup_open && !host.messages_open
            && !host.layout_picker && host.confirm is None && host.clipboard_requests@.len() == 0
            && host.over_terminals(failed@, host.mouse) && host.over_terminals(failed@, position)
            ==> passive,
{
}

/// A link's cell is named by the ID of its row and the column of its character.
pub proof fn law_links_are_named_by_their_cell(
    screen: &Screen,
    row: usize,
    col: usize,
    spacer: bool,
    point: Option<GridPoint>,
)
    requires
        screen.wf(),
        call_ensures(link_point, (screen, row, col, spacer), point),
    ensures
        spacer ==> point is None,
        row >= screen.rows@.len() - screen.history_len ==> point is None,
        row < screen.rows@.len() - screen.history_len ==> {
            let line = screen.rows@[screen.history_len - screen.viewport_offset + row];
            &&& col >= line.cells@.len() ==> point is None
            &&& !spacer && col < line.cells@.len() ==> point is Some && point->0.row == line.id
                && point->0.col == if line.cells@[col as int].width == 0 && col > 0 {
                col - 1
            } else {
                col as int
            }
        },
{
}

/// The turns of a wheel are its four buttons.
pub proof fn law_wheels_turn_four_ways(button: MouseButton, wheel: bool)
    requires
        call_ensures(MouseButton::is_wheel, (button,), wheel),
    ensures
        wheel <==> button == MouseButton::WheelUp || button == MouseButton::WheelDown || button
            == MouseButton::WheelLeft || button == MouseButton::WheelRight,
{
}

/// The pointers that a program can ask for, by their names in CSS.
pub open spec fn cursor_names() -> Seq<Seq<char>> {
    seq![
        "default"@,
        "context-menu"@,
        "help"@,
        "pointer"@,
        "progress"@,
        "wait"@,
        "cell"@,
        "crosshair"@,
        "text"@,
        "vertical-text"@,
        "alias"@,
        "copy"@,
        "move"@,
        "no-drop"@,
        "not-allowed"@,
        "grab"@,
        "grabbing"@,
        "e-resize"@,
        "n-resize"@,
        "ne-resize"@,
        "nw-resize"@,
        "s-resize"@,
        "se-resize"@,
        "sw-resize"@,
        "w-resize"@,
        "ew-resize"@,
        "ns-resize"@,
        "nesw-resize"@,
        "nwse-resize"@,
        "col-resize"@,
        "row-resize"@,
        "all-scroll"@,
        "zoom-in"@,
        "zoom-out"@,
    ]
}

/// A program's pointer is shown exactly if its name is one of CSS's, where the window has no
/// pointer of its own.
pub proof fn law_pointers_go_by_their_names(
    host: &Host,
    divider: Option<Divider>,
    shape: &str,
    cursor: Option<PointerCursor>,
)
    requires
        call_ensures(Host::pointer_cursor, (host, divider, Some(shape)), cursor),
        !host.is_modal(),
        host.peek is None,
        first_hit(host.search_rects@, host.mouse) is None,
        host.divider_drag is None,
        divider is None,
        host.hovered_link is None,
        host.pane_under_pointer() is Some,
    ensures
        cursor is Some <==> cursor_names().contains(shape@),
        cursor is Some ==> cursor->0 is Named && cursor->0->Named_0@ == shape@,
{
    let names = cursor_names();
    assert(names[0] == "default"@);
    assert(names[1] == "context-menu"@);
    assert(names[2] == "help"@);
    assert(names[3] == "pointer"@);
    assert(names[4] == "progress"@);
    assert(names[5] == "wait"@);
    assert(names[6] == "cell"@);
    assert(names[7] == "crosshair"@);
    assert(names[8] == "text"@);
    assert(names[9] == "vertical-text"@);
    assert(names[10] == "alias"@);
    assert(names[11] == "copy"@);
    assert(names[12] == "move"@);
    assert(names[13] == "no-drop"@);
    assert(names[14] == "not-allowed"@);
    assert(names[15] == "grab"@);
    assert(names[16] == "grabbing"@);
    assert(names[17] == "e-resize"@);
    assert(names[18] == "n-resize"@);
    assert(names[19] == "ne-resize"@);
    assert(names[20] == "nw-resize"@);
    assert(names[21] == "s-resize"@);
    assert(names[22] == "se-resize"@);
    assert(names[23] == "sw-resize"@);
    assert(names[24] == "w-resize"@);
    assert(names[25] == "ew-resize"@);
    assert(names[26] == "ns-resize"@);
    assert(names[27] == "nesw-resize"@);
    assert(names[28] == "nwse-resize"@);
    assert(names[29] == "col-resize"@);
    assert(names[30] == "row-resize"@);
    assert(names[31] == "all-scroll"@);
    assert(names[32] == "zoom-in"@);
    assert(names[33] == "zoom-out"@);
    assert(names.contains(shape@) <==> crate::mouse::is_cursor_name(shape@)) by {
        if names.contains(shape@) {
            let i = names.index_of(shape@);
            assert(0 <= i < 34);
            assert(names[i] == shape@);
        }
    }
    if let Some(PointerCursor::Named(name)) = cursor {
    }
}

} // verus!
