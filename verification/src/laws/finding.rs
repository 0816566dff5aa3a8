//! Where the viewport goes and what Find shows.
use crate::actions::Action;
use crate::laws::painting::in_order;
use crate::screen::{GridPoint, Row, Screen, Selection};
use crate::search::{
    in_match, match_counter, match_highlights, overlay_action, viewport_highlights, FindAction,
    Match, OverlayInput, Pin, RefreshPlan, Search,
};
use crate::text::decimal;
use crate::viewport::{prompt_above, prompt_below, prompt_target, ViewportStep};
use vstd::prelude::*;

verus! {

/// The prompt above is the nearest one, and the next but one is the nearest above that.
pub proof fn law_prompts_above_follow_each_other(rows: Seq<Row>, from: int, number: int)
    requires
        0 <= from <= rows.len(),
        number >= 1,
    ensures
        prompt_above(rows, from, 1) matches Some(at) ==> 0 <= at < from && rows[at].prompt && forall|
            i: int,
        |
            at < i < from ==> !(#[trigger] rows[i]).prompt,
        prompt_above(rows, from, 1) is None ==> forall|i: int|
            0 <= i < from ==> !(#[trigger] rows[i]).prompt,
        prompt_above(rows, from, number + 1) == match prompt_above(rows, from, number) {
            Some(at) => prompt_above(rows, at, 1),
            None => None,
        },
    decreases from,
{
    if from > 0 {
        law_prompts_above_follow_each_other(rows, from - 1, number);
        if rows[from - 1].prompt && number > 1 {
            law_prompts_above_follow_each_other(rows, from - 1, number - 1);
        }
    }
}

/// The prompt below is the nearest one, and the next but one is the nearest below that.
pub proof fn law_prompts_below_follow_each_other(rows: Seq<Row>, from: int, number: int)
    requires
        0 <= from <= rows.len(),
        number >= 1,
    ensures
        prompt_below(rows, from, 1) matches Some(at) ==> from <= at < rows.len() && rows[at].prompt
            && forall|i: int| from <= i < at ==> !(#[trigger] rows[i]).prompt,
        prompt_below(rows, from, 1) is None ==> forall|i: int|
            from <= i < rows.len() ==> !(#[trigger] rows[i]).prompt,
        prompt_below(rows, from, number + 1) == match prompt_below(rows, from, number) {
            Some(at) => prompt_below(rows, at + 1, 1),
            None => None,
        },
    decreases rows.len() - from,
{
    if from < rows.len() {
        law_prompts_below_follow_each_other(rows, from + 1, number);
        if rows[from].prompt && number > 1 {
            law_prompts_below_follow_each_other(rows, from + 1, number - 1);
        }
    }
}

/// A jump goes up by a negative number of prompts from the top of the viewport and down by a
/// positive one, never to the top itself; zero goes nowhere.
pub proof fn law_jumps_count_from_the_top(screen: Screen, number: int)
    requires
        screen.wf(),
        number >= 1,
    ensures
        ({
            let top = screen.history_len - screen.viewport_offset;
            &&& prompt_target(screen, 0) is None
            &&& prompt_target(screen, -number) == prompt_above(screen.rows@, top, number)
            &&& prompt_target(screen, number) == prompt_below(screen.rows@, top + 1, number)
        }),
{
}

/// A row that is revealed is the first one shown where it lies in the history, and shows on the
/// active screen otherwise; a row that is gone is not revealed.
pub proof fn law_revealed_rows_come_to_the_top(screen: Screen, index: int, col: usize)
    requires
        screen.wf(),
        0 <= index < screen.rows@.len(),
    ensures
        ({
            let offset = screen.reveal_offset(GridPoint { row: screen.rows@[index].id, col });
            &&& offset is Some
            &&& 0 <= offset->0 <= screen.history_len
            &&& index < screen.history_len ==> screen.history_len - offset->0 == index
            &&& index >= screen.history_len ==> offset->0 == 0
        }),
{
    let id = screen.rows@[index].id;
    assert(crate::screen::is_row(screen.rows@, id, index));
    let found = screen.index_of(id)->0;
    assert(crate::screen::is_row(screen.rows@, id, found));
    assert(found == index);
}

/// The viewport goes to the two ends of the screen and by whole screens; to the selection and to
/// prompts where they are, and nowhere by other actions.
pub proof fn law_the_viewport_goes_where_it_is_told(screen: &Screen, action: &Action, step: ViewportStep)
    requires
        screen.wf(),
        screen.rows@.len() - screen.history_len <= isize::MAX,
        call_ensures(Screen::move_viewport, (screen, action), step),
    ensures
        *action is ScrollToTop ==> step == ViewportStep::To(screen.history_len),
        *action is ScrollToBottom ==> step == ViewportStep::To(0),
        *action is ScrollPageUp ==> step is By && step->By_0 == screen.rows@.len()
            - screen.history_len,
        *action is ScrollPageDown ==> step is By && -(step->By_0 as int) == screen.rows@.len()
            - screen.history_len,
        *action is ScrollToSelection && screen.selection is None ==> step == ViewportStep::Stay,
        *action is ScrollToSelection && screen.selection is Some ==> match screen.reveal_offset(
            screen.selection->0.start,
        ) {
            Some(offset) => step is To && step->To_0 == offset,
            None => step == ViewportStep::Stay,
        },
        *action matches Action::JumpToPrompt(number) ==> match prompt_target(
            *screen,
            number as int,
        ) {
            Some(target) => step is To && step->To_0 == if target < screen.history_len {
                screen.history_len - target
            } else {
                0
            },
            None => step == ViewportStep::Stay,
        },
        !(*action is ScrollToTop) && !(*action is ScrollToBottom) && !(*action is ScrollPageUp) && !(
        *action is ScrollPageDown) && !(*action is ScrollToSelection) && !(*action is JumpToPrompt)
            ==> step == ViewportStep::Stay,
{
    if let Action::JumpToPrompt(number) = *action {
        if let Some(target) = prompt_target(*screen, number as int) {
            lemma_target(*screen, number as int);
        }
    }
    if let Some(selection) = screen.selection {
        if screen.reveal_offset(selection.start) is Some {
            let found = screen.index_of(selection.start.row)->0;
            assert(crate::screen::is_row(screen.rows@, selection.start.row, found));
        }
    }
}

proof fn lemma_target(screen: Screen, number: int)
    requires
        screen.wf(),
    ensures
        prompt_target(screen, number) matches Some(at) ==> 0 <= at < screen.rows@.len(),
{
    let top = screen.history_len - screen.viewport_offset;
    if number < 0 {
        lemma_above(screen.rows@, top, -number);
    } else {
        lemma_below(screen.rows@, top + 1, number);
    }
}

proof fn lemma_above(rows: Seq<Row>, from: int, number: int)
    ensures
        prompt_above(rows, from, number) matches Some(at) ==> 0 <= at < rows.len(),
    decreases from,
{
    if 0 < from <= rows.len() {
        lemma_above(rows, from - 1, number);
        lemma_above(rows, from - 1, number - 1);
    }
}

proof fn lemma_below(rows: Seq<Row>, from: int, number: int)
    ensures
        prompt_below(rows, from, number) matches Some(at) ==> 0 <= at < rows.len(),
    decreases rows.len() - from,
{
    if 0 <= from < rows.len() {
        lemma_below(rows, from + 1, number);
        lemma_below(rows, from + 1, number - 1);
    }
}

/// Selecting all takes every cell from the first of the history to the last of the screen.
pub proof fn law_all_is_selected(screen: &Screen, selection: Selection)
    requires
        screen.wf(),
        call_ensures(Screen::select_all, (screen,), selection),
    ensures
        !selection.rectangular,
        selection.start.row == screen.rows@[0].id && selection.start.col == 0,
        selection.end.row == screen.rows@[screen.rows@.len() - 1].id,
        selection.end.col + 1 == screen.rows@[screen.rows@.len() - 1].cells@.len(),
{
    let last = screen.rows@[screen.rows@.len() - 1];
    assert(last.cells.len() == last.cells@.len());
    assert(last.cells@.len() > 0);
}

/// A selection is held while both of its rows are there.
pub proof fn law_selections_hold_while_their_rows_do(
    screen: &Screen,
    selection: Option<Selection>,
    holds: bool,
    first: int,
    last: int,
)
    requires
        screen.wf(),
        call_ensures(Screen::holds_selection, (screen, selection), holds),
    ensures
        selection is None ==> holds,
        selection is Some && 0 <= first < screen.rows@.len() && 0 <= last < screen.rows@.len()
            && screen.rows@[first].id == selection->0.start.row && screen.rows@[last].id
            == selection->0.end.row ==> holds,
        selection is Some && holds ==> (exists|i: int|
            0 <= i < screen.rows@.len() && (#[trigger] screen.rows@[i]).id
                == selection->0.start.row) && exists|i: int|
            0 <= i < screen.rows@.len() && (#[trigger] screen.rows@[i]).id == selection->0.end.row,
{
    if let Some(selection) = selection {
        if 0 <= first < screen.rows@.len() && screen.rows@[first].id == selection.start.row {
            assert(crate::screen::is_row(screen.rows@, selection.start.row, first));
        }
        if 0 <= last < screen.rows@.len() && screen.rows@[last].id == selection.end.row {
            assert(crate::screen::is_row(screen.rows@, selection.end.row, last));
        }
        if holds {
            let i = screen.index_of(selection.start.row)->0;
            let j = screen.index_of(selection.end.row)->0;
            assert(crate::screen::is_row(screen.rows@, selection.start.row, i));
            assert(crate::screen::is_row(screen.rows@, selection.end.row, j));
            assert(screen.rows@[i].id == selection.start.row);
            assert(screen.rows@[j].id == selection.end.row);
        }
    }
}

/// The cells of a match are those between its ends in reading order, whichever end comes first.
pub proof fn law_matches_cover_what_lies_between_their_ends(
    screen: Screen,
    found: Match,
    first: int,
    last: int,
    row: usize,
    col: usize,
)
    requires
        screen.wf(),
        0 <= first < screen.rows@.len(),
        0 <= last < screen.rows@.len(),
        screen.rows@[first].id == found.start.row,
        screen.rows@[last].id == found.end.row,
    ensures
        ({
            let a = (first, found.start.col as int);
            let b = (last, found.end.col as int);
            let here = (row as int, col as int);
            in_match(screen, found, row, col) <==> in_order(a, here, b) || in_order(b, here, a)
        }),
{
    lemma_rows(screen, found, first, last);
}

proof fn lemma_rows(screen: Screen, found: Match, first: int, last: int)
    requires
        screen.wf(),
        0 <= first < screen.rows@.len(),
        0 <= last < screen.rows@.len(),
        screen.rows@[first].id == found.start.row,
        screen.rows@[last].id == found.end.row,
    ensures
        screen.index_of(found.start.row) == Some(first),
        screen.index_of(found.end.row) == Some(last),
        screen.rows@.len() <= usize::MAX,
{
    assert(screen.rows.len() == screen.rows@.len());
    assert(crate::screen::is_row(screen.rows@, found.start.row, first));
    assert(crate::screen::is_row(screen.rows@, found.end.row, last));
    let i = screen.index_of(found.start.row)->0;
    let j = screen.index_of(found.end.row)->0;
    assert(crate::screen::is_row(screen.rows@, found.start.row, i));
    assert(crate::screen::is_row(screen.rows@, found.end.row, j));
    assert(i == first && j == last);
}

/// A match has one highlight on each visible row from its first to its last: from its start on the
/// first, from the left edge on the others, to its end on the last, and to the right edge on the
/// others.
pub proof fn law_matches_have_one_highlight_per_row(
    screen: Screen,
    found: Match,
    selected: bool,
    first: int,
    last: int,
    row: int,
)
    requires
        screen.wf(),
        0 <= first <= last < screen.rows@.len(),
        screen.rows@[first].id == found.start.row,
        screen.rows@[last].id == found.end.row,
        first == last ==> found.start.col <= found.end.col,
        first <= row <= last,
        screen.history_len - screen.viewport_offset <= row,
        row < screen.rows@.len() - screen.viewport_offset,
    ensures
        ({
            let top = screen.history_len - screen.viewport_offset;
            let from = if first >= top {
                first
            } else {
                top
            };
            let highlights = match_highlights(screen, found, selected);
            let highlight = highlights[row - from];
            &&& 0 <= row - from < highlights.len()
            &&& highlight.row == screen.rows@[row].id
            &&& row == first ==> highlight.first == found.start.col
            &&& row > first ==> highlight.first == 0
            &&& row == last ==> highlight.last == found.end.col
            &&& row < last ==> highlight.last + 1 == screen.rows@[row].cells@.len()
            &&& highlight.selected == selected
        }),
{
    lemma_rows(screen, found, first, last);
    assert(screen.rows@[row].cells.len() == screen.rows@[row].cells@.len());
    assert(screen.rows@[row].cells@.len() > 0);
}

/// The selected match is highlighted as such behind all others, and a match that has scrolled out
/// of the screen's memory is not highlighted.
pub proof fn law_the_selected_match_comes_last(
    screen: Screen,
    found: Seq<Match>,
    selected: Match,
)
    ensures
        ({
            let without = viewport_highlights(screen, found, None);
            let with = viewport_highlights(screen, found, Some(selected));
            let own = match_highlights(screen, selected, true);
            &&& with.len() == without.len() + own.len()
            &&& forall|i: int| 0 <= i < without.len() ==> #[trigger] with[i] == without[i]
            &&& forall|i: int|
                0 <= i < own.len() ==> #[trigger] own[i] == with[without.len() + i]
        }),
        screen.index_of(selected.start.row) is None || screen.index_of(selected.end.row) is None
            ==> match_highlights(screen, selected, true).len() == 0,
{
}

/// The search is run anew when the query or the contents changed.
pub proof fn law_changes_refresh_the_search(
    search: &Search,
    changed: bool,
    generation: u64,
    needed: bool,
    viewport_offset: usize,
    current: bool,
)
    requires
        call_ensures(Search::needs_refresh, (search, changed, generation), needed),
        call_ensures(Search::is_current, (search, viewport_offset), current),
    ensures
        changed ==> needed,
        search.generation is None ==> needed,
        search.generation matches Some(seen) ==> !changed ==> (needed <==> seen != generation),
        current <==> search.highlight_viewport is Some && search.highlight_viewport->0
            == viewport_offset,
{
}

/// A refreshed search knows its contents and draws its highlights anew; a new query selects its
/// next match.
pub proof fn law_refreshed_searches_are_drawn_anew(
    changed: bool,
    highlighted: bool,
    generation: u64,
    plan: RefreshPlan,
)
    ensures
        forall|search: &mut Search|
            #![trigger call_ensures(Search::refreshed, (search, changed, highlighted, generation), plan)]
            call_ensures(Search::refreshed, (search, changed, highlighted, generation), plan) ==> {
                let after = *final(search);
                &&& after.generation == Some(generation)
                &&& after.highlight_viewport is None
                &&& plan.select_next <==> changed
                &&& changed || highlighted ==> plan.highlight_selected
                &&& !changed && !highlighted ==> !plan.highlight_selected
                &&& after.query == search.query && after.highlight == search.highlight
            },
        forall|search: &mut Search|
            #![trigger call_ensures(Search::navigate, (search,), ())]
            call_ensures(Search::navigate, (search,), ()) ==> final(search).highlight_viewport
                is None && final(search).query == search.query && final(search).generation
                == search.generation,
{
}

/// Highlights are drawn once for each place of the viewport.
pub proof fn law_highlights_are_drawn_once_per_place(
    screen: &Screen,
    found: &Vec<Match>,
    selected: Option<Match>,
)
    ensures
        forall|search: &mut Search|
            #![trigger call_ensures(Search::highlights, (search, screen, found, selected), ())]
            call_ensures(Search::highlights, (search, screen, found, selected), ()) ==> {
                let after = *final(search);
                &&& after.highlight_viewport == Some(screen.viewport_offset)
                &&& search.highlight_viewport == Some(screen.viewport_offset) ==> after == *search
                &&& search.highlight_viewport != Some(screen.viewport_offset)
                    ==> after.render_highlights@ == viewport_highlights(*screen, found@, selected)
                &&& after.query == search.query && after.generation == search.generation
            },
{
}

/// Leaving a match takes its selection away, but not one that the user made since.
pub proof fn law_only_the_matchs_own_selection_goes(
    start: Option<GridPoint>,
    end: Option<GridPoint>,
    highlighted: bool,
)
    ensures
        forall|search: &mut Search, selection: &mut Option<Selection>|
            #![trigger call_ensures(Search::clear_highlight, (search, start, end, selection), highlighted)]
            call_ensures(Search::clear_highlight, (search, start, end, selection), highlighted)
                ==> {
                let own = *selection is Some && start is Some && end is Some
                    && (*selection)->0.start == start->0 && (*selection)->0.end == end->0
                    && !(*selection)->0.rectangular;
                &&& highlighted <==> search.highlight is Some && own
                &&& highlighted ==> *final(selection) is None
                &&& !highlighted ==> *final(selection) == *selection
                &&& final(search).highlight is None
                &&& final(search).query == search.query && final(search).generation
                    == search.generation
            },
{
}

/// A selected match becomes the selection, in lines, and is remembered by its pins; without one
/// nothing changes.
pub proof fn law_selected_matches_are_selected(found: Option<Match>, pins: (Pin, Pin))
    ensures
        forall|search: &mut Search, selection: &mut Option<Selection>|
            #![trigger call_ensures(Search::highlight_selected, (search, found, pins, selection), ())]
            call_ensures(Search::highlight_selected, (search, found, pins, selection), ()) ==> {
                &&& found is None ==> *final(search) == *search && *final(selection) == *selection
                &&& found matches Some(found) ==> {
                    &&& final(search).highlight == Some(pins)
                    &&& *final(selection) is Some
                    &&& (*final(selection))->0.start == found.start
                    &&& (*final(selection))->0.end == found.end
                    &&& !(*final(selection))->0.rectangular
                }
            },
{
}

/// Closing comes before moving on, and clicks before keys; Shift with Enter goes back where there
/// is something to find.
pub proof fn law_find_does_what_was_clicked(input: OverlayInput, action: Option<FindAction>)
    requires
        call_ensures(overlay_action, (input,), action),
    ensures
        input.close_clicked <==> action == Some(FindAction::End),
        !input.close_clicked && input.previous_clicked ==> action == Some(
            FindAction::Navigate { next: false },
        ),
        action == Some(FindAction::Navigate { next: true }) <==> input.next_clicked
            && !input.close_clicked && !input.previous_clicked,
        !input.close_clicked && !input.previous_clicked && !input.next_clicked ==> if input.enabled
            && input.shift_enter {
            action == Some(FindAction::Navigate { next: false })
        } else {
            action is None
        },
{
}

/// Matches are counted from one; without a selected one the count stands at zero.
pub proof fn law_matches_are_counted_from_one(selected: Option<usize>, total: usize, label: String)
    requires
        selected is Some ==> selected->0 < usize::MAX,
        call_ensures(match_counter, (selected, total), label),
    ensures
        selected is None ==> label@ == decimal(0) + "/"@ + decimal(total as int),
        selected matches Some(index) ==> label@ == decimal(index + 1) + "/"@ + decimal(
            total as int,
        ),
{
    reveal_strlit("/");
    assert("/"@ =~= seq!['/']);
}

} // verus!
