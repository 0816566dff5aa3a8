//! A pane's transient Find state, independent of terminal layout.
use crate::frame::SearchHighlight;
use crate::prepare::precedes;
use crate::screen::{GridPoint, Screen, Selection};
use crate::text::{decimal, push_decimal};
use vstd::prelude::*;

verus! {

/// A place in the terminal's text that follows it through reflow.
pub type Pin = u64;

/// A found text, from its first to its last cell.
#[derive(Clone, Copy, Debug, PartialEq, Eq, Structural)]
pub struct Match {
    pub start: GridPoint,
    pub end: GridPoint,
}

/// The Find state of one pane.
#[derive(Debug)]
pub struct Search {
    pub query: String,
    /// The terminal's generation when its text was last searched.
    pub generation: Option<u64>,
    /// The ends of the selection that Find made.
    pub highlight: Option<(Pin, Pin)>,
    pub render_highlights: Vec<SearchHighlight>,
    /// The viewport to which the highlights were clipped.
    pub highlight_viewport: Option<usize>,
}

/// What a refresh does with the matches once they are found.
#[derive(Clone, Copy, Debug, PartialEq, Eq, Structural)]
pub struct RefreshPlan {
    pub select_next: bool,
    pub highlight_selected: bool,
}

/// A match by row indices, its ends in reading order, if both rows are on the screen.
pub open spec fn match_span(screen: Screen, found: Match) -> Option<(
    (usize, usize),
    (usize, usize),
)> {
    match (screen.index_of(found.start.row), screen.index_of(found.end.row)) {
        (Some(first), Some(last)) => {
            let a = (first as usize, found.start.col);
            let b = (last as usize, found.end.col);
            if precedes(a, b) {
                Some((a, b))
            } else {
                Some((b, a))
            }
        },
        _ => None,
    }
}

/// The part of a match on the row at `index`: rows between its ends are covered whole.
pub open spec fn row_highlight(
    screen: Screen,
    start: (usize, usize),
    end: (usize, usize),
    index: int,
    selected: bool,
) -> SearchHighlight {
    SearchHighlight {
        row: screen.rows@[index].id,
        first: if index == start.0 {
            start.1
        } else {
            0
        },
        last: if index == end.0 {
            end.1
        } else {
            (screen.rows@[index].cells@.len() - 1) as usize
        },
        selected,
    }
}

pub open spec fn greatest(a: int, b: int) -> int {
    if a >= b {
        a
    } else {
        b
    }
}

/// The visible rows of a match, from the top.
pub open spec fn match_highlights(screen: Screen, found: Match, selected: bool) -> Seq<
    SearchHighlight,
> {
    match match_span(screen, found) {
        Some((start, end)) => {
            let first = greatest(start.0 as int, screen.top());
            let last = crate::prepare::least(end.0 as int, screen.top() + screen.height() - 1);
            Seq::new(
                if last >= first {
                    (last - first + 1) as nat
                } else {
                    0
                },
                |i: int| row_highlight(screen, start, end, first + i, selected),
            )
        },
        None => Seq::empty(),
    }
}

/// The visible rows of the matches in their order.
pub open spec fn all_highlights(screen: Screen, found: Seq<Match>) -> Seq<SearchHighlight>
    decreases found.len(),
{
    if found.len() == 0 {
        Seq::empty()
    } else {
        all_highlights(screen, found.drop_last()) + match_highlights(screen, found.last(), false)
    }
}

/// The visible rows of the matches, and again those of the selected one.
pub open spec fn viewport_highlights(
    screen: Screen,
    found: Seq<Match>,
    selected: Option<Match>,
) -> Seq<SearchHighlight> {
    all_highlights(screen, found) + match selected {
        Some(selected) => match_highlights(screen, selected, true),
        None => Seq::empty(),
    }
}

/// The selection that covers a match.
pub open spec fn match_selection(found: Match) -> Selection {
    Selection { start: found.start, end: found.end, rectangular: false }
}

/// Appends the visible rows of one match.
fn push_match(
    highlights: &mut Vec<SearchHighlight>,
    screen: &Screen,
    found: Match,
    selected: bool,
)
    requires
        screen.wf(),
    ensures
        final(highlights)@ == old(highlights)@ + match_highlights(*screen, found, selected),
{
    let ghost before = highlights@;
    let (a, b) = match (screen.position(found.start.row), screen.position(found.end.row)) {
        (Some(first), Some(last)) => ((first, found.start.col), (last, found.end.col)),
        _ => {
            assert(before + Seq::<SearchHighlight>::empty() =~= before);
            return;
        },
    };
    let ordered = a.0 < b.0 || (a.0 == b.0 && a.1 <= b.1);
    let (start, end) = if ordered {
        (a, b)
    } else {
        (b, a)
    };
    assert(screen.rows.len() == screen.rows@.len());
    let top: usize = screen.history_len - screen.viewport_offset;
    let bottom: usize = top + (screen.rows.len() - screen.history_len);
    let first: usize = if start.0 >= top {
        start.0
    } else {
        top
    };
    let behind: usize = if end.0 < bottom {
        end.0 + 1
    } else {
        bottom
    };
    let ghost all = match_highlights(*screen, found, selected);
    let mut index: usize = first;
    assert(highlights@ =~= before + all.take(0));
    while index < behind
        invariant
            screen.wf(),
            match_span(*screen, found) == Some((start, end)),
            all == match_highlights(*screen, found, selected),
            first == greatest(start.0 as int, screen.top()),
            behind == crate::prepare::least(
                end.0 as int,
                screen.top() + screen.height() - 1,
            ) + 1,
            first <= index,
            index <= behind || first > behind,
            index < behind ==> all.len() == behind - first,
            first >= behind ==> all.len() == 0 && index == first,
            behind <= screen.rows@.len(),
            highlights@ == before + all.take(index - first),
        decreases behind - index,
    {
        let row = &screen.rows[index];
        let item = SearchHighlight {
            row: row.id,
            first: if index == start.0 {
                start.1
            } else {
                0
            },
            last: if index == end.0 {
                end.1
            } else {
                row.cells.len() - 1
            },
            selected,
        };
        highlights.push(item);
        assert(item == all[index - first]);
        assert(all.take(index - first).push(item) =~= all.take(index - first + 1));
        index += 1;
        assert(highlights@ =~= before + all.take(index - first));
    }
    assert(all.take(index - first) =~= all);
}

impl Search {
    pub fn new() -> (search: Search)
        ensures
            search.query@.len() == 0,
            search.generation is None,
            search.highlight is None,
            search.render_highlights@.len() == 0,
            search.highlight_viewport is None,
    {
        Search {
            query: String::new(),
            generation: None,
            highlight: None,
            render_highlights: Vec::new(),
            highlight_viewport: None,
        }
    }

    /// The terminal has to be searched: the needle changed, or the text did.
    pub fn needs_refresh(&self, changed: bool, generation: u64) -> (needed: bool)
        ensures
            needed == (changed || self.generation != Some(generation)),
    {
        changed || self.generation != Some(generation)
    }

    /// Notes that the terminal was searched, after its highlight was cleared. A new needle
    /// selects its next match; a highlight that was visible comes back.
    pub fn refreshed(&mut self, changed: bool, highlighted: bool, generation: u64) -> (plan:
        RefreshPlan)
        ensures
            plan.select_next == changed,
            plan.highlight_selected == (changed || highlighted),
            final(self).generation == Some(generation),
            final(self).highlight_viewport is None,
            final(self).query == old(self).query,
            final(self).highlight == old(self).highlight,
            final(self).render_highlights == old(self).render_highlights,
    {
        self.highlight_viewport = None;
        self.generation = Some(generation);
        RefreshPlan { select_next: changed, highlight_selected: changed || highlighted }
    }

    /// Notes that another match is about to be selected, after the highlight was cleared.
    pub fn navigate(&mut self)
        ensures
            final(self).highlight_viewport is None,
            final(self).generation == old(self).generation,
            final(self).query == old(self).query,
            final(self).highlight == old(self).highlight,
            final(self).render_highlights == old(self).render_highlights,
    {
        self.highlight_viewport = None;
    }

    /// Whether the highlights are those of this viewport.
    pub fn is_current(&self, viewport_offset: usize) -> (current: bool)
        ensures
            current == (self.highlight_viewport == Some(viewport_offset)),
    {
        self.highlight_viewport == Some(viewport_offset)
    }

    /// Clips the matches to the viewport, unless that was done since they were found.
    pub fn highlights(&mut self, screen: &Screen, found: &Vec<Match>, selected: Option<Match>)
        requires
            screen.wf(),
        ensures
            old(self).highlight_viewport == Some(screen.viewport_offset) ==> *final(self) == *old(
                self,
            ),
            old(self).highlight_viewport != Some(screen.viewport_offset) ==> {
                &&& final(self).highlight_viewport == Some(screen.viewport_offset)
                &&& final(self).render_highlights@ == viewport_highlights(*screen, found@, selected)
                &&& final(self).query == old(self).query
                &&& final(self).generation == old(self).generation
                &&& final(self).highlight == old(self).highlight
            },
    {
        if self.is_current(screen.viewport_offset) {
            return;
        }
        let mut highlights: Vec<SearchHighlight> = Vec::new();
        let mut i: usize = 0;
        while i < found.len()
            invariant
                screen.wf(),
                i <= found@.len(),
                highlights@ == all_highlights(*screen, found@.take(i as int)),
            decreases found@.len() - i,
        {
            push_match(&mut highlights, screen, found[i], false);
            assert(found@.take(i + 1).drop_last() =~= found@.take(i as int));
            i += 1;
        }
        assert(found@.take(i as int) =~= found@);
        match selected {
            Some(selected) => push_match(&mut highlights, screen, selected, true),
            None => {
                assert(highlights@ + Seq::<SearchHighlight>::empty() =~= highlights@);
            },
        }
        self.highlight_viewport = Some(screen.viewport_offset);
        self.render_highlights = highlights;
    }

    /// The selection between the cells to which the pins lead, if they lead anywhere.
    pub open spec fn pinned(start: Option<GridPoint>, end: Option<GridPoint>) -> Option<Selection> {
        match (start, end) {
            (Some(start), Some(end)) => Some(Selection { start, end, rectangular: false }),
            _ => None,
        }
    }

    /// Clear only the selection that Find owns; a subsequent mouse selection survives. `start`
    /// and `end` are the cells to which the highlight's pins lead, which cannot resolve on
    /// another or a reset screen. Tells whether the selection was Find's.
    pub fn clear_highlight(
        &mut self,
        start: Option<GridPoint>,
        end: Option<GridPoint>,
        selection: &mut Option<Selection>,
    ) -> (highlighted: bool)
        ensures
            highlighted == (old(self).highlight is Some && Search::pinned(start, end) is Some
                && *old(selection) == Search::pinned(start, end)),
            *final(selection) == if highlighted {
                None
            } else {
                *old(selection)
            },
            *final(self) == (Search { highlight: None, ..*old(self) }),
    {
        let owned = self.highlight.is_some();
        self.highlight = None;
        if !owned {
            return false;
        }
        let pinned = match (start, end) {
            (Some(start), Some(end)) => Some(Selection { start, end, rectangular: false }),
            _ => None,
        };
        let highlighted = match (pinned, *selection) {
            (Some(pinned), Some(current)) => pinned == current,
            _ => false,
        };
        if highlighted {
            *selection = None;
        }
        highlighted
    }

    /// Selects the found text, whose ends were pinned.
    pub fn highlight_selected(
        &mut self,
        found: Option<Match>,
        pins: (Pin, Pin),
        selection: &mut Option<Selection>,
    )
        ensures
            found is None ==> *final(self) == *old(self) && *final(selection) == *old(selection),
            found is Some ==> {
                &&& *final(self) == (Search { highlight: Some(pins), ..*old(self) })
                &&& *final(selection) == Some(match_selection(found->0))
            },
    {
        if let Some(found) = found {
            self.highlight = Some(pins);
            *selection = Some(
                Selection { start: found.start, end: found.end, rectangular: false },
            );
        }
    }
}

/// What the Find overlay asks of the application.
#[derive(Clone, Copy, Debug, PartialEq, Eq, Structural)]
pub enum FindAction {
    Navigate { next: bool },
    End,
}

/// What was done to the overlay in one frame.
#[derive(Clone, Copy, Debug)]
pub struct OverlayInput {
    pub enabled: bool,
    /// The field lost its focus to Enter while Shift was held.
    pub shift_enter: bool,
    pub next_clicked: bool,
    pub previous_clicked: bool,
    pub close_clicked: bool,
}

/// Closing outweighs the buttons, and the buttons the keyboard.
pub open spec fn spec_overlay_action(input: OverlayInput) -> Option<FindAction> {
    if input.close_clicked {
        Some(FindAction::End)
    } else if input.previous_clicked {
        Some(FindAction::Navigate { next: false })
    } else if input.next_clicked {
        Some(FindAction::Navigate { next: true })
    } else if input.enabled && input.shift_enter {
        Some(FindAction::Navigate { next: false })
    } else {
        None
    }
}

/// Plain Enter returns focus to the terminal; Shift+Enter stays in Find and goes back a match.
pub fn overlay_action(input: OverlayInput) -> (action: Option<FindAction>)
    ensures
        action == spec_overlay_action(input),
{
    let mut action = None;
    if input.enabled && input.shift_enter {
        action = Some(FindAction::Navigate { next: false });
    }
    if input.next_clicked {
        action = Some(FindAction::Navigate { next: true });
    }
    if input.previous_clicked {
        action = Some(FindAction::Navigate { next: false });
    }
    if input.close_clicked {
        action = Some(FindAction::End);
    }
    action
}

/// The number of the selected match, from one, and of all matches.
pub fn match_counter(selected: Option<usize>, total: usize) -> (label: String)
    requires
        selected is Some ==> selected->0 < usize::MAX,
    ensures
        label@ == decimal(
            match selected {
                Some(index) => index + 1,
                None => 0,
            },
        ) + seq!['/'] + decimal(total as int),
{
    let mut label = String::new();
    let number: usize = match selected {
        Some(index) => index + 1,
        None => 0,
    };
    push_decimal(&mut label, number as u64);
    label.push('/');
    push_decimal(&mut label, total as u64);
    assert(label@ =~= decimal(number as int) + seq!['/'] + decimal(total as int));
    label
}

/// Every highlight lies on a row that the viewport shows.
pub proof fn law_highlights_are_visible(
    screen: Screen,
    found: Seq<Match>,
    selected: Option<Match>,
    i: int,
)
    requires
        screen.wf(),
        0 <= i < viewport_highlights(screen, found, selected).len(),
    ensures
        exists|row: int|
            screen.top() <= row < screen.top() + screen.height() && #[trigger] screen.rows@[row].id
                == viewport_highlights(screen, found, selected)[i].row,
{
    let plain = all_highlights(screen, found);
    if i < plain.len() {
        lemma_all_visible(screen, found, i);
    } else {
        lemma_match_visible(screen, selected->0, true, i - plain.len());
    }
}

proof fn lemma_match_visible(screen: Screen, found: Match, selected: bool, i: int)
    requires
        screen.wf(),
        0 <= i < match_highlights(screen, found, selected).len(),
    ensures
        exists|row: int|
            screen.top() <= row < screen.top() + screen.height() && #[trigger] screen.rows@[row].id
                == match_highlights(screen, found, selected)[i].row,
{
    let (start, end) = match_span(screen, found)->0;
    let row = greatest(start.0 as int, screen.top()) + i;
    assert(screen.rows@[row].id == match_highlights(screen, found, selected)[i].row);
}

proof fn lemma_all_visible(screen: Screen, found: Seq<Match>, i: int)
    requires
        screen.wf(),
        0 <= i < all_highlights(screen, found).len(),
    ensures
        exists|row: int|
            screen.top() <= row < screen.top() + screen.height() && #[trigger] screen.rows@[row].id
                == all_highlights(screen, found)[i].row,
    decreases found.len(),
{
    let before = all_highlights(screen, found.drop_last());
    if i < before.len() {
        lemma_all_visible(screen, found.drop_last(), i);
    } else {
        lemma_match_visible(screen, found.last(), false, i - before.len());
    }
}

/// Every cell between the ends of a match is highlighted where its row is visible.
pub proof fn law_match_is_highlighted_throughout(
    screen: Screen,
    found: Match,
    selected: bool,
    row: usize,
    col: usize,
)
    requires
        screen.wf(),
        match_span(screen, found) is Some,
        screen.top() <= row < screen.top() + screen.height(),
        0 <= col < screen.rows@[row as int].cells@.len(),
        precedes((match_span(screen, found)->0).0, (row, col)),
        precedes((row, col), (match_span(screen, found)->0).1),
    ensures
        exists|i: int|
            0 <= i < match_highlights(screen, found, selected).len() && crate::prepare::touches(
                #[trigger] match_highlights(screen, found, selected)[i],
                screen.rows@[row as int].id,
                col as int,
            ),
{
    let (start, end) = match_span(screen, found)->0;
    let first = greatest(start.0 as int, screen.top());
    let highlights = match_highlights(screen, found, selected);
    assert(screen.rows@[row as int].cells.len() == screen.rows@[row as int].cells@.len());
    assert(highlights[row - first] == row_highlight(screen, start, end, row as int, selected));
    assert(crate::prepare::touches(
        highlights[row - first],
        screen.rows@[row as int].id,
        col as int,
    ));
}

/// The cell lies in the match: both of its ends are on the screen, with the cell between them.
pub open spec fn in_match(screen: Screen, found: Match, row: usize, col: usize) -> bool {
    match match_span(screen, found) {
        Some((start, end)) => precedes(start, (row, col)) && precedes((row, col), end),
        None => false,
    }
}

proof fn lemma_touched_by_match(
    screen: Screen,
    found: Match,
    selected: bool,
    i: int,
    row: usize,
    col: usize,
)
    requires
        screen.wf(),
        0 <= i < match_highlights(screen, found, selected).len(),
        row < screen.rows@.len(),
        crate::prepare::touches(
            match_highlights(screen, found, selected)[i],
            screen.rows@[row as int].id,
            col as int,
        ),
    ensures
        in_match(screen, found, row, col),
        match_highlights(screen, found, selected)[i].selected == selected,
{
    let (start, end) = match_span(screen, found)->0;
    let index = greatest(start.0 as int, screen.top()) + i;
    assert(match_highlights(screen, found, selected)[i] == row_highlight(
        screen,
        start,
        end,
        index,
        selected,
    ));
    assert(screen.rows@[index].id == screen.rows@[row as int].id);
    assert(index == row);
}

proof fn lemma_touched_by_all(screen: Screen, found: Seq<Match>, i: int, row: usize, col: usize)
    requires
        screen.wf(),
        0 <= i < all_highlights(screen, found).len(),
        row < screen.rows@.len(),
        crate::prepare::touches(
            all_highlights(screen, found)[i],
            screen.rows@[row as int].id,
            col as int,
        ),
    ensures
        !all_highlights(screen, found)[i].selected,
        exists|k: int| 0 <= k < found.len() && in_match(screen, #[trigger] found[k], row, col),
    decreases found.len(),
{
    let before = all_highlights(screen, found.drop_last());
    if i < before.len() {
        lemma_touched_by_all(screen, found.drop_last(), i, row, col);
        let k = choose|k: int|
            0 <= k < found.drop_last().len() && in_match(
                screen,
                #[trigger] found.drop_last()[k],
                row,
                col,
            );
        assert(in_match(screen, found[k], row, col));
    } else {
        lemma_touched_by_match(screen, found.last(), false, i - before.len(), row, col);
        assert(in_match(screen, found[found.len() - 1], row, col));
    }
}

/// Nothing but matches is highlighted: a cell that a highlight touches lies in one of them, and
/// in the selected one where the highlight is selected.
pub proof fn law_highlights_lie_in_matches(
    screen: Screen,
    found: Seq<Match>,
    selected: Option<Match>,
    i: int,
    row: usize,
    col: usize,
)
    requires
        screen.wf(),
        0 <= i < viewport_highlights(screen, found, selected).len(),
        row < screen.rows@.len(),
        crate::prepare::touches(
            viewport_highlights(screen, found, selected)[i],
            screen.rows@[row as int].id,
            col as int,
        ),
    ensures
        viewport_highlights(screen, found, selected)[i].selected ==> selected is Some && in_match(
            screen,
            selected->0,
            row,
            col,
        ),
        !viewport_highlights(screen, found, selected)[i].selected ==> exists|k: int|
            0 <= k < found.len() && in_match(screen, #[trigger] found[k], row, col),
{
    let plain = all_highlights(screen, found);
    if i < plain.len() {
        assert(viewport_highlights(screen, found, selected)[i] == plain[i]);
        lemma_touched_by_all(screen, found, i, row, col);
    } else {
        assert(viewport_highlights(screen, found, selected)[i] == match_highlights(
            screen,
            selected->0,
            true,
        )[i - plain.len()]);
        lemma_touched_by_match(screen, selected->0, true, i - plain.len(), row, col);
    }
}

proof fn lemma_all_touched(screen: Screen, found: Seq<Match>, k: int, row: usize, col: usize)
    requires
        screen.wf(),
        0 <= k < found.len(),
        screen.top() <= row < screen.top() + screen.height(),
        col < screen.rows@[row as int].cells@.len(),
        in_match(screen, found[k], row, col),
    ensures
        exists|i: int|
            0 <= i < all_highlights(screen, found).len() && crate::prepare::touches(
                #[trigger] all_highlights(screen, found)[i],
                screen.rows@[row as int].id,
                col as int,
            ),
    decreases found.len(),
{
    let id = screen.rows@[row as int].id;
    let before = all_highlights(screen, found.drop_last());
    let last = match_highlights(screen, found.last(), false);
    if k < found.len() - 1 {
        lemma_all_touched(screen, found.drop_last(), k, row, col);
        let i = choose|i: int|
            0 <= i < before.len() && crate::prepare::touches(#[trigger] before[i], id, col as int);
        assert(all_highlights(screen, found)[i] == before[i]);
    } else {
        law_match_is_highlighted_throughout(screen, found.last(), false, row, col);
        let i = choose|i: int|
            0 <= i < last.len() && crate::prepare::touches(#[trigger] last[i], id, col as int);
        assert(all_highlights(screen, found)[before.len() + i] == last[i]);
    }
}

/// A visible cell is highlighted exactly if it lies in a match, and as selected exactly if it lies
/// in the selected one.
pub proof fn law_cells_show_their_matches(
    screen: Screen,
    found: Seq<Match>,
    selected: Option<Match>,
    row: usize,
    col: usize,
)
    requires
        screen.wf(),
        screen.top() <= row < screen.top() + screen.height(),
        col < screen.rows@[row as int].cells@.len(),
    ensures
        crate::prepare::match_at(
            viewport_highlights(screen, found, selected),
            screen.rows@[row as int].id,
            col as int,
        ) == if selected is Some && in_match(screen, selected->0, row, col) {
            Some(true)
        } else if exists|k: int|
            0 <= k < found.len() && in_match(screen, #[trigger] found[k], row, col) {
            Some(false)
        } else {
            None
        },
{
    let id = screen.rows@[row as int].id;
    let all = viewport_highlights(screen, found, selected);
    let plain = all_highlights(screen, found);
    assert forall|i: int|
        0 <= i < all.len() && crate::prepare::touches(#[trigger] all[i], id, col as int) implies {
        &&& all[i].selected ==> selected is Some && in_match(screen, selected->0, row, col)
        &&& !all[i].selected ==> exists|k: int|
            0 <= k < found.len() && in_match(screen, #[trigger] found[k], row, col)
    } by {
        law_highlights_lie_in_matches(screen, found, selected, i, row, col);
    }
    if selected is Some && in_match(screen, selected->0, row, col) {
        let own = match_highlights(screen, selected->0, true);
        law_match_is_highlighted_throughout(screen, selected->0, true, row, col);
        let i = choose|i: int|
            0 <= i < own.len() && crate::prepare::touches(#[trigger] own[i], id, col as int);
        lemma_touched_by_match(screen, selected->0, true, i, row, col);
        assert(all[plain.len() + i] == own[i]);
    } else if exists|k: int|
        0 <= k < found.len() && in_match(screen, #[trigger] found[k], row, col) {
        let k = choose|k: int|
            0 <= k < found.len() && in_match(screen, #[trigger] found[k], row, col);
        lemma_all_touched(screen, found, k, row, col);
        let i = choose|i: int|
            0 <= i < plain.len() && crate::prepare::touches(#[trigger] plain[i], id, col as int);
        assert(all[i] == plain[i]);
    }
}

} // verus!
