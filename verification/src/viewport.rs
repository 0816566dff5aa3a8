//! Actions that move a terminal's viewport or select in it.
use crate::actions::Action;
use crate::screen::{GridPoint, Row, Screen, Selection};
use vstd::prelude::*;

verus! {

/// How an action moves the viewport.
#[derive(Clone, Copy, Debug, PartialEq, Eq, Structural)]
pub enum ViewportStep {
    Stay,
    /// To this many rows above the active area.
    To(usize),
    /// By this many rows, upwards for positive ones, as far as there is history.
    By(isize),
}

/// The offset at which a row stands first in the viewport, or in the active area.
pub open spec fn offset_of(history: int, index: int) -> int {
    if index < history {
        history - index
    } else {
        0
    }
}

/// The `number`th row with a prompt above `from`, counted upwards.
pub open spec fn prompt_above(rows: Seq<Row>, from: int, number: int) -> Option<int>
    decreases from,
{
    if from <= 0 || from > rows.len() {
        None
    } else if rows[from - 1].prompt {
        if number <= 1 {
            Some(from - 1)
        } else {
            prompt_above(rows, from - 1, number - 1)
        }
    } else {
        prompt_above(rows, from - 1, number)
    }
}

/// The `number`th row with a prompt from `from` on, counted downwards.
pub open spec fn prompt_below(rows: Seq<Row>, from: int, number: int) -> Option<int>
    decreases rows.len() - from,
{
    if from < 0 || from >= rows.len() {
        None
    } else if rows[from].prompt {
        if number <= 1 {
            Some(from)
        } else {
            prompt_below(rows, from + 1, number - 1)
        }
    } else {
        prompt_below(rows, from + 1, number)
    }
}

/// The prompt to jump to: above the first visible row for negative offsets, below it for
/// positive ones.
pub open spec fn prompt_target(screen: Screen, offset: int) -> Option<int> {
    if offset < 0 {
        prompt_above(screen.rows@, screen.top(), -offset)
    } else if offset > 0 {
        prompt_below(screen.rows@, screen.top() + 1, offset)
    } else {
        None
    }
}

fn find_prompt(screen: &Screen, offset: i32) -> (target: Option<usize>)
    requires
        screen.wf(),
    ensures
        match target {
            Some(target) => prompt_target(*screen, offset as int) == Some(target as int),
            None => prompt_target(*screen, offset as int) is None,
        },
{
    assert(screen.rows.len() == screen.rows@.len());
    let start: usize = screen.history_len - screen.viewport_offset;
    if offset == 0 {
        return None;
    }
    if offset < 0 {
        let mut number: i64 = -(offset as i64);
        let mut from: usize = start;
        while from > 0
            invariant
                number >= 1,
                from <= screen.rows@.len(),
                offset < 0,
                prompt_target(*screen, offset as int) == prompt_above(
                    screen.rows@,
                    from as int,
                    number as int,
                ),
            decreases from,
        {
            from -= 1;
            if screen.rows[from].prompt {
                if number == 1 {
                    return Some(from);
                }
                number -= 1;
            }
        }
        None
    } else {
        let mut number: i32 = offset;
        let mut from: usize = start + 1;
        while from < screen.rows.len()
            invariant
                number >= 1,
                offset > 0,
                prompt_target(*screen, offset as int) == prompt_below(
                    screen.rows@,
                    from as int,
                    number as int,
                ),
            decreases screen.rows@.len() - from,
        {
            if screen.rows[from].prompt {
                if number == 1 {
                    return Some(from);
                }
                number -= 1;
            }
            from += 1;
        }
        None
    }
}

impl Screen {
    /// The offset at which the viewport shows a cell, if its row is still on the screen.
    pub open spec fn reveal_offset(self, point: GridPoint) -> Option<int> {
        match self.index_of(point.row) {
            Some(index) => Some(offset_of(self.history_len as int, index)),
            None => None,
        }
    }

    /// Finds the offset at which the viewport shows a cell.
    pub fn offset_to(&self, point: GridPoint) -> (offset: Option<usize>)
        requires
            self.wf(),
        ensures
            match offset {
                Some(offset) => self.reveal_offset(point) == Some(offset as int) && offset
                    <= self.history_len,
                None => self.reveal_offset(point) is None,
            },
    {
        match self.position(point.row) {
            Some(index) => Some(
                if index < self.history_len {
                    self.history_len - index
                } else {
                    0
                },
            ),
            None => None,
        }
    }

    /// How an action moves the viewport.
    pub open spec fn viewport_step(self, action: Action) -> ViewportStep {
        match action {
            Action::ScrollToTop => ViewportStep::To(self.history_len),
            Action::ScrollToBottom => ViewportStep::To(0),
            Action::ScrollPageUp => ViewportStep::By(self.height() as isize),
            Action::ScrollPageDown => ViewportStep::By((-self.height()) as isize),
            Action::ScrollToSelection => match self.selection {
                Some(selection) => match self.reveal_offset(selection.start) {
                    Some(offset) => ViewportStep::To(offset as usize),
                    None => ViewportStep::Stay,
                },
                None => ViewportStep::Stay,
            },
            Action::JumpToPrompt(offset) => match prompt_target(self, offset as int) {
                Some(target) => ViewportStep::To(
                    offset_of(self.history_len as int, target) as usize,
                ),
                None => ViewportStep::Stay,
            },
            _ => ViewportStep::Stay,
        }
    }

    /// Decides how an action moves the viewport.
    pub fn move_viewport(&self, action: &Action) -> (step: ViewportStep)
        requires
            self.wf(),
            self.height() <= isize::MAX,
        ensures
            step == self.viewport_step(*action),
            step matches ViewportStep::To(offset) ==> offset <= self.history_len,
    {
        match action {
            Action::ScrollToTop => ViewportStep::To(self.history_len),
            Action::ScrollToBottom => ViewportStep::To(0),
            Action::ScrollPageUp => ViewportStep::By((self.rows.len() - self.history_len) as isize),
            Action::ScrollPageDown => ViewportStep::By(
                -((self.rows.len() - self.history_len) as isize),
            ),
            Action::ScrollToSelection => match self.selection {
                Some(selection) => match self.offset_to(selection.start) {
                    Some(offset) => ViewportStep::To(offset),
                    None => ViewportStep::Stay,
                },
                None => ViewportStep::Stay,
            },
            Action::JumpToPrompt(offset) => match find_prompt(self, *offset) {
                Some(target) => ViewportStep::To(
                    if target < self.history_len {
                        self.history_len - target
                    } else {
                        0
                    },
                ),
                None => ViewportStep::Stay,
            },
            _ => ViewportStep::Stay,
        }
    }

    /// The selection of everything, from the first cell of the history to the last of the screen.
    pub fn select_all(&self) -> (selection: Selection)
        requires
            self.wf(),
        ensures
            selection == (Selection {
                start: GridPoint { row: self.rows@[0].id, col: 0 },
                end: GridPoint {
                    row: self.rows@.last().id,
                    col: (self.rows@.last().cells@.len() - 1) as usize,
                },
                rectangular: false,
            }),
    {
        let last: usize = self.rows.len() - 1;
        assert(self.rows@[last as int].cells@.len() > 0);
        Selection {
            start: GridPoint { row: self.rows[0].id, col: 0 },
            end: GridPoint { row: self.rows[last].id, col: self.rows[last].cells.len() - 1 },
            rectangular: false,
        }
    }

    /// Whether a selection is still on the screen, both of its ends.
    pub fn holds_selection(&self, selection: Option<Selection>) -> (holds: bool)
        requires
            self.wf(),
        ensures
            holds == match selection {
                Some(selection) => self.index_of(selection.start.row) is Some && self.index_of(
                    selection.end.row,
                ) is Some,
                None => true,
            },
    {
        match selection {
            Some(selection) => self.position(selection.start.row).is_some() && self.position(
                selection.end.row,
            ).is_some(),
            None => true,
        }
    }
}

/// How many of the rows `from..to` have a prompt.
pub open spec fn count_prompts(rows: Seq<Row>, from: int, to: int) -> int
    decreases to - from,
{
    if from >= to {
        0
    } else if rows[to - 1].prompt {
        count_prompts(rows, from, to - 1) + 1
    } else {
        count_prompts(rows, from, to - 1)
    }
}

/// A jump leads to a prompt: the one above the first visible row, or below it, that the offset
/// counts to. Without an offset, and where there are fewer prompts, it leads nowhere.
pub proof fn law_jumps_lead_to_prompts(screen: Screen, offset: int)
    requires
        screen.wf(),
    ensures
        match prompt_target(screen, offset) {
            Some(target) => {
                &&& 0 <= target < screen.rows@.len()
                &&& screen.rows@[target].prompt
                &&& offset != 0
                &&& offset < 0 ==> target < screen.top() && count_prompts(
                    screen.rows@,
                    target + 1,
                    screen.top(),
                ) == -offset - 1
                &&& offset > 0 ==> target > screen.top() && count_prompts(
                    screen.rows@,
                    screen.top() + 1,
                    target,
                ) == offset - 1
            },
            None => {
                &&& offset < 0 ==> count_prompts(screen.rows@, 0, screen.top()) < -offset
                &&& offset > 0 ==> count_prompts(
                    screen.rows@,
                    screen.top() + 1,
                    screen.rows@.len() as int,
                ) < offset
            },
        },
{
    if offset < 0 {
        lemma_prompt_above(screen.rows@, screen.top(), -offset);
    } else if offset > 0 {
        lemma_prompt_below(screen.rows@, screen.top() + 1, offset);
    }
}

proof fn lemma_prompt_above(rows: Seq<Row>, from: int, number: int)
    requires
        0 <= from <= rows.len(),
        number >= 1,
    ensures
        match prompt_above(rows, from, number) {
            Some(target) => {
                &&& 0 <= target < from
                &&& rows[target].prompt
                &&& count_prompts(rows, target + 1, from) == number - 1
            },
            None => count_prompts(rows, 0, from) < number,
        },
    decreases from,
{
    if from > 0 {
        if rows[from - 1].prompt {
            if number > 1 {
                lemma_prompt_above(rows, from - 1, number - 1);
            }
        } else {
            lemma_prompt_above(rows, from - 1, number);
        }
    }
}

proof fn lemma_count_first(rows: Seq<Row>, from: int, to: int)
    requires
        from < to,
    ensures
        count_prompts(rows, from, to) == count_prompts(rows, from + 1, to) + if rows[from].prompt {
            1int
        } else {
            0
        },
    decreases to - from,
{
    if from + 1 < to {
        lemma_count_first(rows, from, to - 1);
    } else {
        assert(count_prompts(rows, from, from) == 0);
    }
}

proof fn lemma_prompt_below(rows: Seq<Row>, from: int, number: int)
    requires
        0 <= from <= rows.len(),
        number >= 1,
    ensures
        match prompt_below(rows, from, number) {
            Some(target) => {
                &&& from <= target < rows.len()
                &&& rows[target].prompt
                &&& count_prompts(rows, from, target) == number - 1
            },
            None => count_prompts(rows, from, rows.len() as int) < number,
        },
    decreases rows.len() - from,
{
    if from < rows.len() {
        lemma_count_first(rows, from, rows.len() as int);
        if rows[from].prompt {
            if number > 1 {
                lemma_prompt_below(rows, from + 1, number - 1);
                if let Some(target) = prompt_below(rows, from + 1, number - 1) {
                    lemma_count_first(rows, from, target);
                }
            }
        } else {
            lemma_prompt_below(rows, from + 1, number);
            if let Some(target) = prompt_below(rows, from + 1, number) {
                lemma_count_first(rows, from, target);
            }
        }
    }
}

/// A revealed cell is on a visible row.
pub proof fn law_revealed_cells_are_visible(screen: Screen, point: GridPoint)
    requires
        screen.wf(),
        screen.reveal_offset(point) is Some,
    ensures
        ({
            let offset = screen.reveal_offset(point)->0;
            let index = screen.index_of(point.row)->0;
            &&& 0 <= offset <= screen.history_len
            &&& screen.history_len - offset <= index < screen.history_len - offset
                + screen.height()
        }),
{
    let index = screen.index_of(point.row)->0;
    assert(crate::screen::is_row(screen.rows@, point.row, index));
}

} // verus!
