//! What a visible screen puts on a frame, row by row.
use crate::prepare::{
    blinks, cell_decoration, decoration, has_ink, Decoration, RenderOptions, RowPlan,
};
use crate::runs::{is_silent, item_models, row_items, split_row, RowItem};
use crate::screen::{Screen, Underline};
use vstd::prelude::*;

verus! {

/// One row: its background and cursor, its text, and the lines of its written cells.
pub struct RowScene {
    pub plan: RowPlan,
    pub items: Vec<RowItem>,
    pub lines: Vec<Option<Decoration>>,
}

impl RowScene {
    /// The scene shows the row at `row_index` of the viewport, of which `visible` columns fit.
    pub open spec fn shows(
        self,
        screen: Screen,
        row_index: usize,
        visible: usize,
        options: RenderOptions,
    ) -> bool {
        let row = screen.rows@[screen.top() + row_index];
        &&& self.plan.plans(screen, row_index, visible, options)
        &&& item_models(self.items@) == row_items(
            row.cells@,
            self.plan.cells@,
            0,
            self.plan.text_cols as int,
            options.blink_visible,
        )
        &&& self.lines@.len() == self.plan.text_cols
        &&& forall|col: int|
            0 <= col < self.plan.text_cols ==> #[trigger] self.lines@[col] == cell_decoration(
                row.cells@[col],
                self.plan.cells@[col],
                options,
            )
    }

    fn new(screen: &Screen, row_index: usize, visible: usize, options: &RenderOptions) -> (scene:
        RowScene)
        requires
            screen.wf(),
            options.wf(),
            row_index < screen.height(),
        ensures
            scene.shows(*screen, row_index, visible, *options),
    {
        let plan = RowPlan::new(screen, screen.selection_span(), row_index, visible, options);
        assert(screen.rows.len() == screen.rows@.len());
        let index: usize = screen.history_len - screen.viewport_offset + row_index;
        let row = &screen.rows[index];
        let items = split_row(row, &plan.cells, plan.text_cols, options);
        let mut lines: Vec<Option<Decoration>> = Vec::new();
        let mut col: usize = 0;
        while col < plan.text_cols
            invariant
                col <= plan.text_cols <= plan.cells@.len() <= row.cells@.len(),
                options.wf(),
                lines@.len() == col,
                forall|c: int|
                    0 <= c < col ==> #[trigger] lines@[c] == cell_decoration(
                        row.cells@[c],
                        plan.cells@[c],
                        *options,
                    ),
            decreases plan.text_cols - col,
        {
            lines.push(decoration(&row.cells[col], plan.cells[col], options));
            col += 1;
        }
        RowScene { plan, items, lines }
    }
}

/// Some line is drawn.
pub open spec fn has_lines(lines: Option<Decoration>) -> bool {
    lines matches Some(lines) && (lines.underline != Underline::Absent || lines.strikethrough
        || lines.overline)
}

/// All rows of a frame from the top.
pub struct Scene {
    pub rows: Vec<RowScene>,
    /// Some painted text changes with the blink phase.
    pub blinking_text: bool,
}

/// The rows of the viewport that fit a frame.
pub open spec fn shown_rows(screen: Screen, visible_rows: usize) -> int {
    if visible_rows <= screen.height() {
        visible_rows as int
    } else {
        screen.height()
    }
}

/// A painted cell of the row blinks.
pub open spec fn row_blinks(
    screen: Screen,
    row_index: int,
    visible: usize,
    options: RenderOptions,
) -> bool {
    let row = screen.rows@[screen.top() + row_index];
    exists|col: int|
        0 <= col < RowPlan::painted_cols(
            screen,
            row,
            row_index as usize,
            crate::prepare::least(visible as int, row.cells@.len() as int),
            options,
        ) && blinks(#[trigger] row.cells@[col])
}

/// Prepares the part of the screen that fits `visible_rows` rows of `visible_cols` columns.
pub fn prepare(
    screen: &Screen,
    visible_rows: usize,
    visible_cols: usize,
    options: &RenderOptions,
) -> (scene: Scene)
    requires
        screen.wf(),
        options.wf(),
    ensures
        scene.rows@.len() == shown_rows(*screen, visible_rows),
        forall|i: int|
            0 <= i < scene.rows@.len() ==> (#[trigger] scene.rows@[i]).shows(
                *screen,
                i as usize,
                visible_cols,
                *options,
            ),
        scene.blinking_text == exists|i: int|
            0 <= i < shown_rows(*screen, visible_rows) && #[trigger] row_blinks(
                *screen,
                i,
                visible_cols,
                *options,
            ),
{
    let height: usize = screen.rows.len() - screen.history_len;
    let count: usize = if visible_rows <= height {
        visible_rows
    } else {
        height
    };
    let mut rows: Vec<RowScene> = Vec::new();
    let mut blinking_text = false;
    let mut row_index: usize = 0;
    while row_index < count
        invariant
            screen.wf(),
            options.wf(),
            row_index <= count <= screen.height(),
            rows@.len() == row_index,
            forall|i: int|
                0 <= i < row_index ==> (#[trigger] rows@[i]).shows(
                    *screen,
                    i as usize,
                    visible_cols,
                    *options,
                ),
            blinking_text == exists|i: int|
                0 <= i < row_index && #[trigger] row_blinks(*screen, i, visible_cols, *options),
        decreases count - row_index,
    {
        let row = RowScene::new(screen, row_index, visible_cols, options);
        assert(row.plan.blinking_text == row_blinks(
            *screen,
            row_index as int,
            visible_cols,
            *options,
        ));
        if row.plan.blinking_text {
            blinking_text = true;
        }
        rows.push(row);
        row_index += 1;
    }
    Scene { rows, blinking_text }
}

/// The blink phase changes nothing that is seen of a row without blinking text under a steady
/// cursor: both phases have the same colours, the same cursor and the same lines, and a text
/// that only one of them shapes leaves no ink.
pub proof fn law_steady_rows_ignore_the_phase(
    screen: Screen,
    row_index: usize,
    visible: usize,
    options: RenderOptions,
    other: RenderOptions,
    one: RowScene,
    two: RowScene,
)
    requires
        screen.wf(),
        row_index < screen.height(),
        !(screen.cursor.visible && screen.cursor.blink),
        other == (RenderOptions { blink_visible: !options.blink_visible, ..options }),
        one.shows(screen, row_index, visible, options),
        two.shows(screen, row_index, visible, other),
        !row_blinks(screen, row_index as int, visible, options),
    ensures
        one.plan.text_cols == two.plan.text_cols,
        one.plan.cells@ == two.plan.cells@,
        one.plan.cursor == two.plan.cursor,
        forall|col: int|
            0 <= col < one.plan.text_cols ==> (has_lines(#[trigger] one.lines@[col]) || has_lines(
                two.lines@[col],
            )) ==> one.lines@[col] == two.lines@[col],
        forall|col: int|
            0 <= col < one.plan.text_cols ==> ({
                let cell = #[trigger] screen.rows@[screen.top() + row_index].cells@[col];
                is_silent(cell, true) != is_silent(cell, false) ==> !has_ink(cell.text@)
            }),
{
    assert(one.plan.cells@ =~= two.plan.cells@);
    let cells = screen.rows@[screen.top() + row_index].cells@;
    assert forall|col: int| 0 <= col < one.plan.text_cols implies !blinks(
        #[trigger] cells[col],
    ) by {}
    assert forall|col: int|
        0 <= col < one.plan.text_cols && (has_lines(#[trigger] one.lines@[col]) || has_lines(
            two.lines@[col],
        )) implies one.lines@[col] == two.lines@[col] by {
        assert(!blinks(cells[col]));
    }
}

} // verus!
