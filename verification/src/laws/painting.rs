//! What is seen of a terminal's cells: their colours, the selection, matches, the cursor, lines and
//! text.
use crate::frame::SearchHighlight;
use crate::prepare::{
    base_color, blinks, cell_decoration, cell_paint, resolve, standard_color, written_cols,
    CellPaint, CursorPaint, RenderOptions, RowPlan, Span,
};
use crate::runs::{is_anchor, lone_character, place_glyphs, source_of, sprite_codepoint, GlyphPlace};
use crate::scene::{prepare, Scene};
use crate::screen::{Cell, CursorShape, Rgb, Row, Screen, TerminalColor, Underline};
use vstd::prelude::*;

verus! {

/// The column whose matches a cell shows: the second half of a wide character shows its first's.
pub open spec fn leading_column(row: Row, col: int) -> int {
    if row.cells@[col].width == 0 && col > 0 {
        col - 1
    } else {
        col
    }
}

/// The highlight lies on the column of the row.
pub open spec fn lies_on(highlight: SearchHighlight, row: Row, col: int) -> bool {
    highlight.row == row.id && highlight.first <= col && col <= highlight.last
}

/// A cell under nothing shows the colours that its program asked for: palette entries by their
/// number, direct colours as they are, and the default ones otherwise; reverse video exchanges the
/// two. It is filled exactly if its background is not the default one.
pub proof fn law_plain_cells_show_their_own_colours(row: Row, col: int, options: RenderOptions)
    requires
        0 <= col < row.cells@.len(),
        forall|i: int|
            0 <= i < options.search_highlights@.len() ==> !lies_on(
                #[trigger] options.search_highlights@[i],
                row,
                leading_column(row, col),
            ),
    ensures
        ({
            let style = row.cells@[col].style;
            let paint = cell_paint(row, col, false, false, options);
            let (text, behind) = if style.inverse {
                (paint.background, paint.foreground)
            } else {
                (paint.foreground, paint.background)
            };
            &&& style.foreground == TerminalColor::Default ==> text == options.foreground
            &&& style.background == TerminalColor::Default ==> behind == options.background
            &&& style.foreground matches TerminalColor::Indexed(i) ==> text
                == options.palette@[i as int]
            &&& style.background matches TerminalColor::Indexed(i) ==> behind
                == options.palette@[i as int]
            &&& style.foreground matches TerminalColor::Rgb(r, g, b) ==> text.r == r && text.g == g
                && text.b == b
            &&& style.background matches TerminalColor::Rgb(r, g, b) ==> behind.r == r && behind.g
                == g && behind.b == b
            &&& paint.fill <==> paint.background != options.background
            &&& paint.faint == style.faint
        }),
{
}

/// A selected cell outside matches lies on the selection's colour, and its text keeps its own
/// colour unless the selection has one for it.
pub proof fn law_selected_cells_show_the_selection(row: Row, col: int, options: RenderOptions)
    requires
        0 <= col < row.cells@.len(),
        forall|i: int|
            0 <= i < options.search_highlights@.len() ==> !lies_on(
                #[trigger] options.search_highlights@[i],
                row,
                leading_column(row, col),
            ),
    ensures
        ({
            let paint = cell_paint(row, col, true, false, options);
            let own = cell_paint(row, col, false, false, options);
            &&& paint.fill
            &&& paint.background == options.selection_background
            &&& options.selection_foreground is Some ==> paint.foreground
                == options.selection_foreground->0
            &&& options.selection_foreground is None ==> paint.foreground == own.foreground
            &&& paint.faint == own.faint
        }),
{
}

/// A cell of a match is black on orange where the match is the selected one, and on yellow where it
/// is another, selected text or not.
pub proof fn law_matched_cells_show_their_match(
    row: Row,
    col: int,
    selected: bool,
    options: RenderOptions,
    i: int,
)
    requires
        0 <= col < row.cells@.len(),
        0 <= i < options.search_highlights@.len(),
        lies_on(options.search_highlights@[i], row, leading_column(row, col)),
    ensures
        ({
            let paint = cell_paint(row, col, selected, false, options);
            &&& paint.fill
            &&& paint.foreground == (Rgb { r: 0, g: 0, b: 0 })
            &&& options.search_highlights@[i].selected ==> paint.background == (Rgb {
                r: 242,
                g: 165,
                b: 126,
            })
            &&& (forall|j: int|
                0 <= j < options.search_highlights@.len() && lies_on(
                    #[trigger] options.search_highlights@[j],
                    row,
                    leading_column(row, col),
                ) ==> !options.search_highlights@[j].selected) ==> paint.background == (Rgb {
                r: 255,
                g: 224,
                b: 130,
            })
            &&& paint.faint == row.cells@[col].style.faint
        }),
{
    let c = leading_column(row, col);
    assert(crate::prepare::touches(options.search_highlights@[i], row.id, c));
    if crate::prepare::match_at(options.search_highlights@, row.id, c) == Some(true) {
        let j = choose|j: int|
            0 <= j < options.search_highlights@.len() && crate::prepare::touches(
                #[trigger] options.search_highlights@[j],
                row.id,
                c,
            ) && options.search_highlights@[j].selected;
        assert(lies_on(options.search_highlights@[j], row, c));
    }
}

/// The cell under a block cursor shows the cursor's colours, whatever else lies on it.
pub proof fn law_the_block_cursor_covers_its_cell(
    row: Row,
    col: int,
    selected: bool,
    options: RenderOptions,
)
    ensures
        ({
            let paint = cell_paint(row, col, selected, true, options);
            &&& paint.fill
            &&& paint.background == options.cursor_color
            &&& paint.foreground == options.cursor_text
        }),
{
}

/// The places in reading order.
pub open spec fn in_order(a: (int, int), b: (int, int), c: (int, int)) -> bool {
    (a.0 < b.0 || (a.0 == b.0 && a.1 <= b.1)) && (b.0 < c.0 || (b.0 == c.0 && b.1 <= c.1))
}

/// A selection covers the cells between its ends in reading order, whichever end comes first; a
/// rectangular one covers the columns between its ends on each row between them.
pub proof fn law_selections_cover_what_lies_between_their_ends(
    screen: Screen,
    first: int,
    last: int,
    row: usize,
    col: usize,
)
    requires
        screen.wf(),
        screen.selection is Some,
        0 <= first < screen.rows@.len(),
        0 <= last < screen.rows@.len(),
        screen.rows@[first].id == screen.selection->0.start.row,
        screen.rows@[last].id == screen.selection->0.end.row,
    ensures
        ({
            let selection = screen.selection->0;
            let a = (first, selection.start.col as int);
            let b = (last, selection.end.col as int);
            let here = (row as int, col as int);
            &&& screen.selected_span() is Some
            &&& !selection.rectangular ==> (screen.selected_span()->0.covers(row, col) <==> in_order(
                a,
                here,
                b,
            ) || in_order(b, here, a))
            &&& selection.rectangular ==> (screen.selected_span()->0.covers(row, col) <==> (first
                <= row <= last || last <= row <= first) && (a.1 <= col <= b.1 || b.1 <= col
                <= a.1))
        }),
{
    assert(screen.rows.len() == screen.rows@.len());
    assert(crate::screen::is_row(screen.rows@, screen.selection->0.start.row, first));
    assert(crate::screen::is_row(screen.rows@, screen.selection->0.end.row, last));
    let i = screen.index_of(screen.selection->0.start.row)->0;
    let j = screen.index_of(screen.selection->0.end.row)->0;
    assert(crate::screen::is_row(screen.rows@, screen.selection->0.start.row, i));
    assert(crate::screen::is_row(screen.rows@, screen.selection->0.end.row, j));
    assert(i == first && j == last);
}

/// Without a selection, or with an end of it that is off the screen, nothing is selected.
pub proof fn law_lost_selections_cover_nothing(screen: Screen)
    requires
        screen.selection is None || forall|i: int|
            0 <= i < screen.rows@.len() ==> (#[trigger] screen.rows@[i]).id
                != screen.selection->0.start.row || forall|i: int|
            0 <= i < screen.rows@.len() ==> (#[trigger] screen.rows@[i]).id
                != screen.selection->0.end.row,
    ensures
        screen.selected_span() is None,
{
    if let Some(selection) = screen.selection {
        if screen.index_of(selection.start.row) is Some && screen.index_of(selection.end.row)
            is Some {
            let i = screen.index_of(selection.start.row)->0;
            let j = screen.index_of(selection.end.row)->0;
            assert(crate::screen::is_row(screen.rows@, selection.start.row, i));
            assert(crate::screen::is_row(screen.rows@, selection.end.row, j));
            assert(screen.rows@[i].id == selection.start.row);
            assert(screen.rows@[j].id == selection.end.row);
        }
    }
}

/// A cell of a row plan is painted as selected exactly if the selection covers it, and as the
/// cursor's exactly if a focused block cursor stands on it.
pub proof fn law_rows_paint_their_selection_and_cursor(
    screen: Screen,
    row: Row,
    row_index: usize,
    col: int,
    options: RenderOptions,
)
    requires
        screen.wf(),
        row_index < screen.height(),
        0 <= col < row.cells@.len(),
    ensures
        ({
            let paint = RowPlan::paint_at(screen, row, row_index, col, options);
            let at = (screen.history_len - screen.viewport_offset + row_index) as usize;
            let selected = screen.selected_span() is Some && screen.selected_span()->0.covers(
                at,
                col as usize,
            );
            let under = screen.cursor.row == row_index && screen.cursor.col == col
                && screen.cursor.shape == CursorShape::Block && options.focused
                && screen.shows_cursor(options, row_index);
            &&& under ==> paint.background == options.cursor_color && paint.foreground
                == options.cursor_text && paint.fill
            &&& !under ==> paint == cell_paint(row, col, selected, false, options)
        }),
{
}

/// The cursor shows on its own row alone, and there only while the program shows it, the window
/// allows it, nothing is composed over it and the viewport is not scrolled back. Where the window
/// is focused, a blinking cursor shows in every other phase; elsewhere, and where it is steady, it
/// shows in both.
pub proof fn law_the_cursor_shows_where_and_when_it_should(
    screen: Screen,
    options: RenderOptions,
    row: usize,
)
    ensures
        screen.shows_cursor(options, row) ==> row == screen.cursor.row && screen.cursor.visible
            && options.cursor_visible && screen.viewport_offset == 0,
        screen.shows_cursor(options, row) && options.focused ==> options.preedit is None
            || options.preedit->0@.len() == 0,
        screen.shows_cursor(options, row) && options.focused && screen.cursor.blink
            ==> options.blink_visible,
        row == screen.cursor.row && screen.cursor.visible && options.cursor_visible
            && screen.viewport_offset == 0 && (!options.focused || ((!screen.cursor.blink
            || options.blink_visible) && (options.preedit is None || options.preedit->0@.len()
            == 0))) ==> screen.shows_cursor(options, row),
{
}

/// A cursor that shows is drawn once: a focused block in its cell, an unfocused one as an outline,
/// and every other one in its own shape.
pub proof fn law_cursors_keep_their_shape(focused: bool, shape: CursorShape)
    ensures
        RowPlan::cursor_paint(false, focused, shape) == CursorPaint::Absent,
        RowPlan::cursor_paint(true, false, shape) == CursorPaint::Outline,
        RowPlan::cursor_paint(true, true, CursorShape::Block) == CursorPaint::Absent,
        RowPlan::cursor_paint(true, true, CursorShape::HollowBlock) == CursorPaint::Outline,
        RowPlan::cursor_paint(true, true, CursorShape::Bar) == CursorPaint::Bar,
        RowPlan::cursor_paint(true, true, CursorShape::Underline) == CursorPaint::Underline,
{
}

/// The written part of a row ends behind its last cell that is not blank.
pub proof fn law_written_columns_end_behind_the_last_written_cell(cells: Seq<Cell>, n: int)
    requires
        0 <= n <= cells.len(),
    ensures
        0 <= written_cols(cells, n) <= n,
        written_cols(cells, n) > 0 ==> !cells[written_cols(cells, n) - 1].blank,
        forall|i: int| written_cols(cells, n) <= i < n ==> (#[trigger] cells[i]).blank,
    decreases n,
{
    if n > 0 && cells[n - 1].blank {
        law_written_columns_end_behind_the_last_written_cell(cells, n - 1);
    }
}

/// A row is painted as far as it is written, and to its end where the selection, a match or the
/// cursor may lie behind that.
pub proof fn law_rows_are_painted_as_far_as_needed(
    screen: Screen,
    row: Row,
    row_index: usize,
    visible: int,
    options: RenderOptions,
)
    requires
        0 <= visible <= row.cells@.len(),
    ensures
        ({
            let painted = RowPlan::painted_cols(screen, row, row_index, visible, options);
            &&& written_cols(row.cells@, visible) <= painted <= visible
            &&& screen.selected_span() is Some || screen.shows_cursor(options, row_index) || (exists|
                i: int,
            |
                0 <= i < options.search_highlights@.len() && (
                #[trigger] options.search_highlights@[i]).row == row.id) ==> painted == visible
            &&& screen.selected_span() is None && !screen.shows_cursor(options, row_index) && !(
            exists|i: int|
                0 <= i < options.search_highlights@.len() && (
                #[trigger] options.search_highlights@[i]).row == row.id) && painted > 0
                ==> !row.cells@[painted - 1].blank
        }),
{
    law_written_columns_end_behind_the_last_written_cell(row.cells@, visible);
}

/// The lines of a cell are those of its style, in the colour of its text; an underline takes the
/// colour that the program gave it, and is then never faint. Hidden cells, second halves of wide
/// characters, and blinking ones in their dark phase have none.
pub proof fn law_lines_follow_their_style(cell: Cell, paint: CellPaint, options: RenderOptions)
    ensures
        cell_decoration(cell, paint, options) is Some <==> cell.width > 0 && !cell.style.invisible
            && (cell.style.blink ==> options.blink_visible),
        cell_decoration(cell, paint, options) matches Some(lines) ==> {
            let color = cell.style.underline_color;
            &&& lines.underline == cell.style.underline
            &&& lines.strikethrough == cell.style.strikethrough
            &&& lines.overline == cell.style.overline
            &&& lines.color == paint.foreground && lines.faint == paint.faint
            &&& color == TerminalColor::Default ==> lines.underline_color == paint.foreground
                && lines.underline_faint == paint.faint
            &&& color != TerminalColor::Default ==> !lines.underline_faint
            &&& color matches TerminalColor::Indexed(i) ==> lines.underline_color
                == options.palette@[i as int]
            &&& color matches TerminalColor::Rgb(r, g, b) ==> lines.underline_color == (Rgb {
                r,
                g,
                b,
            })
        },
{
}

/// A cell is said to blink exactly if what is seen of it changes with the phase: a line, or a text
/// with a character that leaves ink.
pub proof fn law_blinking_cells_change_with_the_phase(
    cell: Cell,
    paint: CellPaint,
    options: RenderOptions,
)
    ensures
        ({
            let on = RenderOptions { blink_visible: true, ..options };
            let off = RenderOptions { blink_visible: false, ..options };
            let lined = cell_decoration(cell, paint, on) is Some && cell_decoration(
                cell,
                paint,
                off,
            ) is None && (cell.style.underline != Underline::Absent || cell.style.strikethrough
                || cell.style.overline);
            let inked = cell.style.blink && !cell.style.invisible && cell.width > 0
                && !cell.placeholder && exists|i: int|
                0 <= i < cell.text@.len() && !crate::presentation::white_space(
                    #[trigger] cell.text@[i],
                );
            blinks(cell) <==> lined || inked
        }),
{
}

/// The six colours between black and white have the channels that the bits of their number name.
pub proof fn law_the_palette_begins_with_the_named_colours(index: int)
    requires
        0 <= index < 8,
    ensures
        ({
            let dim = base_color(index);
            let bright = base_color(index + 8);
            let bit = |channel: int|
                if channel == 0 {
                    index % 2 == 1
                } else if channel == 1 {
                    (index / 2) % 2 == 1
                } else {
                    index / 4 == 1
                };
            &&& (dim.r > 0 <==> bit(0)) && (dim.g > 0 <==> bit(1)) && (dim.b > 0 <==> bit(2))
            &&& index != 4 && index != 7 ==> dim.r <= 205 && dim.g <= 205 && dim.b <= 205
            &&& index != 7 ==> (dim.r > 0 ==> dim.r == 205) && (dim.g > 0 ==> dim.g == 205) && (
            dim.b > 0 ==> dim.b == if index == 4 {
                238
            } else {
                205u8
            })
            &&& index == 7 ==> dim.r == 229 && dim.g == 229 && dim.b == 229
            &&& index == 0 ==> bright.r == 127 && bright.g == 127 && bright.b == 127
            &&& index > 0 ==> (bit(0) ==> bright.r == 255) && (bit(1) ==> bright.g == 255) && (bit(
                2,
            ) ==> bright.b == 255)
            &&& index == 4 ==> bright.r == 92 && bright.g == 92
            &&& index > 0 && index != 4 ==> (bit(0) || bright.r == 0) && (bit(1) || bright.g == 0)
                && (bit(2) || bright.b == 0)
        }),
{
}

/// Behind the named colours comes a cube of six steps for each channel, blue fastest, and then a
/// ramp of greys.
pub proof fn law_the_palette_goes_on_with_a_cube_and_greys(
    red: int,
    green: int,
    blue: int,
    grey: int,
)
    requires
        0 <= red < 6,
        0 <= green < 6,
        0 <= blue < 6,
        0 <= grey < 24,
    ensures
        ({
            let color = standard_color(16 + 36 * red + 6 * green + blue);
            let level = |step: int|
                if step == 0 {
                    0
                } else {
                    55 + 40 * step
                };
            let tone = standard_color(232 + grey);
            &&& color.r == level(red) && color.g == level(green) && color.b == level(blue)
            &&& tone.r == tone.g && tone.g == tone.b && tone.r == 8 + 10 * grey
        }),
{
    let cell = 36 * red + 6 * green + blue;
    assert(cell / 36 == red && (cell / 6) % 6 == green && cell % 6 == blue) by (nonlinear_arith)
        requires
            cell == 36 * red + 6 * green + blue,
            0 <= red < 6,
            0 <= green < 6,
            0 <= blue < 6,
    ;
}

/// A text is drawn as a sprite's where it is one character, with a variation selector or without.
pub proof fn law_sprites_are_single_characters(text: Seq<char>)
    ensures
        lone_character(text) is Some <==> text.len() == 1 || (text.len() == 2 && (text[1]
            == '\u{fe0e}' || text[1] == '\u{fe0f}')),
        lone_character(text) is Some ==> lone_character(text)->0 == text[0],
{
}

/// A glyph belongs to the last column of its run that begins at or before its cluster.
pub proof fn law_glyphs_belong_to_the_column_of_their_cluster(
    sources: Seq<(usize, usize)>,
    cluster: usize,
)
    requires
        sources.len() > 0,
        sources[0].0 <= cluster,
        forall|i: int, j: int|
            0 <= i < j < sources.len() ==> (#[trigger] sources[i]).0 <= (#[trigger] sources[j]).0,
    ensures
        0 <= source_of(sources, cluster) < sources.len(),
        sources[source_of(sources, cluster)].0 <= cluster,
        forall|j: int|
            source_of(sources, cluster) < j < sources.len() ==> (#[trigger] sources[j]).0 > cluster,
{
    lemma_leading(sources, cluster, 0);
}

proof fn lemma_leading(sources: Seq<(usize, usize)>, cluster: usize, from: int)
    requires
        0 <= from <= sources.len(),
        forall|i: int, j: int|
            0 <= i < j < sources.len() ==> (#[trigger] sources[i]).0 <= (#[trigger] sources[j]).0,
        forall|i: int| 0 <= i < from ==> (#[trigger] sources[i]).0 <= cluster,
    ensures
        ({
            let end = crate::runs::leading(sources, cluster, from);
            &&& from <= end <= sources.len()
            &&& forall|i: int| 0 <= i < end ==> (#[trigger] sources[i]).0 <= cluster
            &&& forall|j: int| end <= j < sources.len() ==> (#[trigger] sources[j]).0 > cluster
        }),
    decreases sources.len() - from,
{
    if from < sources.len() && sources[from].0 <= cluster {
        lemma_leading(sources, cluster, from + 1);
    }
}

/// The glyphs of a cluster are placed from its first glyph that advances, or from its first one
/// where none does.
pub proof fn law_clusters_are_placed_from_their_base(
    sources: Seq<(usize, usize)>,
    glyphs: Seq<(usize, bool)>,
    source: int,
    k: int,
    j: int,
)
    requires
        is_anchor(sources, glyphs, source, k),
        0 <= j < glyphs.len(),
        source_of(sources, glyphs[j].0) == source,
    ensures
        0 <= k < glyphs.len(),
        source_of(sources, glyphs[k].0) == source,
        glyphs[j].1 ==> glyphs[k].1 && k <= j,
        !glyphs[k].1 ==> k <= j,
{
    assert(crate::runs::candidate(sources, glyphs, source, j, false));
    if glyphs[j].1 {
        assert(crate::runs::candidate(sources, glyphs, source, j, true));
    }
}

/// The plan of a row goes as far as the row is written and no further than the frame; its cells are
/// painted one by one, and its cursor is the screen's where that shows on this row.
pub proof fn law_plans_follow_their_row(
    screen: &Screen,
    span: Option<Span>,
    row_index: usize,
    visible: usize,
    options: &RenderOptions,
    plan: RowPlan,
)
    requires
        screen.wf(),
        row_index < screen.rows@.len() - screen.history_len,
        call_ensures(RowPlan::new, (screen, span, row_index, visible, options), plan),
    ensures
        ({
            let row = screen.rows@[screen.history_len - screen.viewport_offset + row_index];
            let shown = screen.shows_cursor(*options, row_index);
            &&& plan.text_cols <= plan.cells@.len() <= row.cells@.len()
            &&& plan.cells@.len() <= visible
            &&& plan.text_cols > 0 ==> !row.cells@[plan.text_cols - 1].blank
            &&& forall|col: int|
                plan.text_cols <= col < row.cells@.len() && col < visible ==> (
                #[trigger] row.cells@[col]).blank
            &&& plan.cells@.len() > plan.text_cols ==> shown || screen.selection is Some || exists|
                i: int,
            |
                0 <= i < options.search_highlights@.len() && (
                #[trigger] options.search_highlights@[i]).row == row.id
            &&& plan.cursor == CursorPaint::Absent <==> !shown || (options.focused
                && screen.cursor.shape == CursorShape::Block)
            &&& !options.focused && shown ==> plan.cursor == CursorPaint::Outline
            &&& options.focused && shown && screen.cursor.shape == CursorShape::Bar ==> plan.cursor
                == CursorPaint::Bar
            &&& options.focused && shown && screen.cursor.shape == CursorShape::Underline
                ==> plan.cursor == CursorPaint::Underline
            &&& options.focused && shown && screen.cursor.shape == CursorShape::HollowBlock
                ==> plan.cursor == CursorPaint::Outline
            &&& plan.blinking_text <==> exists|col: int|
                0 <= col < plan.cells@.len() && blinks(#[trigger] row.cells@[col])
        }),
{
    let row = screen.rows@[screen.history_len - screen.viewport_offset + row_index];
    let n = if visible <= row.cells@.len() {
        visible as int
    } else {
        row.cells@.len() as int
    };
    assert(plan.plans(*screen, row_index, visible, *options));
    law_written_columns_end_behind_the_last_written_cell(row.cells@, n);
}

/// In a planned row a cell that is not selected, not in a match and not under a block cursor shows
/// the colours that its program asked for, exchanged by reverse video, and is filled exactly if its
/// background is not the default one.
pub proof fn law_planned_cells_show_their_own_colours(
    screen: &Screen,
    span: Option<Span>,
    row_index: usize,
    visible: usize,
    options: &RenderOptions,
    plan: RowPlan,
    col: int,
)
    requires
        screen.wf(),
        row_index < screen.rows@.len() - screen.history_len,
        call_ensures(RowPlan::new, (screen, span, row_index, visible, options), plan),
        0 <= col < plan.cells@.len(),
        screen.selection is None,
        options.search_highlights@.len() == 0,
        screen.cursor.row != row_index || screen.cursor.col != col || !screen.cursor.visible
            || screen.cursor.shape != CursorShape::Block || !options.focused,
    ensures
        ({
            let style = screen.rows@[screen.history_len - screen.viewport_offset
                + row_index].cells@[col].style;
            let paint = plan.cells@[col];
            let (text, behind) = if style.inverse {
                (paint.background, paint.foreground)
            } else {
                (paint.foreground, paint.background)
            };
            &&& style.foreground == TerminalColor::Default ==> text == options.foreground
            &&& style.background == TerminalColor::Default ==> behind == options.background
            &&& style.foreground matches TerminalColor::Indexed(i) ==> text
                == options.palette@[i as int]
            &&& style.background matches TerminalColor::Indexed(i) ==> behind
                == options.palette@[i as int]
            &&& style.foreground matches TerminalColor::Rgb(r, g, b) ==> text == (Rgb { r, g, b })
            &&& style.background matches TerminalColor::Rgb(r, g, b) ==> behind == (Rgb { r, g, b })
            &&& paint.fill <==> paint.background != options.background
            &&& paint.faint == style.faint
        }),
{
    assert(plan.plans(*screen, row_index, visible, *options));
    let row = screen.rows@[screen.history_len - screen.viewport_offset + row_index];
    assert(plan.cells@[col] == RowPlan::paint_at(*screen, row, row_index, col, *options));
    law_plain_cells_show_their_own_colours(row, col, *options);
}

/// A frame shows the rows of the viewport from its top on, as many as fit, each with the lines of
/// its written cells.
pub proof fn law_frames_show_the_viewport(
    screen: &Screen,
    visible_rows: usize,
    visible_cols: usize,
    options: &RenderOptions,
    scene: Scene,
    i: int,
)
    requires
        screen.wf(),
        options.wf(),
        call_ensures(prepare, (screen, visible_rows, visible_cols, options), scene),
    ensures
        scene.rows@.len() <= visible_rows,
        scene.rows@.len() <= screen.rows@.len() - screen.history_len,
        scene.rows@.len() == visible_rows || scene.rows@.len() == screen.rows@.len()
            - screen.history_len,
        0 <= i < scene.rows@.len() ==> {
            let row = screen.rows@[screen.history_len - screen.viewport_offset + i];
            let shown = scene.rows@[i];
            &&& shown.lines@.len() == shown.plan.text_cols
            &&& forall|col: int|
                0 <= col < shown.lines@.len() ==> ((#[trigger] shown.lines@[col]) is Some
                    <==> row.cells@[col].width > 0 && !row.cells@[col].style.invisible && (
                row.cells@[col].style.blink ==> options.blink_visible))
            &&& shown.plan.blinking_text ==> scene.blinking_text
        },
        scene.blinking_text ==> exists|j: int|
            0 <= j < scene.rows@.len() && (#[trigger] scene.rows@[j]).plan.blinking_text,
{
    if 0 <= i < scene.rows@.len() {
        assert(scene.rows@[i].shows(*screen, i as usize, visible_cols, *options));
        assert(scene.rows@[i].plan.blinking_text ==> crate::scene::row_blinks(
            *screen,
            i,
            visible_cols,
            *options,
        ));
    }
    if scene.blinking_text {
        let j = choose|j: int|
            0 <= j < crate::scene::shown_rows(*screen, visible_rows)
                && #[trigger] crate::scene::row_blinks(*screen, j, visible_cols, *options);
        assert(scene.rows@[j].shows(*screen, j as usize, visible_cols, *options));
        assert(scene.rows@[j].plan.blinking_text);
    }
}

/// A colour that names a palette entry is that entry, a direct one is itself, and the default one
/// is what it stands for.
pub proof fn law_colours_are_resolved(
    color: TerminalColor,
    default: Rgb,
    options: &RenderOptions,
    resolved: Rgb,
)
    requires
        call_ensures(resolve, (color, default, options), resolved),
    ensures
        color == TerminalColor::Default ==> resolved == default,
        color matches TerminalColor::Indexed(i) ==> resolved == options.palette@[i as int],
        color matches TerminalColor::Rgb(r, g, b) ==> resolved == (Rgb { r, g, b }),
{
}

/// A sprite is looked for only where the font draws it.
pub proof fn law_sprites_are_drawn_on_demand(text: &str, drawn: bool, codepoint: Option<char>)
    requires
        call_ensures(sprite_codepoint, (text, drawn), codepoint),
    ensures
        !drawn ==> codepoint is None,
        drawn && text@.len() == 1 ==> codepoint == Some(text@[0]),
        drawn && text@.len() == 2 && (text@[1] == '\u{fe0e}' || text@[1] == '\u{fe0f}')
            ==> codepoint == Some(text@[0]),
        text@.len() == 0 || text@.len() > 2 ==> codepoint is None,
        text@.len() == 2 && text@[1] != '\u{fe0e}' && text@[1] != '\u{fe0f}' ==> codepoint is None,
{
}

/// Each glyph is placed in the column of the last source that begins at or before its cluster, from
/// the first advancing glyph of the same source, or from the first of them where none advances.
pub proof fn law_glyphs_are_placed_by_their_cluster(
    sources: &Vec<(usize, usize)>,
    glyphs: &Vec<(usize, bool)>,
    places: Vec<GlyphPlace>,
    i: int,
    j: int,
)
    requires
        call_ensures(place_glyphs, (sources, glyphs), places),
        sources@.len() > 0,
        0 <= i < glyphs@.len(),
        0 <= j < sources@.len(),
        sources@[j].0 <= glyphs@[i].0,
        j + 1 < sources@.len() ==> glyphs@[i].0 < sources@[j + 1].0,
        forall|a: int, b: int|
            0 <= a < b < sources@.len() ==> (#[trigger] sources@[a]).0 <= (
            #[trigger] sources@[b]).0,
    ensures
        places@.len() == glyphs@.len(),
        places@[i].col == sources@[j].1,
        glyphs@[i].1 ==> glyphs@[places@[i].anchor as int].1 && places@[i].anchor <= i,
        !glyphs@[places@[i].anchor as int].1 ==> places@[i].anchor <= i,
        j > 0 ==> sources@[j].0 <= glyphs@[places@[i].anchor as int].0,
        j + 1 < sources@.len() ==> glyphs@[places@[i].anchor as int].0 < sources@[j + 1].0,
{
    assert(sources@[0].0 <= sources@[j].0);
    law_glyphs_belong_to_the_column_of_their_cluster(sources@, glyphs@[i].0);
    let s = source_of(sources@, glyphs@[i].0);
    if s < j {
        assert(sources@[j].0 > glyphs@[i].0);
    }
    if s > j {
        assert(sources@[j + 1].0 <= sources@[s].0);
    }
    assert(s == j);
    let k = places@[i].anchor as int;
    assert(is_anchor(sources@, glyphs@, j, k));
    law_clusters_are_placed_from_their_base(sources@, glyphs@, j, k, i);
    lemma_source(sources@, glyphs@[k].0, j);
}

/// What `source_of` gives lies within its stretch, also before the first source.
proof fn lemma_source(sources: Seq<(usize, usize)>, cluster: usize, j: int)
    requires
        sources.len() > 0,
        source_of(sources, cluster) == j,
        forall|a: int, b: int|
            0 <= a < b < sources.len() ==> (#[trigger] sources[a]).0 <= (#[trigger] sources[b]).0,
    ensures
        0 <= j < sources.len(),
        j > 0 ==> sources[j].0 <= cluster,
        j + 1 < sources.len() ==> cluster < sources[j + 1].0,
{
    lemma_leading(sources, cluster, 0);
}

} // verus!
