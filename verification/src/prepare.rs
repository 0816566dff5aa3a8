//! What a frame shows of each cell: its colours, its highlights and the cursor.
use crate::frame::SearchHighlight;
use crate::presentation::white_space;
use crate::screen::{
    Cell, CursorShape, Rgb, Row, Screen, Style, TerminalColor, Underline,
};
use crate::text::to_chars;
use vstd::prelude::*;

verus! {

/// The number of indexed colours.
pub const PALETTE_SIZE: usize = 256;

/// How a screen is painted.
#[derive(Clone, Debug)]
pub struct RenderOptions {
    pub size: [u32; 2],
    pub foreground: Rgb,
    pub background: Rgb,
    pub cursor_color: Rgb,
    pub cursor_text: Rgb,
    pub selection_background: Rgb,
    pub selection_foreground: Option<Rgb>,
    pub search_highlights: Vec<SearchHighlight>,
    pub palette: Vec<Rgb>,
    pub focused: bool,
    pub cursor_visible: bool,
    pub blink_visible: bool,
    /// The text that an input method is composing, and what is selected in it.
    pub preedit: Option<String>,
    pub preedit_selection: Option<(usize, usize)>,
}

pub open spec fn rgb(r: u8, g: u8, b: u8) -> Rgb {
    Rgb { r, g, b }
}

/// The brightness of one channel in the colour cube.
pub open spec fn cube_level(step: int) -> u8 {
    if step == 0 {
        0
    } else {
        (55 + 40 * step) as u8
    }
}

/// The sixteen named colours.
pub open spec fn base_color(index: int) -> Rgb {
    if index == 0 {
        rgb(0, 0, 0)
    } else if index == 1 {
        rgb(205, 0, 0)
    } else if index == 2 {
        rgb(0, 205, 0)
    } else if index == 3 {
        rgb(205, 205, 0)
    } else if index == 4 {
        rgb(0, 0, 238)
    } else if index == 5 {
        rgb(205, 0, 205)
    } else if index == 6 {
        rgb(0, 205, 205)
    } else if index == 7 {
        rgb(229, 229, 229)
    } else if index == 8 {
        rgb(127, 127, 127)
    } else if index == 9 {
        rgb(255, 0, 0)
    } else if index == 10 {
        rgb(0, 255, 0)
    } else if index == 11 {
        rgb(255, 255, 0)
    } else if index == 12 {
        rgb(92, 92, 255)
    } else if index == 13 {
        rgb(255, 0, 255)
    } else if index == 14 {
        rgb(0, 255, 255)
    } else {
        rgb(255, 255, 255)
    }
}

/// The sixteen named colours, a cube of six levels per channel, and twenty-four greys.
pub open spec fn standard_color(index: int) -> Rgb {
    if index < 16 {
        base_color(index)
    } else if index < 232 {
        let cell = index - 16;
        rgb(cube_level(cell / 36), cube_level((cell / 6) % 6), cube_level(cell % 6))
    } else {
        let grey = (8 + (index - 232) * 10) as u8;
        rgb(grey, grey, grey)
    }
}

fn level(step: usize) -> (value: u8)
    requires
        step < 6,
    ensures
        value == cube_level(step as int),
{
    if step == 0 {
        0
    } else {
        55 + 40 * step as u8
    }
}

/// The colours that programs find where the user configured none.
pub fn standard_palette() -> (palette: Vec<Rgb>)
    ensures
        palette@.len() == PALETTE_SIZE,
        forall|i: int| 0 <= i < PALETTE_SIZE ==> #[trigger] palette@[i] == standard_color(i),
{
    let mut palette: Vec<Rgb> = vec![
        Rgb { r: 0, g: 0, b: 0 },
        Rgb { r: 205, g: 0, b: 0 },
        Rgb { r: 0, g: 205, b: 0 },
        Rgb { r: 205, g: 205, b: 0 },
        Rgb { r: 0, g: 0, b: 238 },
        Rgb { r: 205, g: 0, b: 205 },
        Rgb { r: 0, g: 205, b: 205 },
        Rgb { r: 229, g: 229, b: 229 },
        Rgb { r: 127, g: 127, b: 127 },
        Rgb { r: 255, g: 0, b: 0 },
        Rgb { r: 0, g: 255, b: 0 },
        Rgb { r: 255, g: 255, b: 0 },
        Rgb { r: 92, g: 92, b: 255 },
        Rgb { r: 255, g: 0, b: 255 },
        Rgb { r: 0, g: 255, b: 255 },
        Rgb { r: 255, g: 255, b: 255 },
    ];
    let mut i: usize = 0;
    while i < 216
        invariant
            0 <= i <= 216,
            palette@.len() == 16 + i,
            forall|j: int| 0 <= j < palette@.len() ==> #[trigger] palette@[j] == standard_color(j),
        decreases 216 - i,
    {
        palette.push(Rgb { r: level(i / 36), g: level((i / 6) % 6), b: level(i % 6) });
        i += 1;
    }
    let mut i: usize = 0;
    while i < 24
        invariant
            0 <= i <= 24,
            palette@.len() == 232 + i,
            forall|j: int| 0 <= j < palette@.len() ==> #[trigger] palette@[j] == standard_color(j),
        decreases 24 - i,
    {
        let grey: u8 = 8 + i as u8 * 10;
        palette.push(Rgb { r: grey, g: grey, b: grey });
        i += 1;
    }
    palette
}

impl Default for RenderOptions {
    fn default() -> (options: RenderOptions)
        ensures
            options.wf(),
            options.size@ == seq![800u32, 600u32],
            options.foreground == rgb(220, 220, 220),
            options.background == rgb(24, 24, 24),
            options.cursor_color == rgb(220, 220, 220),
            options.cursor_text == rgb(24, 24, 24),
            options.selection_background == rgb(65, 85, 120),
            options.selection_foreground is None,
            options.search_highlights@.len() == 0,
            forall|i: int|
                0 <= i < PALETTE_SIZE ==> #[trigger] options.palette@[i] == standard_color(i),
            options.focused,
            options.cursor_visible,
            options.blink_visible,
            options.preedit is None && options.preedit_selection is None,
    {
        let size: [u32; 2] = [800, 600];
        assert(size@ =~= seq![800u32, 600u32]);
        RenderOptions {
            size,
            foreground: Rgb { r: 220, g: 220, b: 220 },
            background: Rgb { r: 24, g: 24, b: 24 },
            cursor_color: Rgb { r: 220, g: 220, b: 220 },
            cursor_text: Rgb { r: 24, g: 24, b: 24 },
            selection_background: Rgb { r: 65, g: 85, b: 120 },
            selection_foreground: None,
            search_highlights: Vec::new(),
            palette: standard_palette(),
            focused: true,
            cursor_visible: true,
            blink_visible: true,
            preedit: None,
            preedit_selection: None,
        }
    }
}

impl RenderOptions {
    pub open spec fn wf(self) -> bool {
        self.palette@.len() == PALETTE_SIZE
    }

    /// The colour that a program asked for.
    pub open spec fn color(self, color: TerminalColor, default: Rgb) -> Rgb {
        match color {
            TerminalColor::Default => default,
            TerminalColor::Indexed(i) => self.palette@[i as int],
            TerminalColor::Rgb(r, g, b) => rgb(r, g, b),
        }
    }

    /// An input method is composing text in front of the cursor.
    pub open spec fn composing(self) -> bool {
        self.focused && self.preedit is Some && self.preedit->0@.len() > 0
    }
}

pub fn resolve(color: TerminalColor, default: Rgb, options: &RenderOptions) -> (resolved: Rgb)
    requires
        options.wf(),
    ensures
        resolved == options.color(color, default),
{
    match color {
        TerminalColor::Default => default,
        TerminalColor::Indexed(i) => options.palette[i as usize],
        TerminalColor::Rgb(r, g, b) => Rgb { r, g, b },
    }
}

/// A selection by row indices, its ends in reading order.
#[derive(Clone, Copy, Debug, PartialEq, Eq)]
pub struct Span {
    pub start: (usize, usize),
    pub end: (usize, usize),
    pub rectangular: bool,
}

/// Reading order.
pub open spec fn precedes(a: (usize, usize), b: (usize, usize)) -> bool {
    a.0 < b.0 || (a.0 == b.0 && a.1 <= b.1)
}

fn is_before(a: (usize, usize), b: (usize, usize)) -> (before: bool)
    ensures
        before == precedes(a, b),
{
    a.0 < b.0 || (a.0 == b.0 && a.1 <= b.1)
}

impl Span {
    /// A rectangular selection takes the same columns of each row.
    pub open spec fn covers(self, row: usize, col: usize) -> bool {
        if self.rectangular {
            &&& self.start.0 <= row <= self.end.0
            &&& (self.start.1 <= col || self.end.1 <= col)
            &&& (col <= self.start.1 || col <= self.end.1)
        } else {
            precedes(self.start, (row, col)) && precedes((row, col), self.end)
        }
    }

    pub fn contains(&self, row: usize, col: usize) -> (inside: bool)
        ensures
            inside == self.covers(row, col),
    {
        if self.rectangular {
            self.start.0 <= row && row <= self.end.0 && (self.start.1 <= col || self.end.1 <= col)
                && (col <= self.start.1 || col <= self.end.1)
        } else {
            is_before(self.start, (row, col)) && is_before((row, col), self.end)
        }
    }
}

impl Screen {
    /// The selection, where both of its rows are still on the screen.
    pub open spec fn selected_span(self) -> Option<Span> {
        match self.selection {
            Some(selection) => match (
                self.index_of(selection.start.row),
                self.index_of(selection.end.row),
            ) {
                (Some(first), Some(last)) => {
                    let a = (first as usize, selection.start.col);
                    let b = (last as usize, selection.end.col);
                    Some(
                        Span {
                            start: if precedes(a, b) {
                                a
                            } else {
                                b
                            },
                            end: if precedes(a, b) {
                                b
                            } else {
                                a
                            },
                            rectangular: selection.rectangular,
                        },
                    )
                },
                _ => None,
            },
            None => None,
        }
    }

    pub fn selection_span(&self) -> (span: Option<Span>)
        requires
            self.wf(),
        ensures
            span == self.selected_span(),
    {
        match self.selection {
            Some(selection) => {
                match (self.position(selection.start.row), self.position(selection.end.row)) {
                    (Some(first), Some(last)) => {
                        let a = (first, selection.start.col);
                        let b = (last, selection.end.col);
                        let ordered = is_before(a, b);
                        Some(
                            Span {
                                start: if ordered {
                                    a
                                } else {
                                    b
                                },
                                end: if ordered {
                                    b
                                } else {
                                    a
                                },
                                rectangular: selection.rectangular,
                            },
                        )
                    },
                    _ => None,
                }
            },
            None => None,
        }
    }

    /// Whether the cursor is painted on a row of the viewport.
    pub open spec fn shows_cursor(self, options: RenderOptions, row_index: usize) -> bool {
        &&& self.cursor.visible
        &&& options.cursor_visible
        &&& (!options.focused || !self.cursor.blink || options.blink_visible)
        &&& !options.composing()
        &&& self.viewport_offset == 0
        &&& self.cursor.row == row_index
    }

    pub fn cursor_on(&self, options: &RenderOptions, row_index: usize) -> (shown: bool)
        ensures
            shown == self.shows_cursor(*options, row_index),
    {
        let composing = options.focused && match &options.preedit {
            Some(text) => !text.as_str().is_empty(),
            None => false,
        };
        self.cursor.visible && options.cursor_visible && (!options.focused || !self.cursor.blink
            || options.blink_visible) && !composing && self.viewport_offset == 0 && self.cursor.row
            == row_index
    }
}

/// The highlight lies on this cell.
pub open spec fn touches(highlight: SearchHighlight, row: u64, col: int) -> bool {
    highlight.row == row && highlight.first <= col <= highlight.last
}

/// Whether a search match lies on the cell, and whether the selected one does.
pub open spec fn match_at(highlights: Seq<SearchHighlight>, row: u64, col: int) -> Option<bool> {
    if exists|i: int| 0 <= i < highlights.len() && touches(#[trigger] highlights[i], row, col) {
        Some(
            exists|i: int|
                0 <= i < highlights.len() && touches(#[trigger] highlights[i], row, col)
                    && highlights[i].selected,
        )
    } else {
        None
    }
}

/// The row has a highlight, within its visible columns or not.
pub open spec fn row_has_match(highlights: Seq<SearchHighlight>, row: u64) -> bool {
    exists|i: int| 0 <= i < highlights.len() && (#[trigger] highlights[i]).row == row
}

fn cell_match(highlights: &Vec<SearchHighlight>, row: u64, col: usize) -> (found: Option<bool>)
    ensures
        found == match_at(highlights@, row, col as int),
{
    let mut found: Option<bool> = None;
    let mut i: usize = 0;
    assert(match_at(highlights@.take(0), row, col as int) is None);
    while i < highlights.len()
        invariant
            i <= highlights@.len(),
            found == match_at(highlights@.take(i as int), row, col as int),
        decreases highlights@.len() - i,
    {
        let highlight = highlights[i];
        let ghost before = highlights@.take(i as int);
        let ghost after = highlights@.take(i + 1);
        proof {
            assert(after =~= before.push(highlight));
            assert forall|j: int| 0 <= j < before.len() implies before[j] == after[j] by {}
            assert(after[i as int] == highlight);
        }
        if highlight.row == row && highlight.first <= col && col <= highlight.last {
            let ghost earlier = found;
            let selected = match found {
                Some(selected) => selected || highlight.selected,
                None => highlight.selected,
            };
            proof {
                assert(touches(after[i as int], row, col as int));
                if earlier == Some(true) {
                    let j = choose|j: int|
                        0 <= j < before.len() && touches(#[trigger] before[j], row, col as int)
                            && before[j].selected;
                    assert(touches(after[j], row, col as int) && after[j].selected);
                }
                if exists|j: int|
                    0 <= j < after.len() && touches(#[trigger] after[j], row, col as int)
                        && after[j].selected {
                    let j = choose|j: int|
                        0 <= j < after.len() && touches(#[trigger] after[j], row, col as int)
                            && after[j].selected;
                    if j < i {
                        assert(touches(before[j], row, col as int) && before[j].selected);
                    }
                }
            }
            found = Some(selected);
        } else {
            proof {
                assert(!touches(after[i as int], row, col as int));
                lemma_untouched(before, highlight, row, col as int);
            }
        }
        i += 1;
    }
    assert(highlights@.take(i as int) =~= highlights@);
    found
}

proof fn lemma_untouched(
    highlights: Seq<SearchHighlight>,
    other: SearchHighlight,
    row: u64,
    col: int,
)
    requires
        !touches(other, row, col),
    ensures
        match_at(highlights.push(other), row, col) == match_at(highlights, row, col),
{
    let after = highlights.push(other);
    assert forall|j: int| 0 <= j < highlights.len() implies highlights[j] == after[j] by {}
    if exists|j: int| 0 <= j < after.len() && touches(#[trigger] after[j], row, col) {
        let j = choose|j: int| 0 <= j < after.len() && touches(#[trigger] after[j], row, col);
        assert(touches(highlights[j], row, col));
    }
    if exists|j: int|
        0 <= j < after.len() && touches(#[trigger] after[j], row, col) && after[j].selected {
        let j = choose|j: int|
            0 <= j < after.len() && touches(#[trigger] after[j], row, col) && after[j].selected;
        assert(touches(highlights[j], row, col) && highlights[j].selected);
    }
    if exists|j: int| 0 <= j < highlights.len() && touches(#[trigger] highlights[j], row, col) {
        let j = choose|j: int|
            0 <= j < highlights.len() && touches(#[trigger] highlights[j], row, col);
        assert(touches(after[j], row, col));
    }
    if exists|j: int|
        0 <= j < highlights.len() && touches(#[trigger] highlights[j], row, col)
            && highlights[j].selected {
        let j = choose|j: int|
            0 <= j < highlights.len() && touches(#[trigger] highlights[j], row, col)
                && highlights[j].selected;
        assert(touches(after[j], row, col) && after[j].selected);
    }
}

fn has_match(highlights: &Vec<SearchHighlight>, row: u64) -> (found: bool)
    ensures
        found == row_has_match(highlights@, row),
{
    let mut i: usize = 0;
    while i < highlights.len()
        invariant
            i <= highlights@.len(),
            forall|j: int| 0 <= j < i ==> (#[trigger] highlights@[j]).row != row,
        decreases highlights@.len() - i,
    {
        if highlights[i].row == row {
            assert(highlights@[i as int].row == row);
            return true;
        }
        i += 1;
    }
    false
}

/// The text has a character that leaves ink.
pub open spec fn has_ink(text: Seq<char>) -> bool {
    exists|i: int| 0 <= i < text.len() && !white_space(#[trigger] text[i])
}

fn leaves_ink(text: &str) -> (ink: bool)
    ensures
        ink == has_ink(text@),
{
    let chars = to_chars(text);
    let mut i: usize = 0;
    while i < chars.len()
        invariant
            chars@ == text@,
            i <= chars@.len(),
            forall|j: int| 0 <= j < i ==> white_space(#[trigger] text@[j]),
        decreases chars@.len() - i,
    {
        if !chars[i].is_whitespace() {
            assert(!white_space(text@[i as int]));
            return true;
        }
        i += 1;
    }
    false
}

/// What the cell shows changes with the blink phase.
pub open spec fn blinks(cell: Cell) -> bool {
    &&& cell.style.blink
    &&& !cell.style.invisible
    &&& cell.width != 0
    &&& (cell.style.underline != Underline::Absent || cell.style.strikethrough
        || cell.style.overline || (!cell.placeholder && has_ink(cell.text@)))
}

fn cell_blinks(cell: &Cell) -> (found: bool)
    ensures
        found == blinks(*cell),
{
    cell.style.blink && !cell.style.invisible && cell.width != 0 && (cell.style.underline
        != Underline::Absent || cell.style.strikethrough || cell.style.overline || (
    !cell.placeholder && leaves_ink(cell.text.as_str())))
}

/// The colours of one cell. A faint foreground is painted at half its opacity, and the background
/// only where `fill` asks for it.
#[derive(Clone, Copy, Debug, PartialEq, Eq, Structural)]
pub struct CellPaint {
    pub foreground: Rgb,
    pub faint: bool,
    pub background: Rgb,
    pub fill: bool,
}

/// The colours before any highlight.
pub open spec fn own_colors(style: Style, options: RenderOptions) -> (Rgb, Rgb) {
    let fg = options.color(style.foreground, options.foreground);
    let bg = options.color(style.background, options.background);
    if style.inverse {
        (bg, fg)
    } else {
        (fg, bg)
    }
}

/// The search match on a cell; the trailing cell of a wide glyph shares its leading cell's.
pub open spec fn cell_search(row: Row, col: int, highlights: Seq<SearchHighlight>) -> Option<bool> {
    match_at(
        highlights,
        row.id,
        if row.cells@[col].width == 0 && col > 0 {
            col - 1
        } else {
            col
        },
    )
}

/// A cell shows its own colours, under the selection, under a search match, under the cursor.
pub open spec fn cell_paint(
    row: Row,
    col: int,
    selected: bool,
    block_cursor: bool,
    options: RenderOptions,
) -> CellPaint {
    let style = row.cells@[col].style;
    let found = cell_search(row, col, options.search_highlights@);
    let (own_fg, own_bg) = own_colors(style, options);
    let foreground = if block_cursor {
        options.cursor_text
    } else if found is Some {
        rgb(0, 0, 0)
    } else if selected && options.selection_foreground is Some {
        options.selection_foreground->0
    } else {
        own_fg
    };
    let background = if block_cursor {
        options.cursor_color
    } else if found == Some(true) {
        rgb(242, 165, 126)
    } else if found == Some(false) {
        rgb(255, 224, 130)
    } else if selected {
        options.selection_background
    } else {
        own_bg
    };
    CellPaint {
        foreground,
        faint: style.faint,
        background,
        fill: background != options.background || selected || found is Some || block_cursor,
    }
}

fn paint_cell(
    row: &Row,
    col: usize,
    selected: bool,
    block_cursor: bool,
    options: &RenderOptions,
) -> (paint: CellPaint)
    requires
        options.wf(),
        col < row.cells@.len(),
    ensures
        paint == cell_paint(*row, col as int, selected, block_cursor, *options),
{
    let style = row.cells[col].style;
    let mut fg = resolve(style.foreground, options.foreground, options);
    let mut bg = resolve(style.background, options.background, options);
    if style.inverse {
        let swapped = fg;
        fg = bg;
        bg = swapped;
    }
    if selected {
        bg = options.selection_background;
        if let Some(color) = options.selection_foreground {
            fg = color;
        }
    }
    let search_col: usize = if row.cells[col].width == 0 && col > 0 {
        col - 1
    } else {
        col
    };
    let search = cell_match(&options.search_highlights, row.id, search_col);
    if let Some(selected) = search {
        bg = if selected {
            Rgb { r: 242, g: 165, b: 126 }
        } else {
            Rgb { r: 255, g: 224, b: 130 }
        };
        fg = Rgb { r: 0, g: 0, b: 0 };
    }
    if block_cursor {
        bg = options.cursor_color;
        fg = options.cursor_text;
    }
    CellPaint {
        foreground: fg,
        faint: style.faint,
        background: bg,
        fill: bg != options.background || selected || search.is_some() || block_cursor,
    }
}

/// How the cursor is painted over the text.
#[derive(Clone, Copy, Debug, PartialEq, Eq, Structural)]
pub enum CursorPaint {
    /// Not at all, or in the colours of its cell.
    Absent,
    Outline,
    Bar,
    Underline,
}

/// What one row shows.
#[derive(Debug)]
pub struct RowPlan {
    /// The columns up to the last written cell; those behind it hold no text or decorations.
    pub text_cols: usize,
    /// The colours of the painted columns, `text_cols` of them or more.
    pub cells: Vec<CellPaint>,
    pub blinking_text: bool,
    pub cursor: CursorPaint,
}

/// The columns of `cells` up to the last one that was written.
pub open spec fn written_cols(cells: Seq<Cell>, n: int) -> int
    decreases n,
{
    if n <= 0 {
        0
    } else if !cells[n - 1].blank {
        n
    } else {
        written_cols(cells, n - 1)
    }
}

pub open spec fn least(a: int, b: int) -> int {
    if a <= b {
        a
    } else {
        b
    }
}

impl RowPlan {
    /// The columns that are painted: the whole visible row where something may lie on blank
    /// cells, else the written ones.
    pub open spec fn painted_cols(
        screen: Screen,
        row: Row,
        row_index: usize,
        visible_cols: int,
        options: RenderOptions,
    ) -> int {
        if screen.shows_cursor(options, row_index) || screen.selected_span() is Some
            || row_has_match(options.search_highlights@, row.id) {
            visible_cols
        } else {
            written_cols(row.cells@, visible_cols)
        }
    }

    /// The paint of one column of the row.
    pub open spec fn paint_at(
        screen: Screen,
        row: Row,
        row_index: usize,
        col: int,
        options: RenderOptions,
    ) -> CellPaint {
        cell_paint(
            row,
            col,
            screen.selected_span() is Some && screen.selected_span()->0.covers(
                (screen.top() + row_index) as usize,
                col as usize,
            ),
            screen.shows_cursor(options, row_index) && options.focused && screen.cursor.shape
                == CursorShape::Block && col == screen.cursor.col,
            options,
        )
    }

    /// A focused block is painted in its cell; an unfocused window only outlines the cursor.
    pub open spec fn cursor_paint(shown: bool, focused: bool, shape: CursorShape) -> CursorPaint {
        if !shown || (focused && shape == CursorShape::Block) {
            CursorPaint::Absent
        } else if !focused || shape == CursorShape::HollowBlock {
            CursorPaint::Outline
        } else if shape == CursorShape::Bar {
            CursorPaint::Bar
        } else {
            CursorPaint::Underline
        }
    }

    /// The plan is that of the row at `row_index` of the viewport, of which `visible` columns
    /// fit the frame.
    pub open spec fn plans(
        self,
        screen: Screen,
        row_index: usize,
        visible: usize,
        options: RenderOptions,
    ) -> bool {
        let row = screen.rows@[screen.top() + row_index];
        let visible_cols = least(visible as int, row.cells@.len() as int);
        let painted = RowPlan::painted_cols(screen, row, row_index, visible_cols, options);
        &&& self.text_cols == written_cols(row.cells@, visible_cols)
        &&& self.text_cols <= self.cells@.len() == painted <= row.cells@.len()
        &&& forall|col: int|
            0 <= col < painted ==> #[trigger] self.cells@[col] == RowPlan::paint_at(
                screen,
                row,
                row_index,
                col,
                options,
            )
        &&& self.blinking_text == exists|col: int|
            0 <= col < painted && blinks(#[trigger] row.cells@[col])
        &&& self.cursor == RowPlan::cursor_paint(
            screen.shows_cursor(options, row_index),
            options.focused,
            screen.cursor.shape,
        )
    }

    /// Plans the row at `row_index` of the viewport, of which `visible` columns fit the frame.
    pub fn new(
        screen: &Screen,
        span: Option<Span>,
        row_index: usize,
        visible: usize,
        options: &RenderOptions,
    ) -> (plan: RowPlan)
        requires
            screen.wf(),
            options.wf(),
            span == screen.selected_span(),
            row_index < screen.height(),
        ensures
            plan.plans(*screen, row_index, visible, *options),
    {
        assert(screen.rows.len() == screen.rows@.len());
        let index: usize = screen.history_len - screen.viewport_offset + row_index;
        let row = &screen.rows[index];
        let visible_cols: usize = if visible <= row.cells.len() {
            visible
        } else {
            row.cells.len()
        };
        let mut text_cols: usize = visible_cols;
        while text_cols > 0 && row.cells[text_cols - 1].blank
            invariant
                text_cols <= visible_cols <= row.cells@.len(),
                written_cols(row.cells@, text_cols as int) == written_cols(
                    row.cells@,
                    visible_cols as int,
                ),
            decreases text_cols,
        {
            text_cols -= 1;
        }
        let cursor = screen.cursor_on(options, row_index);
        let painted: usize = if cursor || span.is_some() || has_match(
            &options.search_highlights,
            row.id,
        ) {
            visible_cols
        } else {
            text_cols
        };
        let mut cells: Vec<CellPaint> = Vec::new();
        let mut blinking_text = false;
        let mut col: usize = 0;
        while col < painted
            invariant
                screen.wf(),
                options.wf(),
                span == screen.selected_span(),
                index == screen.top() + row_index < screen.rows@.len(),
                *row == screen.rows@[index as int],
                cursor == screen.shows_cursor(*options, row_index),
                col <= painted <= row.cells@.len(),
                cells@.len() == col,
                forall|c: int|
                    0 <= c < col ==> #[trigger] cells@[c] == RowPlan::paint_at(
                        *screen,
                        *row,
                        row_index,
                        c,
                        *options,
                    ),
                blinking_text == exists|c: int| 0 <= c < col && blinks(#[trigger] row.cells@[c]),
            decreases painted - col,
        {
            if cell_blinks(&row.cells[col]) {
                assert(blinks(row.cells@[col as int]));
                blinking_text = true;
            }
            let selected = match span {
                Some(span) => span.contains(index, col),
                None => false,
            };
            let block_cursor = cursor && options.focused && screen.cursor.shape
                == CursorShape::Block && col == screen.cursor.col;
            cells.push(paint_cell(row, col, selected, block_cursor, options));
            col += 1;
        }
        let cursor = if !cursor || (options.focused && screen.cursor.shape == CursorShape::Block) {
            CursorPaint::Absent
        } else if !options.focused || screen.cursor.shape == CursorShape::HollowBlock {
            CursorPaint::Outline
        } else if screen.cursor.shape == CursorShape::Bar {
            CursorPaint::Bar
        } else {
            CursorPaint::Underline
        };
        RowPlan { text_cols, cells, blinking_text, cursor }
    }
}

/// The lines over, through and under a cell.
#[derive(Clone, Copy, Debug, PartialEq, Eq, Structural)]
pub struct Decoration {
    pub underline: Underline,
    pub underline_color: Rgb,
    /// The underline takes the foreground, and is as faint.
    pub underline_faint: bool,
    pub strikethrough: bool,
    pub overline: bool,
    pub color: Rgb,
    pub faint: bool,
}

/// The lines of a cell that shows text in `paint`, if they show in this blink phase.
pub open spec fn cell_decoration(
    cell: Cell,
    paint: CellPaint,
    options: RenderOptions,
) -> Option<Decoration> {
    let style = cell.style;
    if cell.width == 0 || style.invisible || (style.blink && !options.blink_visible) {
        None
    } else {
        let own = style.underline_color == TerminalColor::Default;
        Some(
            Decoration {
                underline: style.underline,
                underline_color: if own {
                    paint.foreground
                } else {
                    options.color(style.underline_color, options.foreground)
                },
                underline_faint: own && paint.faint,
                strikethrough: style.strikethrough,
                overline: style.overline,
                color: paint.foreground,
                faint: paint.faint,
            },
        )
    }
}

pub fn decoration(cell: &Cell, paint: CellPaint, options: &RenderOptions) -> (lines: Option<
    Decoration,
>)
    requires
        options.wf(),
    ensures
        lines == cell_decoration(*cell, paint, *options),
{
    let style = cell.style;
    if cell.width == 0 || style.invisible || (style.blink && !options.blink_visible) {
        return None;
    }
    let own = style.underline_color == TerminalColor::Default;
    Some(
        Decoration {
            underline: style.underline,
            underline_color: if own {
                paint.foreground
            } else {
                resolve(style.underline_color, options.foreground, options)
            },
            underline_faint: own && paint.faint,
            strikethrough: style.strikethrough,
            overline: style.overline,
            color: paint.foreground,
            faint: paint.faint,
        },
    )
}

/// The trailing half of a wide character is highlighted exactly as its leading half.
pub proof fn law_wide_cells_share_their_match(row: Row, col: int, highlights: Seq<SearchHighlight>)
    requires
        0 < col < row.cells@.len(),
        row.cells@[col].width == 0,
        row.cells@[col - 1].width != 0,
    ensures
        cell_search(row, col, highlights) == cell_search(row, col - 1, highlights),
{
}

/// Columns that no row plan paints show the plain background: they are blank, and neither the
/// selection, a search match nor the cursor is on their row.
pub proof fn law_unpainted_cells_are_blank(
    screen: Screen,
    row: Row,
    row_index: usize,
    visible_cols: int,
    col: int,
    options: RenderOptions,
)
    requires
        0 <= visible_cols <= row.cells@.len(),
        RowPlan::painted_cols(screen, row, row_index, visible_cols, options) <= col < visible_cols,
    ensures
        row.cells@[col].blank,
        screen.selected_span() is None,
        !row_has_match(options.search_highlights@, row.id),
        !screen.shows_cursor(options, row_index),
{
    lemma_written(row.cells@, visible_cols, col);
}

proof fn lemma_written(cells: Seq<Cell>, n: int, col: int)
    requires
        0 <= n <= cells.len(),
        written_cols(cells, n) <= col < n,
    ensures
        cells[col].blank,
    decreases n,
{
    if col < n - 1 {
        lemma_written(cells, n - 1, col);
    }
}

/// A row whose search match was resolved paints every cell of the match over its own colours.
pub proof fn law_matches_cover_the_selection(
    row: Row,
    col: int,
    selected: bool,
    options: RenderOptions,
)
    requires
        cell_search(row, col, options.search_highlights@) is Some,
    ensures
        cell_paint(row, col, selected, false, options).fill,
        cell_paint(row, col, selected, false, options) == cell_paint(
            row,
            col,
            !selected,
            false,
            options,
        ),
{
}

} // verus!
