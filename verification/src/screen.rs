//! What the application reads of a terminal's screen.
use std::collections::HashSet;
use vstd::prelude::*;

verus! {

/// A cell, found again by the stable ID of its row.
#[derive(Clone, Copy, Debug, PartialEq, Eq, Structural)]
pub struct GridPoint {
    pub row: u64,
    pub col: usize,
}

/// Two cells, given in either order, and the cells between them.
#[derive(Clone, Copy, Debug, PartialEq, Eq, Structural)]
pub struct Selection {
    pub start: GridPoint,
    pub end: GridPoint,
    pub rectangular: bool,
}

/// An sRGB colour.
#[derive(Clone, Copy, Debug, PartialEq, Eq, Structural)]
pub struct Rgb {
    pub r: u8,
    pub g: u8,
    pub b: u8,
}

/// A colour as a program asks for it.
#[derive(Clone, Copy, Debug, PartialEq, Eq, Structural)]
pub enum TerminalColor {
    Default,
    Indexed(u8),
    Rgb(u8, u8, u8),
}

#[derive(Clone, Copy, Debug, PartialEq, Eq, Structural)]
pub enum Underline {
    Absent,
    Single,
    Double,
    Dotted,
    Dashed,
    Curly,
}

/// How the text of a cell looks.
#[derive(Clone, Copy, Debug, PartialEq, Eq, Structural)]
pub struct Style {
    pub foreground: TerminalColor,
    pub background: TerminalColor,
    pub underline_color: TerminalColor,
    pub underline: Underline,
    pub bold: bool,
    pub italic: bool,
    pub faint: bool,
    pub blink: bool,
    pub inverse: bool,
    pub invisible: bool,
    pub strikethrough: bool,
    pub overline: bool,
}

impl Style {
    pub open spec fn plain() -> Style {
        Style {
            foreground: TerminalColor::Default,
            background: TerminalColor::Default,
            underline_color: TerminalColor::Default,
            underline: Underline::Absent,
            bold: false,
            italic: false,
            faint: false,
            blink: false,
            inverse: false,
            invisible: false,
            strikethrough: false,
            overline: false,
        }
    }
}

impl Default for Style {
    fn default() -> (style: Style)
        ensures
            style == Style::plain(),
    {
        Style {
            foreground: TerminalColor::Default,
            background: TerminalColor::Default,
            underline_color: TerminalColor::Default,
            underline: Underline::Absent,
            bold: false,
            italic: false,
            faint: false,
            blink: false,
            inverse: false,
            invisible: false,
            strikethrough: false,
            overline: false,
        }
    }
}

/// One cell of the grid.
#[derive(Clone, Debug)]
pub struct Cell {
    /// The columns that the character takes; zero in the second half of a wide one.
    pub width: u8,
    /// Nothing was ever written here: no character, no style.
    pub blank: bool,
    /// The cell holds no character.
    pub empty: bool,
    /// The cell stands for part of an image.
    pub placeholder: bool,
    /// The first character is drawn as a sprite rather than by a font.
    pub sprite: bool,
    pub text: String,
    pub style: Style,
}

/// One row of the grid.
#[derive(Clone, Debug)]
pub struct Row {
    pub id: u64,
    pub cells: Vec<Cell>,
    /// Part of a shell's prompt stands on the row.
    pub prompt: bool,
}

#[derive(Clone, Copy, Debug, PartialEq, Eq, Structural)]
pub enum CursorShape {
    Block,
    HollowBlock,
    Bar,
    Underline,
}

#[derive(Clone, Copy, Debug, PartialEq, Eq, Structural)]
pub struct Cursor {
    /// The row, counted from the top of the active area.
    pub row: usize,
    pub col: usize,
    pub visible: bool,
    pub blink: bool,
    pub shape: CursorShape,
}

/// A screen with its scrollback: the first `history_len` rows are history, the others the active
/// area, which the viewport shows shifted up by `viewport_offset` rows.
pub struct Screen {
    pub rows: Vec<Row>,
    pub history_len: usize,
    pub viewport_offset: usize,
    pub selection: Option<Selection>,
    pub cursor: Cursor,
}

/// The rows have distinct IDs.
pub open spec fn distinct_rows(rows: Seq<Row>) -> bool {
    forall|i: int, j: int|
        0 <= i < j < rows.len() ==> (#[trigger] rows[i]).id != (#[trigger] rows[j]).id
}

/// The row with this ID stands at `index`.
pub open spec fn is_row(rows: Seq<Row>, id: u64, index: int) -> bool {
    0 <= index < rows.len() && rows[index].id == id
}

impl Screen {
    /// The active area and its rows are not empty, and the viewport stays on the screen.
    pub open spec fn wf(self) -> bool {
        &&& self.history_len < self.rows@.len()
        &&& self.viewport_offset <= self.history_len
        &&& distinct_rows(self.rows@)
        &&& forall|i: int| 0 <= i < self.rows@.len() ==> (#[trigger] self.rows@[i]).cells@.len() > 0
    }

    /// The index of the first visible row.
    pub open spec fn top(self) -> int {
        self.history_len - self.viewport_offset
    }

    /// The number of visible rows.
    pub open spec fn height(self) -> int {
        self.rows@.len() - self.history_len
    }

    /// The row with this ID, if the screen has one.
    pub open spec fn index_of(self, id: u64) -> Option<int> {
        if exists|i: int| #[trigger] is_row(self.rows@, id, i) {
            Some(choose|i: int| #[trigger] is_row(self.rows@, id, i))
        } else {
            None
        }
    }

    /// Puts a screen together, unless its rows share an ID or hold no cells, or the viewport
    /// leaves it.
    pub fn new(
        rows: Vec<Row>,
        history_len: usize,
        viewport_offset: usize,
        selection: Option<Selection>,
        cursor: Cursor,
    ) -> (screen: Option<Screen>)
        ensures
            ({
                let whole = Screen { rows, history_len, viewport_offset, selection, cursor };
                screen == if whole.wf() {
                    Some(whole)
                } else {
                    None
                }
            }),
    {
        if history_len >= rows.len() || viewport_offset > history_len {
            return None;
        }
        let mut ids: HashSet<u64> = HashSet::new();
        let mut i: usize = 0;
        while i < rows.len()
            invariant
                i <= rows@.len(),
                forall|j: int, k: int|
                    0 <= j < k < i ==> (#[trigger] rows@[j]).id != (#[trigger] rows@[k]).id,
                forall|j: int| 0 <= j < i ==> (#[trigger] rows@[j]).cells@.len() > 0,
                forall|j: int| 0 <= j < i ==> ids@.contains((#[trigger] rows@[j]).id),
                forall|id: u64| #[trigger]
                    ids@.contains(id) ==> exists|j: int|
                        0 <= j < i && (#[trigger] rows@[j]).id == id,
            decreases rows@.len() - i,
        {
            if rows[i].cells.len() == 0 || ids.contains(&rows[i].id) {
                return None;
            }
            ids.insert(rows[i].id);
            assert(rows@[i as int].id == rows@[i as int].id);
            i += 1;
        }
        Some(Screen { rows, history_len, viewport_offset, selection, cursor })
    }

    /// Finds a row by its ID.
    pub fn position(&self, id: u64) -> (index: Option<usize>)
        requires
            distinct_rows(self.rows@),
        ensures
            index is Some <==> self.index_of(id) is Some,
            index is Some ==> index->0 == self.index_of(id)->0 && index->0 < self.rows@.len(),
    {
        let mut i: usize = 0;
        while i < self.rows.len()
            invariant
                i <= self.rows@.len(),
                distinct_rows(self.rows@),
                forall|j: int| 0 <= j < i ==> (#[trigger] self.rows@[j]).id != id,
            decreases self.rows@.len() - i,
        {
            if self.rows[i].id == id {
                proof {
                    assert(is_row(self.rows@, id, i as int));
                    let found = choose|j: int| #[trigger] is_row(self.rows@, id, j);
                    assert(found == i);
                }
                return Some(i);
            }
            i += 1;
        }
        assert forall|j: int| !(#[trigger] is_row(self.rows@, id, j)) by {}
        None
    }
}

} // verus!
