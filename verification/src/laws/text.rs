//! What the text of a row puts on the frame.
use crate::prepare::CellPaint;
use crate::runs::{
    drawn_columns, joins, row_items, run_end, run_sources, run_text, shown_columns, ItemModel,
    SpriteCell,
};
use crate::screen::Cell;
use vstd::prelude::*;
use vstd::utf8::encode_utf8;

verus! {

/// The cell shows text: it is no second half, not hidden, not dark and no place of an image.
pub open spec fn has_text(cell: Cell, blink_visible: bool) -> bool {
    cell.width > 0 && !cell.style.invisible && (!cell.style.blink || blink_visible)
        && !cell.placeholder
}

/// The cell is drawn by itself: it is one character that a sprite stands for.
pub open spec fn stands_alone(cell: Cell) -> bool {
    cell.sprite && (cell.text@.len() == 1 || (cell.text@.len() == 2 && (cell.text@[1] == '\u{fe0e}'
        || cell.text@[1] == '\u{fe0f}')))
}

/// What a cell reads: a space where nothing was written.
pub open spec fn reads(cell: Cell) -> Seq<char> {
    if cell.empty {
        seq![' ']
    } else {
        cell.text@
    }
}

/// What the columns of the sources read, one behind the other.
pub open spec fn joined(cells: Seq<Cell>, sources: Seq<(usize, usize)>) -> Seq<char>
    decreases sources.len(),
{
    if sources.len() == 0 {
        Seq::empty()
    } else {
        joined(cells, sources.drop_last()) + reads(cells[sources.last().1 as int])
    }
}

/// The item says of its cells what they hold, in their own style and colour.
pub open spec fn is_faithful(
    cells: Seq<Cell>,
    paints: Seq<CellPaint>,
    count: int,
    blink_visible: bool,
    item: ItemModel,
) -> bool {
    match item {
        ItemModel::Sprite(sprite) => {
            let col = sprite.col as int;
            &&& 0 <= col < count
            &&& has_text(cells[col], blink_visible) && stands_alone(cells[col])
            &&& sprite.codepoint == cells[col].text@[0]
            &&& sprite.width == cells[col].width
            &&& sprite.color == paints[col].foreground
            &&& sprite.faint == paints[col].faint
        },
        ItemModel::Text(style, color, faint, text, sources) => {
            &&& text == joined(cells, sources)
            &&& sources.len() > 0
            &&& forall|j: int|
                0 <= j < sources.len() ==> {
                    let col = (#[trigger] sources[j]).1 as int;
                    &&& 0 <= col < count
                    &&& has_text(cells[col], blink_visible) && !stands_alone(cells[col])
                    &&& cells[col].style == style
                    &&& paints[col].foreground == color && paints[col].faint == faint
                    &&& sources[j].0 == encode_utf8(joined(cells, sources.take(j))).len() as usize
                }
        },
    }
}

/// Every item of a row is drawn as its cells say: a sprite's character with its width, a run's text
/// as its cells read one behind the other, each from the byte that its source names, all in the
/// style and the colour of every single cell.
pub proof fn law_items_say_what_their_cells_hold(
    cells: Seq<Cell>,
    paints: Seq<CellPaint>,
    count: int,
    blink_visible: bool,
    k: int,
)
    requires
        0 <= count <= cells.len(),
        count <= usize::MAX,
        0 <= k < row_items(cells, paints, 0, count, blink_visible).len(),
    ensures
        is_faithful(
            cells,
            paints,
            count,
            blink_visible,
            row_items(cells, paints, 0, count, blink_visible)[k],
        ),
{
    lemma_faithful(cells, paints, 0, count, blink_visible, k);
}

proof fn lemma_faithful(
    cells: Seq<Cell>,
    paints: Seq<CellPaint>,
    col: int,
    count: int,
    blink_visible: bool,
    k: int,
)
    requires
        0 <= col <= count <= cells.len(),
        count <= usize::MAX,
        0 <= k < row_items(cells, paints, col, count, blink_visible).len(),
    ensures
        is_faithful(
            cells,
            paints,
            count,
            blink_visible,
            row_items(cells, paints, col, count, blink_visible)[k],
        ),
    decreases count - col,
{
    if col < count {
        if crate::runs::is_silent(cells[col], blink_visible) {
            lemma_faithful(cells, paints, col + 1, count, blink_visible, k);
        } else if crate::runs::cell_sprite(cells[col]) is Some {
            lemma_sprite_first(cells, paints, col, count, blink_visible, cells[col].text@[0]);
            if k > 0 {
                lemma_faithful(cells, paints, col + 1, count, blink_visible, k - 1);
            }
        } else {
            assert(joins(cells, paints, col, col));
            lemma_run(cells, paints, col, col + 1, count);
            let end = run_end(cells, paints, col, col, count);
            let rest = row_items(cells, paints, end, count, blink_visible);
            let item = ItemModel::Text(
                cells[col].style,
                paints[col].foreground,
                paints[col].faint,
                run_text(cells, col, end),
                run_sources(cells, col, end),
            );
            assert(row_items(cells, paints, col, count, blink_visible) == seq![item] + rest);
            if k > 0 {
                assert((seq![item] + rest)[k] == rest[k - 1]);
                lemma_faithful(cells, paints, end, count, blink_visible, k - 1);
            } else {
                assert((seq![item] + rest)[0] == item);
                lemma_sources(cells, col, end);
                assert(run_sources(cells, col, end).len() > 0);
                assert forall|j: int| 0 <= j < run_sources(cells, col, end).len() implies {
                    let c = (#[trigger] run_sources(cells, col, end)[j]).1 as int;
                    has_text(cells[c], blink_visible) && !stands_alone(cells[c]) && cells[c].style
                        == cells[col].style && paints[c].foreground == paints[col].foreground
                        && paints[c].faint == paints[col].faint
                } by {
                    let c = run_sources(cells, col, end)[j].1 as int;
                    assert(joins(cells, paints, col, c));
                }
            }
        }
    }
}

proof fn lemma_sprite_first(
    cells: Seq<Cell>,
    paints: Seq<CellPaint>,
    col: int,
    count: int,
    blink_visible: bool,
    codepoint: char,
)
    requires
        0 <= col < count <= cells.len(),
        !crate::runs::is_silent(cells[col], blink_visible),
        crate::runs::cell_sprite(cells[col]) is Some,
        codepoint == cells[col].text@[0],
    ensures
        ({
            let items = row_items(cells, paints, col, count, blink_visible);
            let rest = row_items(cells, paints, col + 1, count, blink_visible);
            &&& items.len() == rest.len() + 1
            &&& items[0] == ItemModel::Sprite(
                SpriteCell {
                    col: col as usize,
                    codepoint,
                    width: cells[col].width,
                    color: paints[col].foreground,
                    faint: paints[col].faint,
                },
            )
            &&& forall|k: int| 0 < k < items.len() ==> items[k] == #[trigger] rest[k - 1]
            &&& forall|k: int| 0 < k < items.len() ==> #[trigger] items[k] == rest[k - 1]
        }),
{
    let rest = row_items(cells, paints, col + 1, count, blink_visible);
    let item = ItemModel::Sprite(
        SpriteCell {
            col: col as usize,
            codepoint,
            width: cells[col].width,
            color: paints[col].foreground,
            faint: paints[col].faint,
        },
    );
    let items = row_items(cells, paints, col, count, blink_visible);
    assert(items == seq![item] + rest);
    assert((seq![item] + rest)[0] == item);
}

proof fn lemma_run(
    cells: Seq<Cell>,
    paints: Seq<CellPaint>,
    first: int,
    col: int,
    count: int,
)
    requires
        first <= col <= count,
    ensures
        col <= run_end(cells, paints, first, col, count) <= count,
        forall|c: int|
            col <= c < run_end(cells, paints, first, col, count) ==> #[trigger] joins(
                cells,
                paints,
                first,
                c,
            ),
        run_end(cells, paints, first, col, count) < count ==> !joins(
            cells,
            paints,
            first,
            run_end(cells, paints, first, col, count),
        ),
    decreases count - col,
{
    if col < count && joins(cells, paints, first, col) {
        lemma_run(cells, paints, first, col + 1, count);
    }
}

proof fn lemma_sources(cells: Seq<Cell>, from: int, to: int)
    requires
        0 <= from <= to <= cells.len(),
        to <= usize::MAX,
    ensures
        ({
            let sources = run_sources(cells, from, to);
            &&& run_text(cells, from, to) == joined(cells, sources)
            &&& forall|j: int|
                0 <= j < sources.len() ==> {
                    let col = (#[trigger] sources[j]).1 as int;
                    &&& from <= col < to
                    &&& cells[col].width > 0
                    &&& sources[j].0 == encode_utf8(joined(cells, sources.take(j))).len() as usize
                }
            &&& from < to && cells[from].width > 0 ==> sources.len() > 0 && sources[0].1 == from
            &&& forall|i: int, j: int|
                0 <= i < j < sources.len() ==> (#[trigger] sources[i]).1 < (#[trigger] sources[j]).1
            &&& forall|col: int|
                from <= col < to && (#[trigger] cells[col]).width > 0 ==> exists|j: int|
                    0 <= j < sources.len() && (#[trigger] sources[j]).1 == col
        }),
    decreases to - from,
{
    let sources = run_sources(cells, from, to);
    if from < to {
        lemma_sources(cells, from, to - 1);
        let front = run_sources(cells, from, to - 1);
        if cells[to - 1].width == 0 {
            assert(run_text(cells, from, to) =~= run_text(cells, from, to - 1));
            assert forall|col: int|
                from <= col < to && (#[trigger] cells[col]).width > 0 implies exists|j: int|
                0 <= j < sources.len() && (#[trigger] sources[j]).1 == col by {
                assert(col < to - 1);
            }
        } else {
            assert(sources.drop_last() =~= front);
            assert forall|j: int| 0 <= j < sources.len() implies {
                let col = (#[trigger] sources[j]).1 as int;
                &&& from <= col < to
                &&& cells[col].width > 0
                &&& sources[j].0 == encode_utf8(joined(cells, sources.take(j))).len() as usize
            } by {
                if j < front.len() {
                    assert(sources[j] == front[j]);
                    assert(sources.take(j) =~= front.take(j));
                } else {
                    assert(sources.take(j) =~= front);
                }
            }
            assert forall|col: int|
                from <= col < to && (#[trigger] cells[col]).width > 0 implies exists|j: int|
                0 <= j < sources.len() && (#[trigger] sources[j]).1 == col by {
                if col < to - 1 {
                    let j = choose|j: int| 0 <= j < front.len() && (#[trigger] front[j]).1 == col;
                    assert(sources[j].1 == col);
                } else {
                    assert(sources[sources.len() - 1].1 == col);
                }
            }
            if from < to - 1 && cells[from].width > 0 {
                assert(sources[0] == front[0]);
            }
        }
    }
}

/// The columns whose text is drawn are those that have text, each once, from left to right.
pub proof fn law_text_is_drawn_where_it_stands(
    cells: Seq<Cell>,
    paints: Seq<CellPaint>,
    count: int,
    blink_visible: bool,
    col: usize,
)
    requires
        0 <= count <= cells.len(),
        count <= usize::MAX,
    ensures
        ({
            let drawn = drawn_columns(row_items(cells, paints, 0, count, blink_visible));
            &&& drawn.contains(col) <==> col < count && has_text(cells[col as int], blink_visible)
            &&& forall|i: int, j: int|
                0 <= i < j < drawn.len() ==> (#[trigger] drawn[i]) < (#[trigger] drawn[j])
        }),
{
    crate::runs::law_cells_are_drawn_once(cells, paints, 0, count, blink_visible);
    lemma_shown(cells, 0, count, blink_visible, col);
}

proof fn lemma_shown(cells: Seq<Cell>, from: int, to: int, blink_visible: bool, col: usize)
    requires
        0 <= from <= to <= cells.len(),
        to <= usize::MAX,
    ensures
        ({
            let shown = shown_columns(cells, from, to, blink_visible);
            &&& shown.contains(col) <==> from <= col < to && has_text(
                cells[col as int],
                blink_visible,
            )
            &&& forall|i: int| 0 <= i < shown.len() ==> from <= #[trigger] shown[i] < to
            &&& forall|i: int, j: int|
                0 <= i < j < shown.len() ==> (#[trigger] shown[i]) < (#[trigger] shown[j])
        }),
    decreases to - from,
{
    if from < to {
        lemma_shown(cells, from + 1, to, blink_visible, col);
        let rest = shown_columns(cells, from + 1, to, blink_visible);
        let shown = shown_columns(cells, from, to, blink_visible);
        if !crate::runs::is_silent(cells[from], blink_visible) {
            assert(shown == seq![from as usize] + rest);
            assert(shown[0] == from);
            assert forall|i: int| 0 < i < shown.len() implies #[trigger] shown[i] == rest[i - 1] by {}
            if rest.contains(col) {
                let i = rest.index_of(col);
                assert(shown[i + 1] == col);
            }
            if shown.contains(col) && col != from {
                let i = shown.index_of(col);
                assert(rest[i - 1] == col);
            }
        }
    }
}

/// A run is broken only where it must be: two runs with no column between them differ in style or
/// in colour.
pub proof fn law_runs_are_as_long_as_they_can_be(
    cells: Seq<Cell>,
    paints: Seq<CellPaint>,
    count: int,
    blink_visible: bool,
    k: int,
)
    requires
        0 <= count <= cells.len(),
        count <= usize::MAX,
        0 <= k,
        k + 1 < row_items(cells, paints, 0, count, blink_visible).len(),
    ensures
        ({
            let items = row_items(cells, paints, 0, count, blink_visible);
            items[k] matches ItemModel::Text(style, color, faint, _, left) ==> items[k
                + 1] matches ItemModel::Text(other, tint, weak, _, right) ==> left.last().1 + 1
                == right[0].1 ==> style != other || color != tint || faint != weak
        }),
{
    lemma_broken(cells, paints, 0, count, blink_visible, k);
}

proof fn lemma_broken(
    cells: Seq<Cell>,
    paints: Seq<CellPaint>,
    col: int,
    count: int,
    blink_visible: bool,
    k: int,
)
    requires
        0 <= col <= count <= cells.len(),
        count <= usize::MAX,
        0 <= k,
        k + 1 < row_items(cells, paints, col, count, blink_visible).len(),
    ensures
        ({
            let items = row_items(cells, paints, col, count, blink_visible);
            items[k] matches ItemModel::Text(style, color, faint, _, left) ==> items[k
                + 1] matches ItemModel::Text(other, tint, weak, _, right) ==> left.last().1 + 1
                == right[0].1 ==> style != other || color != tint || faint != weak
        }),
    decreases count - col,
{
    if col < count {
        let items = row_items(cells, paints, col, count, blink_visible);
        if crate::runs::is_silent(cells[col], blink_visible) {
            lemma_broken(cells, paints, col + 1, count, blink_visible, k);
        } else if crate::runs::cell_sprite(cells[col]) is Some {
            lemma_sprite_first(cells, paints, col, count, blink_visible, cells[col].text@[0]);
            if k > 0 {
                lemma_broken(cells, paints, col + 1, count, blink_visible, k - 1);
            }
        } else {
            assert(joins(cells, paints, col, col));
            lemma_run(cells, paints, col, col + 1, count);
            let end = run_end(cells, paints, col, col, count);
            let rest = row_items(cells, paints, end, count, blink_visible);
            let item = ItemModel::Text(
                cells[col].style,
                paints[col].foreground,
                paints[col].faint,
                run_text(cells, col, end),
                run_sources(cells, col, end),
            );
            assert(items == seq![item] + rest);
            assert(items[0] == item);
            assert(items[k + 1] == rest[k]);
            if k > 0 {
                assert(items[k] == rest[k - 1]);
                lemma_broken(cells, paints, end, count, blink_visible, k - 1);
            } else if rest[0] is Text {
                lemma_sources(cells, col, end);
                lemma_first_run(cells, paints, end, count, blink_visible);
                let left = run_sources(cells, col, end);
                let right = rest[0]->Text_4;
                if left.last().1 + 1 == right[0].1 {
                    assert(left[left.len() - 1].1 < end);
                    assert(right[0].1 == end);
                    assert(!joins(cells, paints, col, end));
                }
            }
        }
    }
}

/// The first text behind `col` lies there, and in its own style.
proof fn lemma_first_run(
    cells: Seq<Cell>,
    paints: Seq<CellPaint>,
    col: int,
    count: int,
    blink_visible: bool,
)
    requires
        0 <= col <= count <= cells.len(),
        count <= usize::MAX,
        row_items(cells, paints, col, count, blink_visible).len() > 0,
    ensures
        row_items(cells, paints, col, count, blink_visible)[0] matches ItemModel::Text(
            style,
            color,
            faint,
            _,
            sources,
        ) ==> {
            let at = sources[0].1 as int;
            &&& sources.len() > 0
            &&& col <= at < count
            &&& cells[at].style == style && paints[at].foreground == color && paints[at].faint
                == faint
            &&& crate::runs::cell_sprite(cells[at]) is None && !cells[at].placeholder
        },
    decreases count - col,
{
    if col < count {
        if crate::runs::is_silent(cells[col], blink_visible) {
            lemma_first_run(cells, paints, col + 1, count, blink_visible);
        } else if crate::runs::cell_sprite(cells[col]) is Some {
            lemma_sprite_first(cells, paints, col, count, blink_visible, cells[col].text@[0]);
        } else {
            assert(joins(cells, paints, col, col));
            lemma_run(cells, paints, col, col + 1, count);
            let end = run_end(cells, paints, col, col, count);
            let rest = row_items(cells, paints, end, count, blink_visible);
            let item = ItemModel::Text(
                cells[col].style,
                paints[col].foreground,
                paints[col].faint,
                run_text(cells, col, end),
                run_sources(cells, col, end),
            );
            assert(row_items(cells, paints, col, count, blink_visible) == seq![item] + rest);
            assert((seq![item] + rest)[0] == item);
            lemma_sources(cells, col, end);
        }
    }
}

} // verus!
