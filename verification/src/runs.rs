//! The text of a row as runs for the font shaper, and the columns of the shaped glyphs.
use crate::prepare::{CellPaint, RenderOptions};
use crate::screen::{Cell, Rgb, Row, Style};
use crate::text::to_chars;
use vstd::prelude::*;
use vstd::string::*;
use vstd::utf8::encode_utf8;

verus! {

/// The first character of a text that is this character alone, or with a variation selector.
pub open spec fn lone_character(text: Seq<char>) -> Option<char> {
    if text.len() == 1 || (text.len() == 2 && (text[1] == '\u{fe0e}' || text[1] == '\u{fe0f}')) {
        Some(text[0])
    } else {
        None
    }
}

/// The character that is drawn as a sprite in place of the text, where `drawn` tells whether
/// sprites cover the first character and no font overrides it.
pub fn sprite_codepoint(text: &str, drawn: bool) -> (codepoint: Option<char>)
    ensures
        codepoint == if drawn {
            lone_character(text@)
        } else {
            None
        },
{
    if !drawn {
        return None;
    }
    let chars = to_chars(text);
    if chars.len() == 1 || (chars.len() == 2 && (chars[1] == '\u{fe0e}' || chars[1]
        == '\u{fe0f}')) {
        Some(chars[0])
    } else {
        None
    }
}

pub open spec fn cell_sprite(cell: Cell) -> Option<char> {
    if cell.sprite {
        lone_character(cell.text@)
    } else {
        None
    }
}

/// The cell puts no text of its own on the frame.
pub open spec fn is_silent(cell: Cell, blink_visible: bool) -> bool {
    cell.width == 0 || cell.style.invisible || (cell.style.blink && !blink_visible)
        || cell.placeholder
}

/// The colour of a cell's text.
pub open spec fn same_ink(a: CellPaint, b: CellPaint) -> bool {
    a.foreground == b.foreground && a.faint == b.faint
}

/// The cell goes on with the run that began at `first`.
pub open spec fn joins(cells: Seq<Cell>, paints: Seq<CellPaint>, first: int, col: int) -> bool {
    &&& cells[col].style == cells[first].style
    &&& same_ink(paints[col], paints[first])
    &&& cell_sprite(cells[col]) is None
    &&& !cells[col].placeholder
}

/// Where the run that began at `first` ends, from `col` on.
pub open spec fn run_end(
    cells: Seq<Cell>,
    paints: Seq<CellPaint>,
    first: int,
    col: int,
    count: int,
) -> int
    decreases count - col,
{
    if col < count && joins(cells, paints, first, col) {
        run_end(cells, paints, first, col + 1, count)
    } else {
        col
    }
}

/// What a cell adds to its run: its text, or a space where it holds none.
pub open spec fn piece(cell: Cell) -> Seq<char> {
    if cell.width == 0 {
        Seq::empty()
    } else if cell.empty {
        seq![' ']
    } else {
        cell.text@
    }
}

/// The text of the columns `from..to`.
pub open spec fn run_text(cells: Seq<Cell>, from: int, to: int) -> Seq<char>
    decreases to - from,
{
    if from >= to {
        Seq::empty()
    } else {
        run_text(cells, from, to - 1) + piece(cells[to - 1])
    }
}

/// Where in the text, in bytes, each column of `from..to` begins that has text.
pub open spec fn run_sources(cells: Seq<Cell>, from: int, to: int) -> Seq<(usize, usize)>
    decreases to - from,
{
    if from >= to {
        Seq::empty()
    } else if cells[to - 1].width == 0 {
        run_sources(cells, from, to - 1)
    } else {
        run_sources(cells, from, to - 1).push(
            (encode_utf8(run_text(cells, from, to - 1)).len() as usize, (to - 1) as usize),
        )
    }
}

/// A stretch of text in one style and colour.
#[derive(Debug)]
pub struct TextRun {
    pub style: Style,
    pub color: Rgb,
    pub faint: bool,
    pub text: String,
    /// The byte at which each column begins.
    pub sources: Vec<(usize, usize)>,
}

/// A character drawn cell by cell.
#[derive(Clone, Copy, Debug)]
pub struct SpriteCell {
    pub col: usize,
    pub codepoint: char,
    pub width: u8,
    pub color: Rgb,
    pub faint: bool,
}

/// What is drawn next on a row.
#[derive(Debug)]
pub enum RowItem {
    Sprite(SpriteCell),
    Text(TextRun),
}

/// What a row item says.
pub enum ItemModel {
    Sprite(SpriteCell),
    Text(Style, Rgb, bool, Seq<char>, Seq<(usize, usize)>),
}

impl View for RowItem {
    type V = ItemModel;

    open spec fn view(&self) -> ItemModel {
        match self {
            RowItem::Sprite(sprite) => ItemModel::Sprite(*sprite),
            RowItem::Text(run) => ItemModel::Text(
                run.style,
                run.color,
                run.faint,
                run.text@,
                run.sources@,
            ),
        }
    }
}

/// What the items say.
pub open spec fn item_models(items: Seq<RowItem>) -> Seq<ItemModel> {
    Seq::new(items.len(), |i: int| items[i]@)
}

/// The items of the columns `col..count`, in order: silent cells are skipped, sprites stand
/// alone, and every other cell begins the longest run that it can.
pub open spec fn row_items(
    cells: Seq<Cell>,
    paints: Seq<CellPaint>,
    col: int,
    count: int,
    blink_visible: bool,
) -> Seq<ItemModel>
    decreases count - col,
    when 0 <= col
    via row_items_advance
{
    if col >= count {
        Seq::empty()
    } else if is_silent(cells[col], blink_visible) {
        row_items(cells, paints, col + 1, count, blink_visible)
    } else if cell_sprite(cells[col]) is Some {
        seq![
            ItemModel::Sprite(
                SpriteCell {
                    col: col as usize,
                    codepoint: cells[col].text@[0],
                    width: cells[col].width,
                    color: paints[col].foreground,
                    faint: paints[col].faint,
                },
            ),
        ] + row_items(cells, paints, col + 1, count, blink_visible)
    } else {
        let end = run_end(cells, paints, col, col, count);
        seq![
            ItemModel::Text(
                cells[col].style,
                paints[col].foreground,
                paints[col].faint,
                run_text(cells, col, end),
                run_sources(cells, col, end),
            ),
        ] + row_items(cells, paints, end, count, blink_visible)
    }
}

#[via_fn]
proof fn row_items_advance(
    cells: Seq<Cell>,
    paints: Seq<CellPaint>,
    col: int,
    count: int,
    blink_visible: bool,
) {
    if col < count && !is_silent(cells[col], blink_visible) && cell_sprite(cells[col]) is None {
        lemma_run_end(cells, paints, col, col + 1, count);
    }
}

proof fn lemma_run_end(
    cells: Seq<Cell>,
    paints: Seq<CellPaint>,
    first: int,
    col: int,
    count: int,
)
    requires
        col <= count,
    ensures
        col <= run_end(cells, paints, first, col, count) <= count,
    decreases count - col,
{
    if col < count && joins(cells, paints, first, col) {
        lemma_run_end(cells, paints, first, col + 1, count);
    }
}

proof fn lemma_items_push(items: Seq<RowItem>, item: RowItem, tail: Seq<ItemModel>)
    ensures
        item_models(items) + (seq![item@] + tail) == item_models(items.push(item)) + tail,
{
    assert(item_models(items.push(item)) =~= item_models(items).push(item@));
    assert(item_models(items) + (seq![item@] + tail) =~= item_models(items).push(item@) + tail);
}

fn sprite_of(cell: &Cell) -> (codepoint: Option<char>)
    ensures
        codepoint == cell_sprite(*cell),
{
    sprite_codepoint(cell.text.as_str(), cell.sprite)
}

/// Hands a character on with all that its type promises.
fn same_char(c: char) -> (same: char)
    ensures
        same == c,
{
    c
}

/// Collects the run that begins at `first`.
fn text_run(row: &Row, paints: &Vec<CellPaint>, first: usize, count: usize) -> (run: (
    TextRun,
    usize,
))
    requires
        first < count <= row.cells@.len(),
        count <= paints@.len(),
    ensures
        run.1 == run_end(row.cells@, paints@, first as int, first as int, count as int),
        first <= run.1 <= count,
        run.0.style == row.cells@[first as int].style,
        run.0.color == paints@[first as int].foreground,
        run.0.faint == paints@[first as int].faint,
        run.0.text@ == run_text(row.cells@, first as int, run.1 as int),
        run.0.sources@ == run_sources(row.cells@, first as int, run.1 as int),
{
    let style = row.cells[first].style;
    let paint = paints[first];
    let mut text = String::new();
    let mut sources: Vec<(usize, usize)> = Vec::new();
    let mut col: usize = first;
    while col < count && row.cells[col].style == style && paints[col].foreground
        == paint.foreground && paints[col].faint == paint.faint && sprite_of(
        &row.cells[col],
    ).is_none() && !row.cells[col].placeholder
        invariant
            first <= col <= count <= row.cells@.len(),
            first < count <= paints@.len(),
            style == row.cells@[first as int].style,
            paint == paints@[first as int],
            run_end(row.cells@, paints@, first as int, first as int, count as int) == run_end(
                row.cells@,
                paints@,
                first as int,
                col as int,
                count as int,
            ),
            text@ == run_text(row.cells@, first as int, col as int),
            sources@ == run_sources(row.cells@, first as int, col as int),
        decreases count - col,
    {
        let cell = &row.cells[col];
        if cell.width != 0 {
            sources.push((text.as_str().len(), col));
            if cell.empty {
                text.push(' ');
                assert(text@ =~= run_text(row.cells@, first as int, col as int) + seq![' ']);
            } else {
                text.append(cell.text.as_str());
            }
        } else {
            assert(text@ + Seq::<char>::empty() =~= text@);
        }
        col += 1;
    }
    (TextRun { style, color: paint.foreground, faint: paint.faint, text, sources }, col)
}

/// Splits the written columns of a row into sprites and runs.
pub fn split_row(
    row: &Row,
    paints: &Vec<CellPaint>,
    text_cols: usize,
    options: &RenderOptions,
) -> (items: Vec<RowItem>)
    requires
        text_cols <= row.cells@.len(),
        text_cols <= paints@.len(),
    ensures
        item_models(items@) == row_items(
            row.cells@,
            paints@,
            0,
            text_cols as int,
            options.blink_visible,
        ),
{
    let mut items: Vec<RowItem> = Vec::new();
    let mut col: usize = 0;
    let ghost all = row_items(row.cells@, paints@, 0, text_cols as int, options.blink_visible);
    assert(item_models(items@) =~= Seq::empty());
    assert(Seq::<ItemModel>::empty() + all =~= all);
    while col < text_cols
        invariant
            col <= text_cols <= row.cells@.len(),
            text_cols <= paints@.len(),
            all == item_models(items@) + row_items(
                row.cells@,
                paints@,
                col as int,
                text_cols as int,
                options.blink_visible,
            ),
        decreases text_cols - col,
    {
        let cell = &row.cells[col];
        let ghost before = items@;
        let ghost rest = row_items(
            row.cells@,
            paints@,
            col as int,
            text_cols as int,
            options.blink_visible,
        );
        if cell.width == 0 || cell.style.invisible || (cell.style.blink && !options.blink_visible)
            || cell.placeholder {
            col += 1;
            continue ;
        }
        let (item, next) = match sprite_of(cell) {
            Some(codepoint) => (
                RowItem::Sprite(
                    SpriteCell {
                        col,
                        codepoint: same_char(codepoint),
                        width: cell.width,
                        color: paints[col].foreground,
                        faint: paints[col].faint,
                    },
                ),
                col + 1,
            ),
            None => {
                proof {
                    lemma_run_end(row.cells@, paints@, col as int, col + 1, text_cols as int);
                    assert(joins(row.cells@, paints@, col as int, col as int));
                }
                let (run, end) = text_run(row, paints, col, text_cols);
                (RowItem::Text(run), end)
            },
        };
        let ghost model = item@;
        items.push(item);
        proof {
            let tail = row_items(
                row.cells@,
                paints@,
                next as int,
                text_cols as int,
                options.blink_visible,
            );
            assert(rest == seq![model] + tail);
            lemma_items_push(before, items@.last(), tail);
            assert(items@ == before.push(items@.last()));
        }
        col = next;
    }
    assert(item_models(items@) + Seq::empty() =~= item_models(items@));
    items
}

/// The column source of a glyph: the last that begins at or before its cluster.
pub open spec fn source_of(sources: Seq<(usize, usize)>, cluster: usize) -> int {
    let begun = leading(sources, cluster, 0);
    if begun > 0 {
        begun - 1
    } else {
        0
    }
}

/// How many of the sources from `from` on lead the list with a byte up to `cluster`.
pub open spec fn leading(sources: Seq<(usize, usize)>, cluster: usize, from: int) -> int
    decreases sources.len() - from,
{
    if 0 <= from < sources.len() && sources[from].0 <= cluster {
        leading(sources, cluster, from + 1)
    } else {
        from
    }
}

proof fn lemma_leading(sources: Seq<(usize, usize)>, cluster: usize, from: int)
    requires
        0 <= from <= sources.len(),
    ensures
        from <= leading(sources, cluster, from) <= sources.len(),
    decreases sources.len() - from,
{
    if from < sources.len() && sources[from].0 <= cluster {
        lemma_leading(sources, cluster, from + 1);
    }
}

/// Where a shaped glyph goes: its column, and the glyph of its cluster whose origin stands at
/// the column's left edge.
#[derive(Clone, Copy, Debug, PartialEq, Eq, Structural)]
pub struct GlyphPlace {
    pub col: usize,
    pub anchor: usize,
}

/// The glyph `k` belongs to the source `source` and, where `advancing` asks for it, advances.
pub open spec fn candidate(
    sources: Seq<(usize, usize)>,
    glyphs: Seq<(usize, bool)>,
    source: int,
    k: int,
    advancing: bool,
) -> bool {
    &&& 0 <= k < glyphs.len()
    &&& source_of(sources, glyphs[k].0) == source
    &&& advancing ==> glyphs[k].1
}

/// `k` is the first candidate.
pub open spec fn is_first(
    sources: Seq<(usize, usize)>,
    glyphs: Seq<(usize, bool)>,
    source: int,
    k: int,
    advancing: bool,
) -> bool {
    &&& candidate(sources, glyphs, source, k, advancing)
    &&& forall|j: int| 0 <= j < k ==> !(#[trigger] candidate(sources, glyphs, source, j, advancing))
}

/// A cluster is anchored at its first advancing glyph, and one of marks alone at its first.
pub open spec fn is_anchor(
    sources: Seq<(usize, usize)>,
    glyphs: Seq<(usize, bool)>,
    source: int,
    k: int,
) -> bool {
    if exists|j: int| #[trigger] candidate(sources, glyphs, source, j, true) {
        is_first(sources, glyphs, source, k, true)
    } else {
        is_first(sources, glyphs, source, k, false)
    }
}

fn find_source(sources: &Vec<(usize, usize)>, cluster: usize) -> (source: usize)
    ensures
        source == source_of(sources@, cluster),
        sources@.len() > 0 ==> source < sources@.len(),
{
    proof {
        lemma_leading(sources@, cluster, 0);
    }
    let mut begun: usize = 0;
    while begun < sources.len() && sources[begun].0 <= cluster
        invariant
            begun <= sources@.len(),
            leading(sources@, cluster, 0) == leading(sources@, cluster, begun as int),
        decreases sources@.len() - begun,
    {
        begun += 1;
    }
    if begun > 0 {
        begun - 1
    } else {
        0
    }
}

/// Places the glyphs of a run, given the cluster of each and whether it advances.
pub fn place_glyphs(sources: &Vec<(usize, usize)>, glyphs: &Vec<(usize, bool)>) -> (places: Vec<
    GlyphPlace,
>)
    requires
        glyphs@.len() > 0 ==> sources@.len() > 0,
    ensures
        places@.len() == glyphs@.len(),
        forall|i: int|
            0 <= i < glyphs@.len() ==> {
                let source = source_of(sources@, glyphs@[i].0);
                &&& (#[trigger] places@[i]).col == sources@[source].1
                &&& is_anchor(sources@, glyphs@, source, places@[i].anchor as int)
            },
{
    // Source indices are dense within this run, including wide cells.
    let mut anchors: Vec<Option<usize>> = Vec::new();
    while anchors.len() < sources.len()
        invariant
            anchors@.len() <= sources@.len(),
            forall|s: int| 0 <= s < anchors@.len() ==> #[trigger] anchors@[s] is None,
        decreases sources@.len() - anchors@.len(),
    {
        anchors.push(None);
    }
    let mut owners: Vec<usize> = Vec::new();
    let mut k: usize = 0;
    while k < glyphs.len()
        invariant
            glyphs@.len() > 0 ==> sources@.len() > 0,
            k <= glyphs@.len(),
            anchors@.len() == sources@.len(),
            owners@.len() == k,
            forall|j: int|
                0 <= j < k ==> #[trigger] owners@[j] == source_of(sources@, glyphs@[j].0)
                    && owners@[j] < sources@.len(),
            forall|s: int|
                0 <= s < anchors@.len() ==> match #[trigger] anchors@[s] {
                    Some(a) => a < k && is_first(sources@, glyphs@, s, a as int, true),
                    None => forall|j: int|
                        0 <= j < k ==> !(#[trigger] candidate(sources@, glyphs@, s, j, true)),
                },
        decreases glyphs@.len() - k,
    {
        let glyph = glyphs[k];
        let owner: usize = find_source(sources, glyph.0);
        owners.push(owner);
        let ghost before = anchors@;
        if glyph.1 && anchors[owner].is_none() {
            anchors.set(owner, Some(k));
            assert(candidate(sources@, glyphs@, owner as int, k as int, true));
        }
        proof {
            assert forall|s: int| 0 <= s < anchors@.len() implies match #[trigger] anchors@[s] {
                Some(a) => a < k + 1 && is_first(sources@, glyphs@, s, a as int, true),
                None => forall|j: int|
                    0 <= j < k + 1 ==> !(#[trigger] candidate(sources@, glyphs@, s, j, true)),
            } by {
                assert(match before[s] {
                    Some(a) => a < k && is_first(sources@, glyphs@, s, a as int, true),
                    None => forall|j: int|
                        0 <= j < k ==> !(#[trigger] candidate(sources@, glyphs@, s, j, true)),
                });
            }
        }
        k += 1;
    }
    let mut places: Vec<GlyphPlace> = Vec::new();
    let mut i: usize = 0;
    assert forall|s: int| 0 <= s < anchors@.len() implies match #[trigger] anchors@[s] {
        Some(a) => (a < i || is_first(sources@, glyphs@, s, a as int, true)) && is_anchor(
            sources@,
            glyphs@,
            s,
            a as int,
        ),
        None => {
            &&& forall|j: int| !(#[trigger] candidate(sources@, glyphs@, s, j, true))
            &&& forall|j: int| 0 <= j < i ==> !(#[trigger] candidate(sources@, glyphs@, s, j, false))
        },
    } by {
        if let Some(a) = anchors@[s] {
            assert(candidate(sources@, glyphs@, s, a as int, true));
        }
    }
    while i < glyphs.len()
        invariant
            i <= glyphs@.len(),
            anchors@.len() == sources@.len(),
            owners@.len() == glyphs@.len(),
            places@.len() == i,
            forall|j: int|
                0 <= j < glyphs@.len() ==> #[trigger] owners@[j] == source_of(
                    sources@,
                    glyphs@[j].0,
                ) && owners@[j] < sources@.len(),
            forall|s: int|
                0 <= s < anchors@.len() ==> match #[trigger] anchors@[s] {
                    Some(a) => is_anchor(sources@, glyphs@, s, a as int),
                    None => {
                        &&& forall|j: int| !(#[trigger] candidate(sources@, glyphs@, s, j, true))
                        &&& forall|j: int|
                            0 <= j < i ==> !(#[trigger] candidate(sources@, glyphs@, s, j, false))
                    },
                },
            forall|j: int|
                0 <= j < i ==> {
                    let source = source_of(sources@, glyphs@[j].0);
                    &&& (#[trigger] places@[j]).col == sources@[source].1
                    &&& is_anchor(sources@, glyphs@, source, places@[j].anchor as int)
                },
        decreases glyphs@.len() - i,
    {
        let owner: usize = owners[i];
        let ghost before = anchors@;
        // Mark-only clusters anchor at their first glyph, even an empty bitmap.
        let anchor: usize = match anchors[owner] {
            Some(anchor) => anchor,
            None => {
                anchors.set(owner, Some(i));
                assert(candidate(sources@, glyphs@, owner as int, i as int, false));
                i
            },
        };
        proof {
            assert(is_anchor(sources@, glyphs@, owner as int, anchor as int)) by {
                assert(match before[owner as int] {
                    Some(a) => is_anchor(sources@, glyphs@, owner as int, a as int),
                    None => true,
                });
            }
            assert forall|s: int| 0 <= s < anchors@.len() implies match #[trigger] anchors@[s] {
                Some(a) => is_anchor(sources@, glyphs@, s, a as int),
                None => {
                    &&& forall|j: int| !(#[trigger] candidate(sources@, glyphs@, s, j, true))
                    &&& forall|j: int|
                        0 <= j < i + 1 ==> !(#[trigger] candidate(sources@, glyphs@, s, j, false))
                },
            } by {
                assert(match before[s] {
                    Some(a) => is_anchor(sources@, glyphs@, s, a as int),
                    None => {
                        &&& forall|j: int| !(#[trigger] candidate(sources@, glyphs@, s, j, true))
                        &&& forall|j: int|
                            0 <= j < i ==> !(#[trigger] candidate(sources@, glyphs@, s, j, false))
                    },
                });
                if s != owner {
                    assert(!candidate(sources@, glyphs@, s, i as int, false));
                }
            }
        }
        places.push(GlyphPlace { col: sources[owner].1, anchor });
        i += 1;
    }
    places
}

/// The glyphs of one cluster stand on one anchor.
pub proof fn law_cluster_has_one_anchor(
    sources: Seq<(usize, usize)>,
    glyphs: Seq<(usize, bool)>,
    source: int,
    a: int,
    b: int,
)
    requires
        is_anchor(sources, glyphs, source, a),
        is_anchor(sources, glyphs, source, b),
    ensures
        a == b,
{
    let advancing = exists|j: int| #[trigger] candidate(sources, glyphs, source, j, true);
    assert(candidate(sources, glyphs, source, a, advancing));
    assert(candidate(sources, glyphs, source, b, advancing));
}

/// The columns whose text an item puts on the frame.
pub open spec fn item_columns(item: ItemModel) -> Seq<usize> {
    match item {
        ItemModel::Sprite(sprite) => seq![sprite.col],
        ItemModel::Text(_, _, _, _, sources) => sources.map_values(|source: (usize, usize)| source.1),
    }
}

/// The columns whose text items put on the frame, in their order.
pub open spec fn drawn_columns(items: Seq<ItemModel>) -> Seq<usize>
    decreases items.len(),
{
    if items.len() == 0 {
        Seq::empty()
    } else {
        item_columns(items[0]) + drawn_columns(items.drop_first())
    }
}

/// The columns of `from..to` that have text to show.
pub open spec fn shown_columns(cells: Seq<Cell>, from: int, to: int, blink_visible: bool) -> Seq<
    usize,
>
    decreases to - from,
{
    if from >= to {
        Seq::empty()
    } else if is_silent(cells[from], blink_visible) {
        shown_columns(cells, from + 1, to, blink_visible)
    } else {
        seq![from as usize] + shown_columns(cells, from + 1, to, blink_visible)
    }
}

proof fn lemma_shown_split(cells: Seq<Cell>, from: int, mid: int, to: int, blink_visible: bool)
    requires
        from <= mid <= to,
    ensures
        shown_columns(cells, from, to, blink_visible) == shown_columns(
            cells,
            from,
            mid,
            blink_visible,
        ) + shown_columns(cells, mid, to, blink_visible),
    decreases mid - from,
{
    let whole = shown_columns(cells, from, to, blink_visible);
    let rest = shown_columns(cells, mid, to, blink_visible);
    if from == mid {
        assert(Seq::<usize>::empty() + rest =~= rest);
    } else {
        lemma_shown_split(cells, from + 1, mid, to, blink_visible);
        assert(whole =~= shown_columns(cells, from, mid, blink_visible) + rest);
    }
}

proof fn lemma_run_columns(
    cells: Seq<Cell>,
    paints: Seq<CellPaint>,
    first: int,
    to: int,
    blink_visible: bool,
)
    requires
        0 <= first <= to,
        !is_silent(cells[first], blink_visible),
        forall|col: int| first <= col < to ==> #[trigger] joins(cells, paints, first, col),
    ensures
        run_sources(cells, first, to).map_values(|source: (usize, usize)| source.1)
            == shown_columns(cells, first, to, blink_visible),
    decreases to - first,
{
    let columns = run_sources(cells, first, to).map_values(|source: (usize, usize)| source.1);
    if first < to {
        assert(joins(cells, paints, first, to - 1));
        lemma_run_columns(cells, paints, first, to - 1, blink_visible);
        lemma_shown_split(cells, first, to - 1, to, blink_visible);
        let last = shown_columns(cells, to - 1, to, blink_visible);
        assert(shown_columns(cells, to, to, blink_visible) =~= Seq::empty());
        assert(last =~= if cells[to - 1].width == 0 {
            Seq::empty()
        } else {
            seq![(to - 1) as usize]
        });
        assert(columns =~= shown_columns(cells, first, to, blink_visible));
    } else {
        assert(columns =~= Seq::empty());
    }
}

proof fn lemma_run_joins(
    cells: Seq<Cell>,
    paints: Seq<CellPaint>,
    first: int,
    col: int,
    count: int,
)
    ensures
        forall|k: int|
            col <= k < run_end(cells, paints, first, col, count) ==> #[trigger] joins(
                cells,
                paints,
                first,
                k,
            ),
    decreases count - col,
{
    if col < count && joins(cells, paints, first, col) {
        lemma_run_joins(cells, paints, first, col + 1, count);
    }
}

proof fn lemma_drawn_first(item: ItemModel, rest: Seq<ItemModel>)
    ensures
        drawn_columns(seq![item] + rest) == item_columns(item) + drawn_columns(rest),
{
    assert((seq![item] + rest).drop_first() =~= rest);
}

proof fn lemma_sprite_item(
    cells: Seq<Cell>,
    paints: Seq<CellPaint>,
    col: int,
    count: int,
    blink_visible: bool,
    codepoint: char,
)
    requires
        0 <= col < count,
        !is_silent(cells[col], blink_visible),
        cell_sprite(cells[col]) is Some,
        codepoint == cells[col].text@[0],
    ensures
        drawn_columns(row_items(cells, paints, col, count, blink_visible)) == seq![col as usize]
            + drawn_columns(row_items(cells, paints, col + 1, count, blink_visible)),
{
    lemma_drawn_first(
        ItemModel::Sprite(
            SpriteCell {
                col: col as usize,
                codepoint,
                width: cells[col].width,
                color: paints[col].foreground,
                faint: paints[col].faint,
            },
        ),
        row_items(cells, paints, col + 1, count, blink_visible),
    );
}

/// Every cell that shows text is drawn exactly once, from left to right, and no other is.
pub proof fn law_cells_are_drawn_once(
    cells: Seq<Cell>,
    paints: Seq<CellPaint>,
    col: int,
    count: int,
    blink_visible: bool,
)
    requires
        0 <= col <= count <= cells.len(),
    ensures
        drawn_columns(row_items(cells, paints, col, count, blink_visible)) == shown_columns(
            cells,
            col,
            count,
            blink_visible,
        ),
    decreases count - col,
{
    if col < count {
        if is_silent(cells[col], blink_visible) {
            law_cells_are_drawn_once(cells, paints, col + 1, count, blink_visible);
        } else if cell_sprite(cells[col]) is Some {
            law_cells_are_drawn_once(cells, paints, col + 1, count, blink_visible);
            lemma_sprite_item(
                cells,
                paints,
                col,
                count,
                blink_visible,
                cells[col].text@[0],
            );
        } else {
            let end = run_end(cells, paints, col, col, count);
            assert(joins(cells, paints, col, col));
            lemma_run_end(cells, paints, col, col + 1, count);
            lemma_run_joins(cells, paints, col, col, count);
            lemma_run_columns(cells, paints, col, end, blink_visible);
            lemma_shown_split(cells, col, end, count, blink_visible);
            law_cells_are_drawn_once(cells, paints, end, count, blink_visible);
            lemma_drawn_first(
                ItemModel::Text(
                    cells[col].style,
                    paints[col].foreground,
                    paints[col].faint,
                    run_text(cells, col, end),
                    run_sources(cells, col, end),
                ),
                row_items(cells, paints, end, count, blink_visible),
            );
        }
    }
}

} // verus!
