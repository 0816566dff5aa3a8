//! Texts, pictures and records: how they are read, written and kept.
use crate::atlas::{
    atlas_bytes, doubled_side, page_side, straight_pixels, unpremultiplied, Atlas, BitmapFormat,
    CachedGlyph, Page, RenderError,
};
use crate::capture::{picture, pixels_from, row_stride};
use crate::formats::{
    dropped_path, feature_setting, find_char, hex_byte, hex_digit, percent_decoded, quoted_chars,
};
use crate::history::{current, HistoryModel, Record};
use crate::screen::{Cursor, Row, Screen, Selection};
use crate::shaping::{glyph_key, sprite_key, FontStyle, Renderer, ShapeCache};
use crate::text::{ascii_lower, decimal, is_digit, lowered, parsed, signed_decimal};
use crate::time::Instant;
use std::sync::Arc;
use vstd::prelude::*;
use vstd::utf8::{encode_utf8, is_ascii_chars};

verus! {

/// The number that a text writes out, digit by digit from the left.
pub open spec fn value_of(text: Seq<char>) -> int
    decreases text.len(),
{
    if text.len() == 0 {
        0
    } else {
        10 * value_of(text.drop_last()) + (text.last() as u32 - 48)
    }
}

/// A number is written in decimal digits, the first of which is no zero unless it stands alone, and
/// the digits say that number.
pub proof fn law_numbers_are_written_in_decimal(value: int)
    requires
        value >= 0,
    ensures
        decimal(value).len() > 0,
        forall|i: int|
            0 <= i < decimal(value).len() ==> 48 <= (#[trigger] decimal(value)[i]) as u32 <= 57,
        value_of(decimal(value)) == value,
        decimal(value).len() > 1 ==> decimal(value)[0] != '0',
        signed_decimal(value) == decimal(value),
        value > 0 ==> signed_decimal(-value) == seq!['-'] + decimal(value),
    decreases value,
{
    if value >= 10 {
        law_numbers_are_written_in_decimal(value / 10);
        let front = decimal(value / 10);
        assert(decimal(value).drop_last() =~= front);
        assert forall|i: int| 0 <= i < decimal(value).len() implies 48 <= (
        #[trigger] decimal(value)[i]) as u32 <= 57 by {
            if i < front.len() {
                assert(decimal(value)[i] == front[i]);
            }
        }
        assert(decimal(value)[0] == front[0]);
        if value < 100 {
            assert(front.len() == 1);
            assert(front[0] != '0');
        } else {
            law_numbers_are_written_in_decimal(value / 10 / 10);
            assert(front == decimal(value / 10 / 10).push(crate::text::digit(value / 10 % 10)));
            assert(front.len() > 1);
        }
    } else {
        assert(decimal(value).drop_last() =~= Seq::<char>::empty());
        assert(value_of(decimal(value).drop_last()) == 0);
    }
}

/// A number is read back as it was written, with a plus before it or without, where it is not beyond
/// the limit; what holds anything but digits is no number.
pub proof fn law_written_numbers_are_read(value: int, max: int)
    requires
        0 <= value,
    ensures
        value <= max ==> parsed(decimal(value), max) == Some(value) && parsed(
            seq!['+'] + decimal(value),
            max,
        ) == Some(value),
        value > max ==> parsed(decimal(value), max) is None,
        parsed(Seq::<char>::empty(), max) is None,
{
    law_numbers_are_written_in_decimal(value);
    lemma_values(decimal(value));
    let text = decimal(value);
    assert(text[0] != '+') by {
        assert(48 <= text[0] as u32);
    }
    assert(crate::text::all_digits(text)) by {
        assert forall|i: int| 0 <= i < text.len() implies is_digit(#[trigger] text[i]) by {
            assert(48 <= text[i] as u32 <= 57);
        }
    }
    let signed = seq!['+'] + text;
    assert(signed[0] == '+');
    assert(signed.skip(1) =~= text);
}

proof fn lemma_values(text: Seq<char>)
    ensures
        crate::text::digits_value(text) == value_of(text),
    decreases text.len(),
{
    if text.len() > 0 {
        lemma_values(text.drop_last());
    }
}

/// What is no digit makes a text no number.
pub proof fn law_texts_are_no_numbers(text: Seq<char>, max: int, i: int)
    requires
        0 <= i < text.len(),
        !(48 <= text[i] as u32 <= 57),
        i > 0 || text[0] != '+',
    ensures
        parsed(text, max) is None,
{
    if text[0] == '+' {
        assert(text.skip(1)[i - 1] == text[i]);
        assert(!is_digit(text.skip(1)[i - 1]));
    } else {
        assert(!is_digit(text[i]));
    }
}

/// Lower case changes the capital letters of ASCII to their small ones and nothing else of it.
pub proof fn law_lower_case_keeps_the_rest(text: Seq<char>, i: int)
    requires
        is_ascii_chars(text),
        0 <= i < text.len(),
    ensures
        lowered(text).len() == text.len(),
        'A' <= text[i] <= 'Z' ==> lowered(text)[i] as u32 == text[i] as u32 + 32,
        !('A' <= text[i] <= 'Z') ==> lowered(text)[i] == text[i],
{
    lemma_small(text[i]);
}

proof fn lemma_small(c: char)
    ensures
        'A' <= c <= 'Z' ==> ascii_lower(c) as u32 == c as u32 + 32,
        !('A' <= c <= 'Z') ==> ascii_lower(c) == c,
{
}

/// The sixteen digits stand for their values, in either case.
pub proof fn law_hexadecimal_digits_have_their_values(value: u8, byte: u8)
    ensures
        value < 10 ==> hex_digit((48 + value) as u8) == Some(value),
        10 <= value < 16 ==> hex_digit((87 + value) as u8) == Some(value) && hex_digit(
            (55 + value) as u8,
        ) == Some(value),
        hex_digit(byte) is Some <==> 48 <= byte <= 57 || 65 <= byte <= 70 || 97 <= byte <= 102,
        value < 16 ==> hex_digit(hex_byte(value as int, true)) == Some(value) && hex_digit(
            hex_byte(value as int, false),
        ) == Some(value),
{
}

/// A character is found at its first place, and behind the text where it is not there.
pub proof fn law_characters_are_found_first(text: Seq<char>, c: char, from: int)
    requires
        0 <= from <= text.len(),
    ensures
        from <= find_char(text, c, from) <= text.len(),
        find_char(text, c, from) < text.len() ==> text[find_char(text, c, from)] == c,
        forall|i: int| from <= i < find_char(text, c, from) ==> #[trigger] text[i] != c,
    decreases text.len() - from,
{
    if from < text.len() && text[from] != c {
        law_characters_are_found_first(text, c, from + 1);
    }
}

/// A dropped path is quoted for a shell and followed by a space: between the quotes each character
/// stands for itself, and a quote is left, escaped and begun anew.
pub proof fn law_dropped_paths_are_quoted(path: &str, text: String)
    requires
        call_ensures(dropped_path, (path,), text),
    ensures
        text@.len() >= 3,
        text@[0] == '\'',
        text@[text@.len() - 2] == '\'' && text@[text@.len() - 1] == ' ',
        text@.subrange(1, text@.len() - 2) == quoted_chars(path@),
{
    assert(text@.subrange(1, text@.len() - 2) =~= quoted_chars(path@));
}

/// Texts are quoted character by character.
pub proof fn law_quoting_goes_by_characters(text: Seq<char>, c: char)
    ensures
        quoted_chars(Seq::<char>::empty()).len() == 0,
        c != '\'' ==> quoted_chars(text.push(c)) == quoted_chars(text).push(c),
        c == '\'' ==> quoted_chars(text.push(c)) == quoted_chars(text) + "'\\''"@,
{
    reveal_strlit("'\\''");
    assert(text.push(c).drop_last() =~= text);
    assert("'\\''"@ =~= seq!['\'', '\\', '\'', '\'']);
    if c != '\'' {
        assert(quoted_chars(text) + seq![c] =~= quoted_chars(text).push(c));
    }
}

/// A font feature of four bytes is switched on by its name, with a plus or without, off by a minus,
/// and set by a number behind an equals sign; a minus stands before the number.
pub proof fn law_font_features_are_switched_by_their_sign(tag: Seq<char>, value: int)
    requires
        tag.len() > 0,
        tag[0] != '-',
        tag[0] != '+',
        !tag.contains('='),
        encode_utf8(tag).len() == 4,
        0 <= value <= u32::MAX,
    ensures
        feature_setting(tag) == Some((encode_utf8(tag), 1int)),
        feature_setting(seq!['+'] + tag) == Some((encode_utf8(tag), 1int)),
        feature_setting(seq!['-'] + tag) == Some((encode_utf8(tag), 0int)),
        feature_setting(tag + seq!['='] + decimal(value)) == Some((encode_utf8(tag), value)),
        feature_setting(seq!['-'] + tag + seq!['='] + decimal(value)) == Some(
            (encode_utf8(tag), 0int),
        ),
{
    law_written_numbers_are_read(value, u32::MAX as int);
    let number = decimal(value);
    lemma_feature(Seq::empty(), tag, number);
    lemma_feature(seq!['+'], tag, number);
    lemma_feature(seq!['-'], tag, number);
    assert(Seq::<char>::empty() + tag =~= tag);
    assert(Seq::<char>::empty() + tag + seq!['='] + number =~= tag + seq!['='] + number);
    assert((seq!['+'] + tag).skip(1) =~= tag);
    assert((seq!['-'] + tag).skip(1) =~= tag);
    assert((seq!['+'] + tag)[0] == '+');
    assert((seq!['-'] + tag)[0] == '-');
    assert(tag.take(tag.len() as int) =~= tag);
}

proof fn lemma_feature(sign: Seq<char>, tag: Seq<char>, number: Seq<char>)
    requires
        !tag.contains('='),
        sign.len() == 0 || sign == seq!['+'] || sign == seq!['-'],
    ensures
        find_char(sign + tag, '=', 0) == (sign + tag).len(),
        ({
            let whole = sign + tag + seq!['='] + number;
            let at = find_char(whole, '=', 0);
            &&& at == (sign + tag).len()
            &&& at < whole.len()
            &&& whole.take(at) == sign + tag
            &&& whole.skip(at + 1) == number
        }),
{
    let name = sign + tag;
    law_characters_are_found_first(name, '=', 0);
    let at = find_char(name, '=', 0);
    if at < name.len() {
        if at < sign.len() {
            assert(name[at] == sign[at]);
        } else {
            assert(name[at] == tag[at - sign.len()]);
        }
    }
    let whole = name + seq!['='] + number;
    law_characters_are_found_first(whole, '=', 0);
    let found = find_char(whole, '=', 0);
    assert(whole[name.len() as int] == '=');
    if found < name.len() {
        assert(whole[found] == name[found]);
        if found < sign.len() {
            assert(name[found] == sign[found]);
        } else {
            assert(name[found] == tag[found - sign.len()]);
        }
    }
    assert(whole.take(found) =~= name);
    assert(whole.skip(found + 1) =~= number);
}

/// A layout that is remembered comes last, for as long as the user wants, and makes an end of what
/// could be redone; with fifty of them the oldest goes. Without a time nothing is remembered.
pub proof fn law_layouts_are_remembered_for_their_time<W>(
    history: HistoryModel<W>,
    layout: W,
    timeout: u64,
    now: Instant,
)
    requires
        now.nanos + timeout <= u64::MAX,
        history.undo.len() <= 50,
    ensures
        ({
            let after = history.remembering(layout, timeout, now);
            let before = history.undo;
            &&& after.redo.len() == 0
            &&& timeout == 0 ==> after.undo == before
            &&& timeout > 0 ==> after.undo.last().layout == layout
                && after.undo.last().expires.nanos == now.nanos + timeout
            &&& timeout > 0 && before.len() < 50 ==> after.undo.len() == before.len() + 1 && (
            forall|i: int| 0 <= i < before.len() ==> #[trigger] after.undo[i] == before[i])
            &&& timeout > 0 && before.len() == 50 ==> after.undo.len() == 50 && (forall|i: int|
                0 < i < 50 ==> #[trigger] before[i] == after.undo[i - 1])
        }),
{
}

/// What has expired is gone, and the rest stays in its order.
pub proof fn law_what_has_not_expired_stays<W>(
    records: Seq<Record<W>>,
    record: Record<W>,
    now: Instant,
)
    ensures
        record.expires.nanos > now.nanos ==> current(records.push(record), now) == current(
            records,
            now,
        ).push(record),
        record.expires.nanos <= now.nanos ==> current(records.push(record), now) == current(
            records,
            now,
        ),
        current(Seq::<Record<W>>::empty(), now).len() == 0,
{
    assert(records.push(record).drop_last() =~= records);
}

/// Undo gives the layout that was remembered last, and redo the one that was put back last; each is
/// taken from its own list alone.
pub proof fn law_the_last_layout_is_taken_first<W>(history: HistoryModel<W>, now: Instant)
    requires
        forall|i: int|
            0 <= i < history.undo.len() ==> (#[trigger] history.undo[i]).expires.nanos > now.nanos,
        forall|i: int|
            0 <= i < history.redo.len() ==> (#[trigger] history.redo[i]).expires.nanos > now.nanos,
    ensures
        history.undo.len() == 0 ==> history.next(false, now) is None,
        history.redo.len() == 0 ==> history.next(true, now) is None,
        history.undo.len() > 0 ==> history.next(false, now) == Some(history.undo.last().layout)
            && history.taking(false, now) == (HistoryModel {
            undo: history.undo.drop_last(),
            redo: history.redo,
        }),
        history.redo.len() > 0 ==> history.next(true, now) == Some(history.redo.last().layout)
            && history.taking(true, now) == (HistoryModel {
            undo: history.undo,
            redo: history.redo.drop_last(),
        }),
{
    lemma_all_current(history.undo, now);
    lemma_all_current(history.redo, now);
}

proof fn lemma_all_current<W>(records: Seq<Record<W>>, now: Instant)
    requires
        forall|i: int|
            0 <= i < records.len() ==> (#[trigger] records[i]).expires.nanos > now.nanos,
    ensures
        current(records, now) == records,
    decreases records.len(),
{
    if records.len() > 0 {
        assert(records[records.len() - 1].expires.nanos > now.nanos);
        assert forall|i: int| 0 <= i < records.drop_last().len() implies (
        #[trigger] records.drop_last()[i]).expires.nanos > now.nanos by {
            assert(records.drop_last()[i] == records[i]);
        }
        lemma_all_current(records.drop_last(), now);
    }
    assert(current(records, now) =~= records);
}

/// What an undo replaced can be redone, and what a redo replaced can be undone.
pub proof fn law_replaced_layouts_go_to_the_other_list<W>(
    history: HistoryModel<W>,
    replaced: W,
    timeout: u64,
    now: Instant,
)
    requires
        now.nanos + timeout <= u64::MAX,
    ensures
        ({
            let undone = history.putting_back(false, replaced, timeout, now);
            let redone = history.putting_back(true, replaced, timeout, now);
            &&& undone.undo == history.undo && redone.redo == history.redo
            &&& undone.redo.drop_last() == history.redo && redone.undo.drop_last() == history.undo
            &&& undone.redo.last().layout == replaced && redone.undo.last().layout == replaced
            &&& undone.redo.last().expires.nanos == now.nanos + timeout
            &&& redone.undo.last().expires.nanos == now.nanos + timeout
        }),
{
    let undone = history.putting_back(false, replaced, timeout, now);
    let redone = history.putting_back(true, replaced, timeout, now);
    assert(undone.redo.drop_last() =~= history.redo);
    assert(redone.undo.drop_last() =~= history.undo);
}

/// A picture is put on the current row of a page where it fits there, else on a row of its own below
/// the tallest of the row; it is refused where neither the page nor what is left of it is large
/// enough.
pub proof fn law_pictures_are_put_on_shelves(width: u32, height: u32, origin: Option<[u32; 2]>)
    ensures
        forall|page: &mut Page|
            #![trigger call_ensures(crate::atlas::reserve, (page, width, height), origin)]
            page.wf() && call_ensures(crate::atlas::reserve, (page, width, height), origin) ==> {
                let after = *final(page);
                let same_row = page.x + width <= page.size;
                let top = if same_row {
                    page.y as int
                } else {
                    page.y + page.row_height
                };
                let left = if same_row {
                    page.x as int
                } else {
                    0
                };
                &&& origin is Some <==> width <= page.size && height <= page.size && top + height
                    <= page.size
                &&& origin is Some ==> origin->0@[0] == left && origin->0@[1] == top
                &&& origin is Some ==> after.x == left + width && after.y == top
                    && after.row_height >= height && top + after.row_height <= page.size
                &&& origin is Some && same_row ==> after.row_height >= page.row_height
                    && (after.row_height == height || after.row_height == page.row_height)
                &&& origin is Some && !same_row ==> after.row_height == height
                &&& after.size == page.size && after.image == page.image
            },
{
}

/// A page is a kilopixel wide, or twice that, and so on, as little as its picture needs.
pub proof fn law_pages_grow_by_doubling(from: int, need: int)
    requires
        from > 0,
    ensures
        doubled_side(from, need) >= need,
        doubled_side(from, need) >= from,
        doubled_side(from, need) == from || doubled_side(from, need) < 2 * need,
        from < need ==> doubled_side(from, need) == doubled_side(2 * from, need),
    decreases
            if need > from {
                need - from
            } else {
                0
            },
{
    if from < need {
        law_pages_grow_by_doubling(2 * from, need);
    }
}

/// A page holds its picture in both directions, and a small one fits the smallest page.
pub proof fn law_pages_hold_their_picture(width: int, height: int)
    ensures
        page_side(width, height) >= width && page_side(width, height) >= height,
        width <= 1024 && height <= 1024 ==> page_side(width, height) == 1024,
        page_side(width, height) == page_side(height, width),
        page_side(width, height) > 1024 ==> page_side(width, height) < 2 * width || page_side(
            width,
            height,
        ) < 2 * height,
{
    law_pages_grow_by_doubling(
        1024,
        if width >= height {
            width
        } else {
            height
        },
    );
}

/// Glyphs and images each count the four bytes of every pixel of their own pages.
pub proof fn law_pages_count_for_their_kind(pages: Seq<Page>, page: Page, image: bool)
    ensures
        atlas_bytes(Seq::<Page>::empty(), image) == 0,
        page.image == image ==> atlas_bytes(pages.push(page), image) == atlas_bytes(pages, image)
            + 4 * page.size * page.size,
        page.image != image ==> atlas_bytes(pages.push(page), image) == atlas_bytes(pages, image),
{
    assert(pages.push(page).drop_last() =~= pages);
    assert(page.size * page.size * 4 == 4 * page.size * page.size) by (nonlinear_arith);
}

/// A picture with an area stands inside its page with a pixel around it and is uploaded last, whole;
/// one without needs no place, and one that is refused uploads nothing.
pub proof fn law_pictures_are_uploaded_once(
    before: Atlas,
    after: Atlas,
    cached: Result<CachedGlyph, RenderError>,
    dimensions: [u32; 2],
    pixels: Seq<u8>,
    image: bool,
)
    requires
        after.cached(before, cached, dimensions, pixels, image),
    ensures
        dimensions[0] == 0 || dimensions[1] == 0 ==> cached is Ok && after.uploads@
            == before.uploads@,
        cached is Err ==> after.uploads@ == before.uploads@ && dimensions[0] > 0 && dimensions[1]
            > 0,
        cached is Ok ==> cached->Ok_0.size == dimensions,
        cached is Ok && dimensions[0] > 0 && dimensions[1] > 0 ==> {
            let upload = after.uploads@.last()@;
            &&& after.uploads@.len() == before.uploads@.len() + 1
            &&& forall|i: int|
                0 <= i < before.uploads@.len() ==> #[trigger] after.uploads@[i]
                    == before.uploads@[i]
            &&& upload.pixels == pixels
            &&& upload.page == cached->Ok_0.atlas && upload.page_size == cached->Ok_0.page_size
            &&& upload.size[0] == dimensions[0] && upload.size[1] == dimensions[1]
            &&& upload.origin[0] == cached->Ok_0.origin[0] && upload.origin[1]
                == cached->Ok_0.origin[1]
            &&& before.uploads@.len() < u64::MAX ==> upload.revision == before.uploads@.len() + 1
            &&& after.pages@[cached->Ok_0.atlas as int].image == image
            &&& after.pages@[cached->Ok_0.atlas as int].size == cached->Ok_0.page_size
            &&& after.pages@.len() <= before.pages@.len() + 1
        },
{
    if cached is Ok && dimensions[0] > 0 && dimensions[1] > 0 {
        assert(after.placed(before, cached->Ok_0, dimensions, pixels, image));
        assert forall|i: int| 0 <= i < before.uploads@.len() implies #[trigger] after.uploads@[i]
            == before.uploads@[i] by {
            assert(after.uploads@.drop_last()[i] == after.uploads@[i]);
        }
        let origin = cached->Ok_0.origin;
        assert(origin@[0] == origin[0] && origin@[1] == origin[1]);
        assert(dimensions@[0] == dimensions[0] && dimensions@[1] == dimensions[1]);
    }
}

/// A colour with its alpha divided out is the nearest one that gives it back; opaque colours stay,
/// clear ones are black, and none exceeds the full value.
pub proof fn law_straight_colours_give_their_premultiplied_ones(value: u8, alpha: u8)
    ensures
        alpha == 0 ==> unpremultiplied(value, alpha) == 0,
        alpha == 255 ==> unpremultiplied(value, alpha) == value,
        alpha > 0 && value >= alpha ==> unpremultiplied(value, alpha) == 255,
        alpha > 0 && value <= alpha ==> {
            let back = unpremultiplied(value, alpha) * alpha;
            2 * (back - 255 * value) <= alpha && 2 * (255 * value - back) <= alpha
        },
{
    if alpha > 0 {
        let a = alpha as int;
        let n = value * 255 + a / 2;
        let q = n / a;
        vstd::arithmetic::div_mod::lemma_fundamental_div_mod(n, a);
        vstd::arithmetic::div_mod::lemma_div_pos_is_pos(n, a);
        assert(q * a <= n < q * a + a) by (nonlinear_arith)
            requires
                n == a * q + n % a,
                0 <= n % a < a,
        ;
        if value <= alpha {
            assert(q <= 255) by (nonlinear_arith)
                requires
                    q * a <= n,
                    n <= 255 * a + a / 2,
                    a > 0,
            ;
        }
        if value >= alpha {
            assert(q >= 255) by (nonlinear_arith)
                requires
                    n < q * a + a,
                    n >= 255 * a,
                    a > 0,
            ;
        }
    }
}

/// A mask becomes white with the mask as its alpha, and a picture keeps its alpha and has it divided
/// out of its colours, pixel by pixel.
pub proof fn law_pictures_become_straight_pixel_by_pixel(pixels: Seq<u8>, pixel: int, channel: int)
    requires
        0 <= pixel,
        0 <= channel < 3,
    ensures
        straight_pixels(BitmapFormat::Alpha, pixels).len() == 4 * pixels.len(),
        pixel < pixels.len() ==> {
            let white = straight_pixels(BitmapFormat::Alpha, pixels);
            white[4 * pixel + channel] == 255 && white[4 * pixel + 3] == pixels[pixel]
        },
        4 * pixel + 3 < pixels.len() ==> {
            let straight = straight_pixels(BitmapFormat::Rgba, pixels);
            straight[4 * pixel + 3] == pixels[4 * pixel + 3] && straight[4 * pixel + channel]
                == unpremultiplied(pixels[4 * pixel + channel], pixels[4 * pixel + 3])
        },
        pixels.len() % 4 == 0 ==> straight_pixels(BitmapFormat::Rgba, pixels).len() == pixels.len(),
{
    assert((4 * pixel + channel) % 4 == channel && (4 * pixel + channel) / 4 == pixel);
    assert((4 * pixel + 3) % 4 == 3 && (4 * pixel + 3) / 4 == pixel);
}

/// A row of a mapped picture takes as many bytes as its pixels, rounded up to 256.
pub proof fn law_rows_are_padded(width: u32, stride: u32)
    requires
        width * 4 + 255 <= u32::MAX,
        call_ensures(row_stride, (width,), stride),
    ensures
        stride % 256 == 0,
        4 * width <= stride < 4 * width + 256,
{
}

/// A pixel of the picture is the one at its row and column, whatever stands between the rows, with
/// red and blue exchanged where the mapped one has blue first.
pub proof fn law_pixels_stand_at_their_row_and_column(
    mapped: Seq<u8>,
    stride: int,
    width: int,
    rows: int,
    bgra: bool,
    row: int,
    col: int,
)
    requires
        0 <= row < rows,
        0 <= col < width,
    ensures
        ({
            let taken = picture(mapped, stride, width, rows, bgra);
            let to = 4 * (row * width + col);
            let from = row * stride + 4 * col;
            &&& taken.len() == 4 * (rows * width)
            &&& taken[to + 1] == mapped[from + 1] && taken[to + 3] == mapped[from + 3]
            &&& !bgra ==> taken[to] == mapped[from] && taken[to + 2] == mapped[from + 2]
            &&& bgra ==> taken[to] == mapped[from + 2] && taken[to + 2] == mapped[from]
        }),
    decreases rows,
{
    let n = 4 * width;
    lemma_picture_length(mapped, stride, width, rows, bgra);
    lemma_picture_length(mapped, stride, width, rows - 1, bgra);
    assert(row * width + col >= 0) by (nonlinear_arith)
        requires
            0 <= row,
            0 <= width,
            0 <= col,
    ;
    let before = picture(mapped, stride, width, rows - 1, bgra);
    let last = pixels_from(mapped, (rows - 1) * stride, width, bgra);
    if row < rows - 1 {
        law_pixels_stand_at_their_row_and_column(mapped, stride, width, rows - 1, bgra, row, col);
        assert(row * width + col + 1 <= (rows - 1) * width) by (nonlinear_arith)
            requires
                row < rows - 1,
                col < width,
                0 <= width,
        ;
    } else {
        lemma_pixels(mapped, (rows - 1) * stride, width, bgra, col);
        assert(4 * (row * width + col) == before.len() + 4 * col);
        assert(last.len() == 4 * width);
    }
}

proof fn lemma_picture_length(mapped: Seq<u8>, stride: int, width: int, rows: int, bgra: bool)
    requires
        rows >= 0,
        width >= 0,
    ensures
        picture(mapped, stride, width, rows, bgra).len() == 4 * (rows * width),
    decreases rows,
{
    if rows > 0 {
        lemma_picture_length(mapped, stride, width, rows - 1, bgra);
        lemma_pixels_length(mapped, (rows - 1) * stride, width, bgra);
        assert((rows - 1) * width + width == rows * width) by (nonlinear_arith);
    } else {
        assert(0 * width == 0) by (nonlinear_arith);
    }
}

proof fn lemma_pixels_length(mapped: Seq<u8>, at: int, count: int, bgra: bool)
    requires
        count >= 0,
    ensures
        pixels_from(mapped, at, count, bgra).len() == 4 * count,
    decreases count,
{
    if count > 0 {
        lemma_pixels_length(mapped, at, count - 1, bgra);
    }
}

proof fn lemma_pixels(mapped: Seq<u8>, at: int, count: int, bgra: bool, col: int)
    requires
        0 <= col < count,
    ensures
        ({
            let taken = pixels_from(mapped, at, count, bgra);
            let from = at + 4 * col;
            &&& taken.len() == 4 * count
            &&& taken[4 * col + 1] == mapped[from + 1] && taken[4 * col + 3] == mapped[from + 3]
            &&& !bgra ==> taken[4 * col] == mapped[from] && taken[4 * col + 2] == mapped[from + 2]
            &&& bgra ==> taken[4 * col] == mapped[from + 2] && taken[4 * col + 2] == mapped[from]
        }),
    decreases count,
{
    lemma_pixels_length(mapped, at, count - 1, bgra);
    if col < count - 1 {
        lemma_pixels(mapped, at, count - 1, bgra, col);
    }
}

/// The style of a font is bold and italic as asked for.
pub proof fn law_font_styles_are_bold_and_italic_as_asked(
    bold: bool,
    italic: bool,
    style: FontStyle,
)
    requires
        call_ensures(FontStyle::new, (bold, italic), style),
    ensures
        style == FontStyle::Bold || style == FontStyle::BoldItalic <==> bold,
        style == FontStyle::Italic || style == FontStyle::BoldItalic <==> italic,
{
}

/// Shaped text is found again under its text and style until the cache is full, and text of more
/// than four megabytes is not kept.
pub proof fn law_shaped_text_is_found_again<T>(
    text: &str,
    style: FontStyle,
    bytes: usize,
    glyphs: Arc<T>,
    other: Seq<char>,
    face: FontStyle,
)
    ensures
        forall|cache: &mut ShapeCache<T>|
            #![trigger call_ensures(ShapeCache::<T>::insert, (cache, text, style, bytes, glyphs), ())]
            call_ensures(ShapeCache::<T>::insert, (cache, text, style, bytes, glyphs), ()) ==> {
                let after = *final(cache);
                &&& bytes <= 4 * 1024 * 1024 ==> after.known(text@, style) == Some(glyphs)
                &&& bytes > 4 * 1024 * 1024 ==> after == *cache
                &&& cache.bytes + bytes <= 4 * 1024 * 1024 && (other != text@ || face != style)
                    ==> after.known(other, face) == cache.known(other, face)
                &&& cache.bytes + bytes <= 4 * 1024 * 1024 ==> after.bytes == cache.bytes + bytes
                &&& cache.bytes + bytes > 4 * 1024 * 1024 && bytes <= 4 * 1024 * 1024
                    ==> after.bytes == bytes && (other != text@ || face != style ==> after.known(
                    other,
                    face,
                ) is None)
            },
{
}

/// The key of a glyph tells its font and its number, that of a sprite its character and its width.
pub proof fn law_keys_tell_what_they_stand_for(
    font: u32,
    glyph: u16,
    codepoint: char,
    width: u8,
    one: u64,
    two: u64,
)
    requires
        call_ensures(glyph_key, (font, glyph), one),
        call_ensures(sprite_key, (codepoint, width), two),
    ensures
        one / 65536 == font && one % 65536 == glyph,
        two / 256 == codepoint as u32 && two % 256 == width,
{
}

/// A full atlas is emptied and drawn into once more; other errors, and a second one, stand.
pub proof fn law_a_full_atlas_is_tried_once_more<T>(
    error: &RenderError,
    first: bool,
    generation: u64,
    again: bool,
)
    ensures
        forall|renderer: &mut Renderer<T>|
            #![trigger call_ensures(Renderer::<T>::retry, (renderer, error, first, generation), again)]
            call_ensures(Renderer::<T>::retry, (renderer, error, first, generation), again) ==> {
                let after = *final(renderer);
                &&& again <==> first && *error is AtlasCapacity
                &&& again ==> after.atlas.pages@.len() == 0 && after.atlas.uploads@.len() == 0
                    && after.atlas.generation == generation
                &&& !again ==> after == *renderer
            },
{
}

/// A picture goes to the first page of its kind that has room, its frame of one pixel included; a
/// new page is made only where none has, and only within 64 megabytes of glyphs or 320 of images.
pub proof fn law_pictures_go_to_the_first_page_with_room(
    before: Atlas,
    after: Atlas,
    cached: Result<CachedGlyph, RenderError>,
    dimensions: [u32; 2],
    pixels: Seq<u8>,
    image: bool,
    i: int,
)
    requires
        after.cached(before, cached, dimensions, pixels, image),
        0 < dimensions[0] <= 0x1000_0000,
        0 < dimensions[1] <= 0x1000_0000,
        0 <= i < before.pages@.len(),
    ensures
        ({
            let width = (dimensions[0] + 2) as u32;
            let height = (dimensions[1] + 2) as u32;
            let room = before.pages@[i].image == image && before.pages@[i].fits(width, height);
            &&& room ==> cached is Ok && cached->Ok_0.atlas <= i
            &&& room ==> after.pages@.len() == before.pages@.len()
            &&& cached is Ok && cached->Ok_0.atlas == i ==> room
            &&& before.pages@[i].image != image ==> after.pages@[i] == before.pages@[i]
            &&& after.pages@.len() >= before.pages@.len()
        }),
{
    let width = (dimensions[0] + 2) as u32;
    let height = (dimensions[1] + 2) as u32;
    let room = before.pages@[i].image == image && before.pages@[i].fits(width, height);
    let n = before.pages@.len() as int;
    if room {
        assert(!crate::atlas::reaches_page(before.pages@, n, width, height, image));
    }
}

/// A picture for which no page has room is refused exactly if its new page would go beyond what its
/// kind may hold.
pub proof fn law_the_atlas_is_full_at_its_budget(
    before: Atlas,
    after: Atlas,
    cached: Result<CachedGlyph, RenderError>,
    dimensions: [u32; 2],
    pixels: Seq<u8>,
    image: bool,
)
    requires
        after.cached(before, cached, dimensions, pixels, image),
        0 < dimensions[0] <= 0x1000_0000,
        0 < dimensions[1] <= 0x1000_0000,
        forall|i: int|
            0 <= i < before.pages@.len() ==> (#[trigger] before.pages@[i]).image != image
                || !before.pages@[i].fits((dimensions[0] + 2) as u32, (dimensions[1] + 2) as u32),
    ensures
        ({
            let side = page_side(dimensions[0] + 2, dimensions[1] + 2);
            let used = atlas_bytes(before.pages@, image);
            let budget = if image {
                335_544_320int
            } else {
                67_108_864int
            };
            &&& cached is Ok <==> used + 4 * (side * side) <= budget
            &&& cached is Ok ==> cached->Ok_0.atlas == before.pages@.len()
                && cached->Ok_0.page_size == side && cached->Ok_0.origin@ == seq![1u32, 1u32]
        }),
{
    let width = (dimensions[0] + 2) as u32;
    let height = (dimensions[1] + 2) as u32;
    let n = before.pages@.len() as int;
    assert(crate::atlas::reaches_page(before.pages@, n, width, height, image));
    law_pages_hold_their_picture(width as int, height as int);
    let side = page_side(width as int, height as int);
    assert(side <= u32::MAX);
    assert(side * side * 4 == 4 * (side * side)) by (nonlinear_arith);
}

/// A text begins with each of the parts that can be cut off its front, and what is left is the rest.
pub proof fn law_prefixes_are_cut_off(prefix: Seq<char>, rest: Seq<char>, text: Seq<char>)
    ensures
        crate::text::after_prefix(prefix + rest, prefix) == Some(rest),
        crate::text::after_prefix(text, prefix) matches Some(left) ==> text == prefix + left,
        text.len() > 0 ==> crate::text::first_of(text) == Some(text[0]),
        text.len() == 0 ==> crate::text::first_of(text) is None,
{
    assert((prefix + rest).subrange(0, prefix.len() as int) =~= prefix);
    assert((prefix + rest).skip(prefix.len() as int) =~= rest);
    if crate::text::has_prefix(text, prefix) {
        assert(text =~= text.subrange(0, prefix.len() as int) + text.skip(prefix.len() as int));
    }
}

/// Screens are put together of what they are made of, unless the viewport leaves the history, there
/// is no active row, a row is empty or two rows share an ID.
pub proof fn law_screens_hold_together(
    rows: Vec<Row>,
    history_len: usize,
    viewport_offset: usize,
    selection: Option<Selection>,
    cursor: Cursor,
    screen: Option<Screen>,
    i: int,
    j: int,
)
    requires
        call_ensures(
            Screen::new,
            (rows, history_len, viewport_offset, selection, cursor),
            screen,
        ),
    ensures
        history_len >= rows@.len() ==> screen is None,
        viewport_offset > history_len ==> screen is None,
        0 <= i < rows@.len() && rows@[i].cells@.len() == 0 ==> screen is None,
        0 <= i < j < rows@.len() && rows@[i].id == rows@[j].id ==> screen is None,
        screen matches Some(whole) ==> whole.rows == rows && whole.history_len == history_len
            && whole.viewport_offset == viewport_offset && whole.selection == selection
            && whole.cursor == cursor,
        history_len < rows@.len() && viewport_offset <= history_len && (forall|a: int|
            0 <= a < rows@.len() ==> (#[trigger] rows@[a]).cells@.len() > 0) && (forall|
            a: int,
            b: int,
        |
            0 <= a < b < rows@.len() ==> (#[trigger] rows@[a]).id != (#[trigger] rows@[b]).id)
            ==> screen is Some,
{
}

/// An escaped byte is read by its two digits, the first of which counts sixteen times, and any other
/// byte stands for itself; an escape that is cut short or has other characters is refused.
pub proof fn law_escapes_stand_for_their_bytes(
    byte: u8,
    high: u8,
    low: u8,
    upper: bool,
    rest: Seq<u8>,
)
    requires
        high < 16,
        low < 16,
    ensures
        percent_decoded(Seq::<u8>::empty()) == Some(Seq::<u8>::empty()),
        byte != 37 ==> percent_decoded(seq![byte] + rest) == match percent_decoded(rest) {
            Some(decoded) => Some(seq![byte] + decoded),
            None => None,
        },
        percent_decoded(
            seq![37u8, hex_byte(high as int, upper), hex_byte(low as int, upper)] + rest,
        ) == match percent_decoded(rest) {
            Some(decoded) => Some(seq![(high * 16 + low) as u8] + decoded),
            None => None,
        },
        percent_decoded(seq![37u8]) is None,
        percent_decoded(seq![37u8, byte]) is None,
{
    let plain = seq![byte] + rest;
    assert(plain[0] == byte);
    assert(plain.skip(1) =~= rest);
    let escaped = seq![37u8, hex_byte(high as int, upper), hex_byte(low as int, upper)] + rest;
    assert(escaped[0] == 37u8);
    assert(escaped[1] == hex_byte(high as int, upper));
    assert(escaped[2] == hex_byte(low as int, upper));
    assert(escaped.skip(3) =~= rest);
    law_hexadecimal_digits_have_their_values(high, 0);
    law_hexadecimal_digits_have_their_values(low, 0);
}

} // verus!
