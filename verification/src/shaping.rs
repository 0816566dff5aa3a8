//! Shaped runs, rasterised glyphs and sprites that later frames find again.
use crate::atlas::{
    straight_pixels, Atlas, BitmapFormat, CachedGlyph, GlyphBitmap, RenderError, MAX_BITMAP_SIDE,
};
use crate::text::{same_text, to_chars};
use std::collections::HashMap;
use std::sync::Arc;
use vstd::prelude::*;

verus! {

/// What the cache of shaped runs may hold.
pub const MAX_SHAPED_BYTES: usize = 4 * 1024 * 1024;

/// The number of lists over which the shaped runs are spread.
pub const BUCKETS: usize = 256;

/// The face of a run.
#[derive(Clone, Copy, Debug, PartialEq, Eq, Structural)]
pub enum FontStyle {
    Regular,
    Bold,
    Italic,
    BoldItalic,
}

impl FontStyle {
    pub fn new(bold: bool, italic: bool) -> (style: FontStyle)
        ensures
            style == match (bold, italic) {
                (false, false) => FontStyle::Regular,
                (true, false) => FontStyle::Bold,
                (false, true) => FontStyle::Italic,
                (true, true) => FontStyle::BoldItalic,
            },
    {
        match (bold, italic) {
            (false, false) => FontStyle::Regular,
            (true, false) => FontStyle::Bold,
            (false, true) => FontStyle::Italic,
            (true, true) => FontStyle::BoldItalic,
        }
    }
}

/// A shaped run, with the bytes that it counts for.
pub struct ShapedRun<T> {
    pub text: String,
    pub style: FontStyle,
    pub bytes: usize,
    pub glyphs: Arc<T>,
}

/// The list to which a text belongs.
pub open spec fn bucket_of(text: Seq<char>) -> int
    decreases text.len(),
{
    if text.len() == 0 {
        0
    } else {
        (bucket_of(text.drop_last()) * 31 + text.last() as u32) % 256
    }
}

/// The run of this text and style in a list.
pub open spec fn find_run<T>(runs: Seq<ShapedRun<T>>, text: Seq<char>, style: FontStyle) -> Option<
    Arc<T>,
>
    decreases runs.len(),
{
    if runs.len() == 0 {
        None
    } else if runs.last().text@ == text && runs.last().style == style {
        Some(runs.last().glyphs)
    } else {
        find_run(runs.drop_last(), text, style)
    }
}

pub open spec fn run_bytes<T>(runs: Seq<ShapedRun<T>>) -> int
    decreases runs.len(),
{
    if runs.len() == 0 {
        0
    } else {
        run_bytes(runs.drop_last()) + runs.last().bytes
    }
}

pub open spec fn bucket_bytes<T>(buckets: Seq<Vec<ShapedRun<T>>>) -> int
    decreases buckets.len(),
{
    if buckets.len() == 0 {
        0
    } else {
        bucket_bytes(buckets.drop_last()) + run_bytes(buckets.last()@)
    }
}

/// Shaped runs by text and style, within a budget of bytes.
pub struct ShapeCache<T> {
    pub buckets: Vec<Vec<ShapedRun<T>>>,
    pub bytes: usize,
}

fn bucket_index(text: &str) -> (index: usize)
    ensures
        index == bucket_of(text@),
        index < BUCKETS,
{
    let chars = to_chars(text);
    let mut index: usize = 0;
    let mut i: usize = 0;
    while i < chars.len()
        invariant
            chars@ == text@,
            i <= chars@.len(),
            index < BUCKETS,
            index == bucket_of(text@.take(i as int)),
        decreases chars@.len() - i,
    {
        assert(text@.take(i + 1).drop_last() =~= text@.take(i as int));
        index = ((index as u64 * 31 + chars[i] as u32 as u64) % 256) as usize;
        i += 1;
    }
    assert(text@.take(i as int) =~= text@);
    index
}

proof fn lemma_bytes_push<T>(buckets: Seq<Vec<ShapedRun<T>>>, at: int, bucket: Vec<ShapedRun<T>>)
    requires
        0 <= at < buckets.len(),
    ensures
        bucket_bytes(buckets.update(at, bucket)) == bucket_bytes(buckets) - run_bytes(
            buckets[at]@,
        ) + run_bytes(bucket@),
    decreases buckets.len(),
{
    let after = buckets.update(at, bucket);
    if at == buckets.len() - 1 {
        assert(after.drop_last() =~= buckets.drop_last());
    } else {
        assert(after.drop_last() =~= buckets.drop_last().update(at, bucket));
        lemma_bytes_push(buckets.drop_last(), at, bucket);
    }
}

proof fn lemma_empty_buckets<T>(buckets: Seq<Vec<ShapedRun<T>>>)
    requires
        forall|i: int| 0 <= i < buckets.len() ==> (#[trigger] buckets[i])@.len() == 0,
    ensures
        bucket_bytes(buckets) == 0,
    decreases buckets.len(),
{
    if buckets.len() > 0 {
        assert(buckets[buckets.len() - 1]@.len() == 0);
        assert forall|i: int| 0 <= i < buckets.len() - 1 implies (
        #[trigger] buckets.drop_last()[i])@.len() == 0 by {
            assert(buckets[i]@.len() == 0);
        }
        lemma_empty_buckets(buckets.drop_last());
    }
}

impl<T> ShapeCache<T> {
    /// The bytes are those of the runs, and within the budget.
    pub open spec fn wf(self) -> bool {
        &&& self.buckets@.len() == BUCKETS
        &&& self.bytes == bucket_bytes(self.buckets@)
        &&& self.bytes <= MAX_SHAPED_BYTES
    }

    /// What the cache knows of a run.
    pub open spec fn known(self, text: Seq<char>, style: FontStyle) -> Option<Arc<T>> {
        find_run(self.buckets@[bucket_of(text)]@, text, style)
    }

    pub open spec fn is_empty(self) -> bool {
        self.bytes == 0 && forall|text: Seq<char>, style: FontStyle|
            (#[trigger] self.known(text, style)) is None
    }

    pub fn new() -> (cache: ShapeCache<T>)
        ensures
            cache.wf(),
            cache.is_empty(),
    {
        let mut buckets: Vec<Vec<ShapedRun<T>>> = Vec::new();
        while buckets.len() < BUCKETS
            invariant
                buckets@.len() <= BUCKETS,
                forall|i: int| 0 <= i < buckets@.len() ==> (#[trigger] buckets@[i])@.len() == 0,
            decreases BUCKETS - buckets@.len(),
        {
            buckets.push(Vec::new());
        }
        proof {
            lemma_empty_buckets(buckets@);
        }
        let cache = ShapeCache { buckets, bytes: 0 };
        assert forall|text: Seq<char>, style: FontStyle|
            (#[trigger] cache.known(text, style)) is None by {
            lemma_bucket_range(text);
            assert(cache.buckets@[bucket_of(text)]@.len() == 0);
        }
        cache
    }

    /// The run as it was shaped before.
    pub fn get(&self, text: &str, style: FontStyle) -> (glyphs: Option<&Arc<T>>)
        requires
            self.wf(),
        ensures
            match (glyphs, self.known(text@, style)) {
                (Some(found), Some(known)) => *found == known,
                (None, None) => true,
                _ => false,
            },
    {
        let runs = &self.buckets[bucket_index(text)];
        let mut i: usize = runs.len();
        assert(runs@.take(i as int) =~= runs@);
        while i > 0
            invariant
                i <= runs@.len(),
                runs@ == self.buckets@[bucket_of(text@)]@,
                find_run(runs@, text@, style) == find_run(runs@.take(i as int), text@, style),
            decreases i,
        {
            let run = &runs[i - 1];
            assert(runs@.take(i as int).drop_last() =~= runs@.take(i - 1));
            assert(runs@.take(i as int).last() == *run);
            if run.style == style && same_text(run.text.as_str(), text) {
                return Some(&run.glyphs);
            }
            i -= 1;
        }
        None
    }

    /// Keeps a run that the cache does not know yet; all others go where the budget has no room
    /// beside them, and one that exceeds the budget by itself is not kept at all.
    pub fn insert(&mut self, text: &str, style: FontStyle, bytes: usize, glyphs: Arc<T>)
        requires
            old(self).wf(),
            old(self).known(text@, style) is None,
        ensures
            final(self).wf(),
            bytes > MAX_SHAPED_BYTES ==> *final(self) == *old(self),
            bytes <= MAX_SHAPED_BYTES ==> {
                let evicts = old(self).bytes + bytes > MAX_SHAPED_BYTES;
                &&& final(self).bytes == if evicts {
                    bytes as int
                } else {
                    old(self).bytes + bytes
                }
                &&& forall|other: Seq<char>, face: FontStyle| #[trigger]
                    final(self).known(other, face) == if other == text@ && face == style {
                        Some(glyphs)
                    } else if evicts {
                        None
                    } else {
                        old(self).known(other, face)
                    }
            },
    {
        if bytes > MAX_SHAPED_BYTES {
            return;
        }
        if self.bytes + bytes > MAX_SHAPED_BYTES {
            *self = ShapeCache::new();
        }
        let ghost before = *self;
        let index: usize = bucket_index(text);
        let run = ShapedRun { text: text.to_owned(), style, bytes, glyphs };
        let ghost added = run;
        self.bytes = self.bytes + bytes;
        let mut bucket = Vec::new();
        std::mem::swap(&mut bucket, &mut self.buckets[index]);
        bucket.push(run);
        self.buckets.set(index, bucket);
        proof {
            assert(bucket@.drop_last() =~= before.buckets@[index as int]@);
            assert(self.buckets@ =~= before.buckets@.update(index as int, bucket));
            lemma_bytes_push(before.buckets@, index as int, bucket);
            assert forall|other: Seq<char>, face: FontStyle| #[trigger]
                self.known(other, face) == if other == text@ && face == style {
                    Some(glyphs)
                } else {
                    before.known(other, face)
                } by {
                lemma_bucket_range(other);
            }
        }
    }

    /// Forgets every run.
    pub fn clear(&mut self)
        ensures
            final(self).wf(),
            final(self).is_empty(),
    {
        *self = ShapeCache::new();
    }
}

proof fn lemma_bucket_range(text: Seq<char>)
    ensures
        0 <= bucket_of(text) < BUCKETS,
    decreases text.len(),
{
    if text.len() > 0 {
        lemma_bucket_range(text.drop_last());
    }
}

/// The key of a glyph in a font.
pub open spec fn spec_glyph_key(font: u32, glyph: u16) -> u64 {
    (font * 0x1_0000 + glyph) as u64
}

/// The key of a sprite of some width.
pub open spec fn spec_sprite_key(codepoint: char, width: u8) -> u64 {
    (codepoint as u32 * 0x100 + width) as u64
}

pub fn glyph_key(font: u32, glyph: u16) -> (key: u64)
    ensures
        key == spec_glyph_key(font, glyph),
{
    font as u64 * 0x1_0000 + glyph as u64
}

pub fn sprite_key(codepoint: char, width: u8) -> (key: u64)
    ensures
        key == spec_sprite_key(codepoint, width),
{
    codepoint as u32 as u64 * 0x100 + width as u64
}

/// The state that frames share: the atlas, what stands in it, and the shaped runs.
pub struct Renderer<T> {
    pub atlas: Atlas,
    pub glyphs: HashMap<u64, CachedGlyph>,
    pub sprites: HashMap<u64, CachedGlyph>,
    pub shaped: ShapeCache<T>,
}

impl<T> Renderer<T> {
    pub open spec fn wf(self) -> bool {
        self.atlas.wf() && self.shaped.wf()
    }

    /// Nothing is cached.
    pub open spec fn is_blank(self) -> bool {
        &&& self.atlas.pages@.len() == 0
        &&& self.atlas.uploads@.len() == 0
        &&& self.glyphs@ == Map::<u64, CachedGlyph>::empty()
        &&& self.sprites@ == Map::<u64, CachedGlyph>::empty()
        &&& self.shaped.is_empty()
    }

    pub fn new(generation: u64) -> (renderer: Renderer<T>)
        ensures
            renderer.wf(),
            renderer.is_blank(),
            renderer.atlas.generation == generation,
    {
        Renderer {
            atlas: Atlas::new(generation),
            glyphs: HashMap::new(),
            sprites: HashMap::new(),
            shaped: ShapeCache::new(),
        }
    }

    /// Atlas identity; retained frames from another generation must be rebuilt.
    pub fn generation(&self) -> (generation: u64)
        ensures
            generation == self.atlas.generation,
    {
        self.atlas.generation
    }

    /// Forgets everything under a new generation.
    pub fn clear_cache(&mut self, generation: u64)
        ensures
            final(self).wf(),
            final(self).is_blank(),
            final(self).atlas.generation == generation,
    {
        *self = Renderer::new(generation);
    }

    /// Decides on an attempt to prepare a frame that failed. The first one that found the atlas
    /// full is repeated, whole, with empty caches: a reset in its middle would invalidate the
    /// atlas coordinates of earlier quads.
    pub fn retry(&mut self, error: &RenderError, first: bool, generation: u64) -> (again: bool)
        requires
            old(self).wf(),
        ensures
            again == (first && *error is AtlasCapacity),
            final(self).wf(),
            again ==> final(self).is_blank() && final(self).atlas.generation == generation,
            !again ==> *final(self) == *old(self),
    {
        let full = match error {
            RenderError::AtlasCapacity => true,
            RenderError::Font(_) => false,
        };
        if first && full {
            self.clear_cache(generation);
            true
        } else {
            false
        }
    }

    pub fn glyph(&self, key: u64) -> (cached: Option<CachedGlyph>)
        ensures
            cached == if self.glyphs@.contains_key(key) {
                Some(self.glyphs@[key])
            } else {
                None
            },
    {
        match self.glyphs.get(&key) {
            Some(cached) => Some(*cached),
            None => None,
        }
    }

    pub fn sprite(&self, key: u64) -> (cached: Option<CachedGlyph>)
        ensures
            cached == if self.sprites@.contains_key(key) {
                Some(self.sprites@[key])
            } else {
                None
            },
    {
        match self.sprites.get(&key) {
            Some(cached) => Some(*cached),
            None => None,
        }
    }

    /// Gives a rasterised glyph its place, and remembers it.
    pub fn cache_glyph(&mut self, key: u64, bitmap: GlyphBitmap) -> (cached: Result<
        CachedGlyph,
        RenderError,
    >)
        requires
            old(self).wf(),
            bitmap.width + 2 <= MAX_BITMAP_SIDE,
            bitmap.height + 2 <= MAX_BITMAP_SIDE,
            old(self).atlas.uploads@.len() < usize::MAX,
        ensures
            final(self).wf(),
            final(self).atlas.generation == old(self).atlas.generation,
            final(self).atlas.cached(
                old(self).atlas,
                cached,
                [bitmap.width, bitmap.height],
                straight_pixels(bitmap.format, bitmap.pixels@),
                false,
            ),
            cached is Ok ==> cached->Ok_0.bearing@ == seq![bitmap.bearing_x, bitmap.bearing_y]
                && cached->Ok_0.color == (bitmap.format == BitmapFormat::Rgba),
            final(self).glyphs@ == match cached {
                Ok(cached) => old(self).glyphs@.insert(key, cached),
                Err(_) => old(self).glyphs@,
            },
            final(self).sprites == old(self).sprites,
            final(self).shaped == old(self).shaped,
    {
        let result = self.atlas.cache_bitmap(bitmap);
        if let Ok(cached) = &result {
            self.glyphs.insert(key, *cached);
        }
        result
    }

    /// Gives a sprite its place, and remembers it.
    pub fn cache_sprite(&mut self, key: u64, bitmap: GlyphBitmap) -> (cached: Result<
        CachedGlyph,
        RenderError,
    >)
        requires
            old(self).wf(),
            bitmap.width + 2 <= MAX_BITMAP_SIDE,
            bitmap.height + 2 <= MAX_BITMAP_SIDE,
            old(self).atlas.uploads@.len() < usize::MAX,
        ensures
            final(self).wf(),
            final(self).atlas.generation == old(self).atlas.generation,
            final(self).atlas.cached(
                old(self).atlas,
                cached,
                [bitmap.width, bitmap.height],
                straight_pixels(bitmap.format, bitmap.pixels@),
                false,
            ),
            cached is Ok ==> cached->Ok_0.bearing@ == seq![bitmap.bearing_x, bitmap.bearing_y]
                && cached->Ok_0.color == (bitmap.format == BitmapFormat::Rgba),
            final(self).sprites@ == match cached {
                Ok(cached) => old(self).sprites@.insert(key, cached),
                Err(_) => old(self).sprites@,
            },
            final(self).glyphs == old(self).glyphs,
            final(self).shaped == old(self).shaped,
    {
        let result = self.atlas.cache_bitmap(bitmap);
        if let Ok(cached) = &result {
            self.sprites.insert(key, *cached);
        }
        result
    }
}

/// No two glyphs share a key.
pub proof fn law_glyph_keys_are_distinct(a: (u32, u16), b: (u32, u16))
    requires
        spec_glyph_key(a.0, a.1) == spec_glyph_key(b.0, b.1),
    ensures
        a == b,
{
}

/// No two sprites share a key.
pub proof fn law_sprite_keys_are_distinct(a: (char, u8), b: (char, u8))
    requires
        spec_sprite_key(a.0, a.1) == spec_sprite_key(b.0, b.1),
    ensures
        a == b,
{
    vstd::utf8::char_u32_cast(a.0, a.0 as u32);
    vstd::utf8::char_u32_cast(b.0, b.0 as u32);
}

} // verus!
