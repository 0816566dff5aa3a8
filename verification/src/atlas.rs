//! The glyph atlas: pages of pixels, filled shelf by shelf within a byte budget.
use std::sync::Arc;
use vstd::arithmetic::power2::pow2;
use vstd::prelude::*;

verus! {

/// The side of an ordinary page, in pixels.
pub const PAGE_SIZE: u32 = 1024;

/// What the pages of glyphs may hold together.
pub const MAX_ATLAS_BYTES: u64 = 64 * 1024 * 1024;

/// What the pages of images may hold together.
pub const MAX_IMAGE_ATLAS_BYTES: u64 = 320 * 1024 * 1024;

/// The longest side of a bitmap that can be given a page, its border counted.
pub const MAX_BITMAP_SIDE: u32 = 0x4000_0000;

/// Why a frame could not be prepared.
#[derive(Clone, Debug, PartialEq, Eq)]
pub enum RenderError {
    Font(String),
    AtlasCapacity,
}

impl RenderError {
    pub fn message(&self) -> (message: String)
        ensures
            message@ == match *self {
                RenderError::Font(error) => error@,
                RenderError::AtlasCapacity =>
                    "visible terminal glyphs exceed the 64 MiB atlas budget"@,
            },
    {
        match self {
            RenderError::Font(error) => error.as_str().to_owned(),
            RenderError::AtlasCapacity =>
                "visible terminal glyphs exceed the 64 MiB atlas budget".to_owned(),
        }
    }
}

/// A square page. Rectangles stand side by side on the shelf that begins at row `y`; `x` is the
/// free column of that shelf and `row_height` the height of its tallest rectangle.
#[derive(Clone, Copy, Debug, PartialEq, Eq, Structural)]
pub struct Page {
    pub x: u32,
    pub y: u32,
    pub row_height: u32,
    pub size: u32,
    pub image: bool,
}

impl Page {
    pub open spec fn wf(self) -> bool {
        &&& self.size <= i32::MAX
        &&& self.x <= self.size
        &&& self.y + self.row_height <= self.size
    }

    /// The pixels that rectangles may occupy: those of the closed shelves and the beginning of
    /// the open one.
    pub open spec fn taken(self, px: int, py: int) -> bool {
        py < self.y || (py < self.y + self.row_height && px < self.x)
    }

    /// The page after closing the shelf, where `width` columns no longer fit on it.
    pub open spec fn shelved(self, width: u32) -> Page {
        if self.x + width > self.size {
            Page { x: 0, y: (self.y + self.row_height) as u32, row_height: 0, ..self }
        } else {
            self
        }
    }

    pub open spec fn fits(self, width: u32, height: u32) -> bool {
        width <= self.size && height <= self.size && self.shelved(width).y + height <= self.size
    }

    /// The page after an attempt to reserve a rectangle.
    pub open spec fn reserved(self, width: u32, height: u32) -> Page {
        if width > self.size || height > self.size {
            self
        } else {
            let page = self.shelved(width);
            if page.y + height > self.size {
                page
            } else {
                Page {
                    x: (page.x + width) as u32,
                    row_height: if page.row_height >= height {
                        page.row_height
                    } else {
                        height
                    },
                    ..page
                }
            }
        }
    }
}

/// Takes a rectangle off the page, if it has room for one; a shelf that is too short for it is
/// closed in any case.
pub fn reserve(page: &mut Page, width: u32, height: u32) -> (origin: Option<[u32; 2]>)
    requires
        old(page).wf(),
    ensures
        *final(page) == old(page).reserved(width, height),
        final(page).wf(),
        origin is Some <==> old(page).fits(width, height),
        origin is Some ==> origin->0@ == seq![
            old(page).shelved(width).x,
            old(page).shelved(width).y,
        ],
{
    if width > page.size || height > page.size {
        return None;
    }
    if page.x + width > page.size {
        page.x = 0;
        page.y += page.row_height;
        page.row_height = 0;
    }
    if page.y + height > page.size {
        return None;
    }
    let origin = [page.x, page.y];
    assert(origin@ =~= seq![page.x, page.y]);
    page.x += width;
    if page.row_height < height {
        page.row_height = height;
    }
    Some(origin)
}

/// An immutable atlas update. Frames retain all updates required to reproduce
/// their atlas state, so a new GPU backend can recover without native font handles.
#[derive(Clone, Debug)]
pub struct AtlasUpload {
    pub revision: u64,
    pub page: usize,
    pub page_size: u32,
    pub origin: [u32; 2],
    pub size: [u32; 2],
    /// Straight sRGB RGBA, tightly packed in top-to-bottom row order.
    pub pixels: Arc<Vec<u8>>,
}

/// What an atlas update says.
pub struct UploadModel {
    pub revision: u64,
    pub page: usize,
    pub page_size: u32,
    pub origin: Seq<u32>,
    pub size: Seq<u32>,
    pub pixels: Seq<u8>,
}

impl View for AtlasUpload {
    type V = UploadModel;

    open spec fn view(&self) -> UploadModel {
        UploadModel {
            revision: self.revision,
            page: self.page,
            page_size: self.page_size,
            origin: self.origin@,
            size: self.size@,
            pixels: self.pixels@,
        }
    }
}

impl AtlasUpload {
    /// The pixel lies in the update or in the border of one pixel around it.
    pub open spec fn covers(self, px: int, py: int) -> bool {
        self.origin[0] - 1 <= px <= self.origin[0] + self.size[0] && self.origin[1] - 1 <= py
            <= self.origin[1] + self.size[1]
    }
}

/// Where a bitmap stands in the atlas. An empty bitmap stands nowhere: its page has no side.
#[derive(Clone, Copy, Debug, PartialEq, Eq)]
pub struct CachedGlyph {
    pub atlas: usize,
    pub origin: [u32; 2],
    pub page_size: u32,
    pub size: [u32; 2],
    pub bearing: [i32; 2],
    pub color: bool,
}

/// The bytes of one page.
pub open spec fn page_bytes(side: u32) -> int {
    side * side * 4
}

/// The bytes of all pages of one kind.
pub open spec fn atlas_bytes(pages: Seq<Page>, image: bool) -> int
    decreases pages.len(),
{
    if pages.len() == 0 {
        0
    } else {
        atlas_bytes(pages.drop_last(), image) + if pages.last().image == image {
            page_bytes(pages.last().size)
        } else {
            0
        }
    }
}

/// The budget of one kind of pages.
pub open spec fn atlas_budget(image: bool) -> u64 {
    if image {
        MAX_IMAGE_ATLAS_BYTES
    } else {
        MAX_ATLAS_BYTES
    }
}

/// The first side of `from`, twice `from` and so on that holds `need` pixels.
pub open spec fn doubled_side(from: int, need: int) -> int
    decreases
            if need > from {
                need - from
            } else {
                0
            },
    when from > 0
{
    if from >= need {
        from
    } else {
        doubled_side(2 * from, need)
    }
}

/// The side of a new page for a bitmap.
pub open spec fn page_side(width: int, height: int) -> int {
    doubled_side(
        PAGE_SIZE as int,
        if width >= height {
            width
        } else {
            height
        },
    )
}

/// No page of this kind before `index` has room for the rectangle.
pub open spec fn reaches_page(
    pages: Seq<Page>,
    index: int,
    width: u32,
    height: u32,
    image: bool,
) -> bool {
    forall|i: int|
        0 <= i < index ==> !((#[trigger] pages[i]).image == image && pages[i].fits(width, height))
}

/// The first page of this kind with room for the rectangle is the one at `index`.
pub open spec fn is_first_fit(
    pages: Seq<Page>,
    index: int,
    width: u32,
    height: u32,
    image: bool,
) -> bool {
    &&& 0 <= index < pages.len()
    &&& pages[index].image == image
    &&& pages[index].fits(width, height)
    &&& reaches_page(pages, index, width, height, image)
}

/// The pages after asking each of this kind in turn until one has room.
pub open spec fn asked_pages(pages: Seq<Page>, width: u32, height: u32, image: bool) -> Seq<Page> {
    Seq::new(
        pages.len(),
        |i: int|
            if pages[i].image == image && reaches_page(pages, i, width, height, image) {
                pages[i].reserved(width, height)
            } else {
                pages[i]
            },
    )
}

/// Pages, and the updates that bring a blank copy of them to their state.
pub struct Atlas {
    pub pages: Vec<Page>,
    pub uploads: Vec<AtlasUpload>,
    pub generation: u64,
}

/// The update stands on its page, on pixels that the page counts as taken.
pub open spec fn stands(upload: AtlasUpload, pages: Seq<Page>) -> bool {
    &&& upload.page < pages.len()
    &&& upload.page_size == pages[upload.page as int].size
    &&& upload.size[0] > 0 && upload.size[1] > 0
    &&& upload.origin[0] >= 1 && upload.origin[1] >= 1
    &&& upload.origin[0] + upload.size[0] < upload.page_size
    &&& upload.origin[1] + upload.size[1] < upload.page_size
    &&& forall|px: int, py: int| #[trigger]
        upload.covers(px, py) ==> pages[upload.page as int].taken(px, py)
}

/// No pixel belongs to both updates.
pub open spec fn apart(left: AtlasUpload, right: AtlasUpload) -> bool {
    left.page == right.page ==> forall|px: int, py: int|
        !(#[trigger] left.covers(px, py) && #[trigger] right.covers(px, py))
}

impl Atlas {
    /// Pages stay within their budgets; updates are numbered from one and never overlap.
    pub open spec fn wf(self) -> bool {
        &&& forall|i: int| 0 <= i < self.pages@.len() ==> (#[trigger] self.pages@[i]).wf()
        &&& atlas_bytes(self.pages@, false) <= MAX_ATLAS_BYTES
        &&& atlas_bytes(self.pages@, true) <= MAX_IMAGE_ATLAS_BYTES
        &&& forall|i: int|
            0 <= i < self.uploads@.len() ==> (#[trigger] self.uploads@[i]).revision == i + 1
        &&& forall|i: int|
            0 <= i < self.uploads@.len() ==> stands(#[trigger] self.uploads@[i], self.pages@)
        &&& forall|i: int, j: int|
            0 <= i < j < self.uploads@.len() ==> apart(
                #[trigger] self.uploads@[i],
                #[trigger] self.uploads@[j],
            )
    }

    /// A page has room for the bordered bitmap, or the budget has room for another page.
    pub open spec fn accepts(self, width: u32, height: u32, image: bool) -> bool {
        let (w, h) = ((width + 2) as u32, (height + 2) as u32);
        ||| !reaches_page(self.pages@, self.pages@.len() as int, w, h, image)
        ||| atlas_bytes(self.pages@, image) + page_bytes(page_side(w as int, h as int) as u32)
            <= atlas_budget(image)
    }

    pub fn new(generation: u64) -> (atlas: Atlas)
        ensures
            atlas.wf(),
            atlas.pages@.len() == 0,
            atlas.uploads@.len() == 0,
            atlas.generation == generation,
    {
        Atlas { pages: Vec::new(), uploads: Vec::new(), generation }
    }

    /// Forgets every page under a new generation.
    pub fn clear(&mut self, generation: u64)
        ensures
            final(self).wf(),
            final(self).pages@.len() == 0,
            final(self).uploads@.len() == 0,
            final(self).generation == generation,
    {
        self.pages.clear();
        self.uploads.clear();
        self.generation = generation;
    }
}

proof fn lemma_doubled_side(from: int, need: int)
    requires
        0 < from,
    ensures
        doubled_side(from, need) >= need,
        doubled_side(from, need) >= from,
        doubled_side(from, need) == from || doubled_side(from, need) < 2 * need,
    decreases
            if need > from {
                need - from
            } else {
                0
            },
{
    if from < need {
        lemma_doubled_side(2 * from, need);
    }
}

proof fn lemma_atlas_bytes_push(pages: Seq<Page>, page: Page, image: bool)
    ensures
        atlas_bytes(pages.push(page), image) == atlas_bytes(pages, image) + if page.image == image {
            page_bytes(page.size)
        } else {
            0
        },
{
    assert(pages.push(page).drop_last() =~= pages);
}

proof fn lemma_atlas_bytes_same(a: Seq<Page>, b: Seq<Page>, image: bool)
    requires
        a.len() == b.len(),
        forall|i: int|
            0 <= i < a.len() ==> (#[trigger] a[i]).size == b[i].size && a[i].image == b[i].image,
    ensures
        atlas_bytes(a, image) == atlas_bytes(b, image),
    decreases a.len(),
{
    if a.len() > 0 {
        assert forall|i: int| 0 <= i < a.len() - 1 implies (#[trigger] a.drop_last()[i]).size
            == b.drop_last()[i].size && a.drop_last()[i].image == b.drop_last()[i].image by {
            assert(a[i].size == b[i].size);
        }
        lemma_atlas_bytes_same(a.drop_last(), b.drop_last(), image);
        assert(a[a.len() - 1].size == b[b.len() - 1].size);
    }
}

proof fn lemma_atlas_bytes_bounds(pages: Seq<Page>, image: bool)
    ensures
        0 <= atlas_bytes(pages, image),
    decreases pages.len(),
{
    if pages.len() > 0 {
        lemma_atlas_bytes_bounds(pages.drop_last(), image);
        let side = pages.last().size as int;
        assert(side * side * 4 >= 0) by (nonlinear_arith)
            requires
                side >= 0,
        ;
    }
}

proof fn lemma_atlas_bytes_prefix(pages: Seq<Page>, n: int, image: bool)
    requires
        0 <= n <= pages.len(),
    ensures
        atlas_bytes(pages.take(n), image) <= atlas_bytes(pages, image),
    decreases pages.len() - n,
{
    if n < pages.len() {
        lemma_atlas_bytes_prefix(pages, n + 1, image);
        assert(pages.take(n + 1).drop_last() =~= pages.take(n));
        let side = pages[n].size as int;
        assert(side * side * 4 >= 0) by (nonlinear_arith)
            requires
                side >= 0,
        ;
    } else {
        assert(pages.take(n) =~= pages);
    }
}

proof fn lemma_reserved(page: Page, width: u32, height: u32)
    requires
        page.wf(),
    ensures
        page.reserved(width, height).wf(),
        page.reserved(width, height).size == page.size,
        page.reserved(width, height).image == page.image,
        forall|px: int, py: int| #[trigger]
            page.taken(px, py) ==> page.reserved(width, height).taken(px, py),
        page.fits(width, height) ==> {
            let x = page.shelved(width).x;
            let y = page.shelved(width).y;
            &&& x + width <= page.size
            &&& y + height <= page.size
            &&& forall|px: int, py: int|
                x <= px < x + width && y <= py < y + height ==> !(#[trigger] page.taken(px, py))
                    && page.reserved(width, height).taken(px, py)
        },
{
}

/// Asking pages for room keeps every update where it stands.
proof fn lemma_asked_keeps(atlas: Atlas, pages: Seq<Page>, width: u32, height: u32, image: bool)
    requires
        atlas.wf(),
        pages == asked_pages(atlas.pages@, width, height, image),
    ensures
        forall|i: int| 0 <= i < pages.len() ==> (#[trigger] pages[i]).wf(),
        forall|i: int| 0 <= i < pages.len() ==> (#[trigger] pages[i]).size == atlas.pages@[i].size,
        forall|kind: bool| #[trigger]
            atlas_bytes(pages, kind) == atlas_bytes(atlas.pages@, kind),
        forall|i: int| 0 <= i < atlas.uploads@.len() ==> stands(#[trigger] atlas.uploads@[i], pages),
{
    let old_pages = atlas.pages@;
    assert forall|i: int| 0 <= i < pages.len() implies (#[trigger] pages[i]).wf() && pages[i].size
        == old_pages[i].size && pages[i].image == old_pages[i].image by {
        lemma_reserved(old_pages[i], width, height);
    }
    assert forall|kind: bool| #[trigger] atlas_bytes(pages, kind) == atlas_bytes(old_pages, kind) by {
        lemma_atlas_bytes_same(pages, old_pages, kind);
    }
    assert forall|i: int| 0 <= i < atlas.uploads@.len() implies stands(
        #[trigger] atlas.uploads@[i],
        pages,
    ) by {
        let upload = atlas.uploads@[i];
        assert(stands(upload, old_pages));
        lemma_reserved(old_pages[upload.page as int], width, height);
        assert forall|px: int, py: int| #[trigger] upload.covers(px, py) implies pages[upload.page as int].taken(px, py) by {
            assert(old_pages[upload.page as int].taken(px, py));
        }
    }
}

impl Atlas {
    /// The place of an empty bitmap.
    pub open spec fn is_empty_place(cached: CachedGlyph, dimensions: [u32; 2]) -> bool {
        &&& cached.atlas == 0
        &&& cached.origin@ == seq![0u32, 0u32]
        &&& cached.page_size == 0
        &&& cached.size == dimensions
    }

    /// The bordered bitmap went to the first page with room, or to a new page at the end.
    pub open spec fn placed(
        self,
        before: Atlas,
        cached: CachedGlyph,
        dimensions: [u32; 2],
        pixels: Seq<u8>,
        image: bool,
    ) -> bool {
        let (w, h) = ((dimensions[0] + 2) as u32, (dimensions[1] + 2) as u32);
        let asked = asked_pages(before.pages@, w, h, image);
        let index = cached.atlas as int;
        &&& if reaches_page(before.pages@, before.pages@.len() as int, w, h, image) {
            &&& index == before.pages@.len()
            &&& self.pages@ == asked.push(
                Page {
                    x: w,
                    y: 0,
                    row_height: h,
                    size: page_side(w as int, h as int) as u32,
                    image,
                },
            )
            &&& cached.origin@ == seq![1u32, 1u32]
        } else {
            &&& is_first_fit(before.pages@, index, w, h, image)
            &&& self.pages@ == asked
            &&& cached.origin@ == seq![
                (before.pages@[index].shelved(w).x + 1) as u32,
                (before.pages@[index].shelved(w).y + 1) as u32,
            ]
        }
        &&& cached.page_size == self.pages@[index].size
        &&& cached.size == dimensions
        &&& self.uploads@.len() == before.uploads@.len() + 1
        &&& self.uploads@.drop_last() == before.uploads@
        &&& self.uploads@.last()@ == (UploadModel {
            revision: (before.uploads@.len() + 1) as u64,
            page: cached.atlas,
            page_size: cached.page_size,
            origin: cached.origin@,
            size: dimensions@,
            pixels,
        })
    }

    /// What an attempt to give a bitmap its place leaves and returns.
    pub open spec fn cached(
        self,
        before: Atlas,
        cached: Result<CachedGlyph, RenderError>,
        dimensions: [u32; 2],
        pixels: Seq<u8>,
        image: bool,
    ) -> bool {
        let (width, height) = (dimensions[0], dimensions[1]);
        if width == 0 || height == 0 {
            &&& self == before
            &&& cached is Ok
            &&& Atlas::is_empty_place(cached->Ok_0, dimensions)
        } else if before.accepts(width, height, image) {
            &&& cached is Ok
            &&& self.placed(before, cached->Ok_0, dimensions, pixels, image)
        } else {
            &&& cached == Err::<CachedGlyph, RenderError>(RenderError::AtlasCapacity)
            &&& self.uploads == before.uploads
            &&& self.pages@ == asked_pages(
                before.pages@,
                (width + 2) as u32,
                (height + 2) as u32,
                image,
            )
        }
    }

    /// The side of a page that holds a bitmap.
    fn side_for(width: u32, height: u32) -> (side: u32)
        requires
            width <= MAX_BITMAP_SIDE,
            height <= MAX_BITMAP_SIDE,
        ensures
            side == page_side(width as int, height as int),
            PAGE_SIZE <= side <= MAX_BITMAP_SIDE,
            width <= side,
            height <= side,
    {
        let need: u32 = if width >= height {
            width
        } else {
            height
        };
        let mut side: u32 = PAGE_SIZE;
        let ghost mut exponent: nat = 10;
        proof {
            assert(pow2(10) == 1024 && pow2(30) == 0x4000_0000) by {
                vstd::arithmetic::power2::lemma2_to64();
            }
        }
        while side < need
            invariant
                need <= MAX_BITMAP_SIDE,
                PAGE_SIZE <= side <= MAX_BITMAP_SIDE,
                side == pow2(exponent),
                pow2(30) == MAX_BITMAP_SIDE,
                doubled_side(side as int, need as int) == doubled_side(
                    PAGE_SIZE as int,
                    need as int,
                ),
            decreases MAX_BITMAP_SIDE - side,
        {
            proof {
                // A smaller power of two is at most half of the largest side.
                if exponent >= 30 {
                    if exponent > 30 {
                        vstd::arithmetic::power2::lemma_pow2_strictly_increases(30, exponent);
                    }
                    assert(false);
                }
                if exponent < 29 {
                    vstd::arithmetic::power2::lemma_pow2_strictly_increases(exponent, 29);
                }
                vstd::arithmetic::power2::lemma_pow2_unfold(30);
                vstd::arithmetic::power2::lemma_pow2_unfold(exponent + 1);
                exponent = exponent + 1;
            }
            side = side * 2;
        }
        side
    }

    /// The bytes of all pages of one kind.
    fn bytes(&self, image: bool) -> (bytes: u64)
        requires
            atlas_bytes(self.pages@, image) <= u64::MAX,
        ensures
            bytes == atlas_bytes(self.pages@, image),
    {
        let mut bytes: u64 = 0;
        let mut i: usize = 0;
        while i < self.pages.len()
            invariant
                0 <= i <= self.pages@.len(),
                atlas_bytes(self.pages@, image) <= u64::MAX,
                bytes == atlas_bytes(self.pages@.take(i as int), image),
            decreases self.pages@.len() - i,
        {
            proof {
                assert(self.pages@.take(i + 1).drop_last() =~= self.pages@.take(i as int));
                lemma_atlas_bytes_prefix(self.pages@, i + 1, image);
                lemma_atlas_bytes_bounds(self.pages@.take(i as int), image);
            }
            let page = self.pages[i];
            if page.image == image {
                let side: u64 = page.size as u64;
                assert(side * side * 4 == page_bytes(page.size) && side * side <= side * side * 4)
                    by (nonlinear_arith)
                    requires
                        side == page.size as u64,
                        page_bytes(page.size) == page.size * page.size * 4,
                ;
                bytes = bytes + side * side * 4;
            }
            i += 1;
        }
        assert(self.pages@.take(i as int) =~= self.pages@);
        bytes
    }

    /// Gives a bitmap its place and records the update that paints it there.
    pub fn cache_pixels(
        &mut self,
        dimensions: [u32; 2],
        pixels: Arc<Vec<u8>>,
        image: bool,
    ) -> (cached: Result<CachedGlyph, RenderError>)
        requires
            old(self).wf(),
            dimensions[0] + 2 <= MAX_BITMAP_SIDE,
            dimensions[1] + 2 <= MAX_BITMAP_SIDE,
            old(self).uploads@.len() < usize::MAX,
        ensures
            final(self).wf(),
            final(self).generation == old(self).generation,
            final(self).cached(*old(self), cached, dimensions, pixels@, image),
            cached is Ok ==> cached->Ok_0.bearing@ == seq![0i32, 0i32] && cached->Ok_0.color
                == image,
    {
        let bearing: [i32; 2] = [0, 0];
        assert(bearing@ =~= seq![0i32, 0i32]);
        if dimensions[0] == 0 || dimensions[1] == 0 {
            let origin: [u32; 2] = [0, 0];
            assert(origin@ =~= seq![0u32, 0u32]);
            return Ok(
                CachedGlyph { atlas: 0, origin, page_size: 0, size: dimensions, bearing, color: image },
            );
        }
        let width: u32 = dimensions[0] + 2;
        let height: u32 = dimensions[1] + 2;
        let ghost before = *self;
        let mut found: Option<(usize, [u32; 2])> = None;
        let mut i: usize = 0;
        while i < self.pages.len() && found.is_none()
            invariant
                before.wf(),
                self.uploads == before.uploads,
                self.generation == before.generation,
                self.pages@.len() == before.pages@.len(),
                0 <= i <= self.pages@.len(),
                match found {
                    None => reaches_page(before.pages@, i as int, width, height, image),
                    Some((at, corner)) => {
                        &&& i == at + 1
                        &&& is_first_fit(before.pages@, at as int, width, height, image)
                        &&& corner@ == seq![
                            before.pages@[at as int].shelved(width).x,
                            before.pages@[at as int].shelved(width).y,
                        ]
                    },
                },
                forall|j: int|
                    0 <= j < i ==> #[trigger] self.pages@[j] == asked_pages(
                        before.pages@,
                        width,
                        height,
                        image,
                    )[j],
                forall|j: int|
                    i <= j < self.pages@.len() ==> #[trigger] self.pages@[j] == before.pages@[j],
            decreases self.pages@.len() - i + if found is None { 1int } else { 0int },
        {
            let mut page = self.pages[i];
            assert(before.pages@[i as int].wf());
            if page.image == image {
                let origin = reserve(&mut page, width, height);
                self.pages.set(i, page);
                if let Some(origin) = origin {
                    found = Some((i, origin));
                }
            }
            i += 1;
        }
        proof {
            let asked = asked_pages(before.pages@, width, height, image);
            if let Some((at, _)) = found {
                assert(before.pages@[at as int].image == image && before.pages@[at as int].fits(
                    width,
                    height,
                ));
                assert forall|j: int| i <= j < asked.len() implies asked[j] == before.pages@[j] by {
                    assert(!reaches_page(before.pages@, j, width, height, image));
                }
                assert(!reaches_page(
                    before.pages@,
                    before.pages@.len() as int,
                    width,
                    height,
                    image,
                ));
            }
            assert(self.pages@ =~= asked);
            lemma_asked_keeps(before, asked, width, height, image);
        }
        let (page, corner) = match found {
            Some(found) => found,
            None => {
                let side: u32 = Atlas::side_for(width, height);
                let bytes: u64 = self.bytes(image);
                let budget: u64 = if image {
                    MAX_IMAGE_ATLAS_BYTES
                } else {
                    MAX_ATLAS_BYTES
                };
                assert(side as u64 * side as u64 <= 0x4000_0000u64 * 0x4000_0000u64)
                    by (nonlinear_arith)
                    requires
                        side <= 0x4000_0000u32,
                ;
                let more: u64 = side as u64 * side as u64;
                if more > budget / 4 || bytes + more * 4 > budget {
                    assert(page_bytes(side) == more * 4) by (nonlinear_arith)
                        requires
                            more == side * side,
                            page_bytes(side) == side * side * 4,
                    ;
                    return Err(RenderError::AtlasCapacity);
                }
                let index: usize = self.pages.len();
                let mut page = Page { x: 0, y: 0, row_height: 0, size: side, image };
                let origin = reserve(&mut page, width, height);
                let ghost asked = self.pages@;
                self.pages.push(page);
                proof {
                    lemma_atlas_bytes_push(asked, page, false);
                    lemma_atlas_bytes_push(asked, page, true);
                    assert(page_bytes(side) == more * 4) by (nonlinear_arith)
                        requires
                            more == side * side,
                            page_bytes(side) == side * side * 4,
                    ;
                }
                match origin {
                    Some(origin) => (index, origin),
                    None => {
                        assert(false);
                        (index, [0, 0])
                    },
                }
            },
        };
        let origin: [u32; 2] = [corner[0] + 1, corner[1] + 1];
        let page_size: u32 = self.pages[page].size;
        let ghost pages = self.pages@;
        let upload = AtlasUpload {
            revision: self.uploads.len() as u64 + 1,
            page,
            page_size,
            origin,
            size: dimensions,
            pixels,
        };
        self.uploads.push(upload);
        proof {
            assert(origin@ =~= seq![(corner[0] + 1) as u32, (corner[1] + 1) as u32]);
            assert(self.uploads@.drop_last() =~= before.uploads@);
            if found is Some {
                lemma_reserved(before.pages@[page as int], width, height);
            }
            assert(stands(upload, pages));
            assert forall|i: int| 0 <= i < before.uploads@.len() implies stands(
                #[trigger] before.uploads@[i],
                pages,
            ) && apart(before.uploads@[i], upload) by {
                let other = before.uploads@[i];
                assert(stands(other, before.pages@));
                assert forall|px: int, py: int| other.page == page implies !(
                #[trigger] other.covers(px, py) && #[trigger] upload.covers(px, py)) by {
                    if other.covers(px, py) {
                        assert(before.pages@[page as int].taken(px, py));
                    }
                }
            }
        }
        Ok(CachedGlyph { atlas: page, origin, page_size, size: dimensions, bearing, color: image })
    }
}

/// How the pixels of a rasterised glyph are stored.
#[derive(Clone, Copy, Debug, PartialEq, Eq, Structural)]
pub enum BitmapFormat {
    /// One byte of coverage per pixel.
    Alpha,
    /// Four bytes per pixel, the colours multiplied by the coverage.
    Rgba,
}

/// A rasterised glyph.
#[derive(Clone, Debug)]
pub struct GlyphBitmap {
    pub width: u32,
    pub height: u32,
    pub bearing_x: i32,
    pub bearing_y: i32,
    pub format: BitmapFormat,
    pub pixels: Vec<u8>,
}

/// The colour that gave `value` under this coverage, rounded to the nearest.
pub open spec fn unpremultiplied(value: u8, alpha: u8) -> u8 {
    if alpha == 0 {
        0
    } else {
        let straight = (value * 255 + alpha / 2) / alpha as int;
        if straight > 255 {
            255
        } else {
            straight as u8
        }
    }
}

/// The pixels of a bitmap as straight RGBA: coverage alone is white, and an unfinished last pixel
/// is dropped.
pub open spec fn straight_pixels(format: BitmapFormat, pixels: Seq<u8>) -> Seq<u8> {
    match format {
        BitmapFormat::Alpha => Seq::new(
            pixels.len() * 4,
            |i: int|
                if i % 4 == 3 {
                    pixels[i / 4]
                } else {
                    255
                },
        ),
        BitmapFormat::Rgba => Seq::new(
            pixels.len() / 4 * 4,
            |i: int|
                if i % 4 == 3 {
                    pixels[i]
                } else {
                    unpremultiplied(pixels[i], pixels[i / 4 * 4 + 3])
                },
        ),
    }
}

fn unpremultiply(value: u8, alpha: u8) -> (straight: u8)
    ensures
        straight == unpremultiplied(value, alpha),
{
    if alpha == 0 {
        0
    } else {
        let straight: u32 = (value as u32 * 255 + alpha as u32 / 2) / alpha as u32;
        if straight > 255 {
            255
        } else {
            straight as u8
        }
    }
}

/// Converts the pixels of a bitmap to straight RGBA.
pub fn to_straight(format: BitmapFormat, pixels: &Vec<u8>) -> (straight: Vec<u8>)
    ensures
        straight@ == straight_pixels(format, pixels@),
{
    let mut straight: Vec<u8> = Vec::new();
    match format {
        BitmapFormat::Alpha => {
            let mut i: usize = 0;
            while i < pixels.len()
                invariant
                    0 <= i <= pixels@.len(),
                    format == BitmapFormat::Alpha,
                    straight@ == straight_pixels(format, pixels@).take(i * 4),
                decreases pixels@.len() - i,
            {
                straight.push(255);
                straight.push(255);
                straight.push(255);
                straight.push(pixels[i]);
                i += 1;
                assert(straight@ =~= straight_pixels(format, pixels@).take(i * 4));
            }
            assert(straight_pixels(format, pixels@).take(i * 4) =~= straight_pixels(
                format,
                pixels@,
            ));
        },
        BitmapFormat::Rgba => {
            let count: usize = pixels.len() / 4;
            let mut i: usize = 0;
            while i < count
                invariant
                    0 <= i <= count == pixels@.len() / 4,
                    pixels@.len() <= usize::MAX,
                    format == BitmapFormat::Rgba,
                    straight@ == straight_pixels(format, pixels@).take(i * 4),
                decreases count - i,
            {
                let alpha: u8 = pixels[4 * i + 3];
                straight.push(unpremultiply(pixels[4 * i], alpha));
                straight.push(unpremultiply(pixels[4 * i + 1], alpha));
                straight.push(unpremultiply(pixels[4 * i + 2], alpha));
                straight.push(alpha);
                i += 1;
                assert(straight@ =~= straight_pixels(format, pixels@).take(i * 4));
            }
            assert(straight_pixels(format, pixels@).take(i * 4) =~= straight_pixels(
                format,
                pixels@,
            ));
        },
    }
    straight
}

impl Atlas {
    /// Gives a rasterised glyph its place among the glyphs.
    pub fn cache_bitmap(&mut self, bitmap: GlyphBitmap) -> (cached: Result<
        CachedGlyph,
        RenderError,
    >)
        requires
            old(self).wf(),
            bitmap.width + 2 <= MAX_BITMAP_SIDE,
            bitmap.height + 2 <= MAX_BITMAP_SIDE,
            old(self).uploads@.len() < usize::MAX,
        ensures
            final(self).wf(),
            final(self).generation == old(self).generation,
            final(self).cached(
                *old(self),
                cached,
                [bitmap.width, bitmap.height],
                straight_pixels(bitmap.format, bitmap.pixels@),
                false,
            ),
            cached is Ok ==> cached->Ok_0.bearing@ == seq![bitmap.bearing_x, bitmap.bearing_y]
                && cached->Ok_0.color == (bitmap.format == BitmapFormat::Rgba),
    {
        let pixels = to_straight(bitmap.format, &bitmap.pixels);
        match self.cache_pixels([bitmap.width, bitmap.height], Arc::new(pixels), false) {
            Ok(placed) => {
                let bearing = [bitmap.bearing_x, bitmap.bearing_y];
                assert(bearing@ =~= seq![bitmap.bearing_x, bitmap.bearing_y]);
                let cached = CachedGlyph {
                    bearing,
                    color: bitmap.format == BitmapFormat::Rgba,
                    ..placed
                };
                Ok(cached)
            },
            Err(error) => Err(error),
        }
    }
}

/// The page after attempts to reserve rectangles, granted or not, in their order.
pub open spec fn after_requests(page: Page, requests: Seq<(u32, u32)>) -> Page
    decreases requests.len(),
{
    if requests.len() == 0 {
        page
    } else {
        let (width, height) = requests.last();
        after_requests(page, requests.drop_last()).reserved(width, height)
    }
}

/// The `n`th of the requests is granted.
pub open spec fn grants(page: Page, requests: Seq<(u32, u32)>, n: int) -> bool {
    after_requests(page, requests.take(n)).fits(requests[n].0, requests[n].1)
}

/// The pixel is in the rectangle that the `n`th of the requests gets.
pub open spec fn grant_covers(
    page: Page,
    requests: Seq<(u32, u32)>,
    n: int,
    px: int,
    py: int,
) -> bool {
    let place = after_requests(page, requests.take(n)).shelved(requests[n].0);
    place.x <= px < place.x + requests[n].0 && place.y <= py < place.y + requests[n].1
}

proof fn lemma_after_requests(page: Page, requests: Seq<(u32, u32)>, from: int, to: int)
    requires
        page.wf(),
        0 <= from <= to <= requests.len(),
    ensures
        after_requests(page, requests.take(from)).wf(),
        after_requests(page, requests.take(to)).wf(),
        after_requests(page, requests.take(to)).size == page.size,
        forall|px: int, py: int| #[trigger]
            after_requests(page, requests.take(from)).taken(px, py) ==> after_requests(
                page,
                requests.take(to),
            ).taken(px, py),
    decreases to,
{
    if to > 0 {
        let last = requests[to - 1];
        assert(requests.take(to).drop_last() =~= requests.take(to - 1));
        if from < to {
            lemma_after_requests(page, requests, from, to - 1);
        } else {
            lemma_after_requests(page, requests, to - 1, to - 1);
        }
        lemma_reserved(after_requests(page, requests.take(to - 1)), last.0, last.1);
    }
}

/// Of all rectangles that are ever taken off a page, no two share a pixel, and each lies on the
/// page.
pub proof fn law_reservations_are_disjoint(
    page: Page,
    requests: Seq<(u32, u32)>,
    i: int,
    j: int,
    px: int,
    py: int,
)
    requires
        page.wf(),
        0 <= i < j < requests.len(),
        grants(page, requests, i),
        grants(page, requests, j),
    ensures
        !(grant_covers(page, requests, i, px, py) && grant_covers(page, requests, j, px, py)),
        grant_covers(page, requests, i, px, py) ==> 0 <= px < page.size && 0 <= py < page.size,
        grant_covers(page, requests, j, px, py) ==> 0 <= px < page.size && 0 <= py < page.size,
{
    let first = after_requests(page, requests.take(i));
    let second = after_requests(page, requests.take(j));
    lemma_after_requests(page, requests, i, i);
    lemma_after_requests(page, requests, i + 1, j);
    assert(requests.take(i + 1).drop_last() =~= requests.take(i));
    lemma_reserved(first, requests[i].0, requests[i].1);
    lemma_reserved(second, requests[j].0, requests[j].1);
    let next = after_requests(page, requests.take(i + 1));
    if grant_covers(page, requests, i, px, py) {
        assert(!first.taken(px, py) && next.taken(px, py));
        assert(second.taken(px, py));
    }
}

/// No pixel of the atlas, borders counted, is painted by two updates of one generation.
pub proof fn law_updates_never_overlap(atlas: Atlas, i: int, j: int, px: int, py: int)
    requires
        atlas.wf(),
        0 <= i < atlas.uploads@.len(),
        0 <= j < atlas.uploads@.len(),
        i != j,
        atlas.uploads@[i].page == atlas.uploads@[j].page,
    ensures
        !(atlas.uploads@[i].covers(px, py) && atlas.uploads@[j].covers(px, py)),
        0 < atlas.uploads@[i].origin[0],
        0 < atlas.uploads@[i].origin[1],
        atlas.uploads@[i].origin[0] + atlas.uploads@[i].size[0] < atlas.uploads@[i].page_size,
        atlas.uploads@[i].origin[1] + atlas.uploads@[i].size[1] < atlas.uploads@[i].page_size,
{
    assert(stands(atlas.uploads@[i], atlas.pages@));
    if i < j {
        assert(apart(atlas.uploads@[i], atlas.uploads@[j]));
    } else {
        assert(apart(atlas.uploads@[j], atlas.uploads@[i]));
    }
}

/// An opaque colour is stored as it is.
pub proof fn law_opaque_pixels_keep_their_colour(value: u8)
    ensures
        unpremultiplied(value, 255) == value,
{
}

} // verus!
