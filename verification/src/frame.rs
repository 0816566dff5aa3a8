//! Portable terminal draw data. The host owns windows, scheduling and presentation, and with
//! them the geometry and the colours, which a frame only carries.
use crate::atlas::{AtlasUpload, UploadModel};
use std::sync::Arc;
use vstd::prelude::*;

verus! {

/// A search match clipped to one visible row, identified by its stable row ID.
#[derive(Clone, Copy, Debug, PartialEq, Eq, Structural)]
pub struct SearchHighlight {
    pub row: u64,
    /// The first and the last column.
    pub first: usize,
    pub last: usize,
    pub selected: bool,
}

#[derive(Clone, Copy, Debug, PartialEq, Eq, Structural)]
pub enum Paint {
    Solid,
    /// Alpha coverage in the atlas; color comes from the quad.
    Mask,
    /// An RGBA atlas glyph/image whose original colors are preserved.
    Color,
}

/// A painted rectangle.
#[derive(Clone, Debug, PartialEq)]
pub struct Quad<G, C> {
    /// The rectangle in physical pixels, relative to this frame.
    pub rect: G,
    /// Normalized atlas coordinates.
    pub uv: G,
    pub color: C,
    pub paint: Paint,
    pub atlas: usize,
}

impl<G, C> Quad<G, C> {
    /// A rectangle of one colour; `uv` are the atlas coordinates of nothing.
    pub fn solid(rect: G, uv: G, color: C) -> (quad: Quad<G, C>)
        ensures
            quad == (Quad { rect, uv, color, paint: Paint::Solid, atlas: 0 }),
    {
        Quad { rect, uv, color, paint: Paint::Solid, atlas: 0 }
    }
}

#[derive(Clone, Debug)]
pub struct Frame<G, C> {
    pub size: [u32; 2],
    /// Changes when font/atlas state is discarded. Revisions are scoped to it.
    pub generation: u64,
    pub quads: Vec<Quad<G, C>>,
    pub atlas_uploads: Vec<AtlasUpload>,
    /// IME candidate-window anchor in physical pixels, when a preedit caret is present.
    pub ime_cursor: Option<G>,
    /// Prepared text or decorations depend on the blink phase.
    pub blinking_text: bool,
}

#[derive(Clone, Copy, Debug, Eq, PartialEq, Structural)]
pub enum ComposeError {
    GenerationChanged,
    ConflictingAtlasRevision,
    InvalidClip,
}

impl ComposeError {
    pub fn message(self) -> (message: String)
        ensures
            message@ == match self {
                ComposeError::GenerationChanged =>
                    "pane frames belong to different atlas generations"@,
                ComposeError::ConflictingAtlasRevision =>
                    "pane frames contain conflicting atlas revisions"@,
                ComposeError::InvalidClip => "invalid pane origin or clipping rectangle"@,
            },
    {
        match self {
            ComposeError::GenerationChanged =>
                "pane frames belong to different atlas generations".to_owned(),
            ComposeError::ConflictingAtlasRevision =>
                "pane frames contain conflicting atlas revisions".to_owned(),
            ComposeError::InvalidClip => "invalid pane origin or clipping rectangle".to_owned(),
        }
    }
}

/// The updates by revision; of two with one revision the later stands.
pub open spec fn by_revision(uploads: Seq<AtlasUpload>) -> Map<u64, UploadModel>
    decreases uploads.len(),
{
    if uploads.len() == 0 {
        Map::empty()
    } else {
        by_revision(uploads.drop_last()).insert(uploads.last().revision, uploads.last()@)
    }
}

/// Adds updates to those already known, unless one contradicts an update of its revision.
pub open spec fn merged(
    known: Map<u64, UploadModel>,
    more: Seq<AtlasUpload>,
) -> Option<Map<u64, UploadModel>>
    decreases more.len(),
{
    if more.len() == 0 {
        Some(known)
    } else {
        match merged(known, more.drop_last()) {
            Some(known) => if known.contains_key(more.last().revision)
                && known[more.last().revision] != more.last()@ {
                None
            } else {
                Some(known.insert(more.last().revision, more.last()@))
            },
            None => None,
        }
    }
}

pub open spec fn ascending(uploads: Seq<AtlasUpload>) -> bool {
    forall|i: int, j: int|
        0 <= i < j < uploads.len() ==> (#[trigger] uploads[i]).revision < (
        #[trigger] uploads[j]).revision
}

/// `uploads` lists exactly the updates of `known`, by ascending revision.
pub open spec fn lists(uploads: Seq<AtlasUpload>, known: Map<u64, UploadModel>) -> bool {
    &&& ascending(uploads)
    &&& forall|i: int|
        0 <= i < uploads.len() ==> known.contains_key((#[trigger] uploads[i]).revision)
            && known[uploads[i].revision] == uploads[i]@
    &&& forall|revision: u64| #[trigger]
        known.contains_key(revision) ==> exists|i: int|
            0 <= i < uploads.len() && (#[trigger] uploads[i]).revision == revision
}

impl AtlasUpload {
    /// Another handle to the same update.
    pub fn share(&self) -> (copy: AtlasUpload)
        ensures
            copy@ == self@,
    {
        AtlasUpload {
            revision: self.revision,
            page: self.page,
            page_size: self.page_size,
            origin: self.origin,
            size: self.size,
            pixels: Arc::clone(&self.pixels),
        }
    }

    /// Whether two updates say the same.
    pub fn same(&self, other: &AtlasUpload) -> (same: bool)
        ensures
            same == (self@ == other@),
    {
        if self.revision != other.revision || self.page != other.page || self.page_size
            != other.page_size || self.origin[0] != other.origin[0] || self.origin[1]
            != other.origin[1] || self.size[0] != other.size[0] || self.size[1] != other.size[1]
            || self.pixels.len() != other.pixels.len() {
            return false;
        }
        let mut i: usize = 0;
        while i < self.pixels.len()
            invariant
                i <= self.pixels@.len() == other.pixels@.len(),
                forall|j: int| 0 <= j < i ==> self.pixels@[j] == other.pixels@[j],
            decreases self.pixels@.len() - i,
        {
            if self.pixels[i] != other.pixels[i] {
                return false;
            }
            i += 1;
        }
        assert(self.pixels@ =~= other.pixels@);
        assert(self.origin@ =~= other.origin@);
        assert(self.size@ =~= other.size@);
        true
    }
}

/// Where `revision` stands or belongs in an ascending list.
fn rank(uploads: &Vec<AtlasUpload>, revision: u64) -> (at: usize)
    requires
        ascending(uploads@),
    ensures
        at <= uploads@.len(),
        forall|i: int| 0 <= i < at ==> (#[trigger] uploads@[i]).revision < revision,
        at < uploads@.len() ==> uploads@[at as int].revision >= revision,
{
    let mut at: usize = 0;
    while at < uploads.len() && uploads[at].revision < revision
        invariant
            at <= uploads@.len(),
            forall|i: int| 0 <= i < at ==> (#[trigger] uploads@[i]).revision < revision,
        decreases uploads@.len() - at,
    {
        at += 1;
    }
    at
}

/// Puts an update into an ascending list, in the place of one with its revision.
fn put(
    uploads: &mut Vec<AtlasUpload>,
    at: usize,
    upload: AtlasUpload,
    Ghost(known): Ghost<Map<u64, UploadModel>>,
)
    requires
        lists(old(uploads)@, known),
        at <= old(uploads)@.len(),
        forall|i: int| 0 <= i < at ==> (#[trigger] old(uploads)@[i]).revision < upload.revision,
        at < old(uploads)@.len() ==> old(uploads)@[at as int].revision >= upload.revision,
    ensures
        lists(final(uploads)@, known.insert(upload.revision, upload@)),
{
    let ghost before = uploads@;
    let ghost after = known.insert(upload.revision, upload@);
    if at < uploads.len() && uploads[at].revision == upload.revision {
        uploads.set(at, upload);
        proof {
            assert forall|revision: u64| #[trigger] after.contains_key(revision) implies exists|
                i: int,
            |
                0 <= i < uploads@.len() && (#[trigger] uploads@[i]).revision == revision by {
                if revision == upload.revision {
                    assert(uploads@[at as int].revision == revision);
                } else {
                    let i = choose|i: int|
                        0 <= i < before.len() && (#[trigger] before[i]).revision == revision;
                    assert(uploads@[i].revision == revision);
                }
            }
        }
    } else {
        uploads.insert(at, upload);
        proof {
            assert forall|i: int| 0 <= i < uploads@.len() implies #[trigger] uploads@[i] == if i
                < at {
                before[i]
            } else if i == at {
                upload
            } else {
                before[i - 1]
            } by {}
            assert forall|i: int| at <= i < before.len() implies (#[trigger] before[i]).revision
                > upload.revision by {
                if i > at {
                    assert(before[at as int].revision < before[i].revision);
                }
            }
            assert forall|revision: u64| #[trigger] after.contains_key(revision) implies exists|
                i: int,
            |
                0 <= i < uploads@.len() && (#[trigger] uploads@[i]).revision == revision by {
                if revision == upload.revision {
                    assert(uploads@[at as int].revision == revision);
                } else {
                    let i = choose|i: int|
                        0 <= i < before.len() && (#[trigger] before[i]).revision == revision;
                    if i < at {
                        assert(uploads@[i].revision == revision);
                    } else {
                        assert(uploads@[i + 1].revision == revision);
                    }
                }
            }
        }
    }
}

/// Brings the updates of two frames together in the order of their revisions.
pub fn merge_uploads(own: &Vec<AtlasUpload>, other: &Vec<AtlasUpload>) -> (uploads: Option<
    Vec<AtlasUpload>,
>)
    ensures
        match (merged(by_revision(own@), other@), uploads) {
            (Some(known), Some(uploads)) => lists(uploads@, known),
            (None, None) => true,
            _ => false,
        },
{
    let mut uploads: Vec<AtlasUpload> = Vec::new();
    let mut i: usize = 0;
    while i < own.len()
        invariant
            i <= own@.len(),
            lists(uploads@, by_revision(own@.take(i as int))),
        decreases own@.len() - i,
    {
        let upload = own[i].share();
        let at: usize = rank(&uploads, upload.revision);
        put(&mut uploads, at, upload, Ghost(by_revision(own@.take(i as int))));
        assert(own@.take(i + 1).drop_last() =~= own@.take(i as int));
        i += 1;
    }
    assert(own@.take(i as int) =~= own@);
    let ghost mut known = by_revision(own@);
    let mut i: usize = 0;
    assert(other@.take(0) =~= Seq::<AtlasUpload>::empty());
    while i < other.len()
        invariant
            i <= other@.len(),
            merged(by_revision(own@), other@.take(i as int)) == Some(known),
            lists(uploads@, known),
        decreases other@.len() - i,
    {
        let upload = other[i].share();
        let at: usize = rank(&uploads, upload.revision);
        assert(other@.take(i + 1).drop_last() =~= other@.take(i as int));
        if at < uploads.len() && uploads[at].revision == upload.revision && !uploads[at].same(
            &upload,
        ) {
            proof {
                assert(merged(by_revision(own@), other@.take(i + 1)) is None);
                lemma_conflict_stays(by_revision(own@), other@, i + 1);
            }
            return None;
        }
        proof {
            if known.contains_key(upload.revision) {
                let j = choose|j: int|
                    0 <= j < uploads@.len() && (#[trigger] uploads@[j]).revision
                        == upload.revision;
                assert(!(j < at));
                if j > at {
                    assert(uploads@[at as int].revision < uploads@[j].revision);
                }
            }
        }
        put(&mut uploads, at, upload, Ghost(known));
        proof {
            known = known.insert(upload.revision, upload@);
        }
        i += 1;
    }
    assert(other@.take(i as int) =~= other@);
    Some(uploads)
}

proof fn lemma_conflict_stays(known: Map<u64, UploadModel>, more: Seq<AtlasUpload>, n: int)
    requires
        0 <= n <= more.len(),
        merged(known, more.take(n)) is None,
    ensures
        merged(known, more) is None,
    decreases more.len() - n,
{
    if n < more.len() {
        assert(more.take(n + 1).drop_last() =~= more.take(n));
        lemma_conflict_stays(known, more, n + 1);
    } else {
        assert(more.take(n) =~= more);
    }
}

impl<G, C> Frame<G, C> {
    pub fn empty(size: [u32; 2]) -> (frame: Frame<G, C>)
        ensures
            frame.size == size,
            frame.generation == 0,
            frame.quads@.len() == 0,
            frame.atlas_uploads@.len() == 0,
            frame.ime_cursor is None,
            !frame.blinking_text,
    {
        Frame {
            size,
            generation: 0,
            quads: Vec::new(),
            atlas_uploads: Vec::new(),
            ime_cursor: None,
            blinking_text: false,
        }
    }

    /// The frame refers to an atlas.
    pub open spec fn has_resources(self) -> bool {
        self.atlas_uploads@.len() > 0 || exists|i: int|
            0 <= i < self.quads@.len() && (#[trigger] self.quads@[i]).paint != Paint::Solid
    }

    fn refers_to_atlas(&self) -> (found: bool)
        ensures
            found == self.has_resources(),
    {
        if self.atlas_uploads.len() > 0 {
            return true;
        }
        let mut i: usize = 0;
        while i < self.quads.len()
            invariant
                i <= self.quads@.len(),
                forall|j: int|
                    0 <= j < i ==> (#[trigger] self.quads@[j]).paint == Paint::Solid,
            decreases self.quads@.len() - i,
        {
            if self.quads[i].paint != Paint::Solid {
                assert(self.quads@[i as int].paint != Paint::Solid);
                return true;
            }
            i += 1;
        }
        false
    }

    /// Why `other` cannot be composed into this frame, if it cannot.
    pub open spec fn refusal(self, other: Frame<G, C>, clip_valid: bool) -> Option<ComposeError> {
        if !clip_valid {
            Some(ComposeError::InvalidClip)
        } else if self.has_resources() && self.generation != other.generation {
            Some(ComposeError::GenerationChanged)
        } else if merged(by_revision(self.atlas_uploads@), other.atlas_uploads@) is None {
            Some(ComposeError::ConflictingAtlasRevision)
        } else {
            None
        }
    }

    /// Compose a pane into a window-sized frame. `clipped` are the quads of `other` as the host
    /// moved and clipped them, `ime_cursor` its moved anchor; `clip_valid` tells whether origin
    /// and clip are finite and not negative in extent.
    ///
    /// All textured panes must come from the same font/atlas generation. If
    /// eviction changes it while preparing later panes, rebuild the pane frames
    /// before composing them. Failure leaves the destination unchanged.
    pub fn append_clipped(
        &mut self,
        other: &Frame<G, C>,
        clip_valid: bool,
        clipped: Vec<Quad<G, C>>,
        ime_cursor: Option<G>,
    ) -> (result: Result<(), ComposeError>)
        ensures
            match old(self).refusal(*other, clip_valid) {
                Some(error) => result == Err::<(), ComposeError>(error) && *final(self) == *old(
                    self,
                ),
                None => {
                    &&& result is Ok
                    &&& final(self).size == old(self).size
                    &&& final(self).generation == other.generation
                    &&& final(self).quads@ == old(self).quads@ + clipped@
                    &&& lists(
                        final(self).atlas_uploads@,
                        merged(by_revision(old(self).atlas_uploads@), other.atlas_uploads@)->0,
                    )
                    &&& final(self).ime_cursor == if ime_cursor is Some {
                        ime_cursor
                    } else {
                        old(self).ime_cursor
                    }
                    &&& final(self).blinking_text == (old(self).blinking_text
                        || other.blinking_text)
                },
            },
    {
        if !clip_valid {
            return Err(ComposeError::InvalidClip);
        }
        if self.refers_to_atlas() && self.generation != other.generation {
            return Err(ComposeError::GenerationChanged);
        }
        let uploads = match merge_uploads(&self.atlas_uploads, &other.atlas_uploads) {
            Some(uploads) => uploads,
            None => {
                return Err(ComposeError::ConflictingAtlasRevision);
            },
        };
        let mut clipped = clipped;
        self.quads.append(&mut clipped);
        self.generation = other.generation;
        self.atlas_uploads = uploads;
        self.blinking_text = self.blinking_text || other.blinking_text;
        if ime_cursor.is_some() {
            self.ime_cursor = ime_cursor;
        }
        Ok(())
    }
}

/// Panes that share their updates add none to each other.
pub proof fn law_shared_updates_merge_into_themselves(uploads: Seq<AtlasUpload>, known: Map<
    u64,
    UploadModel,
>)
    requires
        lists(uploads, known),
    ensures
        merged(known, uploads) == Some(known),
{
    lemma_known_prefix(uploads, known, uploads.len() as int);
    assert(uploads.take(uploads.len() as int) =~= uploads);
}

proof fn lemma_known_prefix(uploads: Seq<AtlasUpload>, known: Map<u64, UploadModel>, n: int)
    requires
        lists(uploads, known),
        0 <= n <= uploads.len(),
    ensures
        merged(known, uploads.take(n)) == Some(known),
    decreases n,
{
    if n > 0 {
        lemma_known_prefix(uploads, known, n - 1);
        assert(uploads.take(n).drop_last() =~= uploads.take(n - 1));
        assert(known.contains_key(uploads[n - 1].revision));
        assert(known.insert(uploads[n - 1].revision, uploads[n - 1]@) =~= known);
    }
}

/// Merging gives every update that was known or is added, as it is, and no other.
pub proof fn law_merging_gives_all_updates(
    known: Map<u64, UploadModel>,
    more: Seq<AtlasUpload>,
    revision: u64,
)
    requires
        merged(known, more) is Some,
    ensures
        merged(known, more)->0.contains_key(revision) <==> known.contains_key(revision) || exists|
            i: int,
        |
            0 <= i < more.len() && (#[trigger] more[i]).revision == revision,
        known.contains_key(revision) ==> merged(known, more)->0[revision] == known[revision],
        forall|i: int|
            0 <= i < more.len() && (#[trigger] more[i]).revision == revision ==> merged(
                known,
                more,
            )->0[revision] == more[i]@,
    decreases more.len(),
{
    if more.len() > 0 {
        let rest = more.drop_last();
        law_merging_gives_all_updates(known, rest, revision);
        assert forall|i: int| 0 <= i < more.len() && (#[trigger] more[i]).revision
            == revision implies merged(known, more)->0[revision] == more[i]@ by {
            if i < rest.len() {
                assert(rest[i].revision == revision);
            }
        }
        if exists|i: int| 0 <= i < rest.len() && (#[trigger] rest[i]).revision == revision {
            let i = choose|i: int| 0 <= i < rest.len() && (#[trigger] rest[i]).revision == revision;
            assert(more[i].revision == revision);
        }
        if exists|i: int| 0 <= i < more.len() && (#[trigger] more[i]).revision == revision {
            let i = choose|i: int| 0 <= i < more.len() && (#[trigger] more[i]).revision == revision;
            if i < rest.len() {
                assert(rest[i].revision == revision);
            }
        }
        if more.last().revision == revision {
            assert(more[more.len() - 1].revision == revision);
        }
    }
}

} // verus!
