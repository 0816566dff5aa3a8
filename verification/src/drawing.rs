//! What a window's frame is made of: how each pane is painted, which prepared panes are still
//! good, and how they come together.
use crate::frame::{
    ascending, by_revision, lists, merged, ComposeError, Frame, Paint, Quad, SearchHighlight,
};
use crate::geometry::{Rect, Scalar};
use crate::host::{Host, Peek};
use crate::pane::same_optional;
use crate::prepare::{RenderOptions, PALETTE_SIZE};
use crate::presentation::Id;
use crate::screen::{Cursor, Rgb, Screen, Selection};
use crate::text::chars_of;
use std::sync::Arc;
use vstd::prelude::*;
use vstd::string::*;

verus! {

/// A colour of the configuration.
#[derive(Clone, Copy, Debug, PartialEq, Eq, Structural)]
pub enum ConfigColor {
    Rgb(Rgb),
    CellForeground,
    CellBackground,
}

impl ConfigColor {
    pub open spec fn spec_resolve(self, foreground: Rgb, background: Rgb) -> Rgb {
        match self {
            ConfigColor::Rgb(color) => color,
            ConfigColor::CellForeground => foreground,
            ConfigColor::CellBackground => background,
        }
    }

    pub fn resolve(self, foreground: Rgb, background: Rgb) -> (color: Rgb)
        ensures
            color == self.spec_resolve(foreground, background),
    {
        match self {
            ConfigColor::Rgb(color) => color,
            ConfigColor::CellForeground => foreground,
            ConfigColor::CellBackground => background,
        }
    }
}

/// The colours that the configuration gives to every pane.
#[derive(Clone, Copy, Debug)]
pub struct ConfigColors {
    pub cursor_text: Option<ConfigColor>,
    pub selection_background: Option<ConfigColor>,
    pub selection_foreground: Option<ConfigColor>,
}

/// The colours of a terminal.
pub struct TerminalColors {
    pub foreground: Rgb,
    pub background: Rgb,
    pub cursor: Option<Rgb>,
    /// The program exchanged foreground and background.
    pub reversed: bool,
    pub palette: Vec<Rgb>,
}

/// How a pane stands in its window.
#[derive(Clone, Copy, Debug)]
pub struct PanePlace {
    pub pane: Id,
    /// The pane with the focus in the tab in front.
    pub focused: Id,
    pub exited: bool,
    /// Output is held back.
    pub synchronized: bool,
}

impl Host {
    /// Keys typed now go to this pane.
    pub open spec fn types_into(self, place: PanePlace) -> bool {
        self.focused && place.pane == place.focused && self.peek is None
    }

    fn is_typed_into(&self, place: PanePlace) -> (typed: bool)
        ensures
            typed == self.types_into(place),
    {
        self.focused && place.pane == place.focused && self.peek.is_none()
    }

    /// Whether the cursor of a pane blinks, so that the next phase is drawn too. `rows` is the
    /// height of the terminal.
    pub fn cursor_blinks(
        &self,
        place: PanePlace,
        cursor: Cursor,
        viewport_offset: usize,
        rows: u16,
    ) -> (blinks: bool)
        ensures
            blinks == (!place.synchronized && self.types_into(place) && !place.exited
                && !self.composing && cursor.visible && cursor.row + viewport_offset < rows
                && cursor.blink),
    {
        let on_screen = cursor.row < rows as usize && viewport_offset < rows as usize - cursor.row;
        !place.synchronized && self.is_typed_into(place) && !place.exited && !self.composing
            && cursor.visible && on_screen && cursor.blink
    }

    /// Whether text of a prepared pane blinks, so that the next phase is drawn too.
    pub fn text_blinks(&self, place: PanePlace, blinking_text: bool) -> (blinks: bool)
        ensures
            blinks == (!place.synchronized && self.types_into(place) && !place.exited
                && blinking_text),
    {
        !place.synchronized && self.is_typed_into(place) && !place.exited && blinking_text
    }

    /// The options under which a pane is prepared, apart from its search highlights.
    pub open spec fn are_pane_options(
        self,
        options: RenderOptions,
        size: [u32; 2],
        place: PanePlace,
        colors: TerminalColors,
        config: ConfigColors,
        blink_on: bool,
    ) -> bool {
        let foreground = if colors.reversed {
            colors.background
        } else {
            colors.foreground
        };
        let background = if colors.reversed {
            colors.foreground
        } else {
            colors.background
        };
        let typed = self.types_into(place);
        &&& options.wf()
        &&& options.size == size
        &&& options.foreground == foreground
        &&& options.background == background
        &&& options.cursor_color == match colors.cursor {
            Some(color) => color,
            None => foreground,
        }
        &&& options.cursor_text == match config.cursor_text {
            Some(color) => color.spec_resolve(foreground, background),
            None => background,
        }
        &&& options.selection_background == match config.selection_background {
            Some(color) => color.spec_resolve(foreground, background),
            None => Rgb { r: 65, g: 85, b: 120 },
        }
        &&& options.selection_foreground == match config.selection_foreground {
            Some(color) => Some(color.spec_resolve(foreground, background)),
            None => None,
        }
        &&& forall|i: int|
            0 <= i < PALETTE_SIZE ==> #[trigger] options.palette@[i] == if colors.palette@.len()
                == PALETTE_SIZE {
                colors.palette@[i]
            } else {
                Rgb { r: 0, g: 0, b: 0 }
            }
        &&& options.focused == typed
        &&& options.cursor_visible == (!place.exited && (place.pane != place.focused
            || !self.composing))
        &&& options.blink_visible == (blink_on || !typed)
        &&& chars_of(options.preedit) == if typed && self.preedit@.len() > 0 {
            Some(self.preedit@)
        } else {
            None
        }
        &&& options.preedit_selection == if typed && self.preedit@.len() > 0 {
            self.preedit_selection
        } else {
            None
        }
    }

    /// Gathers the options under which a pane is prepared. `blink_on` is the blink phase.
    pub fn pane_options(
        &self,
        size: [u32; 2],
        place: PanePlace,
        colors: &TerminalColors,
        config: ConfigColors,
        search_highlights: Vec<SearchHighlight>,
        blink_on: bool,
    ) -> (options: RenderOptions)
        ensures
            self.are_pane_options(options, size, place, *colors, config, blink_on),
            options.search_highlights == search_highlights,
    {
        let (foreground, background) = if colors.reversed {
            (colors.background, colors.foreground)
        } else {
            (colors.foreground, colors.background)
        };
        let typed = self.is_typed_into(place);
        let composing = typed && !self.preedit.as_str().is_empty();
        RenderOptions {
            size,
            foreground,
            background,
            cursor_color: match colors.cursor {
                Some(color) => color,
                None => foreground,
            },
            cursor_text: match config.cursor_text {
                Some(color) => color.resolve(foreground, background),
                None => background,
            },
            selection_background: match config.selection_background {
                Some(color) => color.resolve(foreground, background),
                None => Rgb { r: 65, g: 85, b: 120 },
            },
            selection_foreground: match config.selection_foreground {
                Some(color) => Some(color.resolve(foreground, background)),
                None => None,
            },
            search_highlights,
            palette: full_palette(&colors.palette),
            focused: typed,
            cursor_visible: !place.exited && (place.pane != place.focused || !self.composing),
            blink_visible: blink_on || !typed,
            preedit: if composing {
                Some(self.preedit.as_str().to_owned())
            } else {
                None
            },
            preedit_selection: if composing {
                self.preedit_selection
            } else {
                None
            },
        }
    }
}

/// A palette of the full size: all black where the terminal's has another one.
fn full_palette(palette: &Vec<Rgb>) -> (full: Vec<Rgb>)
    ensures
        full@.len() == PALETTE_SIZE,
        forall|i: int|
            0 <= i < PALETTE_SIZE ==> #[trigger] full@[i] == if palette@.len() == PALETTE_SIZE {
                palette@[i]
            } else {
                Rgb { r: 0, g: 0, b: 0 }
            },
{
    let copies = palette.len() == PALETTE_SIZE;
    let mut full: Vec<Rgb> = Vec::new();
    while full.len() < PALETTE_SIZE
        invariant
            full@.len() <= PALETTE_SIZE,
            copies == (palette@.len() == PALETTE_SIZE),
            forall|i: int|
                0 <= i < full@.len() ==> #[trigger] full@[i] == if copies {
                    palette@[i]
                } else {
                    Rgb { r: 0, g: 0, b: 0 }
                },
        decreases PALETTE_SIZE - full@.len(),
    {
        let color = if copies {
            palette[full.len()]
        } else {
            Rgb { r: 0, g: 0, b: 0 }
        };
        full.push(color);
    }
    full
}

/// All that the frame of a pane depends on. Viewport and selection change without the terminal's
/// generation; the scalars are the host's measures.
pub struct PaneRenderKey {
    pub generation: u64,
    pub viewport_offset: usize,
    pub selection: Option<Selection>,
    pub cursor: Cursor,
    pub options: RenderOptions,
    pub rect: Rect,
    pub scalars: Vec<Scalar>,
}

pub open spec fn same_scalars(left: Seq<Scalar>, right: Seq<Scalar>) -> bool {
    left.len() == right.len() && forall|i: int|
        0 <= i < left.len() ==> (#[trigger] left[i]).equals(right[i])
}

/// The options agree, apart from the blink phase.
pub open spec fn same_options(left: RenderOptions, right: RenderOptions) -> bool {
    &&& left.size@ == right.size@
    &&& left.foreground == right.foreground
    &&& left.background == right.background
    &&& left.cursor_color == right.cursor_color
    &&& left.cursor_text == right.cursor_text
    &&& left.selection_background == right.selection_background
    &&& left.selection_foreground == right.selection_foreground
    &&& left.search_highlights@ == right.search_highlights@
    &&& left.palette@ == right.palette@
    &&& left.focused == right.focused
    &&& left.cursor_visible == right.cursor_visible
    &&& chars_of(left.preedit) == chars_of(right.preedit)
    &&& left.preedit_selection == right.preedit_selection
}

fn equal_highlights(left: &Vec<SearchHighlight>, right: &Vec<SearchHighlight>) -> (same: bool)
    ensures
        same == (left@ == right@),
{
    if left.len() != right.len() {
        return false;
    }
    let mut i: usize = 0;
    while i < left.len()
        invariant
            i <= left@.len() == right@.len(),
            forall|j: int| 0 <= j < i ==> left@[j] == right@[j],
        decreases left@.len() - i,
    {
        if left[i] != right[i] {
            return false;
        }
        i += 1;
    }
    assert(left@ =~= right@);
    true
}

fn equal_colors(left: &Vec<Rgb>, right: &Vec<Rgb>) -> (same: bool)
    ensures
        same == (left@ == right@),
{
    if left.len() != right.len() {
        return false;
    }
    let mut i: usize = 0;
    while i < left.len()
        invariant
            i <= left@.len() == right@.len(),
            forall|j: int| 0 <= j < i ==> left@[j] == right@[j],
        decreases left@.len() - i,
    {
        if left[i] != right[i] {
            return false;
        }
        i += 1;
    }
    assert(left@ =~= right@);
    true
}

fn equal_scalars(left: &Vec<Scalar>, right: &Vec<Scalar>) -> (same: bool)
    ensures
        same == same_scalars(left@, right@),
{
    if left.len() != right.len() {
        return false;
    }
    let mut i: usize = 0;
    while i < left.len()
        invariant
            i <= left@.len() == right@.len(),
            forall|j: int| 0 <= j < i ==> (#[trigger] left@[j]).equals(right@[j]),
        decreases left@.len() - i,
    {
        if !left[i].same(right[i]) {
            assert(!left@[i as int].equals(right@[i as int]));
            return false;
        }
        i += 1;
    }
    true
}

fn equal_options(left: &RenderOptions, right: &RenderOptions) -> (same: bool)
    ensures
        same == same_options(*left, *right),
{
    let sizes = left.size[0] == right.size[0] && left.size[1] == right.size[1];
    assert(sizes == (left.size@ =~= right.size@));
    sizes && left.foreground == right.foreground && left.background == right.background
        && left.cursor_color == right.cursor_color && left.cursor_text == right.cursor_text
        && left.selection_background == right.selection_background && same_color(
        left.selection_foreground,
        right.selection_foreground,
    ) && equal_highlights(&left.search_highlights, &right.search_highlights) && equal_colors(
        &left.palette,
        &right.palette,
    ) && left.focused == right.focused && left.cursor_visible == right.cursor_visible
        && same_optional(&left.preedit, &right.preedit) && same_range(
        left.preedit_selection,
        right.preedit_selection,
    )
}

fn same_color(left: Option<Rgb>, right: Option<Rgb>) -> (same: bool)
    ensures
        same == (left == right),
{
    match (left, right) {
        (Some(left), Some(right)) => left == right,
        (None, None) => true,
        _ => false,
    }
}

fn same_range(left: Option<(usize, usize)>, right: Option<(usize, usize)>) -> (same: bool)
    ensures
        same == (left == right),
{
    match (left, right) {
        (Some(left), Some(right)) => left.0 == right.0 && left.1 == right.1,
        (None, None) => true,
        _ => false,
    }
}

fn same_selection(left: Option<Selection>, right: Option<Selection>) -> (same: bool)
    ensures
        same == (left == right),
{
    match (left, right) {
        (Some(left), Some(right)) => left == right,
        (None, None) => true,
        _ => false,
    }
}

impl PaneRenderKey {
    /// The terminal still looks as it did.
    pub open spec fn fits_terminal(self, generation: u64, screen: Screen) -> bool {
        self.generation == generation && self.viewport_offset == screen.viewport_offset
            && self.selection == screen.selection && self.cursor == screen.cursor
    }

    pub fn matches_terminal(&self, generation: u64, screen: &Screen) -> (same: bool)
        ensures
            same == self.fits_terminal(generation, *screen),
    {
        self.generation == generation && self.viewport_offset == screen.viewport_offset
            && same_selection(self.selection, screen.selection) && self.cursor == screen.cursor
    }

    pub fn new(
        generation: u64,
        screen: &Screen,
        options: RenderOptions,
        rect: Rect,
        scalars: Vec<Scalar>,
    ) -> (key: PaneRenderKey)
        ensures
            key.fits_terminal(generation, *screen),
            key.options == options,
            key.rect == rect,
            key.scalars == scalars,
    {
        PaneRenderKey {
            generation,
            viewport_offset: screen.viewport_offset,
            selection: screen.selection,
            cursor: screen.cursor,
            options,
            rect,
            scalars,
        }
    }

    /// The keys stand for the same frame.
    pub open spec fn equals(self, other: PaneRenderKey) -> bool {
        &&& self.generation == other.generation
        &&& self.viewport_offset == other.viewport_offset
        &&& self.selection == other.selection
        &&& self.cursor == other.cursor
        &&& same_options(self.options, other.options)
        &&& self.options.blink_visible == other.options.blink_visible
        &&& self.rect.equals(other.rect)
        &&& same_scalars(self.scalars@, other.scalars@)
    }

    pub fn same(&self, other: &PaneRenderKey) -> (same: bool)
        ensures
            same == self.equals(*other),
    {
        self.generation == other.generation && self.viewport_offset == other.viewport_offset
            && same_selection(self.selection, other.selection) && self.cursor == other.cursor
            && equal_options(&self.options, &other.options) && self.options.blink_visible
            == other.options.blink_visible && self.rect.same(&other.rect) && equal_scalars(
            &self.scalars,
            &other.scalars,
        )
    }
}

/// A pane as it was prepared, with the frame that the host made of it.
pub struct PreparedPane<F> {
    pub key: PaneRenderKey,
    /// The atlas generation of the frame.
    pub frame_generation: u64,
    pub blinking_text: bool,
    /// The cursor and the viewport that the frame shows.
    pub cursor: Cursor,
    pub viewport_offset: usize,
    pub frame: F,
}

/// Whether a batch of output that is held back ends now: like a resize, a new atlas ends it, as
/// the texture coordinates of the retained frame cannot mix with it.
pub fn ends_batch(held: bool, frame_generation: Option<u64>, generation: u64) -> (ends: bool)
    ensures
        ends == (held && frame_generation is Some && frame_generation->0 != generation),
{
    held && match frame_generation {
        Some(own) => own != generation,
        None => false,
    }
}

/// Whether a pane is prepared anew: unless its output is held back, or its frame still serves.
pub fn takes_snapshot(synchronized: bool, serves: bool) -> (takes: bool)
    ensures
        takes == (!synchronized && !serves),
{
    !synchronized && !serves
}

impl<F> PreparedPane<F> {
    /// Something in the frame changes with the blink phase.
    pub open spec fn blinks(self) -> bool {
        let options = self.key.options;
        self.blinking_text || (options.focused && options.cursor_visible && self.cursor.visible
            && self.cursor.blink && self.viewport_offset == 0 && (options.preedit is None
            || options.preedit->0@.len() == 0))
    }

    /// The frame can be shown for this key: it was prepared for it, the phase aside where nothing
    /// blinks, with the atlas that is in use.
    pub open spec fn serves(self, key: PaneRenderKey, generation: u64) -> bool {
        &&& self.frame_generation == generation
        &&& PaneRenderKey {
            options: RenderOptions {
                blink_visible: if self.blinks() {
                    self.key.options.blink_visible
                } else {
                    key.options.blink_visible
                },
                ..self.key.options
            },
            ..self.key
        }.equals(key)
    }

    /// Whether the frame can be shown for this key. Only the retained key takes on another blink
    /// phase: new content may introduce blink and must be prepared in the actual phase.
    pub fn matches(&mut self, key: &PaneRenderKey, generation: u64) -> (serves: bool)
        ensures
            serves == old(self).serves(*key, generation),
            *final(self) == (PreparedPane {
                key: PaneRenderKey {
                    options: RenderOptions {
                        blink_visible: if old(self).blinks() {
                            old(self).key.options.blink_visible
                        } else {
                            key.options.blink_visible
                        },
                        ..old(self).key.options
                    },
                    ..old(self).key
                },
                ..*old(self)
            }),
    {
        let composing = match &self.key.options.preedit {
            Some(text) => !text.as_str().is_empty(),
            None => false,
        };
        let blinking_cursor = self.key.options.focused && self.key.options.cursor_visible
            && self.cursor.visible && self.cursor.blink && self.viewport_offset == 0 && !composing;
        if !blinking_cursor && !self.blinking_text {
            self.key.options.blink_visible = key.options.blink_visible;
        }
        self.key.same(key) && self.frame_generation == generation
    }
}

/// A frame without anything that blinks serves both phases alike.
pub proof fn law_still_frames_serve_both_phases<F>(
    prepared: PreparedPane<F>,
    key: PaneRenderKey,
    generation: u64,
    visible: bool,
)
    requires
        !prepared.blinks(),
        prepared.serves(key, generation),
    ensures
        prepared.serves(
            PaneRenderKey {
                options: RenderOptions { blink_visible: visible, ..key.options },
                ..key
            },
            generation,
        ),
{
}

/// A pane in a window's frame: which frame it shows, where, and under what shade.
#[derive(Clone, Copy, Debug)]
pub struct ComposedPane {
    /// The identity of the frame.
    pub frame: u64,
    /// Left, top, width and height.
    pub rect: [Scalar; 4],
    /// The colour and the opacity that dim the pane.
    pub dim: Option<[Scalar; 4]>,
}

pub open spec fn same_four(left: [Scalar; 4], right: [Scalar; 4]) -> bool {
    forall|i: int| 0 <= i < 4 ==> (#[trigger] left[i]).equals(right[i])
}

fn equal_four(left: &[Scalar; 4], right: &[Scalar; 4]) -> (same: bool)
    ensures
        same == same_four(*left, *right),
{
    let same = left[0].same(right[0]) && left[1].same(right[1]) && left[2].same(right[2])
        && left[3].same(right[3]);
    proof {
        if !same {
            assert(!left[0].equals(right[0]) || !left[1].equals(right[1]) || !left[2].equals(
                right[2],
            ) || !left[3].equals(right[3]));
        }
    }
    same
}

impl ComposedPane {
    pub open spec fn equals(self, other: ComposedPane) -> bool {
        self.frame == other.frame && same_four(self.rect, other.rect) && match (
            self.dim,
            other.dim,
        ) {
            (Some(left), Some(right)) => same_four(left, right),
            (None, None) => true,
            _ => false,
        }
    }

    pub fn same(&self, other: &ComposedPane) -> (same: bool)
        ensures
            same == self.equals(*other),
    {
        self.frame == other.frame && equal_four(&self.rect, &other.rect) && match (
            &self.dim,
            &other.dim,
        ) {
            (Some(left), Some(right)) => equal_four(left, right),
            (None, None) => true,
            _ => false,
        }
    }
}

/// The panes of a frame that was composed, and its size.
pub struct Composition {
    pub size: [u32; 2],
    pub panes: Vec<ComposedPane>,
}

impl Composition {
    /// The same panes in the same places.
    pub open spec fn serves(self, size: [u32; 2], panes: Seq<ComposedPane>) -> bool {
        &&& self.size@ == size@
        &&& self.panes@.len() == panes.len()
        &&& forall|i: int| 0 <= i < panes.len() ==> (#[trigger] self.panes@[i]).equals(panes[i])
    }

    /// Whether the composed frame can be shown again.
    pub fn matches(&self, size: [u32; 2], panes: &Vec<ComposedPane>) -> (serves: bool)
        ensures
            serves == self.serves(size, panes@),
    {
        let sizes = self.size[0] == size[0] && self.size[1] == size[1];
        assert(sizes == (self.size@ =~= size@));
        if !sizes || self.panes.len() != panes.len() {
            return false;
        }
        let mut i: usize = 0;
        while i < panes.len()
            invariant
                i <= panes@.len() == self.panes@.len(),
                forall|j: int| 0 <= j < i ==> (#[trigger] self.panes@[j]).equals(panes@[j]),
            decreases panes@.len() - i,
        {
            if !self.panes[i].same(&panes[i]) {
                assert(!self.panes@[i as int].equals(panes@[i as int]));
                return false;
            }
            i += 1;
        }
        true
    }
}

/// A pane's frame on its way into a window's: its quads and its anchor as the host moved and
/// clipped them, and the quad that dims it.
pub struct Layer<G, C> {
    pub frame: Arc<Frame<G, C>>,
    pub clip_valid: bool,
    pub clipped: Vec<Quad<G, C>>,
    pub ime_cursor: Option<G>,
    pub dim: Option<Quad<G, C>>,
}

/// What a frame says.
pub struct FrameModel<G, C> {
    pub generation: u64,
    pub quads: Seq<Quad<G, C>>,
    pub uploads: Map<u64, crate::atlas::UploadModel>,
    pub ime_cursor: Option<G>,
    pub blinking_text: bool,
}

pub open spec fn frame_model<G, C>(frame: Frame<G, C>) -> FrameModel<G, C> {
    FrameModel {
        generation: frame.generation,
        quads: frame.quads@,
        uploads: by_revision(frame.atlas_uploads@),
        ime_cursor: frame.ime_cursor,
        blinking_text: frame.blinking_text,
    }
}

impl<G, C> FrameModel<G, C> {
    /// A frame without anything.
    pub open spec fn empty() -> FrameModel<G, C> {
        FrameModel {
            generation: 0,
            quads: Seq::empty(),
            uploads: Map::empty(),
            ime_cursor: None,
            blinking_text: false,
        }
    }

    /// The frame refers to an atlas.
    pub open spec fn has_resources(self) -> bool {
        self.uploads != Map::<u64, crate::atlas::UploadModel>::empty() || exists|i: int|
            0 <= i < self.quads.len() && (#[trigger] self.quads[i]).paint != Paint::Solid
    }

    /// The frame with a pane on top.
    pub open spec fn with_layer(self, layer: Layer<G, C>) -> Result<FrameModel<G, C>, ComposeError> {
        let uploads = merged(self.uploads, layer.frame.atlas_uploads@);
        if !layer.clip_valid {
            Err(ComposeError::InvalidClip)
        } else if self.has_resources() && self.generation != layer.frame.generation {
            Err(ComposeError::GenerationChanged)
        } else if uploads is None {
            Err(ComposeError::ConflictingAtlasRevision)
        } else {
            let quads = self.quads + layer.clipped@;
            Ok(
                FrameModel {
                    generation: layer.frame.generation,
                    quads: match layer.dim {
                        Some(dim) => quads.push(dim),
                        None => quads,
                    },
                    uploads: uploads->0,
                    ime_cursor: if layer.ime_cursor is Some {
                        layer.ime_cursor
                    } else {
                        self.ime_cursor
                    },
                    blinking_text: self.blinking_text || layer.frame.blinking_text,
                },
            )
        }
    }
}

/// The frame of a window with these panes, from the bottom up.
pub open spec fn composed<G, C>(layers: Seq<Layer<G, C>>) -> Result<FrameModel<G, C>, ComposeError>
    decreases layers.len(),
{
    if layers.len() == 0 {
        Ok(FrameModel::empty())
    } else {
        match composed(layers.drop_last()) {
            Ok(model) => model.with_layer(layers.last()),
            Err(error) => Err(error),
        }
    }
}

proof fn lemma_listed(
    uploads: Seq<crate::atlas::AtlasUpload>,
    known: Map<u64, crate::atlas::UploadModel>,
)
    requires
        lists(uploads, known),
    ensures
        by_revision(uploads) == known,
    decreases uploads.len(),
{
    if uploads.len() == 0 {
        assert(known =~= Map::<u64, crate::atlas::UploadModel>::empty()) by {
            assert forall|revision: u64| !known.contains_key(revision) by {
                if known.contains_key(revision) {
                    let i = choose|i: int|
                        0 <= i < uploads.len() && (#[trigger] uploads[i]).revision == revision;
                }
            }
        }
    } else {
        let last = uploads.last();
        let rest = known.remove(last.revision);
        assert(uploads[uploads.len() - 1] == last);
        assert(lists(uploads.drop_last(), rest)) by {
            assert forall|i: int| 0 <= i < uploads.drop_last().len() implies rest.contains_key(
                (#[trigger] uploads.drop_last()[i]).revision,
            ) && rest[uploads.drop_last()[i].revision] == uploads.drop_last()[i]@ by {
                assert(uploads[i].revision < uploads[uploads.len() - 1].revision);
            }
            assert forall|revision: u64| #[trigger] rest.contains_key(revision) implies exists|
                i: int,
            |
                0 <= i < uploads.drop_last().len() && (
                #[trigger] uploads.drop_last()[i]).revision == revision by {
                let i = choose|i: int|
                    0 <= i < uploads.len() && (#[trigger] uploads[i]).revision == revision;
                assert(uploads.drop_last()[i].revision == revision);
            }
        }
        lemma_listed(uploads.drop_last(), rest);
        assert(rest.insert(last.revision, last@) =~= known);
    }
}

proof fn lemma_resources<G, C>(frame: Frame<G, C>)
    ensures
        frame.has_resources() == frame_model(frame).has_resources(),
{
    let uploads = frame.atlas_uploads@;
    if uploads.len() > 0 {
        assert(by_revision(uploads).contains_key(uploads.last().revision));
    }
}

proof fn lemma_failure_stays<G, C>(layers: Seq<Layer<G, C>>, n: int)
    requires
        0 <= n <= layers.len(),
        composed(layers.take(n)) is Err,
    ensures
        composed(layers) == composed(layers.take(n)),
    decreases layers.len() - n,
{
    if n < layers.len() {
        assert(layers.take(n + 1).drop_last() =~= layers.take(n));
        lemma_failure_stays(layers, n + 1);
    } else {
        assert(layers.take(n) =~= layers);
    }
}

/// Composes the frame of a window from its panes, from the bottom up.
pub fn compose<G, C>(size: [u32; 2], layers: Vec<Layer<G, C>>) -> (result: Result<
    Frame<G, C>,
    ComposeError,
>)
    ensures
        match (composed(layers@), result) {
            (Ok(model), Ok(frame)) => frame.size == size && frame_model(frame) == model
                && ascending(frame.atlas_uploads@),
            (Err(expected), Err(error)) => expected == error,
            _ => false,
        },
{
    let ghost all = layers@;
    let mut frame: Frame<G, C> = Frame::empty(size);
    proof {
        assert(frame.quads@ =~= Seq::empty());
        assert(frame_model(frame) == FrameModel::<G, C>::empty());
    }
    for layer in iter: layers
        invariant
            iter.seq() == all,
            frame.size == size,
            ascending(frame.atlas_uploads@),
            composed(all.take(iter.index())) == Ok::<FrameModel<G, C>, ComposeError>(
                frame_model(frame),
            ),
    {
        let ghost before = frame;
        proof {
            let i = iter.index();
            assert(all.take(i + 1).drop_last() =~= all.take(i));
            assert(all.take(i + 1).last() == layer);
            lemma_resources(frame);
        }
        let Layer { frame: pane, clip_valid, clipped, ime_cursor, dim } = layer;
        match frame.append_clipped(&pane, clip_valid, clipped, ime_cursor) {
            Ok(()) => {
                proof {
                    lemma_listed(
                        frame.atlas_uploads@,
                        merged(by_revision(before.atlas_uploads@), pane.atlas_uploads@)->0,
                    );
                }
            },
            Err(error) => {
                proof {
                    lemma_failure_stays(all, iter.index() + 1);
                }
                return Err(error);
            },
        }
        if let Some(dim) = dim {
            frame.quads.push(dim);
        }
    }
    assert(all.take(all.len() as int) =~= all);
    Ok(frame)
}

/// What follows an attempt to compose a frame.
#[derive(Clone, Copy, Debug, PartialEq, Eq, Structural)]
pub enum ComposeStep {
    Show,
    /// The panes are prepared once more: an atlas eviction can happen halfway through them.
    Repeat,
    Fail,
}

pub fn compose_step(composed: bool, attempt: u32) -> (step: ComposeStep)
    ensures
        step == if composed {
            ComposeStep::Show
        } else if attempt == 0 {
            ComposeStep::Repeat
        } else {
            ComposeStep::Fail
        },
{
    if composed {
        ComposeStep::Show
    } else if attempt == 0 {
        ComposeStep::Repeat
    } else {
        ComposeStep::Fail
    }
}

/// What a pane puts on the window's frame: its own quads, and above them the one that dims it.
pub open spec fn layer_quads<G, C>(layer: Layer<G, C>) -> Seq<Quad<G, C>> {
    match layer.dim {
        Some(dim) => layer.clipped@.push(dim),
        None => layer.clipped@,
    }
}

/// What panes put on the window's frame, one above the other.
pub open spec fn stacked_quads<G, C>(layers: Seq<Layer<G, C>>) -> Seq<Quad<G, C>>
    decreases layers.len(),
{
    if layers.len() == 0 {
        Seq::empty()
    } else {
        stacked_quads(layers.drop_last()) + layer_quads(layers.last())
    }
}

/// Panes stack from the bottom up, and dimming never hides a pane's own quads: all of them stay
/// in the frame, below the quad that dims them and above the panes before.
pub proof fn law_layers_stack<G, C>(layers: Seq<Layer<G, C>>)
    requires
        composed(layers) is Ok,
    ensures
        composed(layers)->Ok_0.quads == stacked_quads(layers),
    decreases layers.len(),
{
    if layers.len() > 0 {
        law_layers_stack(layers.drop_last());
        assert(composed(layers)->Ok_0.quads =~= stacked_quads(layers));
    }
}

impl Host {
    /// Whether a frame of the window would be seen.
    pub fn draws(&self, has_layout: bool, width: u32, height: u32) -> (draws: bool)
        ensures
            draws == (self.shows() && has_layout && width > 0 && height > 0),
    {
        self.visible && !self.occluded && has_layout && width > 0 && height > 0
    }

    /// Find keeps the keyboard only in the focused pane, and while it is open there.
    pub fn begin_frame(&mut self, focused: Id, find_open: bool, now: crate::time::Instant)
        ensures
            *final(self) == (Host {
                search_focus: if old(self).search_focus == Some(focused) && find_open {
                    old(self).search_focus
                } else {
                    None
                },
                navigation_warning: match old(self).navigation_warning {
                    Some((_, until)) if until.nanos <= now.nanos => None,
                    _ => old(self).navigation_warning,
                },
                ..*old(self)
            }),
    {
        let keeps = match self.search_focus {
            Some(pane) => pane == focused && find_open,
            None => false,
        };
        if !keeps {
            self.search_focus = None;
        }
        let over = match self.navigation_warning {
            Some((_, until)) => until.nanos <= now.nanos,
            None => false,
        };
        if over {
            self.navigation_warning = None;
        }
    }

    /// The overlay of a pane is to take the keyboard in this frame.
    pub fn focuses_find(&self, pane: Id) -> (focuses: bool)
        ensures
            focuses == (!self.is_modal() && self.search_focus == Some(pane)
                && self.focus_text_input),
    {
        !self.modal_input() && self.search_focus == Some(pane) && self.focus_text_input
    }

    /// Notes which overlay has the keyboard once all were drawn: the requested one, else the last
    /// that said it has it. `requested` is the request from before. Returns the pane that takes
    /// the focus along.
    pub fn find_drawn(&mut self, requested: Option<Id>, found: Option<Id>, focused: Id) -> (focus:
        Option<Id>)
        ensures
            old(self).is_modal() ==> *final(self) == *old(self) && focus is None,
            !old(self).is_modal() ==> {
                let owner = if requested is Some {
                    requested
                } else {
                    found
                };
                &&& *final(self) == (Host { search_focus: owner, ..*old(self) })
                &&& focus == if owner == Some(focused) {
                    None
                } else {
                    owner
                }
            },
    {
        if self.modal_input() {
            return None;
        }
        let owner = if requested.is_some() {
            requested
        } else {
            found
        };
        self.search_focus = owner;
        match owner {
            Some(pane) => if pane == focused {
                None
            } else {
                Some(pane)
            },
            None => None,
        }
    }

    /// The pane that is marked as selected: that of a peek, else the focused one.
    pub open spec fn marked_pane(self, focused: Id) -> Id {
        match self.peek {
            Some(peek) => peek.target,
            None => focused,
        }
    }

    pub fn selected_pane(&self, focused: Id) -> (pane: Id)
        ensures
            pane == self.marked_pane(focused),
    {
        match self.peek {
            Some(peek) => peek.target,
            None => focused,
        }
    }
}

/// How a peek marks a quadrant.
#[derive(Clone, Copy, Debug, PartialEq, Eq, Structural)]
pub struct QuadrantMarks {
    /// The quadrant is shaded.
    pub shade: bool,
    pub outline: bool,
}

/// A peek shades the quadrants beside the selected one until it was navigated, and outlines the
/// selected one.
pub fn quadrant_marks(peek: Option<Peek>, is_selected: bool) -> (marks: QuadrantMarks)
    ensures
        marks.shade == (peek is Some && !peek->0.navigation_used && !is_selected),
        marks.outline == (peek is Some && is_selected),
{
    match peek {
        Some(peek) => QuadrantMarks {
            shade: !peek.navigation_used && !is_selected,
            outline: is_selected,
        },
        None => QuadrantMarks { shade: false, outline: false },
    }
}

/// Labels are large while the tab shows one quadrant, or peeks out of it.
pub fn large_labels(quadrant_zoomed: bool, peek: bool, shows_quadrant: bool) -> (large: bool)
    ensures
        large == (quadrant_zoomed && (peek || shows_quadrant)),
{
    quadrant_zoomed && (peek || shows_quadrant)
}

/// What the GPU holds of a window's frames, by their identity.
#[derive(Clone, Copy, Debug, PartialEq, Eq, Structural)]
pub struct GpuFrame {
    pub frame: Option<u64>,
    pub prepares: u64,
}

impl GpuFrame {
    pub fn new() -> (gpu: GpuFrame)
        ensures
            gpu == (GpuFrame { frame: None, prepares: 0 }),
    {
        GpuFrame { frame: None, prepares: 0 }
    }

    /// Whether a frame is uploaded before it is painted. A failed upload can replace part of the
    /// GPU's state, so the old frame counts as gone from here on.
    pub fn begin(&mut self, frame: u64) -> (uploads: bool)
        ensures
            uploads == (old(self).frame != Some(frame)),
            *final(self) == if uploads {
                GpuFrame { frame: None, ..*old(self) }
            } else {
                *old(self)
            },
    {
        if self.frame == Some(frame) {
            false
        } else {
            self.frame = None;
            true
        }
    }

    /// Notes that the upload of a frame succeeded.
    pub fn uploaded(&mut self, frame: u64)
        requires
            old(self).prepares < u64::MAX,
        ensures
            *final(self) == (GpuFrame {
                frame: Some(frame),
                prepares: (old(self).prepares + 1) as u64,
            }),
    {
        self.frame = Some(frame);
        self.prepares += 1;
    }
}

} // verus!
