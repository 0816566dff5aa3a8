//! How panes are drawn and when a frame is used again.
use crate::drawing::{
    compose_step, composed, ends_batch, large_labels, quadrant_marks, takes_snapshot, ComposeStep,
    ComposedPane, Composition, ConfigColor, ConfigColors, FrameModel, GpuFrame, Layer, PanePlace,
    PaneRenderKey, PreparedPane, QuadrantMarks, TerminalColors,
};
use crate::frame::{ComposeError, Frame, Paint, Quad, SearchHighlight};
use crate::geometry::{Rect, Scalar};
use crate::host::{Host, Peek};
use crate::prepare::RenderOptions;
use crate::presentation::Id;
use crate::screen::{Cursor, Rgb, Screen};
use crate::time::Instant;
use vstd::prelude::*;

verus! {

/// A pane is drawn in its program's colours, exchanged where the program reversed the screen; what
/// the user configured stands before what follows from them. The focused look is that of the focused
/// pane of a focused window, outside peeks.
pub proof fn law_panes_are_drawn_in_their_colours(
    host: &Host,
    size: [u32; 2],
    place: PanePlace,
    colors: &TerminalColors,
    config: ConfigColors,
    highlights: Vec<SearchHighlight>,
    blink_on: bool,
    options: RenderOptions,
    i: int,
)
    requires
        call_ensures(
            Host::pane_options,
            (host, size, place, colors, config, highlights, blink_on),
            options,
        ),
        0 <= i < 256,
    ensures
        !colors.reversed ==> options.foreground == colors.foreground && options.background
            == colors.background,
        colors.reversed ==> options.foreground == colors.background && options.background
            == colors.foreground,
        colors.cursor is Some ==> options.cursor_color == colors.cursor->0,
        colors.cursor is None ==> options.cursor_color == options.foreground,
        config.cursor_text is None ==> options.cursor_text == options.background,
        config.cursor_text matches Some(ConfigColor::Rgb(color)) ==> options.cursor_text == color,
        config.cursor_text == Some(ConfigColor::CellForeground) ==> options.cursor_text
            == options.foreground,
        config.cursor_text == Some(ConfigColor::CellBackground) ==> options.cursor_text
            == options.background,
        config.selection_background is None ==> options.selection_background == (Rgb {
            r: 65,
            g: 85,
            b: 120,
        }),
        config.selection_background matches Some(ConfigColor::Rgb(color))
            ==> options.selection_background == color,
        config.selection_background == Some(ConfigColor::CellForeground)
            ==> options.selection_background == options.foreground,
        config.selection_background == Some(ConfigColor::CellBackground)
            ==> options.selection_background == options.background,
        config.selection_foreground is None ==> options.selection_foreground is None,
        config.selection_foreground matches Some(ConfigColor::Rgb(color))
            ==> options.selection_foreground == Some(color),
        config.selection_foreground == Some(ConfigColor::CellForeground)
            ==> options.selection_foreground == Some(options.foreground),
        config.selection_foreground == Some(ConfigColor::CellBackground)
            ==> options.selection_foreground == Some(options.background),
        colors.palette@.len() == 256 ==> options.palette@[i] == colors.palette@[i],
        options.size == size && options.search_highlights == highlights,
        options.focused <==> host.focused && place.pane == place.focused && host.peek is None,
{
}

/// The cursor of an ended program does not show, nor does that of the focused pane while a text is
/// composed; the composed text shows where it is typed. Text without the focus does not blink.
pub proof fn law_panes_show_what_is_typed(
    host: &Host,
    size: [u32; 2],
    place: PanePlace,
    colors: &TerminalColors,
    config: ConfigColors,
    highlights: Vec<SearchHighlight>,
    blink_on: bool,
    options: RenderOptions,
)
    requires
        call_ensures(
            Host::pane_options,
            (host, size, place, colors, config, highlights, blink_on),
            options,
        ),
    ensures
        place.exited ==> !options.cursor_visible,
        !place.exited && !host.composing ==> options.cursor_visible,
        !place.exited && place.pane != place.focused ==> options.cursor_visible,
        place.pane == place.focused && host.composing ==> !options.cursor_visible,
        blink_on ==> options.blink_visible,
        !host.focused || place.pane != place.focused || host.peek is Some ==> options.blink_visible
            && options.preedit is None && options.preedit_selection is None,
        host.focused && place.pane == place.focused && host.peek is None ==> options.blink_visible
            == blink_on,
        host.focused && place.pane == place.focused && host.peek is None && host.preedit@.len() > 0
            ==> options.preedit is Some && options.preedit->0@ == host.preedit@
            && options.preedit_selection == host.preedit_selection,
        host.preedit@.len() == 0 ==> options.preedit is None && options.preedit_selection is None,
{
}

/// Only a cursor that is typed at blinks: one that its program shows and lets blink, on a row that
/// shows, of a live and unheld pane, with nothing being composed. Text blinks in the same panes.
pub proof fn law_only_what_is_typed_at_blinks(
    host: &Host,
    place: PanePlace,
    cursor: Cursor,
    viewport_offset: usize,
    rows: u16,
    blinking_text: bool,
    blinks: bool,
    text: bool,
)
    requires
        call_ensures(Host::cursor_blinks, (host, place, cursor, viewport_offset, rows), blinks),
        call_ensures(Host::text_blinks, (host, place, blinking_text), text),
    ensures
        blinks ==> cursor.blink && cursor.visible && !host.composing,
        blinks ==> cursor.row + viewport_offset < rows,
        blinks || text ==> host.focused && place.pane == place.focused && host.peek is None,
        blinks || text ==> !place.exited && !place.synchronized,
        text ==> blinking_text,
        host.focused && place.pane == place.focused && host.peek is None && !place.exited
            && !place.synchronized ==> (text <==> blinking_text) && (cursor.blink && cursor.visible
            && !host.composing && cursor.row + viewport_offset < rows ==> blinks),
{
}

/// A prepared pane serves again only for the same contents, place and look: with another colour,
/// size, selection, cursor, viewport or generation it is drawn anew.
pub proof fn law_prepared_panes_serve_for_the_same_look<F>(
    pane: PreparedPane<F>,
    key: PaneRenderKey,
    generation: u64,
)
    ensures
        pane.serves(key, generation) ==> {
            let was = pane.key.options;
            let now = key.options;
            &&& pane.frame_generation == generation
            &&& pane.key.generation == key.generation
            &&& pane.key.viewport_offset == key.viewport_offset
            &&& pane.key.selection == key.selection
            &&& pane.key.cursor == key.cursor
            &&& was.foreground == now.foreground && was.background == now.background
            &&& was.cursor_color == now.cursor_color && was.cursor_text == now.cursor_text
            &&& was.selection_background == now.selection_background
            &&& was.selection_foreground == now.selection_foreground
            &&& was.palette@ == now.palette@
            &&& was.search_highlights@ == now.search_highlights@
            &&& was.size@ == now.size@
            &&& was.focused == now.focused && was.cursor_visible == now.cursor_visible
            &&& was.preedit is Some <==> now.preedit is Some
            &&& was.preedit is Some ==> was.preedit->0@ == now.preedit->0@
            &&& was.preedit_selection == now.preedit_selection
            &&& pane.key.rect.min.x.equals(key.rect.min.x)
            &&& pane.key.rect.min.y.equals(key.rect.min.y)
            &&& pane.key.rect.max.x.equals(key.rect.max.x)
            &&& pane.key.rect.max.y.equals(key.rect.max.y)
            &&& pane.key.scalars@.len() == key.scalars@.len()
            &&& forall|i: int|
                0 <= i < key.scalars@.len() ==> (#[trigger] pane.key.scalars@[i]).equals(
                    key.scalars@[i],
                )
            &&& pane.blinking_text ==> was.blink_visible == now.blink_visible
        },
{
}

/// A prepared pane does serve again where nothing of that changed, in the other blink phase too
/// where nothing blinks.
pub proof fn law_unchanged_panes_are_not_drawn_again<F>(
    pane: PreparedPane<F>,
    key: PaneRenderKey,
)
    requires
        pane.key.generation == key.generation,
        pane.key.viewport_offset == key.viewport_offset,
        pane.key.selection == key.selection,
        pane.key.cursor == key.cursor,
        key.options == (RenderOptions {
            blink_visible: key.options.blink_visible,
            ..pane.key.options
        }),
        pane.key.rect.equals(key.rect),
        pane.key.scalars@.len() == key.scalars@.len(),
        forall|i: int|
            0 <= i < key.scalars@.len() ==> (#[trigger] pane.key.scalars@[i]).equals(key.scalars@[i]),
        key.options.blink_visible == pane.key.options.blink_visible || (!pane.blinking_text
            && !pane.cursor.blink),
    ensures
        pane.serves(key, pane.frame_generation),
{
}

/// What blinks in a pane is its text or a cursor that its focused window shows, unscrolled and with
/// nothing composed over it.
pub proof fn law_panes_blink_by_text_or_cursor<F>(pane: PreparedPane<F>)
    ensures
        pane.blinking_text ==> pane.blinks(),
        pane.blinks() && !pane.blinking_text ==> pane.cursor.blink && pane.cursor.visible
            && pane.key.options.focused && pane.key.options.cursor_visible && pane.viewport_offset
            == 0,
        pane.cursor.blink && pane.cursor.visible && pane.key.options.focused
            && pane.key.options.cursor_visible && pane.viewport_offset == 0
            && pane.key.options.preedit is None ==> pane.blinks(),
        pane.key.options.preedit is Some && pane.key.options.preedit->0@.len() > 0
            && !pane.blinking_text ==> !pane.blinks(),
{
}

/// A pane's key tells its terminal's contents, viewport, selection and cursor.
pub proof fn law_keys_tell_their_terminal(
    generation: u64,
    screen: &Screen,
    options: RenderOptions,
    rect: Rect,
    scalars: Vec<Scalar>,
    key: PaneRenderKey,
    other: u64,
    later: &Screen,
    same: bool,
)
    requires
        call_ensures(PaneRenderKey::new, (generation, screen, options, rect, scalars), key),
        call_ensures(PaneRenderKey::matches_terminal, (&key, other, later), same),
    ensures
        key.options == options && key.rect == rect && key.scalars == scalars,
        same <==> generation == other && screen.viewport_offset == later.viewport_offset
            && screen.selection == later.selection && screen.cursor == later.cursor,
{
}

/// A composition serves again exactly for the same size and the same panes at the same places, each
/// dimmed alike.
pub proof fn law_compositions_serve_for_the_same_panes(
    composition: Composition,
    size: [u32; 2],
    panes: Seq<ComposedPane>,
    i: int,
    k: int,
)
    requires
        0 <= i < panes.len(),
        0 <= k < 4,
        composition.serves(size, panes),
    ensures
        composition.size[0] == size[0] && composition.size[1] == size[1],
        composition.panes@.len() == panes.len(),
        composition.panes@[i].frame == panes[i].frame,
        composition.panes@[i].rect[k].equals(panes[i].rect[k]),
        composition.panes@[i].dim is Some <==> panes[i].dim is Some,
        panes[i].dim is Some ==> (composition.panes@[i].dim->0)[k].equals((panes[i].dim->0)[k]),
{
    assert(composition.size@[0] == size@[0] && composition.size@[1] == size@[1]);
    assert(composition.panes@[i].equals(panes[i]));
}

/// A layer puts its quads behind those before it, then its shade, and leaves the others as they
/// are; its caret stands unless it has none, and blinking text makes the frame blink.
pub proof fn law_layers_are_put_on_top<G, C>(below: FrameModel<G, C>, layer: Layer<G, C>)
    ensures
        below.with_layer(layer) matches Ok(above) ==> {
            let n = below.quads.len() as int;
            let m = layer.clipped@.len() as int;
            &&& above.generation == layer.frame.generation
            &&& forall|i: int| 0 <= i < n ==> #[trigger] above.quads[i] == below.quads[i]
            &&& forall|i: int| 0 <= i < m ==> #[trigger] layer.clipped@[i] == above.quads[n + i]
            &&& layer.dim is None ==> above.quads.len() == n + m
            &&& layer.dim is Some ==> above.quads.len() == n + m + 1 && above.quads.last()
                == layer.dim->0
            &&& layer.ime_cursor is Some ==> above.ime_cursor == layer.ime_cursor
            &&& layer.ime_cursor is None ==> above.ime_cursor == below.ime_cursor
            &&& above.blinking_text <==> below.blinking_text || layer.frame.blinking_text
        },
        !layer.clip_valid <==> below.with_layer(layer) == Err::<FrameModel<G, C>, ComposeError>(
            ComposeError::InvalidClip,
        ),
        layer.clip_valid && below.generation != layer.frame.generation && (exists|i: int|
            0 <= i < below.quads.len() && (#[trigger] below.quads[i]).paint != Paint::Solid)
            ==> below.with_layer(layer) == Err::<FrameModel<G, C>, ComposeError>(
            ComposeError::GenerationChanged,
        ),
        layer.clip_valid && below.generation == layer.frame.generation
            && layer.frame.atlas_uploads@.len() == 0 ==> below.with_layer(layer) is Ok,
{
}

/// The first layer that cannot be composed fails the whole frame.
pub proof fn law_failures_stop_the_composition<G, C>(layers: Seq<Layer<G, C>>, layer: Layer<G, C>)
    ensures
        composed(layers) is Err ==> composed(layers.push(layer)) == composed(layers),
        composed(layers) matches Ok(model) ==> composed(layers.push(layer)) == model.with_layer(
            layer,
        ),
        composed(Seq::<Layer<G, C>>::empty()) is Ok,
{
    assert(layers.push(layer).drop_last() =~= layers);
}

/// A composition that fails is tried once more and no further.
pub proof fn law_compositions_are_tried_twice(done: bool, attempt: u32, step: ComposeStep)
    requires
        call_ensures(compose_step, (done, attempt), step),
    ensures
        done <==> step == ComposeStep::Show,
        !done && attempt == 0 <==> step == ComposeStep::Repeat,
        !done && attempt > 0 <==> step == ComposeStep::Fail,
{
}

/// A held batch ends with the next contents, and nothing is taken of a pane that is held or that a
/// prepared frame serves.
pub proof fn law_held_panes_are_not_taken(
    held: bool,
    frame_generation: Option<u64>,
    generation: u64,
    serves: bool,
    ends: bool,
    takes: bool,
)
    requires
        call_ensures(ends_batch, (held, frame_generation, generation), ends),
        call_ensures(takes_snapshot, (held, serves), takes),
    ensures
        !held ==> !ends,
        held && frame_generation is None ==> !ends,
        held && frame_generation is Some ==> (ends <==> frame_generation->0 != generation),
        held || serves ==> !takes,
        !held && !serves ==> takes,
{
}

/// A frame is drawn for a window that shows, with a layout and an area.
pub proof fn law_frames_need_an_area(
    host: &Host,
    has_layout: bool,
    width: u32,
    height: u32,
    draws: bool,
)
    requires
        call_ensures(Host::draws, (host, has_layout, width, height), draws),
    ensures
        draws ==> host.visible && !host.occluded && has_layout && width > 0 && height > 0,
        host.visible && !host.occluded && has_layout && width > 0 && height > 0 ==> draws,
{
}

/// A frame begins with Find in the focused pane or nowhere, and without warnings that are over.
pub proof fn law_frames_forget_what_is_over(focused: Id, find_open: bool, now: Instant)
    ensures
        forall|host: &mut Host|
            #![trigger call_ensures(Host::begin_frame, (host, focused, find_open, now), ())]
            call_ensures(Host::begin_frame, (host, focused, find_open, now), ()) ==> {
                let after = *final(host);
                &&& after.search_focus is Some ==> after.search_focus == Some(focused) && find_open
                    && after.search_focus == host.search_focus
                &&& host.search_focus == Some(focused) && find_open ==> after.search_focus
                    == host.search_focus
                &&& after.navigation_warning is Some ==> (after.navigation_warning->0).1.nanos
                    > now.nanos && after.navigation_warning == host.navigation_warning
                &&& host.navigation_warning is Some && (host.navigation_warning->0).1.nanos
                    > now.nanos ==> after.navigation_warning == host.navigation_warning
                &&& after == (Host {
                    search_focus: after.search_focus,
                    navigation_warning: after.navigation_warning,
                    ..*host
                })
            },
{
}

/// A Find field takes the keyboard where it was asked to or where it has it, and brings the focus
/// to its pane; under a dialog nothing changes.
pub proof fn law_drawn_find_fields_keep_the_keyboard(
    requested: Option<Id>,
    found: Option<Id>,
    focused: Id,
    focus: Option<Id>,
)
    ensures
        forall|host: &mut Host|
            #![trigger call_ensures(Host::find_drawn, (host, requested, found, focused), focus)]
            call_ensures(Host::find_drawn, (host, requested, found, focused), focus) ==> {
                let after = *final(host);
                &&& host.is_modal() ==> after == *host && focus is None
                &&& !host.is_modal() && requested is Some ==> after.search_focus == requested
                &&& !host.is_modal() && requested is None ==> after.search_focus == found
                &&& focus is Some ==> focus == after.search_focus && focus != Some(focused)
                &&& !host.is_modal() && after.search_focus is Some && after.search_focus != Some(
                    focused,
                ) ==> focus == after.search_focus
            },
        forall|host: &Host, pane: Id, focuses: bool|
            #![trigger call_ensures(Host::focuses_find, (host, pane), focuses)]
            call_ensures(Host::focuses_find, (host, pane), focuses) ==> (focuses
                <==> host.search_focus == Some(pane) && host.focus_text_input && !host.is_modal()),
{
}

/// The marked pane is the peek's target, or the focused one. A peek shades the other quadrants
/// until it is moved, and outlines its own.
pub proof fn law_peeks_mark_their_target(
    host: &Host,
    focused: Id,
    pane: Id,
    peek: Option<Peek>,
    is_selected: bool,
    marks: QuadrantMarks,
)
    requires
        call_ensures(Host::selected_pane, (host, focused), pane),
        call_ensures(quadrant_marks, (peek, is_selected), marks),
    ensures
        host.peek is None ==> pane == focused,
        host.peek is Some ==> pane == host.peek->0.target,
        peek is None ==> !marks.shade && !marks.outline,
        is_selected ==> !marks.shade,
        peek is Some ==> (marks.outline <==> is_selected),
        peek is Some && !is_selected ==> (marks.shade <==> !peek->0.navigation_used),
{
}

/// Labels are large over a zoomed quadrant, in a peek and where it shows alone.
pub proof fn law_labels_are_large_over_quadrants(
    quadrant_zoomed: bool,
    peek: bool,
    shows_quadrant: bool,
    large: bool,
)
    requires
        call_ensures(large_labels, (quadrant_zoomed, peek, shows_quadrant), large),
    ensures
        !quadrant_zoomed ==> !large,
        quadrant_zoomed ==> (large <==> peek || shows_quadrant),
{
}

/// A frame is uploaded once, and again only after another.
pub proof fn law_frames_are_uploaded_once(frame: u64, uploads: bool)
    ensures
        forall|gpu: &mut GpuFrame|
            #![trigger call_ensures(GpuFrame::begin, (gpu, frame), uploads)]
            call_ensures(GpuFrame::begin, (gpu, frame), uploads) ==> {
                let after = *final(gpu);
                &&& gpu.frame == Some(frame) <==> !uploads
                &&& uploads ==> after.frame is None
                &&& !uploads ==> after == *gpu
                &&& after.prepares == gpu.prepares
            },
        forall|gpu: &mut GpuFrame|
            #![trigger call_ensures(GpuFrame::uploaded, (gpu, frame), ())]
            gpu.prepares < u64::MAX && call_ensures(GpuFrame::uploaded, (gpu, frame), ()) ==> {
                let after = *final(gpu);
                after.frame == Some(frame) && after.prepares == gpu.prepares + 1
            },
{
}

/// A frame takes another on where its clip is valid and their resources go together: the quads come
/// behind its own, a caret replaces its own, and nothing changes where it is refused.
pub proof fn law_frames_take_others_on<G, C>(
    other: &Frame<G, C>,
    clip_valid: bool,
    clipped: Vec<Quad<G, C>>,
    ime_cursor: Option<G>,
    result: Result<(), ComposeError>,
)
    ensures
        forall|frame: &mut Frame<G, C>|
            #![trigger call_ensures(Frame::<G, C>::append_clipped, (frame, other, clip_valid, clipped, ime_cursor), result)]
            call_ensures(
                Frame::<G, C>::append_clipped,
                (frame, other, clip_valid, clipped, ime_cursor),
                result,
            ) ==> {
                let after = *final(frame);
                let textured = frame.atlas_uploads@.len() > 0 || exists|i: int|
                    0 <= i < frame.quads@.len() && (#[trigger] frame.quads@[i]).paint
                        != Paint::Solid;
                &&& !clip_valid <==> result == Err::<(), ComposeError>(ComposeError::InvalidClip)
                &&& clip_valid && textured && frame.generation != other.generation <==> result
                    == Err::<(), ComposeError>(ComposeError::GenerationChanged)
                &&& result is Err ==> after == *frame
                &&& result is Ok ==> {
                    &&& after.quads@ == frame.quads@ + clipped@
                    &&& after.size == frame.size && after.generation == other.generation
                    &&& ime_cursor is Some ==> after.ime_cursor == ime_cursor
                    &&& ime_cursor is None ==> after.ime_cursor == frame.ime_cursor
                    &&& after.blinking_text <==> frame.blinking_text || other.blinking_text
                }
            },
{
}

} // verus!
