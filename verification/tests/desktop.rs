use rustty_core::actions::{Action, Direction};
use rustty_core::capture::{encode_capture, read_pixels, row_stride, CaptureError};
use rustty_core::clipboard::{
    clipboard_policy, finish_clipboard, paste_needs_confirmation, paste_route, preview,
    trusts_brackets, ClipboardReply, ClipboardRequest, CopyOnSelect, PasteRoute, PasteStep,
};
use rustty_core::drawing::{
    compose, compose_step, ends_batch, large_labels, quadrant_marks, takes_snapshot, ComposeStep, ComposedPane, Composition,
    ConfigColor, ConfigColors, GpuFrame, Layer, PanePlace, PaneRenderKey, PreparedPane,
    TerminalColors,
};
use rustty_core::formats::{directory_from_osc, dropped_path, font_feature};
use rustty_core::frame::{ComposeError, Frame, Paint, Quad, SearchHighlight};
use rustty_core::geometry::{Pos, Rect, Scalar};
use rustty_core::host::{
    Axis, ClipboardAccess, Confirmation, Divider, Host, HoveredLink, MouseAction, MouseButton,
    Peek, PendingPaste, MAX_CLIPBOARD_REQUESTS,
};
use rustty_core::keys::{HeldModifiers, Modifiers};
use rustty_core::labels::{
    color_scheme, contains_text, palette_actions, palette_matches, pane_label, progress_style,
    quadrant_label, ui_theme, ColorScheme, WindowTheme,
};
use rustty_core::mouse::{
    cell_under, link_bounds, link_point, scroll_step, LinkConditions, LinkHit, LinkSpan,
    MouseRoute, PointerContext, PointerCursor, ScrollModes, ScrollStep, SelectStep,
};
use rustty_core::pane::{
    update_saved, InputError, InputQueue, SavedPane, SynchronizedOutput, WriteOutcome,
    INPUT_BUDGET,
};
use rustty_core::prepare::RenderOptions;
use rustty_core::presentation::Progress;
use rustty_core::screen::{
    Cell, Cursor, CursorShape, GridPoint, Rgb, Row, Screen, Selection, Style,
};
use rustty_core::time::{Instant, MILLISECOND, SECOND};
use rustty_core::viewport::ViewportStep;
use std::sync::Arc;

const START: Instant = Instant { nanos: 3_600 * SECOND };
const NONE: Modifiers = Modifiers {
    shift: false,
    control: false,
    alt: false,
    super_key: false,
};

fn scalar(value: f32) -> Scalar {
    Scalar {
        bits: value.to_bits(),
    }
}

fn pos(x: f32, y: f32) -> Pos {
    Pos {
        x: scalar(x),
        y: scalar(y),
    }
}

fn rect(x: f32, y: f32, width: f32, height: f32) -> Rect {
    Rect {
        min: pos(x, y),
        max: pos(x + width, y + height),
    }
}

fn cell(text: &str, width: u8) -> Cell {
    Cell {
        width,
        blank: false,
        empty: text.is_empty(),
        placeholder: false,
        sprite: false,
        text: text.into(),
        style: Style::default(),
    }
}

fn screen(rows: usize, cols: usize, history_len: usize) -> Screen {
    Screen {
        rows: (0..rows as u64)
            .map(|id| Row {
                id: 10 + id,
                cells: (0..cols).map(|_| cell("x", 1)).collect(),
                prompt: false,
            })
            .collect(),
        history_len,
        viewport_offset: 0,
        selection: None,
        cursor: Cursor {
            row: 0,
            col: 0,
            visible: true,
            blink: false,
            shape: CursorShape::Block,
        },
    }
}

fn point(row: u64, col: usize) -> GridPoint {
    GridPoint { row, col }
}

fn host() -> Host {
    let mut host = Host::new(1, false, START, pos(0.0, 0.0));
    host.rects = vec![
        (5, rect(0.0, 0.0, 100.0, 100.0)),
        (6, rect(100.0, 0.0, 100.0, 100.0)),
    ];
    host.pointer_inside = true;
    host.focused = true;
    host
}

fn place(pane: u64, focused: u64) -> PanePlace {
    PanePlace {
        pane,
        focused,
        exited: false,
        synchronized: false,
    }
}

#[test]
fn hovered_link_bounds_cover_wrapped_text_and_the_whole_wide_cell() {
    let origin = egui::pos2(8.0, 20.0);
    let cell_size = egui::vec2(7.0, 16.0);
    let rects = |spans: Vec<LinkSpan>| -> Vec<egui::Rect> {
        spans
            .into_iter()
            .map(|span| {
                egui::Rect::from_min_size(
                    origin
                        + egui::vec2(
                            span.left as f32 * cell_size.x,
                            span.row as f32 * cell_size.y,
                        ),
                    egui::vec2(span.width as f32 * cell_size.x, cell_size.y),
                )
            })
            .collect()
    };
    // "xx https://example.org/path" in ten columns.
    let wrapped = screen(4, 10, 0);
    assert_eq!(
        rects(link_bounds(&wrapped, point(10, 3), point(12, 6))),
        [
            egui::Rect::from_min_size(egui::pos2(29.0, 20.0), egui::vec2(49.0, 16.0)),
            egui::Rect::from_min_size(egui::pos2(8.0, 36.0), egui::vec2(70.0, 16.0)),
            egui::Rect::from_min_size(egui::pos2(8.0, 52.0), egui::vec2(49.0, 16.0)),
        ],
    );
    let mut wide = screen(4, 10, 0);
    wide.rows[0].cells[2] = cell("你", 2);
    wide.rows[0].cells[3] = cell("", 0);
    assert_eq!(
        rects(link_bounds(&wide, point(10, 0), point(10, 2))),
        [egui::Rect::from_min_size(origin, egui::vec2(28.0, 16.0))],
    );
    assert!(link_bounds(&wide, point(10, 0), point(99, 2)).is_empty());
    assert!(link_bounds(&wide, point(11, 0), point(10, 2)).is_empty());
    assert_eq!(link_point(&wide, 0, 3, false), Some(point(10, 2)));
    assert_eq!(link_point(&wide, 0, 4, false), Some(point(10, 4)));
    assert_eq!(link_point(&wide, 0, 4, true), None);
    assert_eq!(link_point(&wide, 4, 0, false), None);
    assert_eq!(link_point(&wide, 0, 10, false), None);
}

#[test]
fn synchronized_output_releases_on_end_and_restarts_the_bounded_timeout() {
    let mut sync = SynchronizedOutput::default();
    let start = START;
    let later = start.after(500 * MILLISECOND);
    assert_eq!(sync.update(false, 0, start), (None, false));
    assert_eq!(sync.update(true, 1, start).0, Some(start.after(SECOND)));
    assert_eq!(sync.update(true, 1, later).0, Some(start.after(SECOND)));
    assert_eq!(sync.update(true, 2, later).0, Some(later.after(SECOND)));
    assert_eq!(sync.update(false, 2, later).0, None);

    let deadline = sync.update(true, 3, later).0.unwrap();
    let before = Instant {
        nanos: deadline.nanos - 1,
    };
    assert!(sync.update(true, 3, before).0.is_some());
    assert_eq!(sync.update(true, 3, deadline), (None, true));
    sync.update(true, 4, later);
    assert_eq!(sync.update(false, 4, later).0, None);
    sync.update(true, 5, start);
    assert_eq!(sync.update(true, 6, later).0, Some(later.after(SECOND)));
}

type WindowFrame = Frame<[f32; 4], [u8; 4]>;

fn solid(rect: [f32; 4]) -> Quad<[f32; 4], [u8; 4]> {
    Quad::solid(rect, [0.0; 4], [255; 4])
}

#[test]
fn retained_window_frames_follow_panes_geometry_and_split_dimming() {
    let mut frame: WindowFrame = Frame::empty([20, 20]);
    frame.quads.push(solid([0.0, 0.0, 20.0, 20.0]));
    let frame = Arc::new(frame);
    let pane = || ComposedPane {
        frame: 1,
        rect: [10.0, 15.0, 20.0, 20.0].map(scalar),
        dim: None,
    };
    let layer = |dim| Layer {
        frame: Arc::clone(&frame),
        clip_valid: true,
        clipped: vec![solid([10.0, 15.0, 20.0, 20.0])],
        ime_cursor: None,
        dim,
    };
    let composed = compose([60, 60], vec![layer(None)]).unwrap();
    assert_eq!(composed.quads[0].rect, [10.0, 15.0, 20.0, 20.0]);
    let retained = Composition {
        size: [60, 60],
        panes: vec![pane()],
    };
    assert!(retained.matches([60, 60], &vec![pane()]));
    assert!(!retained.matches([61, 60], &vec![pane()]));
    assert!(!retained.matches([60, 60], &vec![]));
    assert!(!retained.matches([60, 60], &vec![pane(), pane()]));

    let mut changed = pane();
    changed.rect[0] = scalar(11.0);
    assert!(!retained.matches([60, 60], &vec![changed]));
    let mut changed = pane();
    changed.dim = Some([0.0, 0.0, 0.0, 0.5].map(scalar));
    assert!(!retained.matches([60, 60], &vec![changed]));
    let mut changed = pane();
    changed.frame = 2;
    assert!(!retained.matches([60, 60], &vec![changed]));

    // A dimmed pane is covered by its shade, and the next pane lies above both.
    let shade = solid([10.0, 15.0, 20.0, 20.0]);
    let stacked = compose([60, 60], vec![layer(Some(shade)), layer(None)]).unwrap();
    assert_eq!(stacked.quads.len(), 3);
    let mut other: WindowFrame = Frame::empty([20, 20]);
    other.generation = 9;
    other.quads.push(Quad {
        paint: Paint::Mask,
        ..solid([0.0; 4])
    });
    let masked = |generation| Layer {
        frame: Arc::new(Frame {
            generation,
            ..other.clone()
        }),
        clip_valid: true,
        clipped: other.quads.clone(),
        ime_cursor: None,
        dim: None,
    };
    assert!(compose([60, 60], vec![layer(None), masked(9), masked(9)]).is_ok());
    assert_eq!(
        compose([60, 60], vec![masked(9), masked(8)]).unwrap_err(),
        ComposeError::GenerationChanged
    );
    assert_eq!(compose_step(true, 0), ComposeStep::Show);
    assert_eq!(compose_step(false, 0), ComposeStep::Repeat);
    assert_eq!(compose_step(false, 1), ComposeStep::Fail);
}

#[test]
fn retained_gpu_frames_skip_preparation_and_retry_after_errors() {
    let mut gpu = GpuFrame::new();
    let mut prepare = |frame: u64, valid: bool| {
        if gpu.begin(frame) && valid {
            gpu.uploaded(frame);
        }
        (gpu.prepares, gpu.frame.is_some())
    };
    assert_eq!(prepare(1, true), (1, true));
    assert_eq!(prepare(1, true), (1, true));
    assert_eq!(prepare(2, true), (2, true));
    assert_eq!(prepare(3, false), (2, false));
    assert_eq!(prepare(2, true), (3, true));
}

fn prepared(
    generation: u64,
    screen: &Screen,
    options: RenderOptions,
    blinking_text: bool,
) -> PreparedPane<()> {
    PreparedPane {
        key: key(generation, screen, options),
        frame_generation: 1,
        blinking_text,
        cursor: screen.cursor,
        // Snapshots of a viewport begin at their own top.
        viewport_offset: 0,
        frame: (),
    }
}

fn key(generation: u64, screen: &Screen, options: RenderOptions) -> PaneRenderKey {
    PaneRenderKey::new(
        generation,
        screen,
        options,
        rect(10.0, 20.0, 320.0, 160.0),
        vec![scalar(8.0), scalar(8.0), scalar(1.0)],
    )
}

#[test]
fn prepared_panes_follow_terminal_view_and_atlas_changes() {
    let mut screen = screen(4, 20, 1);
    let options = || RenderOptions {
        size: [320, 160],
        ..RenderOptions::default()
    };
    let mut pane = prepared(1, &screen, options(), false);
    assert!(
        pane.matches(&key(1, &screen, options()), 1),
        "an unchanged pane reuses its prepared content"
    );

    // Host scrolling and selection mutate the screen without advancing the
    // terminal's stream generation, so both must participate in reuse.
    screen.viewport_offset = 1;
    assert!(!pane.matches(&key(1, &screen, options()), 1));
    screen.viewport_offset = 0;
    screen.selection = Some(Selection {
        start: point(11, 0),
        end: point(11, 0),
        rectangular: false,
    });
    assert!(!pane.matches(&key(1, &screen, options()), 1));
    screen.selection = None;
    assert!(pane.matches(&key(1, &screen, options()), 1));

    let mut searching = key(1, &screen, options());
    searching.options.search_highlights.push(SearchHighlight {
        row: 11,
        first: 0,
        last: 2,
        selected: false,
    });
    assert!(!pane.matches(&searching, 1));

    let mut composition = key(1, &screen, options());
    composition.options.preedit = Some("日本".into());
    composition.options.preedit_selection = Some((3, 6));
    assert!(!pane.matches(&composition, 1));
    let mut moved = key(1, &screen, options());
    moved.rect = rect(40.0, 20.0, 320.0, 160.0);
    assert!(!pane.matches(&moved, 1));
    let mut scaled = key(1, &screen, options());
    scaled.scalars[2] = scalar(2.0);
    assert!(!pane.matches(&scaled, 1));
    let mut recolored = key(1, &screen, options());
    recolored.options.palette[7] = Rgb { r: 1, g: 2, b: 3 };
    assert!(!pane.matches(&recolored, 1));
    assert!(!pane.matches(&key(2, &screen, options()), 1));
    let mut pane = prepared(2, &screen, options(), false);
    assert!(
        !pane.matches(&key(2, &screen, options()), 2),
        "an atlas reset invalidates even unchanged panes"
    );
}

#[test]
fn output_metadata_distinguishes_titles_and_pointer_shapes_from_terminal_changes() {
    let mut screen = screen(6, 20, 3);
    let displayed = key(1, &screen, RenderOptions::default());
    assert!(displayed.matches_terminal(1, &screen));
    assert!(!displayed.matches_terminal(2, &screen));
    screen.cursor.col += 1;
    assert!(!displayed.matches_terminal(1, &screen));
    let displayed = key(1, &screen, RenderOptions::default());
    screen.selection = Some(Selection {
        start: point(13, 0),
        end: point(13, 0),
        rectangular: false,
    });
    assert!(!displayed.matches_terminal(1, &screen));
    let displayed = key(1, &screen, RenderOptions::default());
    screen.viewport_offset = 1;
    assert!(!displayed.matches_terminal(1, &screen));
    let displayed = key(1, &screen, RenderOptions::default());
    screen.cursor.shape = CursorShape::Bar;
    assert!(!displayed.matches_terminal(1, &screen));
}

#[test]
fn prepared_panes_ignore_blink_phase_only_for_steady_content() {
    let options = |blink_visible| RenderOptions {
        size: [320, 160],
        blink_visible,
        ..RenderOptions::default()
    };
    let mut screen = screen(4, 20, 1);
    // A steady cursor and a hidden blinking cursor both ignore the phase.
    for (visible, blink) in [(true, false), (false, true)] {
        screen.cursor.visible = visible;
        screen.cursor.blink = blink;
        let mut pane = prepared(1, &screen, options(true), false);
        assert!(pane.matches(&key(1, &screen, options(false)), 1));
        assert!(pane.matches(&key(1, &screen, options(true)), 1));
    }
    screen.cursor.visible = true;
    let mut pane = prepared(1, &screen, options(true), false);
    assert!(!pane.matches(&key(1, &screen, options(false)), 1));

    screen.viewport_offset = 1;
    let mut pane = prepared(1, &screen, options(true), false);
    assert!(!pane.matches(&key(1, &screen, options(false)), 1));
    screen.viewport_offset = 0;
    screen.cursor.visible = false;
    // New blinking text must use the current phase even if the previous
    // frame was steady. Matching must not normalize the incoming options.
    let mut pane = prepared(1, &screen, options(true), false);
    let hidden = key(2, &screen, options(false));
    assert!(!pane.matches(&hidden, 1));
    assert!(!hidden.options.blink_visible);
    let mut pane = prepared(2, &screen, options(false), true);
    assert!(pane.matches(&key(2, &screen, options(false)), 1));
    assert!(!pane.matches(&key(2, &screen, options(true)), 1));
}

#[test]
fn appearance_selects_dual_themes() {
    assert_eq!(color_scheme(true), ColorScheme::Dark);
    assert_eq!(color_scheme(false), ColorScheme::Light);
    let dark = Rgb {
        r: 16,
        g: 16,
        b: 16,
    };
    let light = Rgb {
        r: 255,
        g: 255,
        b: 255,
    };
    assert_eq!(ui_theme(WindowTheme::Light, dark), WindowTheme::Light);
    assert_eq!(ui_theme(WindowTheme::System, dark), WindowTheme::System);
    assert_eq!(ui_theme(WindowTheme::Auto, dark), WindowTheme::Dark);
    assert_eq!(ui_theme(WindowTheme::Auto, light), WindowTheme::Light);
    let middle = |value| Rgb {
        r: value,
        g: value,
        b: value,
    };
    assert_eq!(ui_theme(WindowTheme::Auto, middle(127)), WindowTheme::Dark);
    assert_eq!(ui_theme(WindowTheme::Auto, middle(128)), WindowTheme::Light);
}

#[test]
fn clipboard_grants_and_metadata_queries_respect_explicit_denial() {
    let [ask, allow, deny] = [
        ClipboardAccess::Ask,
        ClipboardAccess::Allow,
        ClipboardAccess::Deny,
    ];
    let read = |granted, listing| ClipboardRequest::Read {
        granted,
        listing,
        can_remember: false,
    };
    assert_eq!(clipboard_policy(ask, ask, read(false, false)), ask);
    for metadata_only in [false, true] {
        let request = read(!metadata_only, metadata_only);
        assert_eq!(clipboard_policy(ask, ask, request), allow);
        assert_eq!(clipboard_policy(deny, ask, request), deny);
    }
    let write = ClipboardRequest::Write {
        granted: true,
        can_remember: false,
    };
    assert_eq!(clipboard_policy(ask, ask, write), allow);
    assert_eq!(clipboard_policy(ask, deny, write), deny);
}

#[test]
fn clipboard_requests_wait_for_the_user_in_bounded_number() {
    let mut host = host();
    let [ask, allow, deny] = [
        ClipboardAccess::Ask,
        ClipboardAccess::Allow,
        ClipboardAccess::Deny,
    ];
    assert_eq!(host.queue_clipboard(5, 0, allow, true), Some(true));
    assert_eq!(host.queue_clipboard(5, 0, deny, true), Some(false));
    assert_eq!(host.queue_clipboard(5, 0, ask, false), Some(true));
    assert!(!host.modal_input());
    for request in 0..MAX_CLIPBOARD_REQUESTS {
        assert_eq!(host.queue_clipboard(5, request, ask, true), None);
    }
    assert_eq!(host.queue_clipboard(5, 99, ask, true), Some(false));
    assert!(host.modal_input());
    assert_eq!(host.answer_clipboard(), Some((5, 0)));
    assert_eq!(host.answer_clipboard(), Some((5, 1)));
    let read = |can_remember| ClipboardRequest::Read {
        granted: false,
        listing: false,
        can_remember,
    };
    assert_eq!(
        finish_clipboard(read(true), false, true, true),
        ClipboardReply::Denied
    );
    assert_eq!(
        finish_clipboard(read(true), true, true, false),
        ClipboardReply::Unavailable
    );
    for (can_remember, remember) in [(true, true), (false, true), (true, false)] {
        assert_eq!(
            finish_clipboard(read(can_remember), true, remember, true),
            ClipboardReply::Access {
                remember: can_remember && remember
            }
        );
    }
    for (copy, expected) in [
        (CopyOnSelect::Off, (false, false)),
        (CopyOnSelect::Clipboard, (true, false)),
        (CopyOnSelect::Primary, (false, true)),
        (CopyOnSelect::Both, (true, true)),
    ] {
        assert_eq!(copy.targets(), expected);
    }
}

#[test]
fn paste_confirmation_follows_protection_bracketed_trust_and_payload() {
    for bracketed in [false, true] {
        for protection in [false, true] {
            for trust_brackets in [false, true] {
                let trusted = trusts_brackets(trust_brackets, bracketed);
                // Whether the terminal calls the text safe, given that trust.
                assert!(!paste_needs_confirmation(protection, true));
                assert_eq!(
                    paste_needs_confirmation(protection, trusted),
                    protection && !(bracketed && trust_brackets)
                );
                assert_eq!(paste_needs_confirmation(protection, false), protection);
            }
        }
    }
}

#[test]
fn pastes_are_asked_about_sent_or_dropped() {
    let mut host = host();
    let paste = |data: &[u8]| PendingPaste {
        pane: 5,
        data: data.to_vec(),
    };
    assert!(matches!(
        host.paste(paste(b""), true, true, false),
        PasteStep::Ignore
    ));
    assert!(matches!(
        host.paste(paste(b"x"), true, false, false),
        PasteStep::Ignore
    ));
    assert!(matches!(
        host.paste(paste(b"x"), false, true, false),
        PasteStep::Send(sent) if sent.data == b"x"
    ));
    assert!(matches!(
        host.paste(paste(b"x"), true, true, true),
        PasteStep::Send(_)
    ));
    assert!(matches!(
        host.paste(paste(b"x\ny"), false, true, true),
        PasteStep::Ask
    ));
    assert!(host.modal_input());
    host.drop_stale_paste(true);
    assert!(host.confirm.is_some());
    host.drop_stale_paste(false);
    assert!(host.confirm.is_none());
    host.confirm = Some(Confirmation::Close(Action::CloseTab));
    host.drop_stale_paste(false);
    assert!(host.confirm.is_some());
    assert!(host.answer(false).is_none() && host.confirm.is_none());
    host.confirm = Some(Confirmation::Close(Action::CloseTab));
    assert!(matches!(
        host.answer(true),
        Some(Confirmation::Close(Action::CloseTab))
    ));
    assert_eq!(paste_route(false, true, true), PasteRoute::Done);
    assert_eq!(paste_route(true, true, true), PasteRoute::Announce);
    assert_eq!(paste_route(true, false, true), PasteRoute::Text);
    assert_eq!(paste_route(true, true, false), PasteRoute::Text);
    assert_eq!(preview(4096), (4096, false));
    assert_eq!(preview(4097), (4096, true));
}

#[test]
fn cwd_reports_become_absolute_paths_before_restoration() {
    assert_eq!(
        directory_from_osc("file://host/Users/me/My%20Project").as_deref(),
        Some("/Users/me/My Project")
    );
    assert_eq!(directory_from_osc("/tmp").as_deref(), Some("/tmp"));
    for invalid in [
        "file://host",
        "file://host/%0",
        "file://host/%00bad",
        "https://host/tmp",
        "relative",
    ] {
        assert_eq!(directory_from_osc(invalid), None);
    }
}

#[test]
fn escaped_directories_are_decoded_as_utf8() {
    assert_eq!(
        directory_from_osc("file:///tmp/%E6%97%A5%e8%aa%8c").as_deref(),
        Some("/tmp/日誌")
    );
    assert_eq!(directory_from_osc("file:///tmp/é").as_deref(), Some("/tmp/é"));
    assert_eq!(directory_from_osc("file:///%ff"), None);
    assert_eq!(directory_from_osc("file:///%g0"), None);
    assert_eq!(directory_from_osc("/with\0nul"), None);
    assert_eq!(directory_from_osc(""), None);
    assert_eq!(dropped_path("/a b"), "'/a b' ");
    assert_eq!(dropped_path("it's"), "'it'\\''s' ");
    assert_eq!(dropped_path(""), "'' ");
}

#[test]
fn font_features_are_read_as_settings() {
    let feature = |text: &str| font_feature(text).map(|found| (found.tag, found.value));
    assert_eq!(feature("liga"), Some((*b"liga", 1)));
    assert_eq!(feature("+calt"), Some((*b"calt", 1)));
    assert_eq!(feature("-dlig"), Some((*b"dlig", 0)));
    assert_eq!(feature("ss01=3"), Some((*b"ss01", 3)));
    assert_eq!(feature("+ss01=+3"), Some((*b"ss01", 3)));
    assert_eq!(feature("-ss01=x"), Some((*b"ss01", 0)));
    assert_eq!(feature("cv01=4294967295"), Some((*b"cv01", u32::MAX)));
    for invalid in ["", "abc", "abcde", "liga=", "liga=x", "cv01=4294967296", "+", "é1"] {
        assert_eq!(feature(invalid), None, "{invalid}");
    }
}

#[test]
fn input_is_written_at_once_or_waits_in_order() {
    let mut queue = InputQueue::new();
    let packet = |bytes: &[u8]| bytes.to_vec();
    assert!(!queue.writes_directly(&packet(b"")));
    assert!(queue.writes_directly(&packet(b"a")));
    assert_eq!(queue.enqueue(packet(b""), WriteOutcome::Failed), Ok(()));
    assert_eq!(queue.enqueue(packet(b"a"), WriteOutcome::Written), Ok(()));
    assert!(queue.front().is_none());
    assert_eq!(
        queue.enqueue(packet(b"a"), WriteOutcome::Failed),
        Err(InputError::Session)
    );
    assert_eq!(queue.enqueue(packet(b"ab"), WriteOutcome::WouldBlock), Ok(()));
    assert!(!queue.writes_directly(&packet(b"c")));
    assert_eq!(queue.enqueue(packet(b"c"), WriteOutcome::WouldBlock), Ok(()));
    assert_eq!(queue.bytes, 3);
    assert_eq!(
        queue.enqueue(vec![0; INPUT_BUDGET - 2], WriteOutcome::WouldBlock),
        Err(InputError::Full)
    );
    assert_eq!(queue.front().unwrap(), b"ab");
    assert_eq!(queue.flushed(WriteOutcome::WouldBlock), Ok(false));
    assert_eq!(queue.flushed(WriteOutcome::Written), Ok(true));
    assert_eq!(queue.front().unwrap(), b"c");
    assert_eq!(
        queue.flushed(WriteOutcome::Failed),
        Err(InputError::Session)
    );
    assert_eq!((queue.bytes, queue.front()), (0, None));
    assert_eq!(
        InputError::Full.message().as_deref(),
        Some("Input queue is full. Wait for the command to read its input.")
    );
    assert_eq!(InputError::Session.message(), None);
}

#[test]
fn saved_panes_follow_their_terminals() {
    let mut saved = SavedPane {
        working_directory: "/tmp".into(),
        title: None,
        title_override: None,
    };
    assert!(!update_saved(&mut saved, "/tmp", "", &None));
    assert!(update_saved(&mut saved, "/tmp", "vim", &None));
    assert_eq!(saved.title.as_deref(), Some("vim"));
    assert!(!update_saved(&mut saved, "/tmp", "vim", &None));
    assert!(update_saved(&mut saved, "/", "vim", &Some("mine".into())));
    assert_eq!(saved.working_directory, "/");
    assert_eq!(saved.title_override.as_deref(), Some("mine"));
    assert!(update_saved(&mut saved, "/", "", &None));
    assert_eq!((saved.title, saved.title_override), (None, None));
}

#[test]
fn the_pointer_goes_to_find_dividers_peeks_programs_and_panes() {
    let mut host = host();
    host.mouse = pos(150.0, 50.0);
    assert_eq!(host.hovered_pane(), Some(6));
    assert_eq!(host.pane_at(pos(100.0, 0.0)), Some(5));
    assert_eq!(host.pane_at(pos(300.0, 0.0)), None);
    let context = PointerContext {
        over_ui: false,
        divider: None,
        quadrant: None,
        focused: Some(5),
    };
    let left = Some(MouseButton::Left);
    assert_eq!(
        host.route_mouse(MouseAction::Press, left, context),
        MouseRoute::Pane {
            pane: 6,
            focus: true
        }
    );
    // Wheel reports follow the pointer without changing the keyboard target.
    assert_eq!(
        host.route_mouse(MouseAction::Press, Some(MouseButton::WheelUp), context),
        MouseRoute::Pane {
            pane: 6,
            focus: false
        }
    );
    assert_eq!(
        host.route_mouse(MouseAction::Move, None, context),
        MouseRoute::Pane {
            pane: 5,
            focus: false
        }
    );
    let over = PointerContext {
        over_ui: true,
        ..context
    };
    assert_eq!(
        host.route_mouse(MouseAction::Press, left, over),
        MouseRoute::Nothing
    );
    let divider = Divider {
        split: 9,
        axis: Axis::Horizontal,
    };
    let on_divider = PointerContext {
        divider: Some(divider),
        ..context
    };
    assert_eq!(
        host.route_mouse(MouseAction::Move, None, on_divider),
        MouseRoute::Nothing
    );
    assert_eq!(
        host.route_mouse(MouseAction::Press, left, on_divider),
        MouseRoute::Grab
    );
    assert_eq!(
        host.route_mouse(MouseAction::Move, left, context),
        MouseRoute::Divide {
            divider,
            follows: true
        }
    );
    assert_eq!(
        host.route_mouse(MouseAction::Release, left, context),
        MouseRoute::Divide {
            divider,
            follows: false
        }
    );
    assert!(host.divider_drag.is_none());
    host.peek = Some(Peek {
        chord: NONE,
        target: 5,
        navigation_used: false,
    });
    assert_eq!(
        host.route_mouse(MouseAction::Press, left, context),
        MouseRoute::Nothing
    );
    let quadrant = PointerContext {
        quadrant: Some(7),
        ..context
    };
    assert_eq!(
        host.route_mouse(MouseAction::Press, left, quadrant),
        MouseRoute::PeekAt(7)
    );
    assert_eq!(host.peek.unwrap().target, 7);
    host.peek = None;
    host.pointer_inside = false;
    assert_eq!(
        host.route_mouse(MouseAction::Press, left, context),
        MouseRoute::Nothing
    );

    // A press on Find gives it the keyboard, one on a terminal takes it away.
    host.search_rects = vec![(6, rect(140.0, 0.0, 60.0, 60.0))];
    host.mouse_button = left;
    assert_eq!(
        host.press_find(MouseAction::Press, Some(MouseButton::WheelUp), false),
        None
    );
    assert_eq!(host.press_find(MouseAction::Press, left, false), Some(6));
    assert_eq!((host.search_focus, host.mouse_button), (Some(6), None));
    assert!(host.focus_text_input);
    host.mouse = pos(10.0, 90.0);
    assert_eq!(host.press_find(MouseAction::Press, left, true), None);
    assert_eq!(host.search_focus, Some(6));
    assert_eq!(host.press_find(MouseAction::Press, left, false), None);
    assert_eq!(host.search_focus, None);
}

#[test]
fn selections_begin_extend_and_finish_with_the_left_button() {
    let mut host = host();
    host.mouse = pos(10.0, 10.0);
    let left = Some(MouseButton::Left);
    let anchor = point(10, 1);
    assert!(host.ignores_motion(MouseAction::Move));
    assert_eq!(
        host.select(MouseAction::Press, left, 5, anchor, true),
        SelectStep::Begin
    );
    host.mouse_button = left;
    assert!(!host.ignores_motion(MouseAction::Move));
    assert_eq!(
        host.select(MouseAction::Move, left, 5, anchor, true),
        SelectStep::Nothing
    );
    host.mouse = pos(30.0, 10.0);
    host.modifiers.state.alt = true;
    assert_eq!(
        host.select(MouseAction::Move, left, 5, point(10, 3), true),
        SelectStep::Extend(Selection {
            start: anchor,
            end: point(10, 3),
            rectangular: true
        })
    );
    assert_eq!(
        host.select(MouseAction::Release, left, 5, point(10, 3), true),
        SelectStep::Finish
    );
    assert_eq!(
        host.select(MouseAction::Release, left, 5, point(10, 3), true),
        SelectStep::Nothing
    );
    host.modifiers.state.super_key = true;
    assert_eq!(
        host.select(MouseAction::Press, left, 5, anchor, true),
        SelectStep::OpenLink { matches: false }
    );
    host.hovered_link = Some(HoveredLink {
        pane: 5,
        uri: "https://example.org".into(),
        bounds: vec![],
    });
    assert_eq!(
        host.select(MouseAction::Press, left, 5, anchor, true),
        SelectStep::OpenLink { matches: true }
    );
    assert_eq!(
        host.select(MouseAction::Press, left, 5, anchor, false),
        SelectStep::Begin
    );
    assert!(!host.mouse_reported(MouseAction::Move, false));
    assert!(host.selection_drag.is_none());
    assert!(host.mouse_reported(MouseAction::Press, false));
    host.button_pressed(Some(MouseButton::Right));
    assert_eq!(host.mouse_button, Some(MouseButton::Right));
    host.button_released();
    assert_eq!(host.mouse_button, None);
    assert_eq!(cell_under(0, 0, 8, 16, 80, 24), (0, 0));
    assert_eq!(cell_under(15, 33, 8, 16, 80, 24), (1, 2));
    assert_eq!(cell_under(9999, 9999, 8, 16, 80, 24), (79, 23));
}

#[test]
fn scrolling_reports_types_or_moves_the_viewport() {
    let modes = ScrollModes {
        reporting: false,
        alternate_screen: true,
        mouse_mode: 0,
        alternate_scroll: true,
        application_keys: false,
    };
    assert_eq!(
        scroll_step(2, modes),
        ScrollStep::Keys {
            bytes: b"\x1b[A\x1b[A".to_vec(),
            deselect: true
        }
    );
    assert_eq!(
        scroll_step(
            -1,
            ScrollModes {
                application_keys: true,
                ..modes
            }
        ),
        ScrollStep::Keys {
            bytes: b"\x1bOB".to_vec(),
            deselect: true
        }
    );
    assert_eq!(
        scroll_step(0, modes),
        ScrollStep::Keys {
            bytes: vec![],
            deselect: false
        }
    );
    let reporting = ScrollModes {
        reporting: true,
        ..modes
    };
    assert_eq!(
        scroll_step(isize::MIN, reporting),
        ScrollStep::Wheel {
            count: 128,
            up: false
        }
    );
    assert_eq!(
        scroll_step(5, reporting),
        ScrollStep::Wheel { count: 5, up: true }
    );
    for other in [
        ScrollModes {
            alternate_screen: false,
            ..modes
        },
        ScrollModes {
            mouse_mode: 1000,
            ..modes
        },
        ScrollModes {
            alternate_scroll: false,
            ..modes
        },
    ] {
        assert_eq!(scroll_step(3, other), ScrollStep::Viewport);
    }
    let mut host = host();
    host.mouse = pos(10.0, 10.0);
    assert_eq!(host.scroll_target(false), Some(Some(5)));
    assert_eq!(host.scroll_target(true), None);
    host.palette = true;
    assert_eq!(host.scroll_target(false), None);
    assert_eq!(host.drop_target(pos(150.0, 1.0), false), None);
    host.palette = false;
    assert_eq!(host.drop_target(pos(150.0, 1.0), false), Some(6));
    assert_eq!(host.drop_target(pos(150.0, 1.0), true), None);
}

#[test]
fn links_show_under_command_and_keep_their_hit() {
    let mut host = host();
    let conditions = LinkConditions {
        links: true,
        platform: true,
        over_ui: false,
        on_divider: false,
        reporting: false,
        synchronized: false,
    };
    assert!(!host.seeks_link(conditions));
    host.modifiers.state.super_key = true;
    assert!(host.seeks_link(conditions));
    assert!(!host.seeks_link(LinkConditions {
        synchronized: true,
        ..conditions
    }));
    let place = LinkHit {
        pane: 5,
        generation: 1,
        viewport_offset: 0,
        point: point(10, 2),
        area: rect(0.0, 0.0, 90.0, 90.0),
        cell: pos(7.0, 16.0),
    };
    let link = |uri: &str| HoveredLink {
        pane: 5,
        uri: uri.into(),
        bounds: vec![rect(0.0, 0.0, 7.0, 16.0)],
    };
    assert!(!host.knows_link(&place));
    assert!(host.found_link(place, Some(link("a"))));
    assert!(host.knows_link(&place));
    assert!(!host.knows_link(&LinkHit {
        generation: 2,
        ..place
    }));
    assert!(!host.found_link(place, Some(link("a"))));
    assert!(host.found_link(place, Some(link("b"))));
    assert!(host.leave_link());
    assert!(!host.leave_link() && host.link_hit.is_none());
}

#[test]
fn the_pointer_takes_the_shape_of_what_is_under_it() {
    let mut host = host();
    host.mouse = pos(10.0, 10.0);
    let divider = |axis| Some(Divider { split: 1, axis });
    assert!(matches!(
        host.pointer_cursor(divider(Axis::Horizontal), None),
        Some(PointerCursor::ColResize)
    ));
    assert!(matches!(
        host.pointer_cursor(divider(Axis::Vertical), Some("text")),
        Some(PointerCursor::RowResize)
    ));
    assert!(matches!(
        host.pointer_cursor(None, Some("crosshair")),
        Some(PointerCursor::Named(name)) if name == "crosshair"
    ));
    assert!(host.pointer_cursor(None, Some("no such shape")).is_none());
    assert!(host.pointer_cursor(None, None).is_none());
    assert!(host.choose_pointer(None, Some("crosshair"), false).is_none());
    host.hovered_link = Some(HoveredLink {
        pane: 5,
        uri: String::new(),
        bounds: vec![],
    });
    assert!(matches!(
        host.pointer_cursor(None, Some("text")),
        Some(PointerCursor::Pointer)
    ));
    host.search_rects = vec![(5, rect(0.0, 0.0, 20.0, 20.0))];
    assert!(host
        .pointer_cursor(divider(Axis::Vertical), Some("text"))
        .is_none());
}

#[test]
fn passive_motion_stays_over_live_terminals() {
    let mut host = host();
    host.rects = vec![
        (5, rect(1.0, 1.0, 98.0, 98.0)),
        (6, rect(101.0, 1.0, 98.0, 98.0)),
    ];
    host.content = rect(0.0, 0.0, 200.0, 100.0);
    host.mouse = pos(10.0, 10.0);
    let there = pos(150.0, 10.0);
    assert!(host.passive_mouse_motion(there, &vec![], true));
    assert!(!host.passive_mouse_motion(there, &vec![], false));
    assert!(!host.passive_mouse_motion(there, &vec![6], true));
    assert!(!host.passive_mouse_motion(pos(500.0, 0.0), &vec![], true));
    // Crossing a split gap changes the native cursor, but no terminal pixels.
    let gap = pos(100.0, 50.0);
    assert_eq!(host.pane_at(gap), None);
    let places = [pos(50.0, 50.0), gap, there];
    for (from, to) in (0..256).map(|i| (places[i % 3], places[(i + 1) % 3])) {
        host.mouse = from;
        assert!(host.passive_mouse_motion(to, &vec![], true));
    }
    host.mouse = gap;
    assert!(!host.passive_mouse_motion(pos(100.0, 101.0), &vec![], true));
    host.mouse_button = Some(MouseButton::Left);
    assert!(!host.passive_mouse_motion(there, &vec![], true));
}

#[test]
fn focus_moves_between_panes_or_warns() {
    let mut host = host();
    let right = Direction::Right;
    assert!(!host.begins_peek(right));
    assert!(Host::asks_to_unzoom(right, Some(5), None));
    let moved = host.navigate(right, Some(5), Some(6), None, false, START);
    assert_eq!((moved.focus, moved.rezoom), (Some(6), true));
    assert!(moved.performed && !moved.warn && !moved.unzoom);
    let blocked = host.navigate(right, Some(5), Some(5), None, false, START);
    assert!(blocked.warn && !blocked.performed);
    assert_eq!(
        host.navigation_warning,
        Some((5, START.after(500 * MILLISECOND)))
    );
    let unzoomed = host.navigate(right, Some(5), None, None, true, START);
    assert!(unzoomed.performed && !unzoomed.warn);
    assert_eq!(host.navigation_warning, None);
    let nowhere = host.navigate(right, None, None, None, false, START);
    assert!(!nowhere.performed && !nowhere.warn);

    let quadrant = Direction::QuadrantDown;
    assert!(host.begins_peek(quadrant));
    assert!(!Host::asks_to_unzoom(quadrant, Some(5), None));
    let begun = Peek {
        chord: NONE,
        target: 5,
        navigation_used: false,
    };
    let peeked = host.navigate(quadrant, Some(5), Some(6), Some(begun), false, START);
    assert!(peeked.unzoom && peeked.performed && !peeked.rezoom);
    assert_eq!(
        host.peek,
        Some(Peek {
            target: 6,
            navigation_used: true,
            ..begun
        })
    );
    let stuck = host.navigate(quadrant, Some(6), None, None, false, START);
    assert!(stuck.performed && stuck.warn && stuck.unzoom);
}

#[test]
fn losing_the_focus_ends_what_was_begun() {
    let mut host = host();
    host.preedit_changed("に".into(), Some((0, 3)));
    assert!(host.composing);
    host.consumed_keys.insert(4);
    host.sequence = vec![1];
    host.sequence_len = 1;
    host.mouse_button = Some(MouseButton::Left);
    host.modifiers = HeldModifiers {
        state: Modifiers {
            shift: true,
            ..NONE
        },
        left: NONE,
        right: NONE,
    };
    host.focus_changed(false);
    assert!(!host.focused && !host.composing && host.preedit.is_empty());
    assert!(host.consumed_keys.is_empty() && host.sequence.is_empty());
    assert_eq!((host.sequence_len, host.mouse_button), (0, None));
    assert_eq!(host.modifiers.state, NONE);
    assert!(host.hides_on_blur(true, true, true));
    assert!(!host.hides_on_blur(false, true, true));
    host.palette = true;
    assert!(!host.hides_on_blur(true, true, true));
    host.palette = false;
    host.focus_changed(true);
    assert!(host.focused);
    host.preedit_changed("か".into(), None);
    assert!(!host.yield_to_ui());
    host.search_focus = Some(5);
    assert!(host.yield_to_ui());
    assert!(host.preedit.is_empty() && !host.composing);
    host.preedit_changed("か".into(), None);
    host.preedit_ended();
    assert!(host.preedit.is_empty());
    host.toggle_palette();
    assert!(host.palette && host.focus_text_input);
    host.close_palette();
    assert!(!host.palette && host.focus_text_input);
    host.focus_moved(Some(5), Some(5));
    assert_eq!(host.search_focus, Some(5));
    host.focus_moved(Some(5), Some(6));
    assert_eq!(host.search_focus, None);
    host.peek = Some(Peek {
        chord: NONE,
        target: 5,
        navigation_used: false,
    });
    host.tab_selected();
    assert_eq!(host.peek, None);
}

#[test]
fn typing_dismisses_the_hint_and_restarts_the_cursor() {
    let mut host = host();
    assert!(host.sync_focus(Some(5), START));
    assert!(host.focus_hint.visible(5, START));
    let later = START.after(SECOND);
    assert!(!host.terminal_input(6, Some(5), later));
    assert!(host.focus_hint.visible(5, later));
    assert!(host.terminal_input(5, Some(5), later));
    assert!(!host.focus_hint.visible(5, later));
    assert_eq!(host.cursor_blink_started, later);
    host.visible = false;
    assert!(!host.terminal_input(5, Some(5), later));
    assert_eq!(host.target(Some(5)), None);
}

#[test]
fn frames_come_at_the_earliest_deadline_of_a_visible_window() {
    let mut host = host();
    assert!(host.request_frame(START, START));
    assert_eq!(host.deadline, None);
    assert!(!host.request_frame(START.after(20), START));
    assert!(!host.request_frame(START.after(10), START));
    assert!(!host.request_frame(START.after(30), START));
    assert_eq!(host.deadline, Some(START.after(10)));
    assert_eq!(host.wait_for(START), (false, Some(START.after(10))));
    host.visible = false;
    assert_eq!(host.wait_for(START), (false, None));
    assert_eq!(host.wait_for(START.after(10)), (true, None));
    assert_eq!(host.deadline, None);
    host.visible = true;
    assert!(host.repaints());
    host.deadline = Some(START);
    assert!(!host.occlusion_changed(true));
    assert_eq!(host.deadline, None);
    assert!(!host.repaints() && !host.draws(true, 1, 1));
    assert!(host.occlusion_changed(false));
    assert!(host.draws(true, 1, 1) && !host.draws(true, 0, 1) && !host.draws(false, 1, 1));
}

#[test]
fn panes_are_painted_with_terminal_and_configured_colours() {
    let mut host = host();
    host.preedit_changed("に".into(), Some((0, 3)));
    let rgb = |value| Rgb {
        r: value,
        g: value,
        b: value,
    };
    let colors = TerminalColors {
        foreground: rgb(200),
        background: rgb(10),
        cursor: None,
        reversed: true,
        palette: vec![rgb(9); 255],
    };
    let config = ConfigColors {
        cursor_text: Some(ConfigColor::CellForeground),
        selection_background: None,
        selection_foreground: Some(ConfigColor::Rgb(rgb(77))),
    };
    let options = host.pane_options([3, 4], place(5, 5), &colors, config, vec![], false);
    assert_eq!((options.foreground, options.background), (rgb(10), rgb(200)));
    assert_eq!((options.cursor_color, options.cursor_text), (rgb(10), rgb(10)));
    assert_eq!(
        options.selection_background,
        Rgb {
            r: 65,
            g: 85,
            b: 120
        }
    );
    assert_eq!(options.selection_foreground, Some(rgb(77)));
    assert_eq!(options.palette, vec![rgb(0); 256]);
    assert!(options.focused && !options.cursor_visible && !options.blink_visible);
    assert_eq!(options.preedit.as_deref(), Some("に"));
    assert_eq!(options.preedit_selection, Some((0, 3)));
    let colors = TerminalColors {
        cursor: Some(rgb(1)),
        reversed: false,
        palette: vec![rgb(9); 256],
        ..colors
    };
    let options = host.pane_options([3, 4], place(6, 5), &colors, config, vec![], false);
    assert_eq!((options.foreground, options.cursor_color), (rgb(200), rgb(1)));
    assert_eq!(options.palette[255], rgb(9));
    assert!(!options.focused && options.cursor_visible && options.blink_visible);
    assert_eq!(options.preedit, None);
    assert_eq!(
        ConfigColor::CellBackground.resolve(rgb(1), rgb(2)),
        rgb(2)
    );
}

#[test]
fn only_what_shows_blinks() {
    let mut host = host();
    let cursor = Cursor {
        row: 3,
        col: 0,
        visible: true,
        blink: true,
        shape: CursorShape::Bar,
    };
    assert!(host.cursor_blinks(place(5, 5), cursor, 0, 4));
    assert!(!host.cursor_blinks(place(5, 5), cursor, 1, 4));
    assert!(!host.cursor_blinks(place(6, 5), cursor, 0, 4));
    assert!(host.text_blinks(place(5, 5), true));
    assert!(!host.text_blinks(place(5, 5), false));
    assert!(!host.text_blinks(
        PanePlace {
            exited: true,
            ..place(5, 5)
        },
        true
    ));
    host.composing = true;
    assert!(!host.cursor_blinks(place(5, 5), cursor, 0, 4));
}

#[test]
fn find_keeps_the_keyboard_in_the_focused_pane() {
    let mut host = host();
    host.search_focus = Some(5);
    host.focus_text_input = true;
    host.navigation_warning = Some((5, START));
    host.begin_frame(5, true, START);
    assert_eq!(host.search_focus, Some(5));
    assert_eq!(host.navigation_warning, None);
    assert!(host.focuses_find(5) && !host.focuses_find(6));
    assert_eq!(host.find_drawn(Some(5), Some(6), 5), None);
    assert_eq!(host.search_focus, Some(5));
    assert_eq!(host.find_drawn(None, Some(6), 5), Some(6));
    assert_eq!(host.search_focus, Some(6));
    host.begin_frame(5, true, START);
    assert_eq!(host.search_focus, None);
    host.palette = true;
    assert_eq!(host.find_drawn(Some(5), None, 6), None);
    assert_eq!(host.search_focus, None);
    let peek = Peek {
        chord: NONE,
        target: 6,
        navigation_used: false,
    };
    assert_eq!(host.selected_pane(5), 5);
    host.peek = Some(peek);
    assert_eq!(host.selected_pane(5), 6);
    let marks = quadrant_marks(Some(peek), false);
    assert!(marks.shade && !marks.outline);
    let marks = quadrant_marks(Some(peek), true);
    assert!(!marks.shade && marks.outline);
    let used = Peek {
        navigation_used: true,
        ..peek
    };
    assert!(!quadrant_marks(Some(used), false).shade);
    assert!(!quadrant_marks(None, true).outline);
    assert!(large_labels(true, false, true) && !large_labels(true, false, false));
}

#[test]
fn labels_name_directories_progress_and_commands() {
    let label = quadrant_label(&[Some("/a/x"), Some("/b/x")], true, true, true).unwrap();
    assert_eq!((label.name.as_str(), label.focused), ("x", true));
    assert!(quadrant_label(&[Some("/a/x"), Some("/b/y")], false, true, true).is_none());
    assert!(quadrant_label(&[Some("/a/x")], true, true, false).is_none());
    assert_eq!(pane_label("/a/b", false, true, false).unwrap().name, "b");
    assert!(pane_label("/a/b", true, true, false).is_none());
    assert!(pane_label("/a/b", true, true, true).is_some());
    for (state, color, name) in [
        (1, None, "Terminal progress"),
        (
            2,
            Some(Rgb {
                r: 255,
                g: 59,
                b: 48,
            }),
            "Terminal progress — Error",
        ),
        (3, None, "Terminal progress — In progress"),
        (
            4,
            Some(Rgb {
                r: 255,
                g: 149,
                b: 0,
            }),
            "Terminal progress — Paused",
        ),
    ] {
        let style = progress_style(Progress { state, value: None });
        assert_eq!(style, (color, name.to_string()));
    }
    let entries = palette_actions();
    assert_eq!(entries.len(), 14);
    assert_eq!(entries[2], ("Split right", Action::NewSplit(Direction::Right)));
    assert_eq!(entries[13].1, Action::Redo);
    assert!(palette_matches("Split right", "SPLIT R"));
    assert!(palette_matches("Find", ""));
    assert!(!palette_matches("Find", "finder"));
    assert!(contains_text("abcabd", "abd") && !contains_text("ab", "abc"));
}

#[test]
fn actions_move_the_viewport_to_prompts_selections_and_ends() {
    let mut screen = screen(10, 3, 6);
    for index in [1, 4, 5, 8] {
        screen.rows[index].prompt = true;
    }
    let step = |screen: &Screen, action| screen.move_viewport(&action);
    assert_eq!(step(&screen, Action::ScrollToTop), ViewportStep::To(6));
    assert_eq!(step(&screen, Action::ScrollToBottom), ViewportStep::To(0));
    assert_eq!(step(&screen, Action::ScrollPageUp), ViewportStep::By(4));
    assert_eq!(step(&screen, Action::ScrollPageDown), ViewportStep::By(-4));
    assert_eq!(step(&screen, Action::JumpToPrompt(-1)), ViewportStep::To(1));
    assert_eq!(step(&screen, Action::JumpToPrompt(-3)), ViewportStep::To(5));
    assert_eq!(step(&screen, Action::JumpToPrompt(-4)), ViewportStep::Stay);
    assert_eq!(step(&screen, Action::JumpToPrompt(1)), ViewportStep::To(0));
    assert_eq!(step(&screen, Action::JumpToPrompt(0)), ViewportStep::Stay);
    screen.viewport_offset = 5;
    assert_eq!(step(&screen, Action::JumpToPrompt(1)), ViewportStep::To(2));
    assert_eq!(step(&screen, Action::ScrollToSelection), ViewportStep::Stay);
    screen.selection = Some(Selection {
        start: point(12, 0),
        end: point(13, 0),
        rectangular: false,
    });
    assert_eq!(
        step(&screen, Action::ScrollToSelection),
        ViewportStep::To(4)
    );
    assert!(screen.holds_selection(screen.selection));
    assert_eq!(screen.offset_to(point(99, 0)), None);
    let all = screen.select_all();
    assert_eq!((all.start, all.end), (point(10, 0), point(19, 2)));
    let gone = Selection {
        end: point(99, 0),
        ..all
    };
    assert!(!screen.holds_selection(Some(gone)) && screen.holds_selection(None));
}

#[test]
fn captures_are_read_back_without_padding_and_written_as_png() {
    assert_eq!(row_stride(1), 256);
    assert_eq!(row_stride(64), 256);
    assert_eq!(row_stride(65), 512);
    let mut mapped = vec![0u8; 512];
    mapped[..8].copy_from_slice(&[1, 2, 3, 4, 5, 6, 7, 8]);
    mapped[256..264].copy_from_slice(&[9, 10, 11, 12, 13, 14, 15, 16]);
    assert_eq!(
        read_pixels(&mapped, 256, 2, true),
        [3, 2, 1, 4, 7, 6, 5, 8, 11, 10, 9, 12, 15, 14, 13, 16]
    );
    let pixels = read_pixels(&mapped, 256, 2, false);
    assert_eq!(pixels, (1..=16).collect::<Vec<u8>>());
    let file = encode_capture(2, 2, &pixels).unwrap();
    let mut reader = png::Decoder::new(std::io::Cursor::new(file))
        .read_info()
        .unwrap();
    let mut decoded = vec![0; reader.output_buffer_size().unwrap()];
    let info = reader.next_frame(&mut decoded).unwrap();
    assert_eq!((info.width, info.height), (2, 2));
    assert_eq!(info.color_type, png::ColorType::Rgba);
    assert_eq!(decoded, pixels);
    assert_eq!(encode_capture(0, 2, &[]), Err(CaptureError::Size));
    assert_eq!(encode_capture(2, 2, &pixels[1..]), Err(CaptureError::Size));
}

#[test]
fn held_output_keeps_its_frame_until_it_ends() {
    assert!(ends_batch(true, Some(1), 2));
    assert!(!ends_batch(true, Some(2), 2) && !ends_batch(true, None, 2));
    assert!(!ends_batch(false, Some(1), 2));
    assert!(takes_snapshot(false, false));
    assert!(!takes_snapshot(true, false) && !takes_snapshot(false, true));
    let mut host = host();
    assert!(host.shows_title(5, true) && !host.shows_title(5, false));
    host.queue_clipboard(6, 1, ClipboardAccess::Ask, true);
    assert!(host.shows_title(6, false) && !host.shows_title(5, false));
    host.confirm = Some(Confirmation::Paste(PendingPaste {
        pane: 5,
        data: vec![1],
    }));
    assert!(host.shows_title(5, false));
}

#[test]
fn screens_have_distinct_rows_and_a_viewport_on_them() {
    let whole = screen(2, 3, 0);
    let build = |ids: [u64; 2], history, offset| {
        let rows = ids.map(|id| Row {
            id,
            ..whole.rows[0].clone()
        });
        Screen::new(rows.to_vec(), history, offset, None, whole.cursor)
    };
    assert_eq!(build([1, 2], 1, 1).unwrap().rows[1].id, 2);
    assert!(build([1, 1], 1, 1).is_none());
    assert!(build([1, 2], 2, 1).is_none());
    assert!(build([1, 2], 0, 1).is_none());
    let empty = Row {
        cells: vec![],
        ..whole.rows[0].clone()
    };
    assert!(Screen::new(vec![empty], 0, 0, None, whole.cursor).is_none());
}

#[test]
fn the_pointer_knows_the_names_of_its_shapes() {
    let mut host = host();
    host.mouse = pos(10.0, 10.0);
    let names = [
        "default",
        "context-menu",
        "help",
        "pointer",
        "progress",
        "wait",
        "cell",
        "crosshair",
        "text",
        "vertical-text",
        "alias",
        "copy",
        "move",
        "no-drop",
        "not-allowed",
        "grab",
        "grabbing",
        "e-resize",
        "n-resize",
        "ne-resize",
        "nw-resize",
        "s-resize",
        "se-resize",
        "sw-resize",
        "w-resize",
        "ew-resize",
        "ns-resize",
        "nesw-resize",
        "nwse-resize",
        "col-resize",
        "row-resize",
        "all-scroll",
        "zoom-in",
        "zoom-out",
    ];
    for name in names {
        assert!(matches!(
            host.pointer_cursor(None, Some(name)),
            Some(PointerCursor::Named(shape)) if shape == name
        ));
        assert_eq!(
            name.parse::<winit::window::CursorIcon>().unwrap().name(),
            name
        );
    }
    for name in ["", "Default", "hand", "pointer ", "zoom"] {
        assert!(host.pointer_cursor(None, Some(name)).is_none());
    }
}

#[test]
fn file_uris_give_every_path_back() {
    for path in ["/", "/tmp/a b", "/100%/ü/界/👩", "/-_.~!"] {
        for (host, keep) in [("", "/-_.~"), ("localhost", ""), ("box", "/ ü界👩")] {
            let mut uri = format!("file://{host}/");
            for c in path[1..].chars() {
                if keep.contains(c) {
                    uri.push(c);
                } else {
                    for byte in c.to_string().bytes() {
                        uri += &if host.is_empty() {
                            format!("%{byte:02X}")
                        } else {
                            format!("%{byte:02x}")
                        };
                    }
                }
            }
            assert_eq!(directory_from_osc(&uri).as_deref(), Some(path), "{uri}");
        }
    }
}

#[test]
fn escapes_mix_their_cases_and_leave_any_byte_plain() {
    for uri in [
        "file://host/a%2Fb%c3%Bc%C3%bC",
        "file:///a/b%C3%BCü",
        "file://x/%61/b\u{fc}%c3%bc",
    ] {
        assert_eq!(directory_from_osc(uri).as_deref(), Some("/a/büü"), "{uri}");
    }
}
