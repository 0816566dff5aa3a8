use rustty_core::atlas::{
    reserve, to_straight, Atlas, AtlasUpload, BitmapFormat, GlyphBitmap, Page, RenderError,
};
use rustty_core::frame::{merge_uploads, ComposeError, Frame, Paint, Quad, SearchHighlight};
use rustty_core::prepare::{
    decoration, resolve, standard_palette, CellPaint, CursorPaint, Decoration, RenderOptions,
    RowPlan,
};
use rustty_core::runs::{place_glyphs, split_row, sprite_codepoint, GlyphPlace, RowItem};
use rustty_core::scene::{prepare, RowScene};
use rustty_core::screen::{
    Cell, Cursor, CursorShape, GridPoint, Rgb, Row, Screen, Selection, Style, TerminalColor,
    Underline,
};
use rustty_core::shaping::{
    glyph_key, sprite_key, FontStyle, Renderer, ShapeCache, MAX_SHAPED_BYTES,
};
use std::sync::Arc;

fn cell(text: &str, width: u8, style: Style) -> Cell {
    Cell {
        width,
        blank: false,
        empty: text.is_empty(),
        placeholder: false,
        sprite: matches!(text.chars().next(), Some('█' | '─')),
        text: text.into(),
        style,
    }
}

fn blank() -> Cell {
    Cell {
        blank: true,
        ..cell("", 1, Style::default())
    }
}

/// A row of single-width characters, filled up with cells that were never written.
fn row(id: u64, text: &str, style: Style, cols: usize) -> Row {
    let mut cells: Vec<Cell> = text
        .chars()
        .map(|c| cell(&c.to_string(), 1, style))
        .collect();
    cells.resize_with(cols, blank);
    Row {
        id,
        cells,
        prompt: false,
    }
}

fn screen(rows: Vec<Row>) -> Screen {
    Screen {
        rows,
        history_len: 0,
        viewport_offset: 0,
        selection: None,
        cursor: Cursor {
            row: 0,
            col: 0,
            visible: true,
            blink: false,
            shape: CursorShape::Block,
        },
    }
}

fn plan(screen: &Screen, row: usize, visible: usize, options: &RenderOptions) -> RowPlan {
    RowPlan::new(screen, screen.selection_span(), row, visible, options)
}

fn hidden_cursor() -> RenderOptions {
    RenderOptions {
        cursor_visible: false,
        ..RenderOptions::default()
    }
}

#[test]
fn the_standard_palette_holds_names_cube_and_greys() {
    let palette = standard_palette();
    assert_eq!(palette.len(), 256);
    for (index, [r, g, b]) in [
        (0, [0, 0, 0]),
        (1, [205, 0, 0]),
        (4, [0, 0, 238]),
        (12, [92, 92, 255]),
        (15, [255, 255, 255]),
        (16, [0, 0, 0]),
        (17, [0, 0, 95]),
        (52, [95, 0, 0]),
        (110, [135, 175, 215]),
        (231, [255, 255, 255]),
        (232, [8, 8, 8]),
        (255, [238, 238, 238]),
    ] {
        assert_eq!(palette[index], Rgb { r, g, b }, "{index}");
    }
    let options = RenderOptions::default();
    let default = Rgb { r: 1, g: 2, b: 3 };
    assert_eq!(resolve(TerminalColor::Default, default, &options), default);
    assert_eq!(
        resolve(TerminalColor::Indexed(1), default, &options),
        palette[1]
    );
    assert_eq!(
        resolve(TerminalColor::Rgb(9, 8, 7), default, &options),
        Rgb { r: 9, g: 8, b: 7 }
    );
}

#[test]
fn blank_tail_paint_matches_explicit_spaces() {
    for (cursor_visible, focused, blink_visible) in [
        (false, true, true),
        (true, true, true),
        (true, false, true),
        (true, true, false),
    ] {
        for selected in [false, true] {
            for colored in [false, true] {
                let options = RenderOptions {
                    cursor_visible,
                    focused,
                    blink_visible,
                    ..RenderOptions::default()
                };
                let plans = [false, true].map(|padded| {
                    let mut rows = if padded {
                        vec![
                            row(1, "A       ", Style::default(), 8),
                            row(2, "        ", Style::default(), 8),
                        ]
                    } else {
                        vec![
                            row(1, "A", Style::default(), 8),
                            row(2, "", Style::default(), 8),
                        ]
                    };
                    if colored {
                        // Erased colored cells have no codepoint, but
                        // their background must remain visible.
                        rows[1].cells[4] = cell(
                            "",
                            1,
                            Style {
                                background: TerminalColor::Indexed(4),
                                ..Style::default()
                            },
                        );
                    }
                    let mut screen = screen(rows);
                    screen.cursor.row = 1;
                    screen.cursor.col = 7;
                    screen.cursor.blink = true;
                    if selected {
                        screen.selection = Some(Selection {
                            start: GridPoint { row: 1, col: 6 },
                            end: GridPoint { row: 2, col: 7 },
                            rectangular: false,
                        });
                    }
                    [0, 1].map(|index| {
                        let plan = plan(&screen, index, 8, &options);
                        let filled: Vec<(usize, Rgb)> = plan
                            .cells
                            .iter()
                            .enumerate()
                            .filter(|(_, paint)| paint.fill)
                            .map(|(col, paint)| (col, paint.background))
                            .collect();
                        (filled, plan.cursor, plan.blinking_text)
                    })
                });
                assert_eq!(
                    plans[0], plans[1],
                    "cursor={cursor_visible} focused={focused} blink={blink_visible} selection={selected} background={colored}"
                );
            }
        }
    }
}

#[test]
fn empty_tails_skip_shaping_without_moving_unicode_cursor_or_selection() {
    let single = |text: &str| -> Vec<(String, u8)> {
        text.chars().map(|c| (c.to_string(), 1)).collect()
    };
    let wide = |text: &str| vec![(text.to_string(), 2), (String::new(), 0)];
    for (name, written) in [
        ("ffi", single("ffi")),
        (
            "e\u{301}界",
            [vec![("e\u{301}".to_string(), 1)], wide("界")].concat(),
        ),
        ("العربية", single("العربية")),
        ("עברית 123", single("עברית 123")),
        ("abc العربية 123", single("abc العربية 123")),
        ("👩🏽‍💻", wide("👩🏽‍💻")),
    ] {
        let line = |id: u64, written: &[(String, u8)], padded: bool| {
            let mut cells: Vec<Cell> = written
                .iter()
                .map(|(text, width)| cell(text, *width, Style::default()))
                .collect();
            while cells.len() < 40 {
                cells.push(if padded {
                    cell(" ", 1, Style::default())
                } else {
                    blank()
                });
            }
            Row {
                id,
                cells,
                prompt: false,
            }
        };
        let [sparse, padded] = [false, true].map(|padded| {
            let mut screen = screen(vec![line(1, &written, padded), line(2, &[], padded)]);
            screen.cursor.col = written.len();
            screen.selection = Some(Selection {
                start: GridPoint { row: 1, col: 24 },
                end: GridPoint { row: 2, col: 16 },
                rectangular: false,
            });
            prepare(&screen, 2, 40, &RenderOptions::default())
        });
        let cluster: String = written.iter().map(|(text, _)| text.as_str()).collect();
        for (sparse, padded) in sparse.rows.iter().zip(&padded.rows) {
            // The cursor and the selection are painted alike.
            assert_eq!(sparse.plan.cells, padded.plan.cells, "{name:?}");
            assert_eq!(sparse.plan.cells.len(), 40);
            assert_eq!(sparse.plan.cursor, padded.plan.cursor);
            let (text, sources) = joined(&sparse.items);
            let (spaced, places) = joined(&padded.items);
            assert!(spaced.starts_with(&text));
            assert_eq!(places[..sources.len()], sources, "{name:?}");
        }
        assert_eq!(
            joined(&sparse.rows[0].items).0,
            cluster,
            "empty row tails were shaped for {name:?}"
        );
        assert!(sparse.rows[1].items.is_empty());
    }
}

/// The text of a row over all of its runs, and where in it each column begins.
fn joined(items: &[RowItem]) -> (String, Vec<(usize, usize)>) {
    let mut whole = (String::new(), Vec::new());
    for item in items {
        if let RowItem::Text(run) = item {
            let at = whole.0.len();
            whole
                .1
                .extend(run.sources.iter().map(|&(byte, col)| (at + byte, col)));
            whole.0.push_str(&run.text);
        }
    }
    whole
}

/// What the eye sees of a row: its colours, its inked text and its lines.
fn seen(row: &RowScene) -> (Vec<CellPaint>, Vec<String>, Vec<Decoration>) {
    let texts = row.items.iter().filter_map(|item| match item {
        RowItem::Sprite(sprite) => Some(sprite.codepoint.to_string()),
        RowItem::Text(run) => (!run.text.trim().is_empty()).then(|| run.text.clone()),
    });
    let lines = row.lines.iter().flatten().filter(|lines| {
        lines.underline != Underline::Absent || lines.strikethrough || lines.overline
    });
    (
        row.plan.cells.clone(),
        texts.collect(),
        lines.copied().collect(),
    )
}

#[test]
fn blink_metadata_matches_visible_text_and_decorations() {
    let blink = Style {
        blink: true,
        ..Style::default()
    };
    let hidden = Style {
        invisible: true,
        ..blink
    };
    let underlined = Style {
        underline: Underline::Single,
        ..blink
    };
    let placeholder = Row {
        id: 1,
        cells: vec![Cell {
            placeholder: true,
            ..cell("\u{10eeee}", 1, blink)
        }],
        prompt: false,
    };
    let beyond = Row {
        id: 1,
        cells: vec![blank(), blank(), blank(), cell("X", 1, blink)],
        prompt: false,
    };
    for (row, blinking) in [
        (row(1, "text", blink, 10), true),
        (row(1, "hidden", hidden, 10), false),
        (row(1, "   ", blink, 10), false),
        (row(1, " ", underlined, 10), true),
        (beyond, false),
        (placeholder, false),
    ] {
        let screen = screen(vec![row]);
        let mut options = hidden_cursor();
        let [shown, hidden] = [true, false].map(|visible| {
            options.blink_visible = visible;
            let scene = prepare(&screen, 1, 3, &options);
            assert_eq!(scene.blinking_text, blinking);
            seen(&scene.rows[0])
        });
        assert_eq!(shown != hidden, blinking);
        let mut pane: Frame<i32, i32> = Frame::empty([100, 100]);
        pane.blinking_text = blinking;
        let mut composed: Frame<i32, i32> = Frame::empty([100, 100]);
        composed
            .append_clipped(&pane, true, vec![], None)
            .unwrap();
        assert_eq!(composed.blinking_text, blinking);
    }
}

#[test]
fn focused_cursor_blinks_without_blinking_the_unfocused_outline() {
    let mut screen = screen(vec![
        row(1, "cursor", Style::default(), 10),
        row(2, "", Style::default(), 10),
    ]);
    screen.cursor.blink = true;
    for shape in [
        CursorShape::Block,
        CursorShape::Bar,
        CursorShape::Underline,
        CursorShape::HollowBlock,
    ] {
        screen.cursor.shape = shape;
        let painted = |options: &RenderOptions| {
            let plan = plan(&screen, 0, 10, options);
            let filled: Vec<usize> = (0..plan.cells.len())
                .filter(|&col| plan.cells[col].fill)
                .collect();
            (plan.cursor, filled)
        };
        let mut options = RenderOptions::default();
        let shown = painted(&options);
        options.blink_visible = false;
        let hidden = painted(&options);
        options.cursor_visible = false;
        assert_eq!(hidden, painted(&options), "hidden phase for {shape:?}");
        assert_ne!(shown, hidden);
        options.cursor_visible = true;
        options.focused = false;
        let outline = painted(&options);
        assert_eq!(outline.0, CursorPaint::Outline);
        options.blink_visible = true;
        assert_eq!(outline, painted(&options));
    }
}

#[test]
fn selection_and_unfocused_cursor_have_explicit_geometry() {
    let mut screen = screen(vec![
        row(1, "hello", Style::default(), 10),
        row(2, "", Style::default(), 10),
    ]);
    screen.cursor.col = 5;
    screen.selection = Some(Selection {
        start: GridPoint { row: 1, col: 1 },
        end: GridPoint { row: 1, col: 3 },
        rectangular: false,
    });
    let options = RenderOptions {
        focused: false,
        ..RenderOptions::default()
    };
    let selected = |plan: &RowPlan| {
        plan.cells
            .iter()
            .filter(|paint| paint.fill && paint.background == options.selection_background)
            .count()
    };
    let unfocused = plan(&screen, 0, 10, &options);
    assert_eq!(selected(&unfocused), 3);
    assert_eq!(unfocused.cursor, CursorPaint::Outline);
    screen.cursor.shape = CursorShape::HollowBlock;
    let focused = plan(
        &screen,
        0,
        10,
        &RenderOptions {
            focused: true,
            ..options.clone()
        },
    );
    assert_eq!(selected(&focused), 3);
    assert_eq!(focused.cursor, CursorPaint::Outline);
    assert_eq!(focused.cells, unfocused.cells);
}

#[test]
fn rectangular_selections_take_the_same_columns_of_each_row() {
    let mut screen = screen(vec![
        row(1, "abcdef", Style::default(), 6),
        row(2, "abcdef", Style::default(), 6),
        row(3, "abcdef", Style::default(), 6),
    ]);
    screen.selection = Some(Selection {
        start: GridPoint { row: 3, col: 1 },
        end: GridPoint { row: 1, col: 3 },
        rectangular: true,
    });
    let columns = |screen: &Screen, index| -> Vec<usize> {
        let plan = plan(screen, index, 6, &hidden_cursor());
        (0..6).filter(|&col| plan.cells[col].fill).collect()
    };
    for index in 0..3 {
        assert_eq!(columns(&screen, index), [1, 2, 3]);
    }
    screen.selection.as_mut().unwrap().rectangular = false;
    assert_eq!(columns(&screen, 0), [3, 4, 5]);
    assert_eq!(columns(&screen, 1), [0, 1, 2, 3, 4, 5]);
    assert_eq!(columns(&screen, 2), [0, 1]);
    // A row that is gone leaves no selection.
    screen.selection.as_mut().unwrap().end.row = 9;
    assert_eq!(screen.selection_span(), None);
}

#[test]
fn colours_follow_inverse_selection_match_and_cursor() {
    let style = Style {
        foreground: TerminalColor::Indexed(1),
        background: TerminalColor::Rgb(10, 20, 30),
        inverse: true,
        faint: true,
        underline: Underline::Curly,
        ..Style::default()
    };
    let mut screen = screen(vec![row(7, "ab", style, 2)]);
    screen.cursor.col = 1;
    let mut options = hidden_cursor();
    let red = Rgb { r: 205, g: 0, b: 0 };
    let own = plan(&screen, 0, 2, &options).cells[0];
    assert_eq!(
        own,
        CellPaint {
            foreground: Rgb {
                r: 10,
                g: 20,
                b: 30
            },
            faint: true,
            background: red,
            fill: true
        }
    );
    options.selection_foreground = Some(Rgb { r: 1, g: 1, b: 1 });
    screen.selection = Some(Selection {
        start: GridPoint { row: 7, col: 0 },
        end: GridPoint { row: 7, col: 1 },
        rectangular: false,
    });
    let selected = plan(&screen, 0, 2, &options).cells[0];
    assert_eq!(selected.foreground, Rgb { r: 1, g: 1, b: 1 });
    assert_eq!(selected.background, options.selection_background);
    options.search_highlights = vec![SearchHighlight {
        row: 7,
        first: 0,
        last: 1,
        selected: false,
    }];
    let found = plan(&screen, 0, 2, &options).cells[0];
    assert_eq!(
        found.background,
        Rgb {
            r: 255,
            g: 224,
            b: 130
        }
    );
    assert_eq!(found.foreground, Rgb { r: 0, g: 0, b: 0 });
    options.search_highlights[0].selected = true;
    assert_eq!(
        plan(&screen, 0, 2, &options).cells[0].background,
        Rgb {
            r: 242,
            g: 165,
            b: 126
        }
    );
    options.cursor_visible = true;
    let cursor = plan(&screen, 0, 2, &options).cells[1];
    assert_eq!(
        (cursor.foreground, cursor.background),
        (options.cursor_text, options.cursor_color)
    );
    // Composing text hides the cursor of a focused pane.
    options.preedit = Some("日".into());
    assert_eq!(plan(&screen, 0, 2, &options).cells[1].background.r, 242);
    let lines = decoration(&screen.rows[0].cells[0], own, &options).unwrap();
    assert_eq!(
        (lines.underline, lines.underline_color, lines.underline_faint),
        (Underline::Curly, own.foreground, true)
    );
    let mut colored = cell("x", 1, style);
    colored.style.underline_color = TerminalColor::Indexed(1);
    let lines = decoration(&colored, own, &options).unwrap();
    assert_eq!((lines.underline_color, lines.underline_faint), (red, false));
    colored.style.invisible = true;
    assert_eq!(decoration(&colored, own, &options), None);
}

#[test]
fn the_second_half_of_a_wide_character_shares_its_match() {
    let cells = vec![
        cell("x", 1, Style::default()),
        cell("界", 2, Style::default()),
        cell("", 0, Style::default()),
    ];
    let screen = screen(vec![Row {
        id: 3,
        cells,
        prompt: false,
    }]);
    let mut options = hidden_cursor();
    options.search_highlights = vec![SearchHighlight {
        row: 3,
        first: 1,
        last: 1,
        selected: true,
    }];
    let plan = plan(&screen, 0, 3, &options);
    let filled: Vec<bool> = plan.cells.iter().map(|paint| paint.fill).collect();
    assert_eq!(filled, [false, true, true]);
}

#[test]
fn glyph_anchors_preserve_marks_wide_cells_and_unordered_clusters() {
    // The text "a\u{301}界b" begins its columns at these bytes.
    let cells = vec![
        cell("a\u{301}", 1, Style::default()),
        cell("界", 2, Style::default()),
        cell("", 0, Style::default()),
        cell("b", 1, Style::default()),
    ];
    let row = Row {
        id: 1,
        cells,
        prompt: false,
    };
    let options = hidden_cursor();
    let screen = screen(vec![row]);
    let plan = plan(&screen, 0, 4, &options);
    let items = split_row(&screen.rows[0], &plan.cells, plan.text_cols, &options);
    let [RowItem::Text(run)] = items.as_slice() else {
        panic!("one run was expected");
    };
    assert_eq!(run.text, "a\u{301}界b");
    assert_eq!(run.sources, [(0, 0), (3, 1), (6, 3)]);
    // The first cluster-3 glyph is a mark before its advancing base.
    // Cluster 6 has only marks and anchors at its first glyph, even if empty.
    let xs = [20.0, 80.0, 24.0, 27.0, 9.0, 11.0, 12.0];
    let glyphs = vec![
        (3, false),
        (0, true),
        (3, true),
        (3, false),
        (6, false),
        (6, false),
        (6, false),
    ];
    let places = place_glyphs(&run.sources, &glyphs);
    let width = 8.0;
    let positions: Vec<f32> = places
        .iter()
        .zip(xs)
        .map(|(place, x)| place.col as f32 * width + x - xs[place.anchor])
        .collect();
    assert_eq!(
        positions,
        [
            width - 4.0,
            0.0,
            width,
            width + 3.0,
            3.0 * width,
            3.0 * width + 2.0,
            3.0 * width + 3.0
        ]
    );
    assert_eq!(place_glyphs(&vec![], &vec![]), Vec::<GlyphPlace>::new());
}

#[test]
fn sprites_fill_cells_without_entering_native_shaping_runs() {
    let screen = screen(vec![row(1, "A█B─█", Style::default(), 10)]);
    let options = hidden_cursor();
    let plan = plan(&screen, 0, 10, &options);
    let items = split_row(&screen.rows[0], &plan.cells, plan.text_cols, &options);
    let described: Vec<String> = items
        .iter()
        .map(|item| match item {
            RowItem::Sprite(sprite) => format!("{}@{}", sprite.codepoint, sprite.col),
            RowItem::Text(run) => run.text.clone(),
        })
        .collect();
    assert_eq!(described, ["A", "█@1", "B", "─@3", "█@4"]);
    assert_eq!(sprite_codepoint("─\u{fe0f}", true), Some('─'));
    assert_eq!(sprite_codepoint("─\u{301}", true), None);
    assert_eq!(sprite_codepoint("─", false), None);
    assert_eq!(sprite_codepoint("", true), None);
}

#[test]
fn runs_break_where_style_or_colour_changes_and_skip_hidden_cells() {
    let bold = Style {
        bold: true,
        ..Style::default()
    };
    let blink = Style {
        blink: true,
        ..Style::default()
    };
    let mut cells = vec![
        cell("a", 1, Style::default()),
        cell("", 1, Style::default()),
        cell("b", 1, bold),
        cell("c", 1, blink),
        cell("d", 1, Style::default()),
    ];
    cells.push(Cell {
        placeholder: true,
        ..cell("p", 1, Style::default())
    });
    let screen = screen(vec![Row {
        id: 1,
        cells,
        prompt: false,
    }]);
    let mut options = hidden_cursor();
    let texts = |options: &RenderOptions| -> Vec<String> {
        let plan = plan(&screen, 0, 6, options);
        split_row(&screen.rows[0], &plan.cells, plan.text_cols, options)
            .into_iter()
            .map(|item| match item {
                RowItem::Text(run) => run.text,
                RowItem::Sprite(sprite) => sprite.codepoint.to_string(),
            })
            .collect()
    };
    assert_eq!(texts(&options), ["a ", "b", "c", "d"]);
    options.blink_visible = false;
    assert_eq!(texts(&options), ["a ", "b", "d"]);
    assert_eq!(FontStyle::new(true, true), FontStyle::BoldItalic);
    assert_eq!(FontStyle::new(false, false), FontStyle::Regular);
}

#[test]
fn unchanged_runs_reuse_shaping_without_caching_color_or_cell_positions() {
    let mut cache: ShapeCache<Vec<u16>> = ShapeCache::new();
    let regular = Arc::new(vec![1]);
    let bold = Arc::new(vec![2]);
    assert!(cache.get("style", FontStyle::Regular).is_none());
    cache.insert("style", FontStyle::Regular, 100, Arc::clone(&regular));
    cache.insert("style", FontStyle::Bold, 100, Arc::clone(&bold));
    assert!(Arc::ptr_eq(
        cache.get("style", FontStyle::Regular).unwrap(),
        &regular
    ));
    assert!(Arc::ptr_eq(
        cache.get("style", FontStyle::Bold).unwrap(),
        &bold
    ));
    assert_eq!(cache.bytes, 200);
    cache.clear();
    assert_eq!(cache.bytes, 0);
    assert!(cache.get("style", FontStyle::Regular).is_none());
    // A full cache starts over with the new run alone.
    cache.insert("old", FontStyle::Regular, MAX_SHAPED_BYTES, Arc::clone(&regular));
    cache.insert("new", FontStyle::Regular, 10, Arc::clone(&bold));
    assert!(cache.bytes < MAX_SHAPED_BYTES);
    assert!(cache.get("old", FontStyle::Regular).is_none());
    assert!(cache.get("new", FontStyle::Regular).is_some());
    // One that exceeds the budget by itself is not kept.
    cache.insert("huge", FontStyle::Italic, MAX_SHAPED_BYTES + 1, bold);
    assert!(cache.get("huge", FontStyle::Italic).is_none());
    assert_eq!(cache.bytes, 10);
}

fn bitmap(width: u32, height: u32, format: BitmapFormat, pixels: Vec<u8>) -> GlyphBitmap {
    GlyphBitmap {
        width,
        height,
        bearing_x: -1,
        bearing_y: 7,
        format,
        pixels,
    }
}

#[test]
fn styled_unicode_frame_is_self_contained_and_cache_can_be_recreated() {
    let mut renderer: Renderer<Vec<u16>> = Renderer::new(1);
    let key = glyph_key(3, 40);
    assert!(renderer.glyph(key).is_none());
    let mask = renderer
        .cache_glyph(key, bitmap(2, 1, BitmapFormat::Alpha, vec![0, 128]))
        .unwrap();
    assert!(!mask.color);
    assert_eq!(mask.bearing, [-1, 7]);
    assert_eq!(mask.origin, [1, 1]);
    assert_eq!(renderer.glyph(key), Some(mask));
    assert_eq!(renderer.sprite(key), None);
    let emoji = renderer
        .cache_sprite(
            sprite_key('█', 1),
            bitmap(1, 1, BitmapFormat::Rgba, vec![50, 100, 0, 100]),
        )
        .unwrap();
    assert!(emoji.color);
    assert_eq!(emoji.origin, [5, 1]);
    assert_eq!(renderer.atlas.uploads.len(), 2);
    assert_eq!(
        renderer.atlas.uploads[0].pixels.as_slice(),
        [255, 255, 255, 0, 255, 255, 255, 128]
    );
    assert_eq!(
        renderer.atlas.uploads[1].pixels.as_slice(),
        [128, 255, 0, 100]
    );
    assert_eq!(renderer.atlas.uploads[1].revision, 2);
    renderer.clear_cache(2);
    assert_ne!(renderer.generation(), 1);
    assert!(renderer.atlas.uploads.is_empty());
    let again = renderer
        .cache_glyph(key, bitmap(2, 1, BitmapFormat::Alpha, vec![0, 128]))
        .unwrap();
    assert_eq!(again, mask);
    assert!(!renderer.retry(&RenderError::Font("x".into()), true, 3));
    assert!(!renderer.retry(&RenderError::AtlasCapacity, false, 3));
    assert!(renderer.glyph(key).is_some());
    assert!(renderer.retry(&RenderError::AtlasCapacity, true, 3));
    assert_eq!((renderer.generation(), renderer.glyph(key)), (3, None));
}

#[test]
fn pages_fill_shelf_by_shelf() {
    let mut page = Page {
        x: 0,
        y: 0,
        row_height: 0,
        size: 10,
        image: false,
    };
    assert_eq!(reserve(&mut page, 4, 3), Some([0, 0]));
    assert_eq!(reserve(&mut page, 4, 5), Some([4, 0]));
    assert_eq!(reserve(&mut page, 4, 2), Some([0, 5]));
    assert_eq!(reserve(&mut page, 11, 1), None);
    assert_eq!(page.x, 4);
    // The shelf is closed even where nothing fits below it.
    assert_eq!(reserve(&mut page, 8, 5), None);
    assert_eq!((page.x, page.y, page.row_height), (0, 7, 0));
    assert_eq!(reserve(&mut page, 10, 3), Some([0, 7]));
    assert_eq!(reserve(&mut page, 1, 1), None);
}

#[test]
fn bitmaps_go_to_pages_of_their_kind_within_the_budget() {
    let mut atlas = Atlas::new(1);
    let pixels = || Arc::new(vec![0; 4]);
    let empty = atlas.cache_pixels([0, 5], pixels(), false).unwrap();
    assert_eq!((empty.page_size, empty.size), (0, [0, 5]));
    assert!(atlas.pages.is_empty());
    let glyph = atlas.cache_pixels([1, 1], pixels(), false).unwrap();
    assert_eq!((glyph.atlas, glyph.page_size), (0, 1024));
    let image = atlas.cache_pixels([1, 1], pixels(), true).unwrap();
    assert_eq!((image.atlas, image.color), (1, true));
    let large = atlas.cache_pixels([1500, 10], pixels(), false).unwrap();
    assert_eq!((large.atlas, large.page_size), (2, 2048));
    // Two fit on the page of 16 MiB, and pages of 4 MiB fill the rest of the 64 MiB.
    let mut count = 0;
    let error = loop {
        match atlas.cache_pixels([1022, 1022], pixels(), false) {
            Ok(_) => count += 1,
            Err(error) => break error,
        }
    };
    assert_eq!(count, 13);
    assert_eq!(error, RenderError::AtlasCapacity);
    assert_eq!(
        error.message(),
        "visible terminal glyphs exceed the 64 MiB atlas budget"
    );
    assert_eq!(RenderError::Font("no font".into()).message(), "no font");
    assert!(atlas.cache_pixels([1022, 1022], pixels(), true).is_ok());
    let revisions: Vec<u64> = atlas.uploads.iter().map(|upload| upload.revision).collect();
    assert_eq!(revisions, (1..=revisions.len() as u64).collect::<Vec<_>>());
    atlas.clear(2);
    assert!(atlas.pages.is_empty() && atlas.generation == 2);
}

#[test]
fn colours_are_straightened_and_rounded() {
    assert_eq!(
        to_straight(
            BitmapFormat::Rgba,
            &vec![10, 20, 30, 0, 255, 1, 0, 2, 7, 7, 7, 255, 9]
        ),
        [0, 0, 0, 0, 255, 128, 0, 2, 7, 7, 7, 255]
    );
}

type TestFrame = Frame<[f32; 4], [u8; 3]>;

/// Moves and clips quads as a host does.
fn append(
    window: &mut TestFrame,
    pane: &TestFrame,
    origin: [f32; 2],
    clip: [f32; 4],
) -> Result<(), ComposeError> {
    let valid =
        origin.iter().chain(&clip).all(|v| v.is_finite()) && clip[2] >= 0.0 && clip[3] >= 0.0;
    let mut clipped = Vec::new();
    for quad in &pane.quads {
        let [x, y, w, h] = quad.rect;
        let (x, y) = (x + origin[0], y + origin[1]);
        let left = x.max(clip[0].max(0.0));
        let top = y.max(clip[1].max(0.0));
        let right = (x + w).min((clip[0] + clip[2]).min(window.size[0] as f32));
        let bottom = (y + h).min((clip[1] + clip[3]).min(window.size[1] as f32));
        if w <= 0.0 || h <= 0.0 || left >= right || top >= bottom {
            continue;
        }
        let [u0, v0, u1, v1] = quad.uv;
        clipped.push(Quad {
            rect: [left, top, right - left, bottom - top],
            uv: [
                u0 + (u1 - u0) * (left - x) / w,
                v0 + (v1 - v0) * (top - y) / h,
                u0 + (u1 - u0) * (right - x) / w,
                v0 + (v1 - v0) * (bottom - y) / h,
            ],
            ..quad.clone()
        });
    }
    let ime = pane
        .ime_cursor
        .map(|[x, y, w, h]| [x + origin[0], y + origin[1], w, h]);
    window.append_clipped(pane, valid, clipped, ime)
}

fn upload(revision: u64, pixel: u8) -> AtlasUpload {
    AtlasUpload {
        revision,
        page: 0,
        page_size: 1,
        origin: [0, 0],
        size: [1, 1],
        pixels: Arc::new(vec![pixel; 4]),
    }
}

#[test]
fn pane_composition_clips_texture_coordinates_and_shares_atlas_updates() {
    let mut pane: TestFrame = Frame::empty([10, 10]);
    pane.generation = 7;
    pane.quads.push(Quad {
        rect: [0.0, 0.0, 10.0, 10.0],
        uv: [0.0, 0.0, 1.0, 1.0],
        color: [255; 3],
        paint: Paint::Mask,
        atlas: 0,
    });
    pane.atlas_uploads.push(upload(1, 255));
    let mut window: TestFrame = Frame::empty([50, 50]);
    append(&mut window, &pane, [5.0, 7.0], [8.0, 9.0, 4.0, 6.0]).unwrap();
    assert_eq!(window.quads[0].rect, [8.0, 9.0, 4.0, 6.0]);
    for (actual, expected) in window.quads[0].uv.into_iter().zip([0.3, 0.2, 0.7, 0.8]) {
        assert!((actual - expected).abs() < 0.00001);
    }
    append(&mut window, &pane, [20.0, 0.0], [20.0, 0.0, 10.0, 10.0]).unwrap();
    assert_eq!(window.quads.len(), 2);
    assert_eq!(window.atlas_uploads.len(), 1);
    let quads = window.quads.clone();
    pane.generation = 8;
    assert_eq!(
        append(&mut window, &pane, [0.0, 0.0], [0.0, 0.0, 10.0, 10.0]),
        Err(ComposeError::GenerationChanged)
    );
    assert_eq!(window.quads, quads);
    pane.generation = 7;
    assert_eq!(
        append(&mut window, &pane, [f32::NAN, 0.0], [0.0, 0.0, 10.0, 10.0]),
        Err(ComposeError::InvalidClip)
    );
    pane.atlas_uploads[0] = upload(1, 254);
    assert_eq!(
        append(&mut window, &pane, [0.0, 0.0], [0.0, 0.0, 10.0, 10.0]),
        Err(ComposeError::ConflictingAtlasRevision)
    );
    assert_eq!((window.generation, window.quads), (7, quads));
    assert_eq!(
        ComposeError::GenerationChanged.message(),
        "pane frames belong to different atlas generations"
    );
    assert_eq!(
        ComposeError::ConflictingAtlasRevision.message(),
        "pane frames contain conflicting atlas revisions"
    );
    assert_eq!(
        ComposeError::InvalidClip.message(),
        "invalid pane origin or clipping rectangle"
    );
}

#[test]
fn updates_merge_by_revision() {
    let own = vec![upload(5, 1), upload(2, 2), upload(5, 3)];
    let other = vec![upload(9, 4), upload(1, 5), upload(2, 2)];
    let merged = merge_uploads(&own, &other).unwrap();
    let seen: Vec<(u64, u8)> = merged
        .iter()
        .map(|upload| (upload.revision, upload.pixels[0]))
        .collect();
    assert_eq!(seen, [(1, 5), (2, 2), (5, 3), (9, 4)]);
    assert!(merge_uploads(&own, &vec![upload(5, 1)]).is_none());
    assert_eq!(merge_uploads(&merged, &merged).unwrap().len(), 4);
    let mut frame: TestFrame = Frame::empty([1, 1]);
    let mut blinking: TestFrame = Frame::empty([1, 1]);
    blinking.blinking_text = true;
    blinking.generation = 3;
    blinking.ime_cursor = Some([1.0; 4]);
    append(&mut frame, &blinking, [2.0, 0.0], [0.0, 0.0, 1.0, 1.0]).unwrap();
    assert!(frame.blinking_text);
    assert_eq!((frame.generation, frame.ime_cursor), (3, Some([3.0, 1.0, 1.0, 1.0])));
    // Without atlas contents another generation is welcome.
    let still: TestFrame = Frame::empty([1, 1]);
    append(&mut frame, &still, [0.0, 0.0], [0.0, 0.0, 1.0, 1.0]).unwrap();
    assert!(frame.blinking_text && frame.ime_cursor.is_some());
    assert_eq!(
        Quad::solid([1.0; 4], [0.0; 4], [9u8; 3]).paint,
        Paint::Solid
    );
}

#[test]
fn scenes_hold_the_rows_that_fit() {
    let blink = Style {
        blink: true,
        underline: Underline::Single,
        ..Style::default()
    };
    let screen = screen(vec![
        row(1, "ab", Style::default(), 4),
        row(2, "c", blink, 4),
        row(3, "", Style::default(), 4),
    ]);
    let options = hidden_cursor();
    let scene = prepare(&screen, 1, 9, &options);
    assert_eq!(scene.rows.len(), 1);
    assert!(!scene.blinking_text);
    let scene = prepare(&screen, 9, 9, &options);
    assert_eq!(scene.rows.len(), 3);
    assert!(scene.blinking_text);
    let [one, two, three] = [0, 1, 2].map(|i| &scene.rows[i]);
    assert_eq!((one.plan.text_cols, one.items.len()), (2, 1));
    assert_eq!(one.lines.len(), 2);
    assert!(two.lines[0].is_some_and(|l| l.underline == Underline::Single));
    assert!(three.items.is_empty() && three.lines.is_empty());
    let dark = RenderOptions {
        blink_visible: false,
        ..hidden_cursor()
    };
    let other = prepare(&screen, 9, 9, &dark);
    // The steady row is the same in both phases, and the blinking one goes dark.
    assert_eq!(other.rows[0].plan.cells, one.plan.cells);
    assert_eq!(other.rows[0].lines, one.lines);
    assert!(other.rows[1].items.is_empty() && other.rows[1].lines[0].is_none());
    assert!(prepare(&screen, 0, 9, &options).rows.is_empty());
}

#[test]
fn every_shown_cell_is_drawn_once_from_left_to_right() {
    let plain = Style::default();
    let bold = Style {
        bold: true,
        ..plain
    };
    let hidden = Style {
        invisible: true,
        ..plain
    };
    let line = Row {
        id: 1,
        cells: vec![
            cell("a", 1, plain),
            cell("界", 2, plain),
            cell("", 0, plain),
            cell("█", 1, plain),
            cell("b", 1, hidden),
            cell("c", 1, bold),
            cell("d", 1, plain),
        ],
        prompt: false,
    };
    let screen = screen(vec![line]);
    let scene = prepare(&screen, 1, 9, &hidden_cursor());
    let mut columns = Vec::new();
    for item in &scene.rows[0].items {
        match item {
            RowItem::Sprite(sprite) => columns.push(sprite.col),
            RowItem::Text(run) => columns.extend(run.sources.iter().map(|source| source.1)),
        }
    }
    assert_eq!(columns, [0, 1, 3, 5, 6]);
}
