use rustty_core::frame::SearchHighlight;
use rustty_core::prepare::{RenderOptions, RowPlan};
use rustty_core::screen::{
    Cell, Cursor, CursorShape, GridPoint, Rgb, Row, Screen, Selection, Style,
};
use rustty_core::search::{
    match_counter, overlay_action, FindAction, Match, OverlayInput, RefreshPlan, Search,
};

fn row(id: u64, cols: usize) -> Row {
    Row {
        id,
        cells: (0..cols)
            .map(|_| Cell {
                width: 1,
                blank: false,
                empty: false,
                placeholder: false,
                sprite: false,
                text: "x".into(),
                style: Style::default(),
            })
            .collect(),
        prompt: false,
    }
}

fn screen(rows: usize, cols: usize, history_len: usize, viewport_offset: usize) -> Screen {
    Screen {
        rows: (0..rows as u64).map(|id| row(100 + id, cols)).collect(),
        history_len,
        viewport_offset,
        selection: None,
        cursor: Cursor {
            row: 0,
            col: 0,
            visible: false,
            blink: false,
            shape: CursorShape::Block,
        },
    }
}

fn point(row: u64, col: usize) -> GridPoint {
    GridPoint { row, col }
}

fn found(start: (u64, usize), end: (u64, usize)) -> Match {
    Match {
        start: point(start.0, start.1),
        end: point(end.0, end.1),
    }
}

fn selection(found: Match) -> Option<Selection> {
    Some(Selection {
        start: found.start,
        end: found.end,
        rectangular: false,
    })
}

#[test]
fn pane_searches_wrap_independently_and_clear_only_their_own_highlights() {
    let alpha = found((100, 0), (100, 4));
    let mut search = Search::new();
    let mut current = None;
    assert!(search.needs_refresh(true, 1));
    assert!(!search.clear_highlight(None, None, &mut current));
    assert_eq!(
        search.refreshed(true, false, 1),
        RefreshPlan {
            select_next: true,
            highlight_selected: true
        }
    );
    assert!(!search.needs_refresh(false, 1));
    assert!(search.needs_refresh(false, 2));
    search.highlight_selected(Some(alpha), (7, 8), &mut current);
    assert_eq!(current, selection(alpha));
    assert_eq!(search.highlight, Some((7, 8)));
    // Its own selection goes, and comes back with the next refresh.
    assert!(search.clear_highlight(Some(alpha.start), Some(alpha.end), &mut current));
    assert_eq!((current, search.highlight), (None, None));
    assert!(search.refreshed(false, true, 2).highlight_selected);
    // A missing match highlights nothing.
    search.highlight_selected(None, (1, 2), &mut current);
    assert_eq!((current, search.highlight), (None, None));

    search.highlight_selected(Some(alpha), (7, 8), &mut current);
    let mouse = selection(found((101, 0), (101, 0)));
    current = mouse;
    assert!(!search.clear_highlight(Some(alpha.start), Some(alpha.end), &mut current));
    assert_eq!(current, mouse);

    // Pins that lead nowhere, as on another screen, clear nothing.
    search.highlight_selected(Some(alpha), (7, 8), &mut current);
    assert!(!search.clear_highlight(None, Some(alpha.end), &mut current));
    assert_eq!(current, selection(alpha));
    assert_eq!(search.highlight, None);
}

#[test]
fn highlights_cover_wrapped_matches_and_stop_at_the_viewport() {
    // Rows 100..106, of which 102..105 show.
    let screen = screen(6, 4, 3, 1);
    let mut search = Search::new();
    assert!(!search.is_current(1));
    search.highlights(
        &screen,
        &vec![
            found((101, 2), (103, 1)),
            found((104, 3), (104, 3)),
            found((100, 0), (101, 3)),
            found((104, 0), (99, 0)),
        ],
        Some(found((105, 1), (104, 2))),
    );
    let highlight = |row, first, last, selected| SearchHighlight {
        row,
        first,
        last,
        selected,
    };
    assert_eq!(
        search.render_highlights,
        [
            highlight(102, 0, 3, false),
            highlight(103, 0, 1, false),
            highlight(104, 3, 3, false),
            highlight(104, 2, 3, true),
        ]
    );
    assert!(search.is_current(1));
    // The same viewport is not clipped again, until Find moves.
    search.highlights(&screen, &vec![], None);
    assert_eq!(search.render_highlights.len(), 4);
    search.navigate();
    search.highlights(&screen, &vec![], None);
    assert!(search.render_highlights.is_empty());
}

#[test]
fn all_search_matches_render_with_a_distinct_selected_color() {
    let plain = Rgb {
        r: 255,
        g: 224,
        b: 130,
    };
    let chosen = Rgb {
        r: 242,
        g: 165,
        b: 126,
    };
    let check = |screen: &Screen,
                 matches: &[Match],
                 selected: Option<Match>,
                 expected: &[(usize, usize, usize, bool)]| {
        let mut search = Search::new();
        search.highlights(screen, &matches.to_vec(), selected);
        let options = RenderOptions {
            cursor_visible: false,
            search_highlights: search.render_highlights,
            ..RenderOptions::default()
        };
        let mut actual = Vec::new();
        for index in 0..screen.rows.len() - screen.history_len {
            let plan = RowPlan::new(screen, None, index, 20, &options);
            for (col, paint) in plan.cells.iter().enumerate() {
                if paint.fill {
                    assert_eq!(paint.foreground, Rgb { r: 0, g: 0, b: 0 });
                    assert!(paint.background == plain || paint.background == chosen);
                    actual.push((index, col, paint.background == chosen));
                }
            }
        }
        let expected: Vec<_> = expected
            .iter()
            .flat_map(|&(row, from, to, selected)| (from..to).map(move |col| (row, col, selected)))
            .collect();
        assert_eq!(actual, expected);
    };
    let three = screen(500, 20, 497, 0);
    let alpha = |row: u64| found((100 + row, 0), (100 + row, 4));
    let visible = [alpha(497), alpha(498), alpha(499)];
    check(
        &three,
        &visible,
        Some(alpha(499)),
        &[(0, 0, 5, false), (1, 0, 5, false), (2, 0, 5, true)],
    );
    check(
        &three,
        &visible,
        Some(alpha(498)),
        &[(0, 0, 5, false), (1, 0, 5, true), (2, 0, 5, false)],
    );
    // Scrolled away from the selected match, and back to a changed text.
    let mut scrolled = screen(500, 20, 497, 200);
    check(
        &scrolled,
        &[alpha(297), alpha(298), alpha(299)],
        Some(alpha(498)),
        &[(0, 0, 5, false), (1, 0, 5, false), (2, 0, 5, false)],
    );
    scrolled.viewport_offset = 0;
    check(
        &scrolled,
        &visible[..2],
        Some(alpha(498)),
        &[(0, 0, 5, false), (1, 0, 5, true)],
    );
    check(&three, &[], None, &[]);

    // A match of wide text that wraps over two rows, with half of another one in sight.
    let mut wrapped = screen(4, 4, 2, 0);
    for row in [0, 2] {
        wrapped.rows[row].cells[2].width = 2;
        wrapped.rows[row].cells[2].text = "界".into();
        wrapped.rows[row].cells[3].width = 0;
        wrapped.rows[row].cells[3].text = String::new();
    }
    let first = found((100, 2), (101, 0));
    let second = found((102, 2), (103, 0));
    check(
        &wrapped,
        &[second],
        Some(second),
        &[(0, 2, 4, true), (1, 0, 1, true)],
    );
    wrapped.viewport_offset = 1;
    check(
        &wrapped,
        &[first, second],
        Some(second),
        &[(0, 0, 1, false), (1, 2, 4, true)],
    );
    // A single wide character is highlighted in both of its cells.
    let wide = found((102, 2), (102, 2));
    check(&wrapped, &[wide], Some(wide), &[(1, 2, 4, true)]);

    // Overlapping matches show the selected one on top.
    let overlapping = [
        found((100, 0), (100, 2)),
        found((100, 1), (100, 3)),
        found((100, 2), (100, 4)),
    ];
    let one = screen(1, 6, 0, 0);
    check(
        &one,
        &overlapping,
        Some(overlapping[2]),
        &[(0, 0, 2, false), (0, 2, 5, true)],
    );
    check(
        &one,
        &overlapping,
        Some(overlapping[1]),
        &[(0, 0, 1, false), (0, 1, 4, true), (0, 4, 5, false)],
    );
}

#[test]
fn the_overlay_counts_matches_and_answers_to_its_controls() {
    assert_eq!(match_counter(None, 0), "0/0");
    assert_eq!(match_counter(Some(0), 12), "1/12");
    assert_eq!(match_counter(Some(99), 1005), "100/1005");
    let nothing = OverlayInput {
        enabled: true,
        shift_enter: false,
        next_clicked: false,
        previous_clicked: false,
        close_clicked: false,
    };
    assert_eq!(overlay_action(nothing), None);
    let shift_enter = OverlayInput {
        shift_enter: true,
        ..nothing
    };
    assert_eq!(
        overlay_action(shift_enter),
        Some(FindAction::Navigate { next: false })
    );
    assert_eq!(
        overlay_action(OverlayInput {
            enabled: false,
            ..shift_enter
        }),
        None
    );
    let next = OverlayInput {
        next_clicked: true,
        ..shift_enter
    };
    assert_eq!(
        overlay_action(next),
        Some(FindAction::Navigate { next: true })
    );
    assert_eq!(
        overlay_action(OverlayInput {
            previous_clicked: true,
            ..next
        }),
        Some(FindAction::Navigate { next: false })
    );
    assert_eq!(
        overlay_action(OverlayInput {
            close_clicked: true,
            ..next
        }),
        Some(FindAction::End)
    );
}

#[test]
fn nothing_but_matches_is_highlighted() {
    let screen = screen(6, 4, 3, 1);
    let matches = [found((101, 2), (103, 1)), found((104, 3), (104, 3))];
    let chosen = found((104, 2), (105, 1));
    let mut search = Search::new();
    search.highlights(&screen, &matches.to_vec(), Some(chosen));
    let holds = |found: &Match, row: u64, col: usize| {
        (found.start.row, found.start.col) <= (row, col)
            && (row, col) <= (found.end.row, found.end.col)
    };
    for highlight in &search.render_highlights {
        for col in highlight.first..=highlight.last {
            if highlight.selected {
                assert!(holds(&chosen, highlight.row, col));
            } else {
                assert!(matches.iter().any(|found| holds(found, highlight.row, col)));
            }
        }
    }
    assert_eq!(search.render_highlights.len(), 4);
}
