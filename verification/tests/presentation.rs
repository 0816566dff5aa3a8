use rustty_core::presentation::{
    common_directory_name, cursor_blink_phase, directory_name, Activity, CompletionFlash,
    DirectoryLabel, FocusHint, TabAccent, TitleActivity, FLASH_DURATION, PROGRESS_TIMEOUT,
};
use rustty_core::time::{sooner, Instant, MILLISECOND, SECOND};

const START: Instant = Instant { nanos: 3_600 * SECOND };

/// The eased position of the bouncing bar as a fraction of the pane's width.
fn progress_offset(activity: &mut Activity, now: Instant) -> f32 {
    let Some(elapsed) = activity.progress_elapsed(now) else {
        return 0.0;
    };
    let leg = (elapsed as f64 / 1e9 % 2.4) / 1.2;
    let x = if leg <= 1.0 { leg } else { 2.0 - leg };
    let mut t = x;
    for _ in 0..5 {
        t -= (((0.52 * t - 0.78) * t + 1.26) * t - x) / ((1.56 * t - 1.56) * t + 1.26);
    }
    (0.75 * (3.0 - 2.0 * t) * t * t) as f32
}

#[test]
fn indefinite_progress_restarts_on_appearance_but_not_report_updates() {
    let now = START;
    let mut activity = Activity::default();
    activity.progress_reported(3, None, now);
    // The first displayed frame starts at the left, even after a hidden delay.
    let shown = now.after(2 * SECOND);
    assert_eq!(progress_offset(&mut activity, shown), 0.0);
    let middle = shown.after(600 * MILLISECOND);
    assert_eq!(progress_offset(&mut activity, middle), 0.375);
    activity.progress_reported(3, None, middle);
    activity.progress_reported(2, None, middle);
    assert_eq!(progress_offset(&mut activity, middle), 0.375);
    assert_eq!(
        progress_offset(&mut activity, shown.after(1200 * MILLISECOND)),
        0.75
    );

    activity.reset_progress_animation(); // Tab/pane/window disappears.
    let shown = shown.after(3 * SECOND);
    assert_eq!(progress_offset(&mut activity, shown), 0.0);
    for (state, value) in [(1, Some(50)), (4, None), (0, None)] {
        assert_eq!(
            progress_offset(&mut activity, shown.after(600 * MILLISECOND)),
            0.375
        );
        activity.progress_reported(state, value, shown);
        activity.progress_reported(3, None, shown);
        assert_eq!(progress_offset(&mut activity, shown), 0.0);
    }
}

#[test]
fn progress_retains_percentages_and_stops_on_removal_expiry_or_exit() {
    let now = START;
    let mut activity = Activity::default();
    for (state, value, expected) in [
        (1, Some(42), Some(42)),
        (2, Some(70), Some(70)),
        (2, None, None),
        (3, None, None),
        (4, None, Some(100)),
        (4, Some(30), Some(30)),
        (1, Some(255), Some(100)),
    ] {
        activity.progress_reported(state, value, now);
        assert_eq!(activity.progress().unwrap().percentage(), expected);
        assert_eq!(activity.progress().unwrap().state, state);
        assert_eq!(activity.deadline(), Some(now.after(PROGRESS_TIMEOUT)));
    }
    activity.progress_reported(255, None, now);
    assert_eq!(activity.progress().unwrap().percentage(), Some(100));
    activity.command_started();
    activity.command_finished();
    assert!(activity.progress().is_some());
    activity.progress_reported(0, None, now);
    assert_eq!(activity.progress(), None);
    assert_eq!(activity.deadline(), None);
    activity.progress_reported(3, None, now);
    activity.expire(now.after(PROGRESS_TIMEOUT));
    assert_eq!(activity.progress(), None);
    activity.progress_reported(1, Some(42), now);
    activity.clear();
    assert_eq!(activity.progress(), None);
}

#[test]
fn cursor_blink_restarts_visible_until_typing_stops() {
    let started = START;
    let interval = 600 * MILLISECOND;
    assert_eq!(
        cursor_blink_phase(started, started),
        (true, started.after(interval))
    );
    assert_eq!(
        cursor_blink_phase(started, started.after(interval)),
        (false, started.after(interval * 2)),
    );

    let mut last_input = started;
    for ms in [650, 1_000, 1_400, 1_950] {
        last_input = started.after(ms * MILLISECOND);
        let deadline = last_input.after(interval);
        assert_eq!(cursor_blink_phase(last_input, last_input), (true, deadline));
        // Even a draw just before the idle boundary keeps the original deadline.
        assert_eq!(
            cursor_blink_phase(last_input, Instant { nanos: deadline.nanos - 1 }),
            (true, deadline),
        );
    }
    let idle = last_input.after(interval);
    assert_eq!(
        cursor_blink_phase(last_input, idle),
        (false, idle.after(interval))
    );
    assert_eq!(
        cursor_blink_phase(last_input, idle.after(interval)),
        (true, idle.after(interval * 2)),
    );
}

#[test]
fn a_clock_that_runs_backwards_keeps_the_cursor_visible() {
    let earlier = Instant { nanos: START.nanos - SECOND };
    assert_eq!(
        cursor_blink_phase(START, earlier),
        (true, earlier.after(600 * MILLISECOND))
    );
    assert_eq!(earlier.since(START), 0);
    assert_eq!(START.since(earlier), SECOND);
}

#[test]
fn the_sooner_deadline_wins() {
    let late = START.after(1);
    assert_eq!(sooner(None, None), None);
    assert_eq!(sooner(Some(late), None), Some(late));
    assert_eq!(sooner(None, Some(late)), Some(late));
    assert_eq!(sooner(Some(late), Some(START)), Some(START));
    assert_eq!(sooner(Some(START), Some(late)), Some(START));
}

#[test]
fn focus_hint_expires_or_clears_on_input_without_rearming_on_hover() {
    let now = START;
    let mut hint = FocusHint::default();
    assert!(hint.focus(Some(1), now));
    assert!(hint.visible(1, now));
    let expiry = now.after(2 * SECOND);
    assert_eq!(hint.deadline(now), Some(expiry));
    assert!(!hint.focus(Some(1), now.after(SECOND)));
    assert_eq!(hint.deadline(now), Some(expiry));
    assert!(!hint.visible(1, expiry));
    assert_eq!(hint.deadline(expiry), None);
    assert!(!hint.focus(Some(1), expiry));
    assert!(!hint.visible(1, expiry));

    assert!(hint.focus(Some(2), expiry));
    assert!(!hint.visible(1, expiry));
    assert!(hint.visible(2, expiry));
    hint.dismiss();
    assert!(!hint.focus(Some(2), expiry));
    assert!(!hint.visible(2, expiry));
    assert_eq!(hint.deadline(expiry), None);

    assert!(hint.focus(None, expiry));
    assert!(hint.focus(Some(2), expiry));
    assert!(hint.visible(2, expiry));
    assert!(hint.focus(None, expiry));
    assert!(!hint.visible(2, expiry));
    assert_eq!(hint.deadline(expiry), None);
}

#[test]
fn work_count_distinguishes_commands_spinners_progress_and_waiting() {
    let now = START;
    let mut pane = Activity::default();
    assert!(!pane.command_started());
    assert!(pane.is_active());
    assert!(!pane.reported_active());
    for spinner in "⠋⠙⠹⠸⠼⠴⠦⠧⠇⠏".chars() {
        for title in [
            spinner.to_string(),
            format!("{spinner} Fix a bug | project"),
        ] {
            pane.title_changed(&title);
            assert!(pane.reported_active());
        }
        for title in [format!("Fix a bug {spinner}"), format!("{spinner}filename")] {
            pane.title_changed(&title);
            assert!(!pane.reported_active());
        }
    }
    for (state, expected) in [(1, true), (2, false), (3, true), (4, false), (0, false)] {
        pane.progress_reported(state, None, now);
        assert_eq!(pane.reported_active(), expected);
    }
    pane.progress_reported(1, None, now);
    for title in ["[ ! ] Action Required", "[ . ] Action Required | project"] {
        pane.title_changed(title);
        assert!(!pane.reported_active());
    }
    pane.title_changed("[ ! ] Action Requiredness");
    assert!(pane.reported_active());
    pane.command_finished();
    assert!(!pane.reported_active());
    assert!(
        pane.is_active(),
        "command boundaries do not discard native progress"
    );
    pane.title_changed("normal title");
    assert!(
        !pane.reported_active(),
        "a stale report stays cleared until its next update"
    );
}

#[test]
fn a_spinner_needs_white_space_behind_it() {
    assert_eq!(TitleActivity::parse("⠋\u{a0}busy"), TitleActivity::Working);
    assert_eq!(TitleActivity::parse("⠋\tbusy"), TitleActivity::Working);
    assert_eq!(TitleActivity::parse("⠋busy"), TitleActivity::Idle);
    assert_eq!(TitleActivity::parse(""), TitleActivity::Idle);
    assert_eq!(TitleActivity::classify("⠏x", true), TitleActivity::Working);
    assert_eq!(TitleActivity::classify("⠏x", false), TitleActivity::Idle);
    assert_eq!(
        TitleActivity::parse("[ ! ] Action Required |"),
        TitleActivity::Idle
    );
}

#[test]
fn completion_is_per_pane_and_progress_expires_once_after_its_last_update() {
    let now = START;
    let mut first = Activity::default();
    let mut second = Activity::default();
    assert!(!first.command_finished());
    first.command_started();
    second.command_started();
    assert!(
        first.command_finished(),
        "another active pane must not suppress completion"
    );
    assert!(second.is_active());
    assert!(!first.command_finished());
    first.progress_reported(1, None, now);
    let updated = now.after(10 * SECOND);
    first.progress_reported(4, None, updated);
    assert!(!first.expire(now.after(PROGRESS_TIMEOUT)));
    assert_eq!(first.deadline(), Some(updated.after(PROGRESS_TIMEOUT)));
    assert!(first.expire(updated.after(PROGRESS_TIMEOUT)));
    assert!(!first.is_active());
    assert!(!first.expire(updated.after(PROGRESS_TIMEOUT)));
    assert_eq!(first.deadline(), None);
    second.progress_reported(3, None, now);
    assert!(!second.command_finished());
    assert!(second.progress_reported(0, None, now));
    assert!(!second.clear());
}

#[test]
fn shared_directory_labels_follow_names_missing_values_and_focus() {
    assert_eq!(directory_name("/one/project/"), Some("project".into()));
    assert_eq!(directory_name("/"), Some("/".into()));
    assert_eq!(directory_name(""), None);
    let common = |paths: &[Option<&str>]| common_directory_name(paths);
    assert_eq!(
        common(&[Some("/one/project"), Some("/two/project")]),
        Some("project".into())
    );
    assert_eq!(common(&[Some("/one"), Some("/two")]), None);
    assert_eq!(common(&[Some("/project"), None]), None);
    assert_eq!(common(&[Some("/project"), Some("")]), None);
    assert_eq!(common(&[Some("/project")]), Some("project".into()));
    assert_eq!(common(&[]), None);
    let name = || Some("project".into());
    assert!(DirectoryLabel::new(name(), true, true, false).is_none());
    for (window_focused, show_focused) in [(false, false), (true, true)] {
        let label = DirectoryLabel::new(name(), true, window_focused, show_focused).unwrap();
        assert!(label.focused);
        assert!(label.large(true));
        assert!(label.large(false));
        assert!(!label.shows_activity(true));
        assert!(!label.shows_flash(true, false));
        assert!(label.shows_flash(true, true));
    }
    let label = DirectoryLabel::new(name(), false, true, false).unwrap();
    assert!(label.large(true));
    assert!(label.shows_activity(true));
    assert!(!label.shows_activity(false));
    assert!(label.shows_flash(true, false));
}

#[test]
fn directory_names_agree_with_the_final_path_component() {
    for path in [
        "/usr/bin/", "tmp/foo.txt", "foo.txt/.", "foo.txt/.//", "foo.txt/..", "/", ".", "..", "./",
        "a/./b/.", "//x//", "...", "/a/.hidden", "é/ü",
    ] {
        let native = std::path::Path::new(path);
        let expected = native.file_name().unwrap_or(native.as_os_str());
        assert_eq!(
            directory_name(path).as_deref(),
            expected.to_str(),
            "{path}"
        );
    }
    assert!(DirectoryLabel::new(Some(String::new()), false, false, false).is_none());
    assert!(DirectoryLabel::new(None, false, false, false).is_none());
}

#[test]
fn completion_pulses_settle_and_tab_accents_preserve_contrast() {
    fn opacity(flash: &CompletionFlash, now: Instant) -> f32 {
        let Some(elapsed) = flash.elapsed(now) else {
            return 0.0;
        };
        let elapsed = (elapsed as f64 / 1e9) as f32;
        if elapsed < 0.2 {
            let t = elapsed / 0.2;
            1.0 - (1.0 - t).powi(3)
        } else if elapsed < 1.2 {
            let t = elapsed - 0.2;
            1.0 - t * t * (3.0 - 2.0 * t)
        } else {
            0.0
        }
    }
    let now = START;
    let mut flash = CompletionFlash::default();
    assert_eq!(flash.next_repaint(now), None);
    flash.start(now);
    assert_eq!(opacity(&flash, now), 0.0);
    assert_eq!(opacity(&flash, now.after(200 * MILLISECOND)), 1.0);
    assert!((opacity(&flash, now.after(700 * MILLISECOND)) - 0.5).abs() < 0.001);
    flash.start_if_idle(now.after(100 * MILLISECOND));
    assert_eq!(opacity(&flash, now.after(FLASH_DURATION)), 0.0);
    assert_eq!(flash.next_repaint(now.after(FLASH_DURATION)), None);
    flash.start_if_idle(now.after(FLASH_DURATION));
    assert!(flash.next_repaint(now.after(FLASH_DURATION)).is_some());
    flash.clear();
    assert_eq!(flash.next_repaint(now.after(FLASH_DURATION)), None);
    assert_eq!(TabAccent::new(None, [10, 20, 30]).background, [10, 20, 30]);
    assert_eq!(
        TabAccent::new(Some([255, 200, 0]), [0; 3]).foreground,
        [0; 3]
    );
    assert_eq!(
        TabAccent::new(Some([20, 10, 90]), [255; 3]).foreground,
        [255; 3]
    );
}

#[test]
fn a_pulse_repaints_by_frames_and_ends_exactly() {
    let mut flash = CompletionFlash::default();
    flash.start(START);
    assert_eq!(flash.next_repaint(START), Some(START.after(16_666_667)));
    let end = START.after(FLASH_DURATION);
    let last = Instant { nanos: end.nanos - 1 };
    assert_eq!(flash.next_repaint(last), Some(end));
    assert_eq!(flash.elapsed(last), Some(FLASH_DURATION - 1));
    // 299 * 127 + 587 * 128 + 114 * 127 lies just over one half.
    assert_eq!(TabAccent::new(Some([127, 128, 127]), [0; 3]).foreground, [0; 3]);
    assert_eq!(TabAccent::new(Some([127; 3]), [0; 3]).foreground, [255; 3]);
}

#[test]
fn white_space_is_what_unicode_says() {
    let listed = |c: char| {
        matches!(
            c,
            '\t'..='\r'
                | ' '
                | '\u{85}'
                | '\u{a0}'
                | '\u{1680}'
                | '\u{2000}'..='\u{200a}'
                | '\u{2028}'
                | '\u{2029}'
                | '\u{202f}'
                | '\u{205f}'
                | '\u{3000}'
        )
    };
    for c in '\0'..=char::MAX {
        assert_eq!(c.is_whitespace(), listed(c), "{c:?}");
    }
    for c in ['\u{2003}', '\u{200b}'] {
        let title = format!("⠋{c}x");
        let working = TitleActivity::parse(&title) == TitleActivity::Working;
        assert_eq!(working, listed(c));
    }
}
