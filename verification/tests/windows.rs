use rustty_core::actions::{Action, Direction};
use rustty_core::application::{
    defers_pointer, toggle_quick, ActionStart, ClosePolicy, DeferredPointer, QuickStep, SearchStep,
};
use rustty_core::geometry::{Pos, Rect, Scalar};
use rustty_core::history::{History, HISTORY_LIMIT};
use rustty_core::host::{Confirmation, Host, Peek};
use rustty_core::keyboard::{BindingFlags, KeyBinding, KeyMatch, PeekStep};
use rustty_core::keys::{
    ElementState, HeldModifiers, Key, KeyEvent, KeyLocation, KeyTrigger, Modifiers, PhysicalKey,
};
use rustty_core::labels::{
    activity_stopped, badge_count, tab_label, wants_attention, window_title, ColorScheme,
};
use rustty_core::lifecycle::{
    focus_pane, paste_target_exists, reconcile, runs_initial_command, start_directory,
    start_title, theme_changed, visible_panes, windowless_action, NativeWindow, WindowlessStep,
};
use rustty_core::pane::SavedPane;
use rustty_core::panes::{
    hold_after_exit, DrainContext, NotifyOnCommandFinish, PaneEvent, PaneState,
};
use rustty_core::presentation::{CompletionFlash, Id, FLASH_DURATION};
use rustty_core::schedule::{
    earliest, frame_deadline, is_due, next_wake, repaint_is_current, repaints_after_drain,
    repaints_for, sync_pane, tab_of_pane, DrainChanges, FrameDeadlines, PaneExposure,
    PaneHostState, Pending,
};
use rustty_core::smoke::{
    Happening, NativeEvent, Observation, Replay, Smoke, SmokeAction, SmokeFailure, SmokeStep,
    Stage,
};
use rustty_core::time::{Instant, MILLISECOND, SECOND};
use rustty_core::workspace::{
    choose_tab, initial_visible_panes, needs_confirmation, window_contains_pane,
    window_visible_panes, ConfirmCloseSurface, NativeState, Tab, Window, Workspace,
};
use std::collections::HashMap;

const START: Instant = Instant { nanos: 3_600 * SECOND };
const NONE: Modifiers = Modifiers {
    shift: false,
    control: false,
    alt: false,
    super_key: false,
};

fn pos(x: f32, y: f32) -> Pos {
    Pos {
        x: Scalar { bits: x.to_bits() },
        y: Scalar { bits: y.to_bits() },
    }
}

fn tab(id: Id, panes: &[Id]) -> Tab<()> {
    Tab {
        id,
        panes: panes.to_vec(),
        visible: panes.to_vec(),
        peeked: panes.to_vec(),
        focused: panes[0],
        zoomed: false,
        title: None,
        layout: (),
    }
}

fn window(id: Id, tabs: Vec<Tab<()>>) -> Window<()> {
    Window {
        id,
        tabs,
        active_tab: 0,
        quick: false,
    }
}

fn pane() -> PaneState {
    PaneState::new("/tmp".into(), String::new(), None)
}

fn host(id: Id) -> Host {
    Host::new(id, false, START, pos(0.0, 0.0))
}

#[test]
fn visibility_follows_native_window_active_tab_zoom_and_peek() {
    let mut window = window(100, vec![tab(10, &[1, 2]), tab(20, &[4])]);
    let native = |visible, occluded, peek| {
        Some(NativeState {
            visible,
            occluded,
            peek,
        })
    };
    assert_eq!(window_visible_panes(&window, true, false, false), [1, 2]);
    assert_eq!(initial_visible_panes(&window, None), [1, 2]);
    window.active_tab = 1;
    assert_eq!(window_visible_panes(&window, true, false, false), [4]);
    window.active_tab = 0;
    window.tabs[0].visible = vec![1];
    assert_eq!(window_visible_panes(&window, true, false, false), [1]);
    assert_eq!(initial_visible_panes(&window, None), [1]);
    assert_eq!(window_visible_panes(&window, true, false, true), [1, 2]);
    assert!(window_visible_panes(&window, true, true, true).is_empty());
    assert!(initial_visible_panes(&window, native(true, true, false)).is_empty());
    window.quick = true;
    assert!(window_visible_panes(&window, false, false, true).is_empty());
    assert!(initial_visible_panes(&window, None).is_empty());
    assert_eq!(
        initial_visible_panes(&window, native(true, false, true)),
        [1, 2]
    );
}

#[test]
fn repaint_callbacks_only_survive_their_own_pass_and_its_follow_up() {
    let context = egui::Context::default();
    let viewport = egui::ViewportId::from_hash_of("terminal");
    let mut requests = Vec::new();
    for _ in 0..8 {
        requests.push(context.cumulative_pass_nr_for(viewport));
        let mut input = egui::RawInput {
            viewport_id: viewport,
            ..Default::default()
        };
        input.viewports.entry(viewport).or_default();
        let mut output = context.run_ui(input, |_| {});
        output.textures_delta.clear();
    }
    let current = context.cumulative_pass_nr_for(viewport);
    assert_eq!(
        requests
            .into_iter()
            .filter(|&pass| repaint_is_current(pass, current))
            .count(),
        1,
        "queued callbacks must not each render another unchanged frame"
    );
    assert!(repaint_is_current(current, current));
    assert!(!repaint_is_current(current + 1, current));
    assert!(!repaint_is_current(u64::MAX, 0));
}

#[test]
fn pending_paste_keeps_its_destination_when_tabs_change_and_rejects_closed_panes() {
    let pane = 1;
    let mut window = window(100, vec![tab(10, &[1]), tab(20, &[2])]);
    assert!(window_contains_pane(&window, pane));
    window.active_tab = 1;
    assert!(window_contains_pane(&window, pane));
    window.tabs.remove(0);
    assert!(!window_contains_pane(&window, pane));
    window.active_tab = 0;
    let workspace = Workspace {
        windows: vec![window],
    };
    assert!(paste_target_exists(&workspace, 100, 2, true));
    assert!(!paste_target_exists(&workspace, 100, 2, false));
    assert!(!paste_target_exists(&workspace, 100, 1, true));
    assert!(!paste_target_exists(&workspace, 101, 2, true));
}

#[test]
fn shell_exit_policy_holds_fast_failures_and_respects_wait_setting() {
    assert!(hold_after_exit(false, 250, 250 * MILLISECOND));
    assert!(!hold_after_exit(false, 250, SECOND));
    assert!(hold_after_exit(true, 250, 100 * SECOND));
    assert!(!hold_after_exit(false, 0, MILLISECOND));
}

#[test]
fn tabs_are_chosen_moved_opened_and_closed() {
    assert_eq!(choose_tab(&Action::NextTab, 2, 3), 0);
    assert_eq!(choose_tab(&Action::NextTab, 0, 3), 1);
    assert_eq!(choose_tab(&Action::PreviousTab, 0, 3), 2);
    assert_eq!(choose_tab(&Action::PreviousTab, 2, 3), 1);
    assert_eq!(choose_tab(&Action::LastTab, 0, 3), 2);
    assert_eq!(choose_tab(&Action::GotoTab(1), 2, 3), 0);
    assert_eq!(choose_tab(&Action::GotoTab(9), 0, 3), 2);
    assert_eq!(choose_tab(&Action::MoveTab(-5), 1, 3), 0);
    assert_eq!(choose_tab(&Action::MoveTab(i32::MIN), 1, 3), 0);
    assert_eq!(choose_tab(&Action::MoveTab(1), 1, 3), 2);
    assert_eq!(choose_tab(&Action::MoveTab(i32::MAX), 1, 3), 2);
    let mut window = window(1, vec![tab(10, &[1]), tab(20, &[2]), tab(30, &[3])]);
    let ids = |window: &Window<()>| -> Vec<Id> { window.tabs.iter().map(|tab| tab.id).collect() };
    assert_eq!(window.switch_tab(&Action::MoveTab(2)), 1);
    assert_eq!((ids(&window), window.active_tab), (vec![20, 30, 10], 2));
    assert_eq!(window.switch_tab(&Action::NextTab), 2);
    assert_eq!((ids(&window), window.active_tab), (vec![20, 30, 10], 0));
    window.add_tab(tab(40, &[4]));
    assert_eq!(window.active_tab, 3);
    let mut workspace = Workspace {
        windows: vec![window],
    };
    workspace.close(&Action::CloseSurface, 1, true);
    assert_eq!(workspace.windows[0].tabs.len(), 4);
    workspace.close(&Action::CloseSurface, 1, false);
    assert_eq!(ids(&workspace.windows[0]), [20, 30, 10]);
    assert_eq!(workspace.windows[0].active_tab, 2);
    workspace.windows[0].active_tab = 0;
    workspace.close(&Action::CloseTab, 1, true);
    assert_eq!(ids(&workspace.windows[0]), [30, 10]);
    assert_eq!(workspace.windows[0].active_tab, 0);
    workspace.close(&Action::CloseWindow, 9, false);
    assert_eq!(workspace.windows.len(), 1);
    workspace.add_window(2, tab(50, &[5]), true);
    assert_eq!(workspace.quick_window(), Some(2));
    workspace.close(&Action::CloseTab, 2, false);
    assert_eq!(workspace.windows.len(), 1);
    workspace.close(&Action::CloseWindow, 1, true);
    assert!(workspace.windows.is_empty());
    assert!(workspace.quits(true) && !workspace.quits(false));
    assert!(workspace.needs_window());
}

#[test]
fn windows_answer_for_their_tabs_and_panes() {
    let mut workspace = Workspace {
        windows: vec![
            window(1, vec![tab(10, &[1, 2]), tab(20, &[3])]),
            window(2, vec![tab(30, &[4])]),
        ],
    };
    assert_eq!((workspace.index(2), workspace.index(3)), (Some(1), None));
    assert_eq!(workspace.focused(1), Some(1));
    assert_eq!(workspace.tab(2).unwrap().id, 30);
    assert!(workspace.tab(3).is_none());
    assert_eq!(workspace.panes(), [1, 2, 3, 4]);
    for (action, expected) in [
        (Action::CloseSurface, vec![1]),
        (Action::CloseTab, vec![1, 2]),
        (Action::CloseWindow, vec![1, 2, 3]),
        (Action::CloseAllWindows, vec![1, 2, 3, 4]),
        (Action::Quit, vec![1, 2, 3, 4]),
    ] {
        assert_eq!(workspace.close_candidates(&action, 1), expected);
    }
    assert_eq!(workspace.find_pane(3), Some((0, 1)));
    assert_eq!(workspace.find_pane(9), None);
    assert_eq!(workspace.show_pane(3), Some(1));
    assert_eq!(workspace.windows[0].active_tab, 1);
    assert_eq!(workspace.show_pane(9), None);
    assert!(!workspace.needs_window());
    assert_eq!(tab_of_pane(&workspace.windows[0], 2), Some(0));
    assert!(repaints_for(&workspace.windows[0], 3, false));
    assert!(!repaints_for(&workspace.windows[0], 1, false));
    assert!(repaints_for(&workspace.windows[0], 1, true));
    let native = |id, occluded| NativeWindow {
        id,
        state: NativeState {
            visible: true,
            occluded,
            peek: false,
        },
    };
    let visible = visible_panes(
        &workspace,
        &vec![native(1, false), native(2, true), native(7, false)],
    );
    assert_eq!(visible.into_iter().collect::<Vec<_>>(), [3]);
}

#[test]
fn closing_what_runs_is_confirmed() {
    let workspace = Workspace {
        windows: vec![window(1, vec![tab(10, &[1, 2])])],
    };
    let mut panes = HashMap::from([(1, pane()), (2, pane())]);
    panes.get_mut(&2).unwrap().running = Some(START);
    let asks = |panes: &HashMap<Id, PaneState>, action, approved, policy, reports| {
        needs_confirmation(&workspace, 1, &action, approved, panes, policy, reports)
    };
    let [never, usual, always] = [
        ConfirmCloseSurface::False,
        ConfirmCloseSurface::True,
        ConfirmCloseSurface::Always,
    ];
    assert!(asks(&panes, Action::CloseTab, false, usual, true));
    assert!(!asks(&panes, Action::CloseTab, true, usual, true));
    assert!(!asks(&panes, Action::CloseTab, false, never, false));
    assert!(!asks(&panes, Action::CloseSurface, false, usual, true));
    assert!(asks(&panes, Action::CloseSurface, false, usual, false));
    assert!(asks(&panes, Action::CloseSurface, false, always, true));
    assert!(asks(&panes, Action::Quit, false, usual, true));
    assert!(!asks(&panes, Action::NewTab, false, always, true));
    panes.get_mut(&1).unwrap().exited = true;
    assert!(!asks(&panes, Action::CloseSurface, false, always, false));

    let mut host = host(1);
    let policy = ClosePolicy {
        confirm: usual,
        shell_reports: true,
    };
    assert!(matches!(
        host.begin_action(Action::CloseTab, false, None, &workspace, &panes, policy),
        ActionStart::Ask
    ));
    assert!(matches!(
        host.confirm,
        Some(Confirmation::Close(Action::CloseTab))
    ));
    // The question takes the keyboard, and with it the editing actions.
    assert!(matches!(
        host.begin_action(Action::SelectAll, false, None, &workspace, &panes, policy),
        ActionStart::Edit(events) if events.len() == 2
    ));
    host.confirm = None;
    assert!(matches!(
        host.begin_action(Action::SelectAll, false, None, &workspace, &panes, policy),
        ActionStart::Perform(Action::SelectAll)
    ));
    assert!(matches!(
        host.begin_action(Action::CloseTab, true, None, &workspace, &panes, policy),
        ActionStart::Perform(Action::CloseTab)
    ));
    assert!(Action::Quit.closes() && !Action::Quit.remembers());
    assert!(Action::NewSplit(Direction::Down).remembers() && !Action::NextTab.remembers());
}

#[test]
fn find_opens_navigates_and_closes_where_it_can() {
    let mut host = host(1);
    assert_eq!(
        host.search_action(5, &Action::StartSearch, false, false),
        SearchStep::Refuse
    );
    assert_eq!(
        host.search_action(5, &Action::SearchSelection, true, false),
        SearchStep::Open { selection: true }
    );
    assert_eq!((host.search_focus, host.focus_text_input), (Some(5), true));
    assert_eq!(
        host.search_action(5, &Action::NavigateSearch { next: true }, true, false),
        SearchStep::Refuse
    );
    assert_eq!(
        host.search_action(5, &Action::NavigateSearch { next: true }, true, true),
        SearchStep::Navigate { next: true }
    );
    let rect = Rect {
        min: pos(0.0, 0.0),
        max: pos(1.0, 1.0),
    };
    host.search_rects = vec![(4, rect), (5, rect), (6, rect)];
    assert_eq!(
        host.search_action(5, &Action::EndSearch, true, true),
        SearchStep::Close
    );
    let left: Vec<Id> = host.search_rects.iter().map(|(id, _)| *id).collect();
    assert_eq!((left, host.search_focus), (vec![4, 6], None));
    assert_eq!(
        host.search_action(5, &Action::EndSearch, true, false),
        SearchStep::Refuse
    );
    assert_eq!(
        toggle_quick(&host, true, Some(9)),
        QuickStep::Toggle { visible: false }
    );
    assert_eq!(toggle_quick(&host, false, Some(9)), QuickStep::Other(9));
    assert_eq!(toggle_quick(&host, false, None), QuickStep::Create);
    assert_eq!(defers_pointer(true, true), DeferredPointer::Replace);
    assert_eq!(defers_pointer(false, true), DeferredPointer::Forget);
    assert_eq!(defers_pointer(false, false), DeferredPointer::Keep);
}

#[test]
fn layouts_are_undone_redone_and_forgotten() {
    let mut history: History<&str> = History::new();
    history.remember("ignored", 0, START);
    assert_eq!(history.take(false, START), None);
    history.remember("first", 5 * SECOND, START);
    history.remember("second", 5 * SECOND, START.after(SECOND));
    assert_eq!(history.take(false, START.after(SECOND)), Some("second"));
    history.put_back(false, "third", 5 * SECOND, START.after(SECOND));
    assert_eq!(history.take(true, START.after(2 * SECOND)), Some("third"));
    history.put_back(true, "second", 5 * SECOND, START.after(2 * SECOND));
    // The first one has expired by now.
    history.expire(START.after(5 * SECOND));
    assert_eq!(history.undo.len(), 1);
    assert_eq!(history.take(false, START.after(6 * SECOND)), Some("second"));
    assert_eq!(history.take(false, START.after(6 * SECOND)), None);
    for _ in 0..HISTORY_LIMIT + 5 {
        history.remember("layout", SECOND, START);
    }
    assert_eq!(history.undo.len(), HISTORY_LIMIT);
    history.take(false, START);
    history.put_back(false, "undone", SECOND, START);
    history.remember("other", SECOND, START);
    assert!(history.redo.is_empty());
}

#[test]
fn sessions_follow_the_layout_and_its_history() {
    let workspace = Workspace {
        windows: vec![window(1, vec![tab(10, &[1, 2])])],
    };
    let mut history = History::new();
    history.remember(
        Workspace {
            windows: vec![window(1, vec![tab(10, &[1, 3])])],
        },
        SECOND,
        START,
    );
    let plan = reconcile(&workspace, &history, &vec![1, 3, 4], &vec![5]);
    assert_eq!(plan.close, [4]);
    assert_eq!(plan.forget, [5]);
    assert_eq!(plan.spawn, [2]);
    let plan = reconcile(&workspace, &history, &vec![1], &vec![2]);
    assert!(plan.close.is_empty() && plan.forget.is_empty() && plan.spawn.is_empty());
    assert_eq!(
        windowless_action(&Action::Redo),
        WindowlessStep::History { redo: true }
    );
    assert_eq!(
        windowless_action(&Action::ToggleQuickTerminal),
        WindowlessStep::Open { quick: true }
    );
    assert_eq!(
        windowless_action(&Action::NewTab),
        WindowlessStep::Open { quick: false }
    );
    assert_eq!(windowless_action(&Action::Quit), WindowlessStep::Quit);
    assert_eq!(windowless_action(&Action::NextTab), WindowlessStep::Nothing);
    let some = |text: &str| Some(text.to_string());
    assert_eq!(start_directory(some("/a"), some("/b"), some("/c")), "/a");
    assert_eq!(start_directory(None, some("/b"), some("/c")), "/b");
    assert_eq!(start_directory(None, None, some("/c")), "/c");
    assert_eq!(start_directory(None, None, None), "/");
    let saved = SavedPane {
        working_directory: "/".into(),
        title: some("vim"),
        title_override: some("mine"),
    };
    assert_eq!(start_title(Some(&saved)), ("mine".into(), some("mine")));
    let saved = SavedPane {
        title_override: None,
        ..saved
    };
    assert_eq!(start_title(Some(&saved)), ("vim".into(), None));
    assert_eq!(start_title(None), (String::new(), None));
    let mut initial = None;
    assert!(runs_initial_command(&mut initial, 4));
    assert!(!runs_initial_command(&mut initial, 5));
    assert!(runs_initial_command(&mut initial, 4));
    assert_eq!(focus_pane(Some(1), 2).reset, Some(1));
    assert_eq!(focus_pane(Some(2), 2).reset, None);
    assert_eq!(focus_pane(None, 2).seen, 2);
    let mut dark = false;
    assert!(!theme_changed(&mut dark, None) && !theme_changed(&mut dark, Some(false)));
    assert!(theme_changed(&mut dark, Some(true)) && dark);
}

fn context() -> DrainContext {
    DrainContext {
        focused: false,
        live: true,
        progress_style: true,
        notify_on_command_finish: NotifyOnCommandFinish::Unfocused,
        notify_after: 5 * SECOND,
        notify_system: true,
        wait_after_command: false,
        abnormal_runtime: 250,
    }
}

#[test]
fn events_of_a_session_change_its_pane_in_order() {
    let mut pane = pane();
    let drained = pane.drain(
        &vec![
            PaneEvent::Title(b"vim \xff".to_vec()),
            PaneEvent::CommandStart,
        ],
        &context(),
        START,
    );
    assert!(drained.content_changed && drained.title_changed && !drained.stopped);
    assert_eq!(pane.title, "vim \u{fffd}");
    assert_eq!(pane.running, Some(START));
    let drained = pane.drain(&vec![PaneEvent::Title(b"vim \xff".to_vec())], &context(), START);
    assert!(!drained.content_changed && !drained.title_changed);
    let later = START.after(6 * SECOND);
    let drained = pane.drain(
        &vec![
            PaneEvent::CommandEnd { exit_code: Some(-1) },
            PaneEvent::Clipboard(7),
            PaneEvent::Error("oops".into()),
            PaneEvent::Notification {
                title: "über".as_bytes().to_vec(),
                body: b"done".to_vec(),
            },
        ],
        &context(),
        later,
    );
    assert!(drained.stopped && pane.unseen && pane.running.is_none());
    assert_eq!(drained.notices[0].title, "Command finished");
    assert_eq!(drained.notices[0].body, "/tmp — exited -1");
    assert_eq!(drained.notices[1].title, "über");
    assert_eq!((drained.clipboard, drained.errors), (vec![7], vec!["oops".to_string()]));

    // A short command, or one in the focused pane, is not announced.
    for (focused, end) in [(false, START.after(SECOND)), (true, later)] {
        let mut quiet = PaneState::new("/".into(), String::new(), None);
        let context = DrainContext {
            focused,
            ..context()
        };
        quiet.drain(&vec![PaneEvent::CommandStart], &context, START);
        let drained = quiet.drain(
            &vec![PaneEvent::CommandEnd { exit_code: None }],
            &context,
            end,
        );
        assert!(drained.notices.is_empty() && !quiet.unseen);
        quiet.drain(&vec![PaneEvent::Bell], &context, end);
        assert_eq!(quiet.unseen, !focused);
    }
}

#[test]
fn exited_panes_say_so_and_close_or_wait() {
    let mut failed = pane();
    let exit = |runtime| {
        vec![PaneEvent::Exited {
            code: 1,
            signal: Some("SIGHUP".into()),
            runtime,
        }]
    };
    failed.drain(
        &vec![PaneEvent::Progress {
            state: 1,
            value: None,
        }],
        &context(),
        START,
    );
    let drained = failed.drain(&exit(MILLISECOND), &context(), START);
    assert!(!drained.close && drained.stopped);
    assert_eq!(failed.title, "Exited 1 (SIGHUP)");
    assert_eq!(
        failed.exit_message.as_deref(),
        Some("Exited 1 (SIGHUP) — press any key to close")
    );
    assert!(failed.exited && !failed.activity.is_active());
    assert!(pane().drain(&exit(SECOND), &context(), START).close);
    let hidden = DrainContext {
        live: false,
        ..context()
    };
    assert!(!pane().drain(&exit(SECOND), &hidden, START).close);
    // Without the bar, reports are taken as removed.
    let plain = DrainContext {
        progress_style: false,
        ..context()
    };
    let mut silent = pane();
    silent.drain(
        &vec![
            PaneEvent::Progress {
                state: 1,
                value: Some(5),
            },
            PaneEvent::Other,
        ],
        &plain,
        START,
    );
    assert_eq!(silent.activity.progress(), None);
    let mut named = PaneState::new("/".into(), "mine".into(), Some("mine".into()));
    let drained = named.drain(&vec![PaneEvent::Title(b"other".to_vec())], &context(), START);
    assert!(!drained.title_changed);
    assert_eq!(named.title, "mine");
    assert!(named.directory_reported("file:///home/me"));
    assert!(!named.directory_reported("/home/me") && !named.directory_reported("nowhere"));
    assert_eq!(named.cwd, "/home/me");
}

#[test]
fn tabs_and_windows_are_labelled() {
    let mut panes = HashMap::from([(1, pane()), (2, pane())]);
    let mut tab = tab(10, &[1, 2]);
    assert_eq!(tab_label(&tab, &panes), ("Terminal".into(), false));
    panes.get_mut(&1).unwrap().title = "a title of more than twenty-six characters".into();
    assert_eq!(
        tab_label(&tab, &panes).0,
        "a title of more than twent"
    );
    tab.title = Some("mine".into());
    panes.get_mut(&2).unwrap().unseen = true;
    for id in [1, 2] {
        let activity = &mut panes.get_mut(&id).unwrap().activity;
        activity.progress_reported(1, None, START);
    }
    tab.zoomed = true;
    assert_eq!(tab_label(&tab, &panes), ("mine ● ▶ 2 ◩".into(), true));
    assert!(wants_attention(&vec![2], &panes) && !wants_attention(&vec![1, 9], &panes));
    let workspace = Workspace {
        windows: vec![window(1, vec![tab])],
    };
    assert_eq!(badge_count(&workspace, &panes), 1);
    assert_eq!(window_title(None), "Rustty — Rustty");
    assert_eq!(window_title(panes.get(&2)), "/tmp — Rustty");
    panes.get_mut(&2).unwrap().title = "vim".into();
    assert_eq!(window_title(panes.get(&2)), "vim — Rustty");
}

#[test]
fn stopped_panes_pulse_in_tabs_panes_and_quadrants() {
    let tab = tab(10, &[1, 2]);
    let mut flashes = HashMap::new();
    activity_stopped(&mut flashes, &tab, false, 2, Some(30), START);
    let started = |flashes: &HashMap<Id, CompletionFlash>, id| {
        flashes.get(&id).and_then(|flash| flash.started)
    };
    for id in [10, 2, 30] {
        assert_eq!(started(&flashes, id), Some(START));
    }
    // Tabs restart their pulse, labels let it finish.
    let later = START.after(100 * MILLISECOND);
    activity_stopped(&mut flashes, &tab, false, 2, Some(30), later);
    assert_eq!(started(&flashes, 10), Some(later));
    assert_eq!(started(&flashes, 2), Some(START));
    let after = START.after(FLASH_DURATION);
    activity_stopped(&mut flashes, &tab, true, 2, None, after);
    assert_eq!(started(&flashes, 2), Some(after));
    assert_eq!(started(&flashes, 10), Some(later));
    let mut focused = HashMap::new();
    activity_stopped(&mut focused, &tab, true, 1, None, START);
    assert!(focused.is_empty());
}

#[test]
fn a_stop_pulses_only_in_the_tabs_of_its_pane() {
    let mut flashes = HashMap::new();
    activity_stopped(&mut flashes, &tab(7, &[3]), false, 9, Some(30), START);
    assert!(flashes.is_empty());
    // Two tabs; the pane has the focus of its own, which is in front.
    let mut workspace = Workspace {
        windows: vec![
            window(1, vec![tab(10, &[1, 2]), tab(20, &[3])]),
            window(2, vec![tab(30, &[4]), tab(40, &[5])]),
        ],
    };
    workspace.activity_stopped(&mut flashes, 1, &vec![], START);
    assert!(flashes.is_empty());
    // Behind others, its tab pulses, and so does the quadrant that is labelled there.
    workspace.windows[0].active_tab = 1;
    workspace.activity_stopped(&mut flashes, 1, &vec![(20, 60), (10, 50)], START);
    let mut pulsing: Vec<Id> = flashes.keys().copied().collect();
    pulsing.sort();
    assert_eq!(pulsing, [10, 50]);
    // A pane beside the focused one pulses too, but no other tab.
    let mut flashes = HashMap::new();
    workspace.activity_stopped(&mut flashes, 2, &vec![], START);
    let mut pulsing: Vec<Id> = flashes.keys().copied().collect();
    pulsing.sort();
    assert_eq!(pulsing, [2, 10]);
    let mut flashes = HashMap::new();
    workspace.activity_stopped(&mut flashes, 99, &vec![(10, 50)], START);
    assert!(flashes.is_empty());
}

#[test]
fn the_application_sleeps_until_its_earliest_deadline() {
    let pending = Pending {
        save_at: Some(START.after(40)),
        close_at: None,
        panes: vec![None, Some(START.after(30)), Some(START.after(50))],
        closing: false,
        history: vec![Some(START.after(35))],
        checking: false,
    };
    assert_eq!(next_wake(&pending, START), Some(START.after(30)));
    let busy = Pending {
        panes: vec![],
        history: vec![],
        save_at: None,
        closing: true,
        checking: true,
        ..pending
    };
    assert_eq!(
        next_wake(&busy, START),
        Some(START.after(20 * MILLISECOND))
    );
    let checking = Pending {
        closing: false,
        ..busy
    };
    assert_eq!(
        next_wake(&checking, START),
        Some(START.after(50 * MILLISECOND))
    );
    assert_eq!(earliest(&vec![None, None]), None);
    assert!(is_due(Some(START), START) && !is_due(Some(START.after(1)), START));
    assert!(!is_due(None, START));
    assert_eq!(
        frame_deadline(FrameDeadlines {
            animation: Some(START.after(3)),
            focus_hint: None,
            navigation_warning: Some(START.after(2)),
            blink: Some(START.after(4)),
        }),
        Some(START.after(2))
    );
}

#[test]
fn only_visible_changes_draw_a_window() {
    let window = window(1, vec![tab(10, &[1]), tab(20, &[2])]);
    let nothing = DrainChanges {
        indicators: false,
        errors: false,
        title: false,
        content: false,
    };
    let shown = PaneExposure {
        title_shown: false,
        prepared: true,
    };
    let content = DrainChanges {
        content: true,
        ..nothing
    };
    assert!(!repaints_after_drain(&window, 0, nothing, shown));
    assert!(repaints_after_drain(&window, 0, content, shown));
    assert!(!repaints_after_drain(&window, 1, content, shown));
    let stale = PaneExposure {
        prepared: false,
        ..shown
    };
    assert!(repaints_after_drain(&window, 0, nothing, stale));
    let title = DrainChanges {
        title: true,
        ..nothing
    };
    assert!(!repaints_after_drain(&window, 0, title, shown));
    let read_out = PaneExposure {
        title_shown: true,
        ..shown
    };
    assert!(repaints_after_drain(&window, 1, title, read_out));
    let state = |visible, focused| PaneHostState {
        visible,
        focused,
        scheme: ColorScheme::Dark,
    };
    let step = sync_pane(state(true, true), state(false, false), false);
    assert!(step.reset_gesture && step.reset_animation && step.notify);
    let step = sync_pane(state(true, false), state(true, false), false);
    assert!(!step.reset_gesture && !step.reset_animation && !step.notify);
    assert!(!sync_pane(state(true, true), state(false, false), true).notify);
}

fn trigger(key: &str, modifiers: Modifiers) -> KeyTrigger {
    KeyTrigger {
        modifiers,
        physical: false,
        key: key.into(),
    }
}

fn binding(trigger: Vec<KeyTrigger>, actions: Vec<Action>) -> KeyBinding {
    KeyBinding {
        trigger,
        actions,
        in_table: false,
        flags: BindingFlags {
            all: false,
            consumed: true,
            performable: false,
        },
    }
}

fn pressed(key: &str) -> KeyEvent {
    KeyEvent {
        physical_key: PhysicalKey::Unidentified,
        logical_key: Key::Character(key.into()),
        unmodified: Key::Character(key.into()),
        text: None,
        location: KeyLocation::Standard,
        state: ElementState::Pressed,
        repeat: false,
    }
}

#[test]
fn bindings_of_several_keys_are_followed_to_their_end() {
    let mut host = host(1);
    assert!(host.seeks_binding(ElementState::Pressed));
    assert!(!host.seeks_binding(ElementState::Released));
    let mut bindings = vec![
        binding(vec![trigger("a", NONE)], vec![Action::NewTab]),
        binding(
            vec![trigger("b", NONE), trigger("c", NONE)],
            vec![Action::SelectAll],
        ),
        binding(
            vec![trigger("b", NONE), trigger("d", NONE)],
            vec![Action::Quit],
        ),
        binding(vec![trigger("a", NONE)], vec![Action::NewWindow]),
    ];
    // Of two bindings the later one counts.
    assert_eq!(
        host.match_binding(&bindings, &pressed("a")),
        KeyMatch::Complete(3)
    );
    assert_eq!(
        host.match_binding(&bindings, &pressed("b")),
        KeyMatch::Pending
    );
    assert_eq!((host.sequence.clone(), host.sequence_len), (vec![1, 2], 1));
    assert_eq!(
        host.match_binding(&bindings, &pressed("d")),
        KeyMatch::Complete(2)
    );
    assert_eq!(host.sequence_len, 0);
    host.match_binding(&bindings, &pressed("b"));
    assert_eq!(
        host.match_binding(&bindings, &pressed("a")),
        KeyMatch::Unbound
    );
    assert!(host.sequence.is_empty());
    // Find keeps its editing shortcuts, and tables their bindings.
    host.search_focus = Some(5);
    host.match_binding(&bindings, &pressed("b"));
    assert_eq!(host.sequence, [2]);
    host.search_focus = None;
    host.sequence = vec![];
    host.sequence_len = 0;
    bindings[3].in_table = true;
    assert_eq!(
        host.match_binding(&bindings, &pressed("a")),
        KeyMatch::Complete(0)
    );
    host.modifiers.state.shift = true;
    assert_eq!(
        host.match_binding(&bindings, &pressed("a")),
        KeyMatch::Unbound
    );
}

#[test]
fn keys_go_to_the_interface_the_bindings_or_the_terminal() {
    let mut host = host(1);
    let [down, up] = [ElementState::Pressed, ElementState::Released];
    assert_eq!(host.intercept_key(1, down, false), None);
    host.palette = true;
    assert_eq!(host.intercept_key(1, down, false), Some(false));
    host.palette = false;
    assert_eq!(host.intercept_key(1, down, true), Some(true));
    assert_eq!(host.intercept_key(1, up, false), Some(true));
    assert_eq!(host.intercept_key(1, up, false), None);
    // Find lets keys through to the bindings, and takes the others behind them.
    host.search_focus = Some(5);
    assert_eq!(host.intercept_key(2, down, false), None);
    assert_eq!(host.consume_key(2, down), Some(false));
    assert_eq!(host.intercept_key(2, down, true), None);
    host.search_focus = None;
    assert_eq!(host.consume_key(3, down), None);
    let flags = BindingFlags {
        all: false,
        consumed: true,
        performable: true,
    };
    assert!(!host.binding_performed(4, flags, false, true));
    assert!(host.binding_performed(4, flags, true, true));
    assert!(host.consumed_keys.contains(&4));
    assert!(host.binding_performed(5, flags, true, false));
    assert!(!host.consumed_keys.contains(&5));
    assert!(!host.closes_exited(6, up, true) && !host.closes_exited(6, down, false));
    assert!(host.closes_exited(6, down, true));
    assert!(host.consumed_keys.contains(&6));
}

#[test]
fn peeks_begin_and_end_with_their_chord() {
    let mut host = host(1);
    let chord = Modifiers {
        control: true,
        super_key: true,
        ..NONE
    };
    let held = |state| HeldModifiers {
        state,
        left: NONE,
        right: NONE,
    };
    let bindings = vec![
        binding(
            vec![trigger("arrow_left", chord)],
            vec![Action::GotoSplit(Direction::QuadrantLeft)],
        ),
        binding(
            vec![trigger("arrow_left", Modifiers { alt: true, ..NONE })],
            vec![Action::GotoSplit(Direction::Left)],
        ),
    ];
    assert_eq!(
        host.modifiers_changed(held(chord), &bindings, false),
        PeekStep::Nothing
    );
    assert_eq!(
        host.modifiers_changed(held(chord), &bindings, true),
        PeekStep::Begin
    );
    assert_eq!(
        host.modifiers_changed(held(Modifiers { alt: true, ..NONE }), &bindings, true),
        PeekStep::Nothing
    );
    let peek = Peek {
        chord,
        target: 7,
        navigation_used: false,
    };
    host.peek = Some(peek);
    let more = Modifiers {
        shift: true,
        ..chord
    };
    assert_eq!(
        host.modifiers_changed(held(more), &bindings, true),
        PeekStep::Nothing
    );
    assert_eq!(
        host.modifiers_changed(held(NONE), &bindings, true),
        PeekStep::Finish(peek)
    );
    assert_eq!((host.peek, host.modifiers.state), (None, NONE));
}

#[test]
fn hover_measurement_restarts_for_motion_and_leaving_but_not_duplicate_events() {
    let mut smoke = Smoke::new(false, true, START);
    smoke.stage = Stage::Idle;
    let position = Some(pos(100.0, 100.0));
    smoke.pointer(position, 5, START);
    assert_eq!(smoke.idle_frames, 5);
    let next = smoke.next;
    smoke.pointer(position, 10, START.after(SECOND));
    assert_eq!((smoke.idle_frames, smoke.next), (5, next));
    smoke.pointer(None, 12, START);
    assert_eq!(smoke.idle_frames, 12);
    smoke.pointer(position, 15, START);
    assert_eq!(smoke.idle_frames, 15);
}

fn seen() -> Observation {
    Observation {
        now: START,
        pane: 1,
        pane_started: START,
        frames: 20,
        prepares: 3,
        greeted: true,
        all_greeted: true,
        wide_cell: true,
        echoed: true,
        all_in_place: true,
        all_progressed: true,
        pictured: true,
        pointer_over_pane: true,
        errors: false,
        closed_in_tab: false,
        closed_lives: true,
        closed_greeted: true,
        titles_arrived: true,
        prepared: true,
    }
}

#[test]
fn the_native_check_runs_its_course() {
    let mut smoke = Smoke::new(false, true, START);
    let act = |action| SmokeStep::Act(action);
    let wait = Observation {
        greeted: false,
        ..seen()
    };
    assert_eq!(smoke.step(wait), SmokeStep::Wait);
    assert_eq!(smoke.step(seen()), act(SmokeAction::Type));
    assert_eq!(smoke.original, Some(1));
    assert_eq!(smoke.step(seen()), act(SmokeAction::Arrange));
    let slow = Observation {
        all_progressed: false,
        ..seen()
    };
    assert_eq!(smoke.step(slow), SmokeStep::Wait);
    assert_eq!(smoke.step(seen()), act(SmokeAction::Close));
    assert_eq!(smoke.closed, Some((1, START)));
    assert_eq!(smoke.step(seen()), act(SmokeAction::Undo));
    let restored = Observation {
        closed_in_tab: true,
        ..seen()
    };
    assert_eq!(smoke.step(restored), SmokeStep::Wait);
    assert_eq!(smoke.step(seen()), act(SmokeAction::Save));
    let unpictured = Observation {
        pictured: false,
        ..seen()
    };
    assert_eq!(smoke.step(unpictured), act(SmokeAction::Picture));
    assert_eq!(smoke.next, START.after(100 * MILLISECOND));
    assert_eq!(smoke.step(seen()), act(SmokeAction::Inspect));
    assert_eq!(smoke.idle_frames, 20);
    let at = |frames, prepares| Observation {
        frames,
        prepares,
        ..seen()
    };
    assert_eq!(smoke.step(at(30, 3)), act(SmokeAction::MaskTitles));
    assert_eq!(smoke.progress_frames, 10);
    assert_eq!(smoke.step(at(34, 3)), act(SmokeAction::ShowTitles));
    assert_eq!(smoke.step(at(44, 11)), act(SmokeAction::PrepareTitles));
    assert_eq!((smoke.header_frames, smoke.header_prepares), (10, 8));
    assert_eq!(smoke.step(at(44, 11)), SmokeStep::Wait);
    let unprepared = Observation {
        prepared: false,
        ..seen()
    };
    assert_eq!(smoke.step(unprepared), act(SmokeAction::Draw));
    assert_eq!(smoke.step(at(50, 12)), act(SmokeAction::SendTitles));
    smoke.record(Happening::Redraw);
    assert_eq!(smoke.events[Happening::Redraw.index()], 1);
    assert_eq!(smoke.step(at(50, 12)), SmokeStep::Wait);
    assert_eq!(smoke.step(at(50, 12)), act(SmokeAction::EndTitles));
    assert_eq!(smoke.events[Happening::Redraw.index()], 0);
    assert_eq!(smoke.stage, Stage::Idle);
    let away = Observation {
        pointer_over_pane: false,
        ..at(52, 12)
    };
    assert_eq!(smoke.step(away), SmokeStep::Wait);
    assert_eq!(smoke.idle_frames, 52);
    assert_eq!(smoke.step(at(56, 12)), SmokeStep::Passed);
    assert_eq!(smoke.is_due(START), Ok(false));
    assert_eq!(smoke.is_due(START.after(44 * SECOND)), Ok(true));
    assert_eq!(smoke.is_due(START.after(46 * SECOND)), Err(()));
}

#[test]
fn the_native_check_names_what_it_found_wrong() {
    let fail = |stage, seen: Observation, expected: SmokeFailure| {
        let mut smoke = Smoke::new(false, false, START);
        smoke.stage = stage;
        smoke.closed = Some((1, START));
        assert_eq!(smoke.step(seen), SmokeStep::Fail(expected));
        assert!(!expected.message().is_empty());
    };
    let base = seen();
    fail(
        Stage::Greeting,
        Observation {
            wide_cell: false,
            ..base
        },
        SmokeFailure::WideCell,
    );
    fail(
        Stage::Shells,
        Observation {
            all_in_place: false,
            ..base
        },
        SmokeFailure::Directory,
    );
    fail(
        Stage::Closed,
        Observation {
            closed_lives: false,
            ..base
        },
        SmokeFailure::NotRetained,
    );
    fail(Stage::Restored, base, SmokeFailure::NotRestored);
    fail(
        Stage::Progress,
        Observation { frames: 0, ..base },
        SmokeFailure::NoAnimation,
    );
    let untitled = Observation {
        titles_arrived: false,
        ..base
    };
    fail(Stage::MaskedTitles, untitled, SmokeFailure::HiddenTitles);
    fail(Stage::MaskedTitles, base, SmokeFailure::HiddenRedraws);
    fail(Stage::LabelTitles, untitled, SmokeFailure::LabelTitles);
    fail(
        Stage::LabelTitles,
        Observation {
            prepares: 9,
            ..base
        },
        SmokeFailure::LabelRebuilds,
    );
    fail(Stage::TitlesCounted, base, SmokeFailure::ActiveRedraws);
    fail(
        Stage::TitlesCounted,
        Observation {
            frames: 0,
            prepares: 0,
            ..untitled
        },
        SmokeFailure::ActiveTitles,
    );
    fail(
        Stage::Idle,
        Observation {
            errors: true,
            ..base
        },
        SmokeFailure::AppErrors,
    );
    fail(Stage::Idle, base, SmokeFailure::IdleRedraws);
    assert_eq!(SmokeFailure::IdleRedraws.message(), "idle window kept repainting");
    assert_eq!(
        NativeEvent::CursorMoved { changed: true }.happening(),
        (Happening::CursorMoved, true)
    );
    assert_eq!(
        NativeEvent::Keyboard { synthetic: true }.happening(),
        (Happening::Other, false)
    );
    assert_eq!(
        NativeEvent::MouseWheel.happening(),
        (Happening::UserInput, true)
    );
    assert_eq!(Happening::StaleRepaint.name(), "egui-stale");
    let smoke = Smoke {
        pointer: Some(pos(5.0, 5.0)),
        ..Smoke::new(true, true, START)
    };
    let rect = Rect {
        min: pos(0.0, 0.0),
        max: pos(9.0, 9.0),
    };
    assert!(smoke.pointer_over(&vec![(1, rect)]) && !smoke.pointer_over(&vec![]));
}

#[test]
fn replays_measure_frames_behind_their_warm_up() {
    let cases = ["ascii", "mixed_unicode"];
    assert_eq!(Replay::new("1", &cases).unwrap().case, 1);
    assert_eq!(Replay::new("ascii", &cases).unwrap().case, 0);
    assert!(Replay::new("other", &cases).is_none());
    let mut replay = Replay::new("ascii", &cases).unwrap();
    assert!(!replay.frame_drawn(START, 1, 2, 3, 4, 1, 2));
    assert!(replay.samples.is_empty());
    assert!(!replay.frame_drawn(START.after(9), 1, 2, 3, 4, 1, 2));
    assert_eq!(replay.samples, [[1, 2, 3, 9, 4]]);
    assert!(replay.frame_drawn(START.after(19), 5, 6, 7, 8, 1, 2));
    assert_eq!(replay.samples[1], [5, 6, 7, 10, 8]);
    assert_eq!(replay.frame, 3);
}

#[test]
fn undo_and_redo_take_turns_until_they_expire() {
    let at = |seconds: u64| START.after(seconds * SECOND);
    let mut history: History<&str> = History::new();
    history.remember("older", 60 * SECOND, at(0));
    history.remember("before", 10 * SECOND, at(0));
    assert_eq!(history.take(false, at(9)), Some("before"));
    history.put_back(false, "after", 10 * SECOND, at(9));
    assert_eq!(history.take(true, at(18)), Some("after"));
    history.put_back(true, "before", 10 * SECOND, at(18));
    assert_eq!(history.take(false, at(27)), Some("before"));
    history.put_back(false, "after", 10 * SECOND, at(27));
    assert_eq!(history.take(true, at(37)), None);
    assert_eq!(history.take(false, at(37)), Some("older"));
    assert_eq!(history.take(false, at(37)), None);
}

#[test]
fn a_moved_tab_leaves_the_others_in_their_order() {
    for (from, offset, expected) in [
        (0, 2, [20, 30, 10, 40]),
        (3, -2, [10, 40, 20, 30]),
        (1, 9, [10, 30, 40, 20]),
        (2, 0, [10, 20, 30, 40]),
    ] {
        let tabs = [10, 20, 30, 40].map(|id| tab(id, &[id + 1]));
        let mut window = window(1, tabs.to_vec());
        window.active_tab = from;
        window.switch_tab(&Action::MoveTab(offset));
        let ids: Vec<Id> = window.tabs.iter().map(|tab| tab.id).collect();
        assert_eq!(ids, expected);
    }
}
