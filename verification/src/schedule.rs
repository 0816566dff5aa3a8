//! When windows are drawn again, and how long the application may sleep.
use crate::labels::ColorScheme;
use crate::presentation::Id;
use crate::time::{sooner, spec_sooner, Instant, MILLISECOND};
use crate::workspace::{has_id, holds_pane, Window};
use vstd::prelude::*;

verus! {

/// How often sessions that are closing are looked at.
pub const CLOSING_INTERVAL: u64 = 20 * MILLISECOND;

/// How often a native check is stepped.
pub const CHECK_INTERVAL: u64 = 50 * MILLISECOND;

/// How long changes of the layout are collected before they are saved.
pub const SAVE_DELAY: u64 = 500 * MILLISECOND;

/// The request still counts: it came from the current pass or the one before.
pub open spec fn is_current_pass(requested: u64, current: u64) -> bool {
    current == requested || current == requested + 1
}

/// Whether a request for a frame still counts: one completed pass still needs its requested
/// follow-up, but later passes have already superseded the request.
pub fn repaint_is_current(requested_pass: u64, current_pass: u64) -> (current: bool)
    ensures
        current == is_current_pass(requested_pass, current_pass),
{
    current_pass == requested_pass || (requested_pass < u64::MAX && requested_pass + 1
        == current_pass)
}

/// A request survives its own pass and the follow-up, and no later one.
pub proof fn law_repaint_requests_last_two_passes(requested: u64, passes: nat)
    requires
        requested + passes <= u64::MAX,
    ensures
        is_current_pass(requested, (requested + passes) as u64) <==> passes <= 1,
{
}

/// The earliest of the deadlines.
pub open spec fn earliest_of(deadlines: Seq<Option<Instant>>) -> Option<Instant>
    decreases deadlines.len(),
{
    if deadlines.len() == 0 {
        None
    } else {
        spec_sooner(earliest_of(deadlines.drop_last()), deadlines.last())
    }
}

/// Finds the earliest of the deadlines.
pub fn earliest(deadlines: &Vec<Option<Instant>>) -> (first: Option<Instant>)
    ensures
        first == earliest_of(deadlines@),
{
    let mut first: Option<Instant> = None;
    let mut i: usize = 0;
    while i < deadlines.len()
        invariant
            i <= deadlines@.len(),
            first == earliest_of(deadlines@.take(i as int)),
        decreases deadlines@.len() - i,
    {
        first = sooner(first, deadlines[i]);
        assert(deadlines@.take(i + 1).drop_last() =~= deadlines@.take(i as int));
        i += 1;
    }
    assert(deadlines@.take(i as int) =~= deadlines@);
    first
}

/// The application never sleeps past a deadline, never wakes for anything but one, and sleeps
/// without end only where there is none.
pub proof fn law_no_deadline_is_slept_through(deadlines: Seq<Option<Instant>>)
    ensures
        match earliest_of(deadlines) {
            Some(first) => {
                &&& exists|i: int| 0 <= i < deadlines.len() && #[trigger] deadlines[i] == Some(first)
                &&& forall|i: int|
                    0 <= i < deadlines.len() && (#[trigger] deadlines[i]) is Some ==> first.nanos
                        <= deadlines[i]->0.nanos
            },
            None => forall|i: int|
                0 <= i < deadlines.len() ==> (#[trigger] deadlines[i]) is None,
        },
    decreases deadlines.len(),
{
    if deadlines.len() > 0 {
        let rest = deadlines.drop_last();
        law_no_deadline_is_slept_through(rest);
        assert(deadlines[deadlines.len() - 1] == deadlines.last());
        assert forall|i: int| 0 <= i < rest.len() implies #[trigger] deadlines[i] == rest[i] by {}
        if earliest_of(rest) is Some {
            let i = choose|i: int|
                0 <= i < rest.len() && #[trigger] rest[i] == earliest_of(rest);
            assert(deadlines[i] == earliest_of(rest));
        }
    }
}

/// What the application waits for beside its windows.
pub struct Pending {
    pub save_at: Option<Instant>,
    pub close_at: Option<Instant>,
    /// The deadlines of the panes' progress reports and held output.
    pub panes: Vec<Option<Instant>>,
    /// Sessions are closing.
    pub closing: bool,
    /// When remembered layouts expire.
    pub history: Vec<Option<Instant>>,
    /// A native check runs.
    pub checking: bool,
}

/// When the application wakes for something beside its windows.
pub open spec fn pending_wake(pending: Pending, now: Instant) -> Option<Instant> {
    let closing = if pending.closing {
        Some(now.spec_after(CLOSING_INTERVAL))
    } else {
        None
    };
    let checking = if pending.checking {
        Some(now.spec_after(CHECK_INTERVAL))
    } else {
        None
    };
    earliest_of(
        seq![
            pending.save_at,
            pending.close_at,
            earliest_of(pending.panes@),
            closing,
            earliest_of(pending.history@),
            checking,
        ],
    )
}

/// Finds when the application wakes for something beside its windows.
pub fn next_wake(pending: &Pending, now: Instant) -> (wake: Option<Instant>)
    requires
        now.reaches(CHECK_INTERVAL),
    ensures
        wake == pending_wake(*pending, now),
{
    let closing = if pending.closing {
        Some(now.after(CLOSING_INTERVAL))
    } else {
        None
    };
    let checking = if pending.checking {
        Some(now.after(CHECK_INTERVAL))
    } else {
        None
    };
    let mut all: Vec<Option<Instant>> = Vec::new();
    all.push(pending.save_at);
    all.push(pending.close_at);
    all.push(earliest(&pending.panes));
    all.push(closing);
    all.push(earliest(&pending.history));
    all.push(checking);
    assert(all@ =~= seq![
        pending.save_at,
        pending.close_at,
        earliest_of(pending.panes@),
        closing,
        earliest_of(pending.history@),
        checking,
    ]);
    earliest(&all)
}

/// Whether a deadline has come.
pub fn is_due(deadline: Option<Instant>, now: Instant) -> (due: bool)
    ensures
        due == (deadline is Some && deadline->0.nanos <= now.nanos),
{
    match deadline {
        Some(deadline) => deadline.nanos <= now.nanos,
        None => false,
    }
}

/// What may animate a window after it was drawn.
#[derive(Clone, Copy, Debug)]
pub struct FrameDeadlines {
    /// Pulses and images.
    pub animation: Option<Instant>,
    pub focus_hint: Option<Instant>,
    pub navigation_warning: Option<Instant>,
    /// The next blink phase, where something blinks.
    pub blink: Option<Instant>,
}

/// When a window that was just drawn is drawn again by itself.
pub fn frame_deadline(deadlines: FrameDeadlines) -> (deadline: Option<Instant>)
    ensures
        deadline == spec_sooner(
            spec_sooner(
                spec_sooner(deadlines.animation, deadlines.focus_hint),
                deadlines.navigation_warning,
            ),
            deadlines.blink,
        ),
{
    sooner(
        sooner(
            sooner(deadlines.animation, deadlines.focus_hint),
            deadlines.navigation_warning,
        ),
        deadlines.blink,
    )
}

/// The first tab of a window that has the pane.
pub open spec fn tab_with<L>(window: Window<L>, pane: Id, index: int) -> bool {
    &&& 0 <= index < window.tabs@.len()
    &&& holds_pane(window.tabs@[index], pane)
    &&& forall|i: int| 0 <= i < index ==> !holds_pane(#[trigger] window.tabs@[i], pane)
}

/// Finds the first tab of a window that has the pane.
pub fn tab_of_pane<L>(window: &Window<L>, pane: Id) -> (index: Option<usize>)
    ensures
        match index {
            Some(index) => tab_with(*window, pane, index as int),
            None => !crate::workspace::contains_pane(*window, pane),
        },
{
    let mut i: usize = 0;
    while i < window.tabs.len()
        invariant
            i <= window.tabs@.len(),
            forall|j: int| 0 <= j < i ==> !holds_pane(#[trigger] window.tabs@[j], pane),
        decreases window.tabs@.len() - i,
    {
        if has_id(&window.tabs[i].panes, pane) {
            return Some(i);
        }
        i += 1;
    }
    None
}

/// Some tab with the pane shows, or shows the pane's indicators.
pub open spec fn shows_change<L>(window: Window<L>, pane: Id, indicators_changed: bool) -> bool {
    exists|i: int|
        0 <= i < window.tabs@.len() && holds_pane(#[trigger] window.tabs@[i], pane) && (i
            == window.active_tab || indicators_changed)
}

/// Whether a change in a pane is to be seen on its window: plain output in hidden tabs does not
/// invalidate the visible terminals.
pub fn repaints_for<L>(window: &Window<L>, pane: Id, indicators_changed: bool) -> (repaint: bool)
    ensures
        repaint == shows_change(*window, pane, indicators_changed),
{
    let mut i: usize = 0;
    while i < window.tabs.len()
        invariant
            i <= window.tabs@.len(),
            forall|j: int|
                0 <= j < i ==> !(holds_pane(#[trigger] window.tabs@[j], pane) && (j
                    == window.active_tab || indicators_changed)),
        decreases window.tabs@.len() - i,
    {
        if (i == window.active_tab || indicators_changed) && has_id(&window.tabs[i].panes, pane) {
            assert(holds_pane(window.tabs@[i as int], pane));
            return true;
        }
        i += 1;
    }
    false
}

/// What reading a pane's events changed.
#[derive(Clone, Copy, Debug)]
pub struct DrainChanges {
    /// The label or the underline of the pane's tab.
    pub indicators: bool,
    pub errors: bool,
    pub title: bool,
    pub content: bool,
}

/// How a window shows the pane whose events were read.
#[derive(Clone, Copy, Debug)]
pub struct PaneExposure {
    /// A screen reader, or a question about this pane, shows its title.
    pub title_shown: bool,
    /// The frame that was prepared of the pane is up to date.
    pub prepared: bool,
}

/// Whether a window is drawn again once the events of a pane in one of its tabs were read. Title
/// changes and empty wakes draw only what they changed.
pub fn repaints_after_drain<L>(
    window: &Window<L>,
    tab: usize,
    changes: DrainChanges,
    exposure: PaneExposure,
) -> (repaint: bool)
    ensures
        repaint == (changes.indicators || changes.errors || (changes.title && exposure.title_shown)
            || (tab == window.active_tab && (changes.content || !exposure.prepared))),
{
    changes.indicators || changes.errors || (changes.title && exposure.title_shown) || (tab
        == window.active_tab && (changes.content || !exposure.prepared))
}

/// What a session is told about its pane.
#[derive(Clone, Copy, Debug, PartialEq, Eq, Structural)]
pub struct PaneHostState {
    pub visible: bool,
    pub focused: bool,
    pub scheme: ColorScheme,
}

/// What a change of visibility or focus does to a pane.
#[derive(Clone, Copy, Debug, PartialEq, Eq, Structural)]
pub struct HostStateStep {
    pub reset_gesture: bool,
    pub reset_animation: bool,
    pub notify: bool,
}

/// Compares what a session was told with what holds now: a pane that loses the focus gives up
/// its selection gesture, a hidden one its animation, and a running session is told of changes.
pub fn sync_pane(told: PaneHostState, current: PaneHostState, exited: bool) -> (step: HostStateStep)
    ensures
        step.reset_gesture == (told.focused && !current.focused),
        step.reset_animation == !current.visible,
        step.notify == (!exited && told != current),
{
    HostStateStep {
        reset_gesture: told.focused && !current.focused,
        reset_animation: !current.visible,
        notify: !exited && told != current,
    }
}

} // verus!
