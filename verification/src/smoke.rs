//! The course of the opt-in native check: what it waits for, what it does next, and when it fails.
//! All shells and saved state are its own.
use crate::geometry::{Pos, Rect};
use crate::host::first_hit;
use crate::presentation::Id;
use crate::text::same_text;
use crate::time::{Instant, MILLISECOND, SECOND};
use vstd::prelude::*;
use vstd::string::*;

verus! {

/// How long the whole check may take.
pub const CHECK_TIMEOUT: u64 = 45 * SECOND;

/// How long a window must be left alone to count as idle.
pub const QUIET_INTERVAL: u64 = 1500 * MILLISECOND;

/// Frames that settle after a change and count as no repainting.
pub const SETTLING_FRAMES: u64 = 4;

/// What the check is about.
#[derive(Clone, Copy, Debug, PartialEq, Eq, Structural)]
pub enum Stage {
    /// The first shell's greeting.
    Greeting,
    /// The answer to the first input.
    Echo,
    /// All shells, their directories and their progress.
    Shells,
    /// The picture of the window.
    Picture,
    /// A window that is left alone.
    Idle,
    /// A pane that was closed.
    Closed,
    /// The pane that was brought back.
    Restored,
    /// An animated progress bar.
    Progress,
    /// Titles of a hidden tab that a custom title masks.
    MaskedTitles,
    /// Titles of a hidden tab that show in its label.
    LabelTitles,
    /// The shell that will set titles of the active tab.
    TitlesReady,
    /// The frame before those titles.
    TitlesSettled,
    /// The last of those titles.
    TitlesSent,
    /// What those titles caused.
    TitlesCounted,
}

/// What happens in a window, as far as it is counted.
#[derive(Clone, Copy, Debug, PartialEq, Eq, Structural)]
pub enum Happening {
    PtyOutput,
    StaleRepaint,
    ImmediateRepaint,
    DelayedRepaint,
    CursorMoved,
    CursorUnchanged,
    CursorLeft,
    UserInput,
    Redraw,
    Resize,
    Focus,
    Ime,
    Occlusion,
    Other,
}

/// The number of kinds of happenings.
pub const HAPPENINGS: usize = 14;

impl Happening {
    pub open spec fn spec_index(self) -> int {
        match self {
            Happening::PtyOutput => 0,
            Happening::StaleRepaint => 1,
            Happening::ImmediateRepaint => 2,
            Happening::DelayedRepaint => 3,
            Happening::CursorMoved => 4,
            Happening::CursorUnchanged => 5,
            Happening::CursorLeft => 6,
            Happening::UserInput => 7,
            Happening::Redraw => 8,
            Happening::Resize => 9,
            Happening::Focus => 10,
            Happening::Ime => 11,
            Happening::Occlusion => 12,
            Happening::Other => 13,
        }
    }

    pub fn index(self) -> (index: usize)
        ensures
            index == self.spec_index(),
            index < HAPPENINGS,
    {
        match self {
            Happening::PtyOutput => 0,
            Happening::StaleRepaint => 1,
            Happening::ImmediateRepaint => 2,
            Happening::DelayedRepaint => 3,
            Happening::CursorMoved => 4,
            Happening::CursorUnchanged => 5,
            Happening::CursorLeft => 6,
            Happening::UserInput => 7,
            Happening::Redraw => 8,
            Happening::Resize => 9,
            Happening::Focus => 10,
            Happening::Ime => 11,
            Happening::Occlusion => 12,
            Happening::Other => 13,
        }
    }

    /// The name under which the happening is reported.
    pub fn name(self) -> (name: &'static str)
        ensures
            name@ == match self {
                Happening::PtyOutput => "pty-output"@,
                Happening::StaleRepaint => "egui-stale"@,
                Happening::ImmediateRepaint => "egui-immediate"@,
                Happening::DelayedRepaint => "egui-delayed"@,
                Happening::CursorMoved => "cursor-moved"@,
                Happening::CursorUnchanged => "cursor-unchanged"@,
                Happening::CursorLeft => "cursor-left"@,
                Happening::UserInput => "user-input"@,
                Happening::Redraw => "redraw"@,
                Happening::Resize => "resize"@,
                Happening::Focus => "focus"@,
                Happening::Ime => "ime"@,
                Happening::Occlusion => "occlusion"@,
                Happening::Other => "other-window-event"@,
            },
    {
        match self {
            Happening::PtyOutput => "pty-output",
            Happening::StaleRepaint => "egui-stale",
            Happening::ImmediateRepaint => "egui-immediate",
            Happening::DelayedRepaint => "egui-delayed",
            Happening::CursorMoved => "cursor-moved",
            Happening::CursorUnchanged => "cursor-unchanged",
            Happening::CursorLeft => "cursor-left",
            Happening::UserInput => "user-input",
            Happening::Redraw => "redraw",
            Happening::Resize => "resize",
            Happening::Focus => "focus",
            Happening::Ime => "ime",
            Happening::Occlusion => "occlusion",
            Happening::Other => "other-window-event",
        }
    }
}

/// The state of the check.
#[derive(Debug)]
pub struct Smoke {
    /// Frames are drawn off the screen.
    pub offscreen: bool,
    /// The pointer must rest over a terminal while the window is measured.
    pub hover: bool,
    pub pointer: Option<Pos>,
    pub stage: Stage,
    pub deadline: Instant,
    pub next: Instant,
    pub original: Option<Id>,
    /// The pane that was closed, and when its session began.
    pub closed: Option<(Id, Instant)>,
    pub idle_frames: u64,
    pub progress_pane: Option<Id>,
    pub progress_started: Instant,
    pub progress_frames: u64,
    pub hidden_title_frames: u64,
    pub header_frames: u64,
    pub header_prepares: u64,
    pub active_title_frames: u64,
    pub active_title_prepares: u64,
    /// How often each happening was counted.
    pub events: Vec<u64>,
}

/// What the check sees of the application.
#[derive(Clone, Copy, Debug)]
pub struct Observation {
    pub now: Instant,
    /// The pane with the focus, and when its session began.
    pub pane: Id,
    pub pane_started: Instant,
    pub frames: u64,
    pub prepares: u64,
    /// The focused pane shows its greeting, or all panes do.
    pub greeted: bool,
    pub all_greeted: bool,
    /// The wide character of the greeting has its two cells and its background.
    pub wide_cell: bool,
    pub echoed: bool,
    pub all_in_place: bool,
    pub all_progressed: bool,
    pub pictured: bool,
    pub pointer_over_pane: bool,
    pub errors: bool,
    /// The pane that was closed is in the tab, its session is the one from before, and it shows
    /// its greeting.
    pub closed_in_tab: bool,
    pub closed_lives: bool,
    pub closed_greeted: bool,
    /// The titles of the stage came through, live and saved.
    pub titles_arrived: bool,
    /// The frame of the focused pane is up to date.
    pub prepared: bool,
}

/// What the check does next.
#[derive(Clone, Copy, Debug, PartialEq, Eq, Structural)]
pub enum SmokeAction {
    /// Types the first input.
    Type,
    /// Opens splits and a tab, and moves between quadrants.
    Arrange,
    /// Closes the focused pane.
    Close,
    /// Saves and loads the layout, and asks for a picture.
    Save,
    /// Asks for the picture again.
    Picture,
    /// Animates a progress bar, and moves the focus to another pane.
    Inspect,
    Undo,
    /// Sets masked titles of a hidden tab.
    MaskTitles,
    /// Sets titles that show in a label.
    ShowTitles,
    /// Prepares a shell that sets titles of the active tab.
    PrepareTitles,
    /// Draws, so that the frame is up to date.
    Draw,
    /// Lets that shell begin.
    SendTitles,
    /// Lets that shell end.
    EndTitles,
}

/// What the check found wrong.
#[derive(Clone, Copy, Debug, PartialEq, Eq, Structural)]
pub enum SmokeFailure {
    WideCell,
    Directory,
    NotRetained,
    NotRestored,
    NoAnimation,
    HiddenTitles,
    HiddenRedraws,
    LabelTitles,
    LabelRebuilds,
    ActiveRedraws,
    ActiveTitles,
    AppErrors,
    IdleRedraws,
}

impl SmokeFailure {
    pub fn message(self) -> (message: &'static str)
        ensures
            message@ == match self {
                SmokeFailure::WideCell => "emoji checkmark lost its second cell's background"@,
                SmokeFailure::Directory => "OSC directory was not decoded before restoration"@,
                SmokeFailure::NotRetained => "closed terminal was not retained for undo"@,
                SmokeFailure::NotRestored => "undo did not restore the same terminal process"@,
                SmokeFailure::NoAnimation =>
                    "indefinite progress did not render any animation frames"@,
                SmokeFailure::HiddenTitles =>
                    "hidden-tab titles did not update live and saved state"@,
                SmokeFailure::HiddenRedraws => "masked hidden-tab titles caused redraws"@,
                SmokeFailure::LabelTitles => "visible tab-label updates stopped repainting"@,
                SmokeFailure::LabelRebuilds => "tab-header frames rebuilt panes"@,
                SmokeFailure::ActiveRedraws =>
                    "active masked titles caused frames or pane preparations"@,
                SmokeFailure::ActiveTitles =>
                    "active titles did not update native and saved title state"@,
                SmokeFailure::AppErrors => "native app errors"@,
                SmokeFailure::IdleRedraws => "idle window kept repainting"@,
            },
    {
        match self {
            SmokeFailure::WideCell => "emoji checkmark lost its second cell's background",
            SmokeFailure::Directory => "OSC directory was not decoded before restoration",
            SmokeFailure::NotRetained => "closed terminal was not retained for undo",
            SmokeFailure::NotRestored => "undo did not restore the same terminal process",
            SmokeFailure::NoAnimation => "indefinite progress did not render any animation frames",
            SmokeFailure::HiddenTitles => "hidden-tab titles did not update live and saved state",
            SmokeFailure::HiddenRedraws => "masked hidden-tab titles caused redraws",
            SmokeFailure::LabelTitles => "visible tab-label updates stopped repainting",
            SmokeFailure::LabelRebuilds => "tab-header frames rebuilt panes",
            SmokeFailure::ActiveRedraws =>
                "active masked titles caused frames or pane preparations",
            SmokeFailure::ActiveTitles =>
                "active titles did not update native and saved title state",
            SmokeFailure::AppErrors => "native app errors",
            SmokeFailure::IdleRedraws => "idle window kept repainting",
        }
    }
}

/// What a step of the check comes to.
#[derive(Clone, Copy, Debug, PartialEq, Eq, Structural)]
pub enum SmokeStep {
    Wait,
    Act(SmokeAction),
    Fail(SmokeFailure),
    Passed,
}

/// How much the count grew.
pub open spec fn grown(now: u64, before: u64) -> u64 {
    if now >= before {
        (now - before) as u64
    } else {
        0
    }
}

impl Smoke {
    pub open spec fn wf(self) -> bool {
        &&& self.events@.len() == HAPPENINGS
        &&& (self.stage == Stage::Closed || self.stage == Stage::Restored) ==> self.closed is Some
    }

    /// Happenings are counted while the window is measured.
    pub open spec fn counts(self) -> bool {
        self.stage == Stage::Idle || self.stage == Stage::MaskedTitles || self.stage
            == Stage::TitlesSent || self.stage == Stage::TitlesCounted
    }

    pub fn new(offscreen: bool, hover: bool, now: Instant) -> (smoke: Smoke)
        requires
            now.reaches(CHECK_TIMEOUT),
        ensures
            smoke.wf(),
            smoke.offscreen == offscreen,
            smoke.hover == hover,
            smoke.stage == Stage::Greeting,
            smoke.deadline == now.spec_after(CHECK_TIMEOUT),
            smoke.next == now,
            smoke.pointer is None && smoke.original is None && smoke.closed is None,
            smoke.progress_pane is None,
            smoke.idle_frames == 0,
            smoke.progress_started == now,
            smoke.progress_frames == 0,
            smoke.hidden_title_frames == 0,
            smoke.header_frames == 0 && smoke.header_prepares == 0,
            smoke.active_title_frames == 0 && smoke.active_title_prepares == 0,
            forall|i: int| 0 <= i < HAPPENINGS ==> #[trigger] smoke.events@[i] == 0,
    {
        Smoke {
            offscreen,
            hover,
            pointer: None,
            stage: Stage::Greeting,
            deadline: now.after(CHECK_TIMEOUT),
            next: now,
            original: None,
            closed: None,
            idle_frames: 0,
            progress_pane: None,
            progress_started: now,
            progress_frames: 0,
            hidden_title_frames: 0,
            header_frames: 0,
            header_prepares: 0,
            active_title_frames: 0,
            active_title_prepares: 0,
            events: no_events(),
        }
    }

    /// Counts a happening, while the window is measured.
    pub fn record(&mut self, event: Happening)
        requires
            old(self).wf(),
            old(self).events@[event.spec_index()] < u64::MAX,
        ensures
            final(self).wf(),
            final(self).events@ == if old(self).counts() {
                old(self).events@.update(
                    event.spec_index(),
                    (old(self).events@[event.spec_index()] + 1) as u64,
                )
            } else {
                old(self).events@
            },
            *final(self) == (Smoke { events: final(self).events, ..*old(self) }),
    {
        let counts = self.stage == Stage::Idle || self.stage == Stage::MaskedTitles || self.stage
            == Stage::TitlesSent || self.stage == Stage::TitlesCounted;
        if counts {
            let index: usize = event.index();
            let count: u64 = self.events[index];
            self.events.set(index, count + 1);
        }
    }

    /// The state after input in a window that has drawn so many frames: an idle interval begins
    /// anew.
    pub open spec fn after_input(self, frames: u64, now: Instant) -> Smoke {
        if self.stage == Stage::Idle {
            Smoke { idle_frames: frames, next: now.spec_after(QUIET_INTERVAL), ..self }
        } else {
            self
        }
    }

    /// A developer can keep using an unlocked machine during this check: a full quiet interval is
    /// measured, rather than calling input redraws idle.
    pub fn input(&mut self, frames: u64, now: Instant)
        requires
            now.reaches(QUIET_INTERVAL),
        ensures
            *final(self) == old(self).after_input(frames, now),
    {
        if self.stage == Stage::Idle {
            self.idle_frames = frames;
            self.next = now.after(QUIET_INTERVAL);
        }
    }

    /// Follows the pointer, which leaves the window with `None`.
    pub fn pointer(&mut self, position: Option<Pos>, frames: u64, now: Instant)
        requires
            now.reaches(QUIET_INTERVAL),
        ensures
            ({
                let moved = !same_position(old(self).pointer, position);
                let after = if old(self).hover && moved {
                    old(self).after_input(frames, now)
                } else {
                    *old(self)
                };
                *final(self) == (Smoke { pointer: position, ..after })
            }),
    {
        let moved = match (self.pointer, position) {
            (Some(before), Some(after)) => !before.same(after),
            (None, None) => false,
            _ => true,
        };
        if self.hover && moved {
            self.input(frames, now);
        }
        self.pointer = position;
    }

    /// Whether the check has run out of time, and whether it is due.
    pub fn is_due(&self, now: Instant) -> (due: Result<bool, ()>)
        ensures
            due == if now.nanos > self.deadline.nanos {
                Err::<bool, ()>(())
            } else {
                Ok(now.nanos >= self.next.nanos)
            },
    {
        if now.nanos > self.deadline.nanos {
            Err(())
        } else {
            Ok(now.nanos >= self.next.nanos)
        }
    }
}

/// Both positions are the same, or there is none.
pub open spec fn same_position(left: Option<Pos>, right: Option<Pos>) -> bool {
    match (left, right) {
        (Some(left), Some(right)) => left.equals(right),
        (None, None) => true,
        _ => false,
    }
}

fn no_events() -> (events: Vec<u64>)
    ensures
        events@.len() == HAPPENINGS,
        forall|i: int| 0 <= i < HAPPENINGS ==> #[trigger] events@[i] == 0,
{
    let mut events: Vec<u64> = Vec::new();
    while events.len() < HAPPENINGS
        invariant
            events@.len() <= HAPPENINGS,
            forall|i: int| 0 <= i < events@.len() ==> #[trigger] events@[i] == 0,
        decreases HAPPENINGS - events@.len(),
    {
        events.push(0);
    }
    events
}

impl Smoke {
    /// What a step comes to.
    pub open spec fn verdict(self, seen: Observation) -> SmokeStep {
        match self.stage {
            Stage::Greeting => if seen.frames == 0 || !seen.greeted {
                SmokeStep::Wait
            } else if !seen.wide_cell {
                SmokeStep::Fail(SmokeFailure::WideCell)
            } else {
                SmokeStep::Act(SmokeAction::Type)
            },
            Stage::Echo => if seen.echoed {
                SmokeStep::Act(SmokeAction::Arrange)
            } else {
                SmokeStep::Wait
            },
            Stage::Shells => if !seen.all_greeted {
                SmokeStep::Wait
            } else if !seen.all_in_place {
                SmokeStep::Fail(SmokeFailure::Directory)
            } else if !seen.all_progressed {
                SmokeStep::Wait
            } else if self.closed is None {
                SmokeStep::Act(SmokeAction::Close)
            } else {
                SmokeStep::Act(SmokeAction::Save)
            },
            Stage::Picture => if seen.pictured {
                SmokeStep::Act(SmokeAction::Inspect)
            } else {
                SmokeStep::Act(SmokeAction::Picture)
            },
            Stage::Closed => if seen.closed_in_tab || !seen.closed_lives {
                SmokeStep::Fail(SmokeFailure::NotRetained)
            } else {
                SmokeStep::Act(SmokeAction::Undo)
            },
            Stage::Restored => if !seen.closed_in_tab || !seen.closed_lives
                || !seen.closed_greeted {
                SmokeStep::Fail(SmokeFailure::NotRestored)
            } else {
                SmokeStep::Wait
            },
            Stage::Progress => if !self.offscreen && grown(seen.frames, self.idle_frames) == 0 {
                SmokeStep::Fail(SmokeFailure::NoAnimation)
            } else {
                SmokeStep::Act(SmokeAction::MaskTitles)
            },
            Stage::MaskedTitles => if !seen.titles_arrived {
                SmokeStep::Fail(SmokeFailure::HiddenTitles)
            } else if grown(seen.frames, self.idle_frames) > SETTLING_FRAMES {
                SmokeStep::Fail(SmokeFailure::HiddenRedraws)
            } else {
                SmokeStep::Act(SmokeAction::ShowTitles)
            },
            Stage::LabelTitles => if !seen.titles_arrived || grown(seen.frames, self.header_frames)
                < 10 {
                SmokeStep::Fail(SmokeFailure::LabelTitles)
            } else if grown(seen.prepares, self.header_prepares) > 8 {
                SmokeStep::Fail(SmokeFailure::LabelRebuilds)
            } else {
                SmokeStep::Act(SmokeAction::PrepareTitles)
            },
            Stage::TitlesReady => SmokeStep::Wait,
            Stage::TitlesSettled => if seen.prepared {
                SmokeStep::Act(SmokeAction::SendTitles)
            } else {
                SmokeStep::Act(SmokeAction::Draw)
            },
            Stage::TitlesSent => SmokeStep::Wait,
            Stage::TitlesCounted => if grown(seen.frames, self.active_title_frames) != 0 || grown(
                seen.prepares,
                self.active_title_prepares,
            ) != 0 {
                SmokeStep::Fail(SmokeFailure::ActiveRedraws)
            } else if !seen.titles_arrived {
                SmokeStep::Fail(SmokeFailure::ActiveTitles)
            } else {
                SmokeStep::Act(SmokeAction::EndTitles)
            },
            Stage::Idle => if self.hover && !seen.pointer_over_pane {
                SmokeStep::Wait
            } else if seen.errors {
                SmokeStep::Fail(SmokeFailure::AppErrors)
            } else if grown(seen.frames, self.idle_frames) > SETTLING_FRAMES {
                SmokeStep::Fail(SmokeFailure::IdleRedraws)
            } else {
                SmokeStep::Passed
            },
        }
    }

    /// The stage after a step.
    pub open spec fn next_stage(self, seen: Observation) -> Stage {
        match self.verdict(seen) {
            SmokeStep::Act(SmokeAction::Type) => Stage::Echo,
            SmokeStep::Act(SmokeAction::Arrange) => Stage::Shells,
            SmokeStep::Act(SmokeAction::Close) => Stage::Closed,
            SmokeStep::Act(SmokeAction::Save) => Stage::Picture,
            SmokeStep::Act(SmokeAction::Inspect) => Stage::Progress,
            SmokeStep::Act(SmokeAction::Undo) => Stage::Restored,
            SmokeStep::Act(SmokeAction::MaskTitles) => Stage::MaskedTitles,
            SmokeStep::Act(SmokeAction::ShowTitles) => Stage::LabelTitles,
            SmokeStep::Act(SmokeAction::PrepareTitles) => Stage::TitlesReady,
            SmokeStep::Act(SmokeAction::SendTitles) => Stage::TitlesSent,
            SmokeStep::Act(SmokeAction::EndTitles) => Stage::Idle,
            SmokeStep::Wait => match self.stage {
                Stage::Restored => Stage::Shells,
                Stage::TitlesReady if seen.titles_arrived => Stage::TitlesSettled,
                Stage::TitlesSent if seen.titles_arrived => Stage::TitlesCounted,
                _ => self.stage,
            },
            _ => self.stage,
        }
    }

    /// How long the step after this one waits, where it does.
    pub open spec fn pause(self, seen: Observation) -> Option<u64> {
        match self.verdict(seen) {
            SmokeStep::Act(SmokeAction::Picture) => Some((100 * MILLISECOND) as u64),
            SmokeStep::Act(SmokeAction::Inspect) => Some((2 * SECOND) as u64),
            SmokeStep::Act(SmokeAction::MaskTitles) => Some((3 * SECOND) as u64),
            SmokeStep::Act(SmokeAction::ShowTitles) => Some((3 * SECOND) as u64),
            SmokeStep::Act(SmokeAction::PrepareTitles) => Some((500 * MILLISECOND) as u64),
            SmokeStep::Act(SmokeAction::EndTitles) => Some(QUIET_INTERVAL),
            SmokeStep::Wait => match self.stage {
                Stage::TitlesReady if seen.titles_arrived => Some((200 * MILLISECOND) as u64),
                Stage::TitlesSent if seen.titles_arrived => Some((300 * MILLISECOND) as u64),
                Stage::Idle => Some(QUIET_INTERVAL),
                _ => None,
            },
            _ => None,
        }
    }

    /// Takes one step: looks at the application, and tells what to do next.
    pub fn step(&mut self, seen: Observation) -> (step: SmokeStep)
        requires
            old(self).wf(),
            seen.now.reaches((3 * SECOND) as u64),
        ensures
            final(self).wf(),
            step == old(self).verdict(seen),
            final(self).stage == old(self).next_stage(seen),
            final(self).next == match old(self).pause(seen) {
                Some(pause) => seen.now.spec_after(pause),
                None => old(self).next,
            },
            final(self).original == if step == SmokeStep::Act(SmokeAction::Type) {
                Some(seen.pane)
            } else {
                old(self).original
            },
            final(self).closed == if step == SmokeStep::Act(SmokeAction::Close) {
                Some((seen.pane, seen.pane_started))
            } else {
                old(self).closed
            },
            final(self).progress_pane == if step == SmokeStep::Act(SmokeAction::Inspect) {
                Some(seen.pane)
            } else {
                old(self).progress_pane
            },
            final(self).progress_started == if step == SmokeStep::Act(SmokeAction::Inspect) {
                seen.now
            } else {
                old(self).progress_started
            },
            final(self).idle_frames == match step {
                SmokeStep::Act(SmokeAction::Inspect)
                | SmokeStep::Act(SmokeAction::MaskTitles)
                | SmokeStep::Act(SmokeAction::EndTitles) => seen.frames,
                SmokeStep::Wait if old(self).stage == Stage::Idle => seen.frames,
                _ => old(self).idle_frames,
            },
            final(self).progress_frames == if old(self).stage == Stage::Progress {
                grown(seen.frames, old(self).idle_frames)
            } else {
                old(self).progress_frames
            },
            final(self).hidden_title_frames == if old(self).stage == Stage::MaskedTitles
                && seen.titles_arrived {
                grown(seen.frames, old(self).idle_frames)
            } else {
                old(self).hidden_title_frames
            },
            final(self).header_frames == if step == SmokeStep::Act(SmokeAction::ShowTitles) {
                seen.frames
            } else if old(self).stage == Stage::LabelTitles {
                grown(seen.frames, old(self).header_frames)
            } else {
                old(self).header_frames
            },
            final(self).header_prepares == if step == SmokeStep::Act(SmokeAction::ShowTitles) {
                seen.prepares
            } else if old(self).stage == Stage::LabelTitles {
                grown(seen.prepares, old(self).header_prepares)
            } else {
                old(self).header_prepares
            },
            final(self).active_title_frames == if step == SmokeStep::Act(SmokeAction::SendTitles) {
                seen.frames
            } else if old(self).stage == Stage::TitlesCounted {
                grown(seen.frames, old(self).active_title_frames)
            } else {
                old(self).active_title_frames
            },
            final(self).active_title_prepares == if step == SmokeStep::Act(
                SmokeAction::SendTitles,
            ) {
                seen.prepares
            } else if old(self).stage == Stage::TitlesCounted {
                grown(seen.prepares, old(self).active_title_prepares)
            } else {
                old(self).active_title_prepares
            },
            if step == SmokeStep::Act(SmokeAction::SendTitles) || step == SmokeStep::Act(
                SmokeAction::EndTitles,
            ) {
                forall|i: int| 0 <= i < HAPPENINGS ==> #[trigger] final(self).events@[i] == 0
            } else {
                final(self).events@ == old(self).events@
            },
            final(self).deadline == old(self).deadline,
            final(self).offscreen == old(self).offscreen,
            final(self).hover == old(self).hover,
            final(self).pointer == old(self).pointer,
    {
        match self.stage {
            Stage::Greeting => {
                if seen.frames == 0 || !seen.greeted {
                    return SmokeStep::Wait;
                }
                if !seen.wide_cell {
                    return SmokeStep::Fail(SmokeFailure::WideCell);
                }
                self.original = Some(seen.pane);
                self.stage = Stage::Echo;
                SmokeStep::Act(SmokeAction::Type)
            },
            Stage::Echo => {
                if !seen.echoed {
                    return SmokeStep::Wait;
                }
                self.stage = Stage::Shells;
                SmokeStep::Act(SmokeAction::Arrange)
            },
            Stage::Shells => {
                if !seen.all_greeted {
                    return SmokeStep::Wait;
                }
                if !seen.all_in_place {
                    return SmokeStep::Fail(SmokeFailure::Directory);
                }
                // Terminal text is exposed before queued progress effects are drained: both are
                // waited for, rather than racing event delivery.
                if !seen.all_progressed {
                    return SmokeStep::Wait;
                }
                if self.closed.is_none() {
                    self.closed = Some((seen.pane, seen.pane_started));
                    self.stage = Stage::Closed;
                    SmokeStep::Act(SmokeAction::Close)
                } else {
                    self.stage = Stage::Picture;
                    SmokeStep::Act(SmokeAction::Save)
                }
            },
            Stage::Picture => {
                if !seen.pictured {
                    self.next = seen.now.after(100 * MILLISECOND);
                    return SmokeStep::Act(SmokeAction::Picture);
                }
                self.idle_frames = seen.frames;
                self.progress_pane = Some(seen.pane);
                self.progress_started = seen.now;
                self.next = seen.now.after(2 * SECOND);
                self.stage = Stage::Progress;
                SmokeStep::Act(SmokeAction::Inspect)
            },
            Stage::Closed => {
                if seen.closed_in_tab || !seen.closed_lives {
                    return SmokeStep::Fail(SmokeFailure::NotRetained);
                }
                self.stage = Stage::Restored;
                SmokeStep::Act(SmokeAction::Undo)
            },
            Stage::Restored => {
                if !seen.closed_in_tab || !seen.closed_lives || !seen.closed_greeted {
                    return SmokeStep::Fail(SmokeFailure::NotRestored);
                }
                self.stage = Stage::Shells;
                SmokeStep::Wait
            },
            Stage::Progress => {
                self.progress_frames = seen.frames.saturating_sub(self.idle_frames);
                if !self.offscreen && self.progress_frames == 0 {
                    return SmokeStep::Fail(SmokeFailure::NoAnimation);
                }
                self.idle_frames = seen.frames;
                self.next = seen.now.after(3 * SECOND);
                self.stage = Stage::MaskedTitles;
                SmokeStep::Act(SmokeAction::MaskTitles)
            },
            Stage::MaskedTitles => {
                if !seen.titles_arrived {
                    return SmokeStep::Fail(SmokeFailure::HiddenTitles);
                }
                self.hidden_title_frames = seen.frames.saturating_sub(self.idle_frames);
                if self.hidden_title_frames > SETTLING_FRAMES {
                    return SmokeStep::Fail(SmokeFailure::HiddenRedraws);
                }
                self.header_frames = seen.frames;
                self.header_prepares = seen.prepares;
                self.next = seen.now.after(3 * SECOND);
                self.stage = Stage::LabelTitles;
                SmokeStep::Act(SmokeAction::ShowTitles)
            },
            Stage::LabelTitles => {
                self.header_frames = seen.frames.saturating_sub(self.header_frames);
                self.header_prepares = seen.prepares.saturating_sub(self.header_prepares);
                if !seen.titles_arrived || self.header_frames < 10 {
                    return SmokeStep::Fail(SmokeFailure::LabelTitles);
                }
                // Native focus and resize events can invalidate retained panes; title updates
                // must otherwise keep reusing their terminal content.
                if self.header_prepares > 8 {
                    return SmokeStep::Fail(SmokeFailure::LabelRebuilds);
                }
                self.next = seen.now.after(500 * MILLISECOND);
                self.stage = Stage::TitlesReady;
                SmokeStep::Act(SmokeAction::PrepareTitles)
            },
            Stage::TitlesReady => {
                if seen.titles_arrived {
                    // The ready effect can arrive before its initial redraw or the shell's final
                    // setup bytes.
                    self.next = seen.now.after(200 * MILLISECOND);
                    self.stage = Stage::TitlesSettled;
                }
                SmokeStep::Wait
            },
            Stage::TitlesSettled => {
                if !seen.prepared {
                    return SmokeStep::Act(SmokeAction::Draw);
                }
                self.active_title_frames = seen.frames;
                self.active_title_prepares = seen.prepares;
                self.events = no_events();
                self.stage = Stage::TitlesSent;
                SmokeStep::Act(SmokeAction::SendTitles)
            },
            Stage::TitlesSent => {
                if seen.titles_arrived {
                    self.next = seen.now.after(300 * MILLISECOND);
                    self.stage = Stage::TitlesCounted;
                }
                SmokeStep::Wait
            },
            Stage::TitlesCounted => {
                self.active_title_frames = seen.frames.saturating_sub(self.active_title_frames);
                self.active_title_prepares = seen.prepares.saturating_sub(
                    self.active_title_prepares,
                );
                if self.active_title_frames != 0 || self.active_title_prepares != 0 {
                    return SmokeStep::Fail(SmokeFailure::ActiveRedraws);
                }
                if !seen.titles_arrived {
                    return SmokeStep::Fail(SmokeFailure::ActiveTitles);
                }
                self.idle_frames = seen.frames;
                self.events = no_events();
                self.next = seen.now.after(QUIET_INTERVAL);
                self.stage = Stage::Idle;
                SmokeStep::Act(SmokeAction::EndTitles)
            },
            Stage::Idle => {
                if self.hover && !seen.pointer_over_pane {
                    self.input(seen.frames, seen.now);
                    return SmokeStep::Wait;
                }
                if seen.errors {
                    return SmokeStep::Fail(SmokeFailure::AppErrors);
                }
                if seen.frames.saturating_sub(self.idle_frames) > SETTLING_FRAMES {
                    return SmokeStep::Fail(SmokeFailure::IdleRedraws);
                }
                SmokeStep::Passed
            },
        }
    }

    /// Whether the pointer rests over a pane.
    pub fn pointer_over(&self, rects: &Vec<(Id, Rect)>) -> (over: bool)
        ensures
            over == match self.pointer {
                Some(position) => first_hit(rects@, position) is Some,
                None => false,
            },
    {
        match self.pointer {
            Some(position) => crate::host::hit(rects, position).is_some(),
            None => false,
        }
    }
}

/// The check passes exactly from an idle window without errors that drew no more than it settles.
pub proof fn law_check_passes_only_when_idle(smoke: Smoke, seen: Observation)
    ensures
        smoke.verdict(seen) == SmokeStep::Passed <==> {
            &&& smoke.stage == Stage::Idle
            &&& !seen.errors
            &&& grown(seen.frames, smoke.idle_frames) <= SETTLING_FRAMES
            &&& smoke.hover ==> seen.pointer_over_pane
        },
{
}

/// The course goes on: each stage is followed by itself or by the stage behind it, and only
/// closing a pane and bringing it back return to an earlier one.
pub open spec fn follows(stage: Stage) -> Set<Stage> {
    match stage {
        Stage::Greeting => set![Stage::Greeting, Stage::Echo],
        Stage::Echo => set![Stage::Echo, Stage::Shells],
        Stage::Shells => set![Stage::Shells, Stage::Closed, Stage::Picture],
        Stage::Closed => set![Stage::Closed, Stage::Restored],
        Stage::Restored => set![Stage::Restored, Stage::Shells],
        Stage::Picture => set![Stage::Picture, Stage::Progress],
        Stage::Progress => set![Stage::Progress, Stage::MaskedTitles],
        Stage::MaskedTitles => set![Stage::MaskedTitles, Stage::LabelTitles],
        Stage::LabelTitles => set![Stage::LabelTitles, Stage::TitlesReady],
        Stage::TitlesReady => set![Stage::TitlesReady, Stage::TitlesSettled],
        Stage::TitlesSettled => set![Stage::TitlesSettled, Stage::TitlesSent],
        Stage::TitlesSent => set![Stage::TitlesSent, Stage::TitlesCounted],
        Stage::TitlesCounted => set![Stage::TitlesCounted, Stage::Idle],
        Stage::Idle => set![Stage::Idle],
    }
}

/// Every step keeps to the course of the check.
pub proof fn law_stages_follow_each_other(smoke: Smoke, seen: Observation)
    ensures
        follows(smoke.stage).contains(smoke.next_stage(seen)),
        smoke.stage == Stage::Shells && smoke.closed is Some ==> smoke.next_stage(seen)
            != Stage::Closed,
{
}

/// The measurement of repeated frames.
#[derive(Debug)]
pub struct Replay {
    /// The workload, by its place in the list.
    pub case: usize,
    pub frame: usize,
    pub last_frame: Option<Instant>,
    /// Terminal time, frame time, processor time, interval and memory of each measured frame.
    pub samples: Vec<[u64; 5]>,
}

/// The workload with this name.
pub open spec fn case_at(cases: Seq<&str>, name: Seq<char>, index: int) -> bool {
    &&& 0 <= index < cases.len()
    &&& cases[index]@ == name
    &&& forall|i: int| 0 <= i < index ==> (#[trigger] cases[i])@ != name
}

/// The workload that a name asks for: `1` stands for the usual one.
pub open spec fn workload_name(name: Seq<char>) -> Seq<char> {
    if name == "1"@ {
        "mixed_unicode"@
    } else {
        name
    }
}

/// There is no case of this name.
pub open spec fn lacks_case(cases: Seq<&str>, name: Seq<char>) -> bool {
    forall|i: int| 0 <= i < cases.len() ==> (#[trigger] cases[i])@ != name
}

impl Replay {
    /// Begins a measurement, if there is such a workload.
    pub fn new(name: &str, cases: &[&str]) -> (replay: Option<Replay>)
        ensures
            replay is None ==> lacks_case(cases@, workload_name(name@)),
            match replay {
                Some(replay) => {
                    &&& case_at(cases@, workload_name(name@), replay.case as int)
                    &&& replay.frame == 0
                    &&& replay.last_frame is None
                    &&& replay.samples@.len() == 0
                },
                None => forall|i: int|
                    0 <= i < cases@.len() ==> (#[trigger] cases@[i])@ != workload_name(name@),
            },
    {
        let wanted = if same_text(name, "1") {
            "mixed_unicode"
        } else {
            name
        };
        let mut i: usize = 0;
        while i < cases.len()
            invariant
                i <= cases@.len(),
                wanted@ == workload_name(name@),
                forall|j: int| 0 <= j < i ==> (#[trigger] cases@[j])@ != wanted@,
            decreases cases@.len() - i,
        {
            if same_text(cases[i], wanted) {
                return Some(
                    Replay { case: i, frame: 0, last_frame: None, samples: Vec::new() },
                );
            }
            i += 1;
        }
        None
    }

    /// Notes a frame that was drawn: when it began, and what it cost. Frames of the warm-up are
    /// not measured. Tells whether enough were.
    pub fn frame_drawn(
        &mut self,
        started: Instant,
        terminal: u64,
        wall: u64,
        cpu: u64,
        resident: u64,
        warmup: usize,
        wanted: usize,
    ) -> (done: bool)
        requires
            old(self).frame < usize::MAX,
        ensures
            final(self).case == old(self).case,
            final(self).frame == old(self).frame + 1,
            final(self).last_frame == Some(started),
            ({
                let interval = match old(self).last_frame {
                    Some(last) => started.spec_since(last),
                    None => 0,
                };
                if old(self).frame >= warmup {
                    &&& final(self).samples@.len() == old(self).samples@.len() + 1
                    &&& final(self).samples@.drop_last() == old(self).samples@
                    &&& final(self).samples@.last()@ == seq![
                        terminal,
                        wall,
                        cpu,
                        interval,
                        resident,
                    ]
                } else {
                    final(self).samples@ == old(self).samples@
                }
            }),
            done == (final(self).samples@.len() == wanted),
    {
        let interval: u64 = match self.last_frame {
            Some(last) => started.since(last),
            None => 0,
        };
        self.last_frame = Some(started);
        if self.frame >= warmup {
            let sample: [u64; 5] = [terminal, wall, cpu, interval, resident];
            assert(sample@ =~= seq![terminal, wall, cpu, interval, resident]);
            self.samples.push(sample);
            assert(self.samples@.drop_last() =~= old(self).samples@);
        }
        self.frame += 1;
        self.samples.len() == wanted
    }
}

/// An event of a native window, as far as the check tells them apart.
#[derive(Clone, Copy, Debug, PartialEq, Eq, Structural)]
pub enum NativeEvent {
    CursorMoved { changed: bool },
    CursorLeft,
    Keyboard { synthetic: bool },
    MouseButton,
    MouseWheel,
    Touch,
    Redraw,
    Resized,
    Focused,
    Ime,
    Occluded,
    Other,
}

impl NativeEvent {
    /// What an event counts as, and whether the user made it.
    pub open spec fn spec_happening(self) -> (Happening, bool) {
        match self {
            NativeEvent::CursorMoved { changed: true } => (Happening::CursorMoved, true),
            NativeEvent::CursorMoved { changed: false } => (Happening::CursorUnchanged, false),
            NativeEvent::CursorLeft => (Happening::CursorLeft, false),
            NativeEvent::Keyboard { synthetic: false } => (Happening::UserInput, true),
            NativeEvent::Keyboard { synthetic: true } => (Happening::Other, false),
            NativeEvent::MouseButton => (Happening::UserInput, true),
            NativeEvent::MouseWheel => (Happening::UserInput, true),
            NativeEvent::Touch => (Happening::UserInput, true),
            NativeEvent::Redraw => (Happening::Redraw, false),
            NativeEvent::Resized => (Happening::Resize, false),
            NativeEvent::Focused => (Happening::Focus, false),
            NativeEvent::Ime => (Happening::Ime, false),
            NativeEvent::Occluded => (Happening::Occlusion, false),
            NativeEvent::Other => (Happening::Other, false),
        }
    }

    pub fn happening(self) -> (happening: (Happening, bool))
        ensures
            happening == self.spec_happening(),
    {
        match self {
            NativeEvent::CursorMoved { changed } => if changed {
                (Happening::CursorMoved, true)
            } else {
                (Happening::CursorUnchanged, false)
            },
            NativeEvent::CursorLeft => (Happening::CursorLeft, false),
            NativeEvent::Keyboard { synthetic } => if synthetic {
                (Happening::Other, false)
            } else {
                (Happening::UserInput, true)
            },
            NativeEvent::MouseButton | NativeEvent::MouseWheel | NativeEvent::Touch => (
                Happening::UserInput,
                true,
            ),
            NativeEvent::Redraw => (Happening::Redraw, false),
            NativeEvent::Resized => (Happening::Resize, false),
            NativeEvent::Focused => (Happening::Focus, false),
            NativeEvent::Ime => (Happening::Ime, false),
            NativeEvent::Occluded => (Happening::Occlusion, false),
            NativeEvent::Other => (Happening::Other, false),
        }
    }
}

} // verus!
