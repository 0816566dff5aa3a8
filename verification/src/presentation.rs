//! Shared tab, pane and quadrant presentation rules.
use crate::text::{chars_of, from_chars, has_prefix, matches_at, same_text, to_chars};
use crate::time::{Instant, MILLISECOND, SECOND};
use vstd::prelude::*;

verus! {

/// Identifies a window, a tab, a pane or a split.
pub type Id = u64;

/// How long a progress report stands without an update.
pub const PROGRESS_TIMEOUT: u64 = 15 * SECOND;

/// How long a completion pulse lasts.
pub const FLASH_DURATION: u64 = 1200 * MILLISECOND;

/// How long the cursor keeps one phase of its blinking.
pub const BLINK_INTERVAL: u64 = 600 * MILLISECOND;

/// How long a focus change shows the directory of the pane.
pub const FOCUS_HINT_DURATION: u64 = 2 * SECOND;

/// The pause between two frames of a pulse.
pub const FLASH_FRAME: u64 = 16_666_667;

/// The time left in the blink phase that holds at `now`.
pub open spec fn blink_remainder(started: Instant, now: Instant) -> u64 {
    (BLINK_INTERVAL - now.spec_since(started) % BLINK_INTERVAL) as u64
}

/// The cursor shows in every other interval since `started`, beginning with the first.
pub open spec fn blink_visible(started: Instant, now: Instant) -> bool {
    (now.spec_since(started) / BLINK_INTERVAL) % 2 == 0
}

/// Typing restarts the visible phase; idle redraws happen only at its boundaries.
pub fn cursor_blink_phase(started: Instant, now: Instant) -> (phase: (bool, Instant))
    requires
        now.reaches(blink_remainder(started, now)),
    ensures
        phase.0 == blink_visible(started, now),
        phase.1 == now.spec_after(blink_remainder(started, now)),
{
    let elapsed: u64 = now.since(started);
    ((elapsed / BLINK_INTERVAL) % 2 == 0, now.after(BLINK_INTERVAL - elapsed % BLINK_INTERVAL))
}

/// A focus change shows its directory once, until typing, another click, or expiry.
#[derive(Clone, Copy, Debug)]
pub struct FocusHint {
    pub pane: Option<Id>,
    pub expires: Option<Instant>,
}

impl Default for FocusHint {
    fn default() -> (hint: FocusHint)
        ensures
            hint == (FocusHint { pane: None, expires: None }),
    {
        FocusHint { pane: None, expires: None }
    }
}

impl FocusHint {
    pub open spec fn spec_deadline(self, now: Instant) -> Option<Instant> {
        match self.expires {
            Some(expires) if now.nanos < expires.nanos => Some(expires),
            _ => None,
        }
    }

    /// Only a change of pane arms the hint.
    pub open spec fn focused_on(self, pane: Option<Id>, now: Instant) -> FocusHint {
        if self.pane == pane {
            self
        } else {
            FocusHint {
                pane,
                expires: if pane is Some {
                    Some(now.spec_after(FOCUS_HINT_DURATION))
                } else {
                    None
                },
            }
        }
    }

    pub open spec fn dismissed(self) -> FocusHint {
        FocusHint { expires: None, ..self }
    }

    pub open spec fn spec_visible(self, pane: Id, now: Instant) -> bool {
        self.pane == Some(pane) && self.spec_deadline(now) is Some
    }

    /// Arms the hint when another pane, or none, takes the focus; tells whether it did.
    pub fn focus(&mut self, pane: Option<Id>, now: Instant) -> (changed: bool)
        requires
            pane is Some && pane != old(self).pane ==> now.reaches(FOCUS_HINT_DURATION),
        ensures
            changed == (old(self).pane != pane),
            *final(self) == old(self).focused_on(pane, now),
    {
        if self.pane == pane {
            return false;
        }
        self.pane = pane;
        self.expires = if pane.is_some() {
            Some(now.after(FOCUS_HINT_DURATION))
        } else {
            None
        };
        true
    }

    /// Hides the hint until the focus moves again.
    pub fn dismiss(&mut self)
        ensures
            *final(self) == old(self).dismissed(),
    {
        self.expires = None;
    }

    pub fn visible(&self, pane: Id, now: Instant) -> (shown: bool)
        ensures
            shown == self.spec_visible(pane, now),
    {
        self.pane == Some(pane) && self.deadline(now).is_some()
    }

    /// When the hint disappears, if it shows at `now`.
    pub fn deadline(&self, now: Instant) -> (deadline: Option<Instant>)
        ensures
            deadline == self.spec_deadline(now),
    {
        match self.expires {
            Some(expires) if now.nanos < expires.nanos => Some(expires),
            _ => None,
        }
    }
}

/// What a program says about itself in its title.
#[derive(Clone, Copy, Debug, PartialEq, Eq, Structural)]
pub enum TitleActivity {
    Idle,
    Working,
    Waiting,
}

/// The frames of the spinner that working agents put first in their titles.
pub open spec fn is_spinner(c: char) -> bool {
    c == '⠋' || c == '⠙' || c == '⠹' || c == '⠸' || c == '⠼' || c == '⠴' || c == '⠦' || c == '⠧'
        || c == '⠇' || c == '⠏'
}

/// `title` is `prefix` alone, or goes on behind it after a separator.
pub open spec fn is_notice(title: Seq<char>, prefix: Seq<char>) -> bool {
    has_prefix(title, prefix) && (title.len() == prefix.len() || has_prefix(
        title.skip(prefix.len() as int),
        " | "@,
    ))
}

/// A request for the user's attention.
pub open spec fn asks_for_action(title: Seq<char>) -> bool {
    is_notice(title, "[ ! ] Action Required"@) || is_notice(title, "[ . ] Action Required"@)
}

/// The activity that `title` reports, where `spaced` tells whether its second character is
/// white space.
pub open spec fn title_activity(title: Seq<char>, spaced: bool) -> TitleActivity {
    if asks_for_action(title) {
        TitleActivity::Waiting
    } else if title.len() > 0 && is_spinner(title[0]) && (title.len() == 1 || spaced) {
        TitleActivity::Working
    } else {
        TitleActivity::Idle
    }
}

/// The character has the Unicode property White_Space.
pub open spec fn white_space(c: char) -> bool {
    ||| '\t' <= c <= '\r'
    ||| c == ' '
    ||| c == '\u{85}'
    ||| c == '\u{a0}'
    ||| c == '\u{1680}'
    ||| '\u{2000}' <= c <= '\u{200a}'
    ||| c == '\u{2028}'
    ||| c == '\u{2029}'
    ||| c == '\u{202f}'
    ||| c == '\u{205f}'
    ||| c == '\u{3000}'
}

/// `char::is_whitespace` accepts exactly the characters with the property White_Space.
pub assume_specification[ char::is_whitespace ](c: char) -> (space: bool)
    ensures
        space == white_space(c),
;

fn notice(title: &[char], prefix: &str) -> (found: bool)
    ensures
        found == is_notice(title@, prefix@),
{
    assert(title@.skip(0) == title@);
    if !matches_at(title, 0, prefix) {
        return false;
    }
    let length: usize = to_chars(prefix).len();
    title.len() == length || matches_at(title, length, " | ")
}

impl TitleActivity {
    /// Reads a title, given whether its second character is white space.
    pub fn classify(title: &str, spaced: bool) -> (activity: TitleActivity)
        ensures
            activity == title_activity(title@, spaced),
    {
        let chars = to_chars(title);
        let title = chars.as_slice();
        if notice(title, "[ ! ] Action Required") || notice(title, "[ . ] Action Required") {
            return TitleActivity::Waiting;
        }
        if title.len() == 0 {
            return TitleActivity::Idle;
        }
        let first = title[0];
        let spinner = first == '⠋' || first == '⠙' || first == '⠹' || first == '⠸' || first
            == '⠼' || first == '⠴' || first == '⠦' || first == '⠧' || first == '⠇' || first
            == '⠏';
        // Filenames and spinner characters later in a title report nothing.
        if spinner && (title.len() == 1 || spaced) {
            TitleActivity::Working
        } else {
            TitleActivity::Idle
        }
    }

    pub fn parse(title: &str) -> (activity: TitleActivity)
        ensures
            activity == title_activity(title@, title@.len() > 1 && white_space(title@[1])),
    {
        let chars = to_chars(title);
        let spaced = chars.len() > 1 && chars[1].is_whitespace();
        TitleActivity::classify(title, spaced)
    }
}

/// A native progress report.
#[derive(Clone, Copy, Debug, PartialEq, Eq, Structural)]
pub struct Progress {
    pub state: u8,
    pub value: Option<u8>,
}

impl Progress {
    pub open spec fn spec_percentage(self) -> Option<u8> {
        if self.value is Some {
            self.value
        } else if self.state == 4 {
            Some(100)
        } else {
            None
        }
    }

    /// An unspecified paused report shows as a full, stationary bar.
    pub fn percentage(self) -> (percentage: Option<u8>)
        ensures
            percentage == self.spec_percentage(),
    {
        if self.value.is_some() {
            self.value
        } else if self.state == 4 {
            Some(100)
        } else {
            None
        }
    }
}

/// Runtime state for one pane. Consume title, command, and progress effects in
/// their original order; a command boundary clears the previous work report.
#[derive(Clone, Copy, Debug)]
pub struct Activity {
    pub command_running: bool,
    pub title: TitleActivity,
    pub reported_progress: bool,
    pub progress: Option<Progress>,
    pub progress_deadline: Option<Instant>,
    pub progress_started: Option<Instant>,
}

impl Default for Activity {
    fn default() -> (activity: Activity)
        ensures
            activity == Activity::idle(),
    {
        Activity {
            command_running: false,
            title: TitleActivity::Idle,
            reported_progress: false,
            progress: None,
            progress_deadline: None,
            progress_started: None,
        }
    }
}

impl Activity {
    /// A pane that runs nothing and has reported nothing.
    pub open spec fn idle() -> Activity {
        Activity {
            command_running: false,
            title: TitleActivity::Idle,
            reported_progress: false,
            progress: None,
            progress_deadline: None,
            progress_started: None,
        }
    }

    pub open spec fn active(self) -> bool {
        self.command_running || self.progress_deadline is Some
    }

    /// The bar moves for want of a percentage to show.
    pub open spec fn bounces(self) -> bool {
        self.progress is Some && self.progress->0.spec_percentage() is None
    }

    /// A report and its deadline come and go together, and only a report animates.
    pub open spec fn wf(self) -> bool {
        &&& self.progress is Some <==> self.progress_deadline is Some
        &&& self.progress is None ==> self.progress_started is None && !self.reported_progress
        &&& self.progress is Some ==> 1 <= self.progress->0.state <= 4
        &&& self.progress is Some && self.progress->0.value is Some ==> self.progress->0.value->0
            <= 100
    }

    /// The state that a command boundary leaves.
    pub open spec fn at_command(self, running: bool) -> Activity {
        Activity {
            command_running: running,
            title: TitleActivity::Idle,
            reported_progress: false,
            ..self
        }
    }

    /// The state that a progress report leaves.
    pub open spec fn with_progress(self, state: u8, value: Option<u8>, now: Instant) -> Activity {
        if state > 4 {
            self
        } else {
            let progress = if state == 0 {
                None
            } else {
                Some(
                    Progress {
                        state,
                        value: match value {
                            Some(v) => Some(if v < 100 {
                                v
                            } else {
                                100
                            }),
                            None => None,
                        },
                    },
                )
            };
            Activity {
                progress,
                progress_deadline: if state == 0 {
                    None
                } else {
                    Some(now.spec_after(PROGRESS_TIMEOUT))
                },
                progress_started: if (Activity { progress, ..self }).bounces() {
                    self.progress_started
                } else {
                    None
                },
                reported_progress: state == 1 || state == 3,
                ..self
            }
        }
    }

    /// Underline inactive tabs/labels while a command or any progress report exists.
    pub fn is_active(&self) -> (active: bool)
        ensures
            active == self.active(),
    {
        self.command_running || self.progress_deadline.is_some()
    }

    pub open spec fn spec_reported_active(self) -> bool {
        self.title != TitleActivity::Waiting && (self.title == TitleActivity::Working
            || self.reported_progress)
    }

    /// Count explicitly working panes, excluding programs waiting for input.
    /// Paused/error progress and a running shell command alone do not count.
    pub fn reported_active(&self) -> (working: bool)
        ensures
            working == self.spec_reported_active(),
    {
        self.title != TitleActivity::Waiting && (self.title == TitleActivity::Working
            || self.reported_progress)
    }

    pub fn title_changed(&mut self, title: &str)
        ensures
            *final(self) == (Activity {
                title: title_activity(title@, title@.len() > 1 && white_space(title@[1])),
                ..*old(self)
            }),
            old(self).wf() ==> final(self).wf(),
    {
        self.title = TitleActivity::parse(title);
    }

    /// Returns true only when this pane changes from active to idle.
    pub fn command_started(&mut self) -> (stopped: bool)
        ensures
            *final(self) == old(self).at_command(true),
            stopped == (old(self).active() && !final(self).active()),
            old(self).wf() ==> final(self).wf(),
    {
        self.command(true)
    }

    /// A remaining progress report keeps the pane active until removed or expired.
    pub fn command_finished(&mut self) -> (stopped: bool)
        ensures
            *final(self) == old(self).at_command(false),
            stopped == (old(self).active() && !final(self).active()),
            old(self).wf() ==> final(self).wf(),
    {
        self.command(false)
    }

    pub fn command(&mut self, running: bool) -> (stopped: bool)
        ensures
            *final(self) == old(self).at_command(running),
            stopped == (old(self).active() && !final(self).active()),
            old(self).wf() ==> final(self).wf(),
    {
        let was_active = self.is_active();
        self.command_running = running;
        self.title = TitleActivity::Idle;
        self.reported_progress = false;
        was_active && !self.is_active()
    }

    /// States: 0 removes, 1 sets, 2 errors, 3 is indeterminate, 4 pauses.
    /// Returns a per-pane stop transition, even if another pane is still active.
    pub fn progress_reported(&mut self, state: u8, value: Option<u8>, now: Instant) -> (stopped:
        bool)
        requires
            1 <= state <= 4 ==> now.reaches(PROGRESS_TIMEOUT),
        ensures
            *final(self) == old(self).with_progress(state, value, now),
            stopped == (old(self).active() && !final(self).active()),
            old(self).wf() ==> final(self).wf(),
    {
        if state > 4 {
            return false;
        }
        let was_active = self.is_active();
        self.progress = if state != 0 {
            Some(
                Progress {
                    state,
                    value: match value {
                        Some(v) => Some(if v < 100 {
                            v
                        } else {
                            100
                        }),
                        None => None,
                    },
                },
            )
        } else {
            None
        };
        let still = match self.progress {
            Some(progress) => progress.percentage().is_some(),
            None => true,
        };
        if still {
            self.reset_progress_animation();
        }
        self.progress_deadline = if state != 0 {
            Some(now.after(PROGRESS_TIMEOUT))
        } else {
            None
        };
        self.reported_progress = state == 1 || state == 3;
        was_active && !self.is_active()
    }

    pub fn deadline(&self) -> (deadline: Option<Instant>)
        ensures
            deadline == self.progress_deadline,
    {
        self.progress_deadline
    }

    pub fn progress(&self) -> (progress: Option<Progress>)
        ensures
            progress == self.progress,
    {
        self.progress
    }

    pub fn reset_progress_animation(&mut self)
        ensures
            *final(self) == (Activity { progress_started: None, ..*old(self) }),
            old(self).wf() ==> final(self).wf(),
    {
        self.progress_started = None;
    }

    /// How long the bouncing bar has shown. It starts on appearance and retains its phase when
    /// another indeterminate report arrives; a bar with a percentage stands still.
    pub fn progress_elapsed(&mut self, now: Instant) -> (elapsed: Option<u64>)
        ensures
            !old(self).bounces() ==> elapsed is None && *final(self) == *old(self),
            old(self).bounces() ==> {
                let started = match old(self).progress_started {
                    Some(started) => started,
                    None => now,
                };
                &&& elapsed == Some(now.spec_since(started))
                &&& *final(self) == (Activity { progress_started: Some(started), ..*old(self) })
            },
            old(self).wf() ==> final(self).wf(),
    {
        let still = match self.progress {
            Some(progress) => progress.percentage().is_some(),
            None => true,
        };
        if still {
            return None;
        }
        let started = match self.progress_started {
            Some(started) => started,
            None => now,
        };
        self.progress_started = Some(started);
        Some(now.since(started))
    }

    /// A progress report goes at its deadline.
    pub open spec fn expired(self, now: Instant) -> Activity {
        if self.progress_deadline is Some && self.progress_deadline->0.nanos <= now.nanos {
            self.with_progress(0, None, now)
        } else {
            self
        }
    }

    /// Call at the deadline, including for hidden panes, to expire stale progress.
    pub fn expire(&mut self, now: Instant) -> (stopped: bool)
        ensures
            *final(self) == old(self).expired(now),
            stopped == (old(self).active() && !final(self).active()),
            old(self).wf() ==> final(self).wf(),
    {
        let due = match self.progress_deadline {
            Some(deadline) => deadline.nanos <= now.nanos,
            None => false,
        };
        if due {
            self.progress_reported(0, None, now)
        } else {
            false
        }
    }

    /// Clear transient reports when the pane process exits.
    pub fn clear(&mut self) -> (was_active: bool)
        ensures
            *final(self) == Activity::idle(),
            was_active == old(self).active(),
    {
        let was_active = self.is_active();
        *self = Activity::default();
        was_active
    }
}

/// A finite completion pulse: 200 ms fade-in followed by a 1 s fade-out.
#[derive(Clone, Copy, Debug, PartialEq, Eq, Structural)]
pub struct CompletionFlash {
    pub started: Option<Instant>,
}

impl Default for CompletionFlash {
    fn default() -> (flash: CompletionFlash)
        ensures
            flash == (CompletionFlash { started: None }),
    {
        CompletionFlash { started: None }
    }
}

impl CompletionFlash {
    /// The clock reaches the end of the pulse and one frame past `now` while it lasts.
    pub open spec fn fits(self, now: Instant) -> bool {
        self.started is Some ==> {
            &&& self.started->0.reaches(FLASH_DURATION)
            &&& self.running(now) ==> now.reaches(FLASH_FRAME)
        }
    }

    pub open spec fn running(self, now: Instant) -> bool {
        self.started is Some && now.nanos < self.started->0.nanos + FLASH_DURATION
    }

    /// The next frame of a running pulse, its end at the latest.
    pub open spec fn spec_next_repaint(self, now: Instant) -> Option<Instant> {
        if self.running(now) {
            let frame = now.spec_after(FLASH_FRAME);
            let end = self.started->0.spec_after(FLASH_DURATION);
            Some(if frame.nanos <= end.nanos {
                frame
            } else {
                end
            })
        } else {
            None
        }
    }

    /// Inactive tabs restart their flash when another pane completes.
    pub fn start(&mut self, now: Instant)
        ensures
            final(self).started == Some(now),
    {
        self.started = Some(now);
    }

    /// Pane and quadrant labels let the current pulse finish without restarting.
    pub fn start_if_idle(&mut self, now: Instant)
        requires
            old(self).fits(now),
        ensures
            final(self).started == if old(self).running(now) {
                old(self).started
            } else {
                Some(now)
            },
    {
        if self.next_repaint(now).is_none() {
            self.start(now);
        }
    }

    pub fn clear(&mut self)
        ensures
            final(self).started is None,
    {
        self.started = None;
    }

    /// How far the pulse has come, if one was started.
    pub fn elapsed(&self, now: Instant) -> (elapsed: Option<u64>)
        ensures
            elapsed == match self.started {
                Some(started) => Some(now.spec_since(started)),
                None => None,
            },
    {
        match self.started {
            Some(started) => Some(now.since(started)),
            None => None,
        }
    }

    /// No deadline remains after the pulse, so idle windows can sleep again.
    pub fn next_repaint(&self, now: Instant) -> (deadline: Option<Instant>)
        requires
            self.fits(now),
        ensures
            deadline == self.spec_next_repaint(now),
    {
        match self.started {
            Some(started) => {
                let end = started.after(FLASH_DURATION);
                if now.nanos < end.nanos {
                    let frame = now.after(FLASH_FRAME);
                    Some(if frame.nanos <= end.nanos {
                        frame
                    } else {
                        end
                    })
                } else {
                    None
                }
            },
            None => None,
        }
    }
}

/// Where the path component that ends at `end` begins.
pub open spec fn component_start(path: Seq<char>, end: int) -> int
    decreases end,
{
    if end <= 0 || path[end - 1] == '/' {
        end
    } else {
        component_start(path, end - 1)
    }
}

/// The last component of `path[..end]`, passing over separators and references to the
/// directory itself.
pub open spec fn last_component(path: Seq<char>, end: int) -> Option<Seq<char>>
    decreases end,
    when 0 <= end <= path.len()
    via last_component_shrinks
{
    if end == 0 {
        None
    } else if path[end - 1] == '/' {
        last_component(path, end - 1)
    } else {
        let start = component_start(path, end);
        let component = path.subrange(start, end);
        if component == seq!['.'] {
            last_component(path, start)
        } else {
            Some(component)
        }
    }
}

#[via_fn]
proof fn last_component_shrinks(path: Seq<char>, end: int) {
    if end > 0 && path[end - 1] != '/' {
        lemma_component_start(path, end - 1);
    }
}

proof fn lemma_component_start(path: Seq<char>, end: int)
    requires
        0 <= end,
    ensures
        0 <= component_start(path, end) <= end,
    decreases end,
{
    if end > 0 && path[end - 1] != '/' {
        lemma_component_start(path, end - 1);
    }
}

/// The final component of a path, unless there is none or it leads to the parent directory.
pub open spec fn file_name(path: Seq<char>) -> Option<Seq<char>> {
    match last_component(path, path.len() as int) {
        Some(name) if name != seq!['.', '.'] => Some(name),
        _ => None,
    }
}

/// The name that stands for a directory: its file name, or the path where it has none.
pub open spec fn name_of_directory(path: Seq<char>) -> Option<Seq<char>> {
    let name = match file_name(path) {
        Some(name) => name,
        None => path,
    };
    if name.len() > 0 {
        Some(name)
    } else {
        None
    }
}

/// The name under which a directory is shown.
pub fn directory_name(path: &str) -> (name: Option<String>)
    ensures
        chars_of(name) == name_of_directory(path@),
{
    let chars = to_chars(path);
    let mut end: usize = chars.len();
    while end > 0
        invariant
            chars@ == path@,
            0 <= end <= chars@.len(),
            last_component(path@, end as int) == last_component(path@, path@.len() as int),
        decreases end,
    {
        if chars[end - 1] == '/' {
            end -= 1;
        } else {
            let mut start: usize = end;
            while start > 0 && chars[start - 1] != '/'
                invariant
                    chars@ == path@,
                    0 <= start <= end <= chars@.len(),
                    component_start(path@, start as int) == component_start(path@, end as int),
                decreases start,
            {
                start -= 1;
            }
            proof {
                lemma_component_start(path@, end - 1);
                let component = path@.subrange(start as int, end as int);
                assert(component.len() == end - start >= 1);
                assert((component.len() == 1 && component[0] == '.') <==> component =~= seq!['.']);
                assert((component.len() == 2 && component[0] == '.' && component[1] == '.')
                    <==> component =~= seq!['.', '.']);
            }
            if end - start == 1 && chars[start] == '.' {
                end = start;
            } else if end - start == 2 && chars[start] == '.' && chars[start + 1] == '.' {
                let whole = from_chars(chars.as_slice(), 0, chars.len());
                assert(whole@ =~= path@);
                return Some(whole);
            } else {
                return Some(from_chars(chars.as_slice(), start, end));
            }
        }
    }
    if chars.len() == 0 {
        None
    } else {
        let whole = from_chars(chars.as_slice(), 0, chars.len());
        assert(whole@ =~= path@);
        Some(whole)
    }
}

/// The name of a directory that may be unknown.
pub open spec fn optional_name(path: Option<&str>) -> Option<Seq<char>> {
    match path {
        Some(path) => name_of_directory(path@),
        None => None,
    }
}

/// The name that all of `directories` show, if there is one.
pub open spec fn shared_name(directories: Seq<Option<&str>>) -> Option<Seq<char>> {
    if directories.len() > 0 && forall|i: int|
        0 <= i < directories.len() ==> optional_name(#[trigger] directories[i]) == optional_name(
            directories[0],
        ) {
        optional_name(directories[0])
    } else {
        None
    }
}

fn optional_directory_name(path: Option<&str>) -> (name: Option<String>)
    ensures
        chars_of(name) == optional_name(path),
{
    match path {
        Some(path) => directory_name(path),
        None => None,
    }
}

/// Displayed basenames are compared, not full paths or a common ancestor.
/// A missing directory prevents a shared label rather than hiding that pane.
pub fn common_directory_name(directories: &[Option<&str>]) -> (name: Option<String>)
    ensures
        chars_of(name) == shared_name(directories@),
{
    if directories.len() == 0 {
        return None;
    }
    let first = match optional_directory_name(directories[0]) {
        Some(first) => first,
        None => {
            return None;
        },
    };
    let mut i: usize = 1;
    while i < directories.len()
        invariant
            1 <= i <= directories@.len(),
            optional_name(directories@[0]) == Some(first@),
            forall|j: int|
                0 <= j < i ==> optional_name(#[trigger] directories@[j]) == Some(first@),
        decreases directories.len() - i,
    {
        let same = match optional_directory_name(directories[i]) {
            Some(name) => same_text(name.as_str(), first.as_str()),
            None => false,
        };
        if !same {
            assert(optional_name(directories@[i as int]) != Some(first@));
            return None;
        }
        i += 1;
    }
    Some(first)
}

/// The label of a pane or a quadrant.
#[derive(Clone, Debug, PartialEq, Eq)]
pub struct DirectoryLabel {
    pub name: String,
    pub focused: bool,
}

impl DirectoryLabel {
    /// A focused label is normally hidden only while its window is focused.
    /// `show_focused` reveals it during quadrant peek or the temporary focus hint.
    pub fn new(
        name: Option<String>,
        focused: bool,
        window_focused: bool,
        show_focused: bool,
    ) -> (label: Option<DirectoryLabel>)
        ensures
            label is Some <==> name is Some && name->0@.len() > 0 && (!focused || !window_focused
                || show_focused),
            label is Some ==> label->0.name == name->0 && label->0.focused == focused,
    {
        match name {
            Some(name) => if !name.as_str().is_empty() && !(focused && window_focused
                && !show_focused) {
                Some(DirectoryLabel { name, focused })
            } else {
                None
            },
            None => None,
        }
    }

    pub fn large(&self, large_inactive: bool) -> (large: bool)
        ensures
            large == (self.focused || large_inactive),
    {
        self.focused || large_inactive
    }

    pub fn shows_activity(&self, active: bool) -> (shown: bool)
        ensures
            shown == (active && !self.focused),
    {
        active && !self.focused
    }

    /// Quadrant labels count the focused quadrant; individual pane labels do not.
    pub fn shows_flash(&self, stopped: bool, include_focused: bool) -> (shown: bool)
        ensures
            shown == (stopped && (include_focused || !self.focused)),
    {
        stopped && (include_focused || !self.focused)
    }
}

/// The colours of a tab.
#[derive(Clone, Copy, Debug, PartialEq, Eq)]
pub struct TabAccent {
    pub background: [u8; 3],
    pub foreground: [u8; 3],
}

/// A colour that black text can be read on: its weighted brightness passes one half.
pub open spec fn is_light(color: [u8; 3]) -> bool {
    299 * color[0] + 587 * color[1] + 114 * color[2] > 127_500
}

impl TabAccent {
    /// Unassigned tabs inherit the platform accent supplied by the host.
    pub fn new(assigned: Option<[u8; 3]>, platform_accent: [u8; 3]) -> (accent: TabAccent)
        ensures
            accent.background == match assigned {
                Some(color) => color,
                None => platform_accent,
            },
            accent.foreground@ == if is_light(accent.background) {
                seq![0u8, 0u8, 0u8]
            } else {
                seq![255u8, 255u8, 255u8]
            },
    {
        let background = match assigned {
            Some(color) => color,
            None => platform_accent,
        };
        let light = 299 * (background[0] as u32) + 587 * (background[1] as u32) + 114 * (
        background[2] as u32) > 127_500;
        let foreground = if light {
            [0u8, 0u8, 0u8]
        } else {
            [255u8, 255u8, 255u8]
        };
        let accent = TabAccent { background, foreground };
        assert(accent.foreground@ =~= if light {
            seq![0u8, 0u8, 0u8]
        } else {
            seq![255u8, 255u8, 255u8]
        });
        accent
    }
}

/// The cursor keeps its phase from `now` up to the announced deadline and changes it there; the
/// deadline lies in the future, one interval ahead at most.
pub proof fn law_blink_phase_lasts_until_deadline(started: Instant, now: Instant, later: Instant)
    requires
        started.nanos <= now.nanos <= later.nanos,
        now.reaches(blink_remainder(started, now)),
    ensures
        now.nanos < now.spec_after(blink_remainder(started, now)).nanos <= now.nanos
            + BLINK_INTERVAL,
        later.nanos < now.spec_after(blink_remainder(started, now)).nanos ==> blink_visible(
            started,
            later,
        ) == blink_visible(started, now) && later.spec_after(blink_remainder(started, later))
            == now.spec_after(blink_remainder(started, now)),
        later == now.spec_after(blink_remainder(started, now)) ==> blink_visible(started, later)
            != blink_visible(started, now),
{
    let e = now.spec_since(started) as int;
    let f = later.spec_since(started) as int;
    let i = BLINK_INTERVAL as int;
    assert(e == i * (e / i) + e % i) by (nonlinear_arith)
        requires
            i == 600_000_000int,
    ;
    if later.nanos < now.spec_after(blink_remainder(started, now)).nanos {
        assert(f / i == e / i);
        assert(f % i == e % i + (f - e));
    } else if later == now.spec_after(blink_remainder(started, now)) {
        assert(f / i == e / i + 1);
    }
}

/// Input restarts the visible phase.
pub proof fn law_blink_starts_visible(started: Instant)
    ensures
        blink_visible(started, started),
{
}

/// A hint shows for its pane alone, until its deadline; a dismissed hint stays hidden until
/// another pane takes the focus.
pub proof fn law_focus_hint_shows_once(
    hint: FocusHint,
    pane: Id,
    other: Id,
    now: Instant,
    later: Instant,
)
    requires
        hint.pane != Some(pane),
        now.reaches(FOCUS_HINT_DURATION),
        now.nanos <= later.nanos,
    ensures
        ({
            let shown = hint.focused_on(Some(pane), now);
            &&& shown.spec_visible(other, later) <==> other == pane && later.nanos < now.nanos
                + FOCUS_HINT_DURATION
            &&& shown.focused_on(Some(pane), later) == shown
            &&& !shown.dismissed().focused_on(Some(pane), later).spec_visible(other, later)
            &&& !shown.focused_on(None, later).spec_visible(other, later)
        }),
{
}

/// A command boundary clears the work report, and neither the native progress nor its deadline.
pub proof fn law_command_boundary_keeps_native_progress(activity: Activity, running: bool)
    ensures
        !activity.at_command(running).spec_reported_active(),
        activity.at_command(running).progress == activity.progress,
        activity.at_command(running).progress_deadline == activity.progress_deadline,
{
}

/// A report expires at its deadline, not before, and once.
pub proof fn law_progress_expires_once(
    activity: Activity,
    state: u8,
    value: Option<u8>,
    reported: Instant,
    now: Instant,
    later: Instant,
)
    requires
        activity.wf(),
        1 <= state <= 4,
        reported.reaches(PROGRESS_TIMEOUT),
        now.nanos <= later.nanos,
    ensures
        ({
            let running = activity.with_progress(state, value, reported);
            &&& running.expired(now).progress is None <==> now.nanos >= reported.nanos
                + PROGRESS_TIMEOUT
            &&& now.nanos < reported.nanos + PROGRESS_TIMEOUT ==> running.expired(now) == running
            &&& now.nanos >= reported.nanos + PROGRESS_TIMEOUT ==> running.expired(now).expired(
                later,
            ) == running.expired(now)
            &&& running.expired(now).command_running == activity.command_running
        }),
{
}

/// A pulse asks for frames in the future, none past its end, and for none once it is over.
pub proof fn law_pulse_settles(flash: CompletionFlash, now: Instant)
    requires
        flash.fits(now),
    ensures
        flash.spec_next_repaint(now) is Some <==> flash.running(now),
        flash.running(now) ==> now.nanos < flash.spec_next_repaint(now)->0.nanos
            <= flash.started->0.nanos + FLASH_DURATION,
        flash.started is Some && now.nanos >= flash.started->0.nanos + FLASH_DURATION
            ==> flash.spec_next_repaint(now) is None,
{
}

/// Panes share a label exactly when there is one and each of them shows that name.
pub proof fn law_shared_name_is_everyones(directories: Seq<Option<&str>>, name: Seq<char>)
    ensures
        shared_name(directories) == Some(name) <==> directories.len() > 0 && forall|i: int|
            0 <= i < directories.len() ==> optional_name(#[trigger] directories[i]) == Some(name),
{
    if directories.len() > 0 {
        if forall|i: int|
            0 <= i < directories.len() ==> optional_name(#[trigger] directories[i]) == Some(name) {
            assert(optional_name(directories[0]) == Some(name));
        }
    }
}

/// A directory has a name unless its path is empty.
pub proof fn law_only_the_empty_path_has_no_name(path: Seq<char>)
    ensures
        name_of_directory(path) is None <==> path.len() == 0,
{
    lemma_last_component_nonempty(path, path.len() as int);
}

proof fn lemma_last_component_nonempty(path: Seq<char>, end: int)
    requires
        0 <= end <= path.len(),
    ensures
        last_component(path, end) is Some ==> last_component(path, end)->0.len() > 0,
    decreases end,
{
    if end > 0 {
        if path[end - 1] == '/' {
            lemma_last_component_nonempty(path, end - 1);
        } else {
            lemma_component_start(path, end - 1);
            lemma_last_component_nonempty(path, component_start(path, end));
        }
    }
}

} // verus!
