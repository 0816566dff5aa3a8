//! What the application knows of each pane, and how the session's events change it.
use crate::formats::{directory_from_osc, reported_directory};
use crate::presentation::{title_activity, white_space, Activity};
use crate::presentation::PROGRESS_TIMEOUT;
use crate::text::{
    chars_of, decimal, lossy_text, push_decimal, push_signed, same_text, signed_decimal,
    text_from_bytes,
};
use crate::time::{Instant, MILLISECOND};
use vstd::prelude::*;
use vstd::string::*;

verus! {

/// When a finished command is announced.
#[derive(Clone, Copy, Debug, PartialEq, Eq, Structural)]
pub enum NotifyOnCommandFinish {
    Never,
    Unfocused,
    Always,
}

/// What the configuration and the windows say about the pane that is drained.
#[derive(Clone, Copy, Debug)]
pub struct DrainContext {
    /// The pane has the focus of a window that has the user's.
    pub focused: bool,
    /// The pane belongs to a tab.
    pub live: bool,
    pub progress_style: bool,
    pub notify_on_command_finish: NotifyOnCommandFinish,
    /// How long a command must have run to be announced, in nanoseconds.
    pub notify_after: u64,
    /// Announcements go to the system as well.
    pub notify_system: bool,
    pub wait_after_command: bool,
    /// A command that ran no longer, in milliseconds, keeps its pane open.
    pub abnormal_runtime: u64,
}

/// An event of a pane's session. Clipboard requests are known by their number.
pub enum PaneEvent {
    Title(Vec<u8>),
    Progress { state: u8, value: Option<u8> },
    CommandStart,
    CommandEnd { exit_code: Option<i32> },
    Notification { title: Vec<u8>, body: Vec<u8> },
    Bell,
    Clipboard(usize),
    Exited { code: u32, signal: Option<String>, runtime: u64 },
    Error(String),
    Other,
}

/// A pane beside its session.
#[derive(Debug)]
pub struct PaneState {
    pub title: String,
    pub title_override: Option<String>,
    pub cwd: String,
    pub running: Option<Instant>,
    pub activity: Activity,
    pub unseen: bool,
    pub exited: bool,
    pub exit_message: Option<String>,
}

/// What a pane's state says.
pub struct PaneModel {
    pub title: Seq<char>,
    pub title_override: Option<Seq<char>>,
    pub cwd: Seq<char>,
    pub running: Option<Instant>,
    pub activity: Activity,
    pub unseen: bool,
    pub exited: bool,
    pub exit_message: Option<Seq<char>>,
}

impl View for PaneState {
    type V = PaneModel;

    open spec fn view(&self) -> PaneModel {
        PaneModel {
            title: self.title@,
            title_override: chars_of(self.title_override),
            cwd: self.cwd@,
            running: self.running,
            activity: self.activity,
            unseen: self.unseen,
            exited: self.exited,
            exit_message: chars_of(self.exit_message),
        }
    }
}

/// A message for the system's notifications.
pub struct Notice {
    pub title: String,
    pub body: String,
}

/// What is left to do once the events of a pane are read.
pub struct Drained {
    /// Something other than a title came.
    pub content_changed: bool,
    pub title_changed: bool,
    pub close: bool,
    pub stopped: bool,
    pub notices: Vec<Notice>,
    pub clipboard: Vec<usize>,
    pub errors: Vec<String>,
}

pub open spec fn notice_models(notices: Seq<Notice>) -> Seq<(Seq<char>, Seq<char>)> {
    Seq::new(notices.len(), |i: int| (notices[i].title@, notices[i].body@))
}

pub open spec fn error_models(errors: Seq<String>) -> Seq<Seq<char>> {
    Seq::new(errors.len(), |i: int| errors[i]@)
}

/// What drained events say.
pub struct DrainModel {
    pub content_changed: bool,
    pub title_changed: bool,
    pub close: bool,
    pub stopped: bool,
    pub notices: Seq<(Seq<char>, Seq<char>)>,
    pub clipboard: Seq<usize>,
    pub errors: Seq<Seq<char>>,
}

impl View for Drained {
    type V = DrainModel;

    open spec fn view(&self) -> DrainModel {
        DrainModel {
            content_changed: self.content_changed,
            title_changed: self.title_changed,
            close: self.close,
            stopped: self.stopped,
            notices: notice_models(self.notices@),
            clipboard: self.clipboard@,
            errors: error_models(self.errors@),
        }
    }
}

impl DrainModel {
    pub open spec fn nothing() -> DrainModel {
        DrainModel {
            content_changed: false,
            title_changed: false,
            close: false,
            stopped: false,
            notices: Seq::empty(),
            clipboard: Seq::empty(),
            errors: Seq::empty(),
        }
    }
}

/// A command that ran too short keeps its pane open, and so does the user's wish.
pub open spec fn holds_after_exit(wait: bool, abnormal_runtime: u64, runtime: u64) -> bool {
    wait || runtime / MILLISECOND <= abnormal_runtime
}

/// Whether a pane stays after its command exited, which ran for `runtime` nanoseconds; up to
/// `abnormal_runtime` milliseconds count as a failure to look at.
pub fn hold_after_exit(wait: bool, abnormal_runtime: u64, runtime: u64) -> (hold: bool)
    ensures
        hold == holds_after_exit(wait, abnormal_runtime, runtime),
{
    wait || runtime / MILLISECOND <= abnormal_runtime
}

/// The title of a pane whose command exited.
pub open spec fn exit_title(code: u32, signal: Option<Seq<char>>) -> Seq<char> {
    "Exited "@ + decimal(code as int) + match signal {
        Some(signal) => " ("@ + signal + seq![')'],
        None => Seq::empty(),
    }
}

/// The announcement of a finished command.
pub open spec fn finish_body(cwd: Seq<char>, exit_code: Option<i32>) -> Seq<char> {
    cwd + " — exited "@ + signed_decimal(
        match exit_code {
            Some(code) => code as int,
            None => 0,
        },
    )
}

/// A finished command is announced if it ran long enough and the policy asks for it.
pub open spec fn announces(pane: PaneModel, context: DrainContext, now: Instant) -> bool {
    &&& pane.running is Some
    &&& now.spec_since(pane.running->0) >= context.notify_after
    &&& context.notify_on_command_finish == NotifyOnCommandFinish::Always || (
    context.notify_on_command_finish == NotifyOnCommandFinish::Unfocused && !context.focused)
}

/// How one event changes the pane and what is left to do.
pub open spec fn drain_step(
    pane: PaneModel,
    drained: DrainModel,
    event: PaneEvent,
    context: DrainContext,
    now: Instant,
) -> (PaneModel, DrainModel) {
    let seen = DrainModel {
        content_changed: drained.content_changed || !(event is Title),
        ..drained
    };
    match event {
        PaneEvent::Title(bytes) => {
            let title = lossy_text(bytes@);
            let activity = Activity {
                title: title_activity(title, title.len() > 1 && white_space(title[1])),
                ..pane.activity
            };
            if pane.title_override is None {
                (
                    PaneModel { title, activity, ..pane },
                    DrainModel {
                        title_changed: drained.title_changed || pane.title != title,
                        ..seen
                    },
                )
            } else {
                (PaneModel { activity, ..pane }, seen)
            }
        },
        PaneEvent::Progress { state, value } => {
            let activity = pane.activity.with_progress(
                if context.progress_style {
                    state
                } else {
                    0
                },
                value,
                now,
            );
            (
                PaneModel { activity, ..pane },
                DrainModel {
                    stopped: drained.stopped || (pane.activity.active() && !activity.active()),
                    ..seen
                },
            )
        },
        PaneEvent::CommandStart => (
            PaneModel {
                running: Some(now),
                activity: pane.activity.at_command(true),
                ..pane
            },
            seen,
        ),
        PaneEvent::CommandEnd { exit_code } => {
            let activity = pane.activity.at_command(false);
            let stopped = drained.stopped || (pane.activity.active() && !activity.active());
            if announces(pane, context, now) {
                (
                    PaneModel { activity, running: None, unseen: !context.focused, ..pane },
                    DrainModel {
                        stopped,
                        notices: if context.live && context.notify_system {
                            drained.notices.push(
                                ("Command finished"@, finish_body(pane.cwd, exit_code)),
                            )
                        } else {
                            drained.notices
                        },
                        ..seen
                    },
                )
            } else {
                (PaneModel { activity, running: None, ..pane }, DrainModel { stopped, ..seen })
            }
        },
        PaneEvent::Notification { title, body } => (
            PaneModel { unseen: !context.focused, ..pane },
            DrainModel {
                notices: if context.live {
                    drained.notices.push((lossy_text(title@), lossy_text(body@)))
                } else {
                    drained.notices
                },
                ..seen
            },
        ),
        PaneEvent::Bell => (PaneModel { unseen: pane.unseen || !context.focused, ..pane }, seen),
        PaneEvent::Clipboard(request) => (
            pane,
            DrainModel { clipboard: drained.clipboard.push(request), ..seen },
        ),
        PaneEvent::Exited { code, signal, runtime } => {
            let title = exit_title(code, chars_of(signal));
            (
                PaneModel {
                    exited: true,
                    running: None,
                    title,
                    exit_message: Some(title + " — press any key to close"@),
                    ..pane
                },
                DrainModel {
                    close: context.live && !holds_after_exit(
                        context.wait_after_command,
                        context.abnormal_runtime,
                        runtime,
                    ),
                    ..seen
                },
            )
        },
        PaneEvent::Error(error) => (
            pane,
            DrainModel { errors: drained.errors.push(error@), ..seen },
        ),
        PaneEvent::Other => (pane, seen),
    }
}

/// How events change the pane in their order.
pub open spec fn drain_all(
    pane: PaneModel,
    events: Seq<PaneEvent>,
    context: DrainContext,
    now: Instant,
) -> (PaneModel, DrainModel)
    decreases events.len(),
{
    if events.len() == 0 {
        (pane, DrainModel::nothing())
    } else {
        let (pane, drained) = drain_all(pane, events.drop_last(), context, now);
        drain_step(pane, drained, events.last(), context, now)
    }
}

/// The end of a drain: what an exited command reported is over, even where its last effects came
/// behind its exit.
pub open spec fn drain_end(pane: PaneModel, drained: DrainModel) -> (PaneModel, DrainModel) {
    if pane.exited {
        (
            PaneModel { running: None, activity: Activity::idle(), ..pane },
            DrainModel { stopped: drained.stopped || pane.activity.active(), ..drained },
        )
    } else {
        (pane, drained)
    }
}

fn push_notice(notices: &mut Vec<Notice>, title: String, body: String)
    ensures
        notice_models(final(notices)@) == notice_models(old(notices)@).push((title@, body@)),
{
    notices.push(Notice { title, body });
    assert(notice_models(notices@) =~= notice_models(old(notices)@).push((title@, body@)));
}

fn push_error(errors: &mut Vec<String>, error: String)
    ensures
        error_models(final(errors)@) == error_models(old(errors)@).push(error@),
{
    errors.push(error);
    assert(error_models(errors@) =~= error_models(old(errors)@).push(error@));
}

fn exited_title(code: u32, signal: &Option<String>) -> (title: String)
    ensures
        title@ == exit_title(code, chars_of(*signal)),
{
    let mut title = "Exited ".to_owned();
    push_decimal(&mut title, code as u64);
    match signal {
        Some(signal) => {
            title.append(" (");
            title.append(signal.as_str());
            title.push(')');
            assert(title@ =~= exit_title(code, Some(signal@)));
        },
        None => {
            assert(title@ =~= exit_title(code, None));
        },
    }
    title
}

fn finished_body(cwd: &str, exit_code: Option<i32>) -> (body: String)
    ensures
        body@ == finish_body(cwd@, exit_code),
{
    let mut body = cwd.to_owned();
    body.append(" — exited ");
    push_signed(
        &mut body,
        match exit_code {
            Some(code) => code,
            None => 0,
        },
    );
    body
}

impl PaneState {
    /// A pane whose session has just begun, in a directory and with what was saved of it.
    pub fn new(cwd: String, title: String, title_override: Option<String>) -> (pane: PaneState)
        ensures
            pane == (PaneState {
                title,
                title_override,
                cwd,
                running: None,
                activity: Activity::idle(),
                unseen: false,
                exited: false,
                exit_message: None,
            }),
    {
        PaneState {
            title,
            title_override,
            cwd,
            running: None,
            activity: Activity::default(),
            unseen: false,
            exited: false,
            exit_message: None,
        }
    }

    /// Follows the terminal's report of its directory; tells whether it moved.
    pub fn directory_reported(&mut self, value: &str) -> (moved: bool)
        ensures
            moved == (reported_directory(value@) is Some && reported_directory(value@)->0 != old(
                self,
            ).cwd@),
            final(self)@ == (PaneModel {
                cwd: match reported_directory(value@) {
                    Some(directory) => directory,
                    None => old(self).cwd@,
                },
                ..old(self)@
            }),
    {
        match directory_from_osc(value) {
            Some(directory) => {
                let moved = !same_text(self.cwd.as_str(), directory.as_str());
                self.cwd = directory;
                moved
            },
            None => false,
        }
    }

    /// Reads one event.
    fn apply(
        &mut self,
        drained: &mut Drained,
        event: &PaneEvent,
        context: &DrainContext,
        now: Instant,
    )
        requires
            now.reaches(PROGRESS_TIMEOUT),
        ensures
            (final(self)@, final(drained)@) == drain_step(
                old(self)@,
                old(drained)@,
                *event,
                *context,
                now,
            ),
    {
        let title_only = match event {
            PaneEvent::Title(_) => true,
            _ => false,
        };
        drained.content_changed = drained.content_changed || !title_only;
        match event {
            PaneEvent::Title(bytes) => {
                let title = text_from_bytes(bytes);
                self.activity.title_changed(title.as_str());
                if self.title_override.is_none() {
                    drained.title_changed = drained.title_changed || !same_text(
                        self.title.as_str(),
                        title.as_str(),
                    );
                    self.title = title;
                }
            },
            PaneEvent::Progress { state, value } => {
                let state: u8 = if context.progress_style {
                    *state
                } else {
                    0
                };
                let stopped = self.activity.progress_reported(state, *value, now);
                drained.stopped = drained.stopped || stopped;
            },
            PaneEvent::CommandStart => {
                self.running = Some(now);
                self.activity.command_started();
            },
            PaneEvent::CommandEnd { exit_code } => {
                let stopped = self.activity.command_finished();
                drained.stopped = drained.stopped || stopped;
                let long = match self.running {
                    Some(start) => now.since(start) >= context.notify_after,
                    None => false,
                };
                self.running = None;
                let wanted = context.notify_on_command_finish == NotifyOnCommandFinish::Always || (
                context.notify_on_command_finish == NotifyOnCommandFinish::Unfocused
                    && !context.focused);
                if long && wanted {
                    self.unseen = !context.focused;
                    if context.live && context.notify_system {
                        push_notice(
                            &mut drained.notices,
                            "Command finished".to_owned(),
                            finished_body(self.cwd.as_str(), *exit_code),
                        );
                    }
                }
            },
            PaneEvent::Notification { title, body } => {
                self.unseen = !context.focused;
                if context.live {
                    push_notice(
                        &mut drained.notices,
                        text_from_bytes(title),
                        text_from_bytes(body),
                    );
                }
            },
            PaneEvent::Bell => {
                self.unseen = self.unseen || !context.focused;
            },
            PaneEvent::Clipboard(request) => {
                drained.clipboard.push(*request);
            },
            PaneEvent::Exited { code, signal, runtime } => {
                self.exited = true;
                self.running = None;
                let title = exited_title(*code, signal);
                let mut message = title.as_str().to_owned();
                message.append(" — press any key to close");
                self.title = title;
                self.exit_message = Some(message);
                drained.close = context.live && !hold_after_exit(
                    context.wait_after_command,
                    context.abnormal_runtime,
                    *runtime,
                );
            },
            PaneEvent::Error(error) => {
                push_error(&mut drained.errors, error.as_str().to_owned());
            },
            PaneEvent::Other => {},
        }
    }

    /// Reads the events of the pane's session in their order.
    pub fn drain(&mut self, events: &Vec<PaneEvent>, context: &DrainContext, now: Instant) -> (
        drained: Drained)
        requires
            now.reaches(PROGRESS_TIMEOUT),
        ensures
            ({
                let (pane, all) = drain_all(old(self)@, events@, *context, now);
                (final(self)@, drained@) == drain_end(pane, all)
            }),
    {
        let mut drained = Drained {
            content_changed: false,
            title_changed: false,
            close: false,
            stopped: false,
            notices: Vec::new(),
            clipboard: Vec::new(),
            errors: Vec::new(),
        };
        proof {
            assert(drained@.notices =~= Seq::empty());
            assert(drained@.errors =~= Seq::empty());
            assert(drained@.clipboard =~= Seq::empty());
        }
        let ghost first = self@;
        let mut i: usize = 0;
        while i < events.len()
            invariant
                now.reaches(PROGRESS_TIMEOUT),
                i <= events@.len(),
                (self@, drained@) == drain_all(first, events@.take(i as int), *context, now),
            decreases events@.len() - i,
        {
            self.apply(&mut drained, &events[i], context, now);
            assert(events@.take(i + 1).drop_last() =~= events@.take(i as int));
            i += 1;
        }
        assert(events@.take(i as int) =~= events@);
        // The child waiter can report exit before the reader delivers its final effects.
        if self.exited {
            self.running = None;
            let stopped = self.activity.clear();
            drained.stopped = drained.stopped || stopped;
        }
        drained
    }
}

/// Once its command has exited, a pane shows no activity and no running command.
pub proof fn law_exited_panes_are_idle(
    pane: PaneModel,
    events: Seq<PaneEvent>,
    context: DrainContext,
    now: Instant,
)
    ensures
        ({
            let (last, all) = drain_all(pane, events, context, now);
            let (after, drained) = drain_end(last, all);
            after.exited ==> after.activity == Activity::idle() && after.running is None
        }),
{
}

/// A title that the user gave outlasts every title that a program sets.
pub proof fn law_title_override_stands(
    pane: PaneModel,
    events: Seq<PaneEvent>,
    context: DrainContext,
    now: Instant,
)
    requires
        pane.title_override is Some,
        forall|i: int| 0 <= i < events.len() ==> !(#[trigger] events[i] is Exited),
    ensures
        drain_all(pane, events, context, now).0.title == pane.title,
        drain_all(pane, events, context, now).0.title_override == pane.title_override,
        !drain_all(pane, events, context, now).1.title_changed,
    decreases events.len(),
{
    if events.len() > 0 {
        assert(!(events[events.len() - 1] is Exited));
        assert forall|i: int| 0 <= i < events.drop_last().len() implies !(
        #[trigger] events.drop_last()[i] is Exited) by {
            assert(!(events[i] is Exited));
        }
        law_title_override_stands(pane, events.drop_last(), context, now);
    }
}

/// A pane with the focus is never left unseen by its own events.
pub proof fn law_focused_panes_are_seen(
    pane: PaneModel,
    events: Seq<PaneEvent>,
    context: DrainContext,
    now: Instant,
)
    requires
        context.focused,
        !pane.unseen,
    ensures
        !drain_all(pane, events, context, now).0.unseen,
    decreases events.len(),
{
    if events.len() > 0 {
        law_focused_panes_are_seen(pane, events.drop_last(), context, now);
    }
}

} // verus!
