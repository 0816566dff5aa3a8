//! When things happen: blinking, hints, progress, flashes, deadlines and queued input.
use crate::pane::{
    joined, packet_bytes, InputError, InputQueue, SavedPane, SynchronizedOutput, WriteOutcome,
};
use crate::presentation::{
    asks_for_action, cursor_blink_phase, is_spinner, name_of_directory, title_activity, white_space,
    Activity, CompletionFlash, DirectoryLabel, FocusHint, Id, Progress, TabAccent, TitleActivity,
};
use crate::schedule::{
    earliest_of, frame_deadline, is_due, next_wake, repaint_is_current, repaints_after_drain,
    repaints_for, sync_pane, tab_of_pane, DrainChanges, FrameDeadlines, HostStateStep, PaneExposure,
    PaneHostState, Pending,
};
use crate::text::chars_of;
use crate::time::{sooner, Instant};
use crate::workspace::Window;
use vstd::prelude::*;

verus! {

/// The time between two instants is their difference, and none where they come the other way round;
/// waiting for it leads from the one to the other.
pub proof fn law_time_passes(a: Instant, b: Instant, span: u64, later: Instant, elapsed: u64)
    ensures
        call_ensures(Instant::since, (a, b), elapsed) ==> (a.nanos >= b.nanos ==> b.nanos + elapsed
            == a.nanos) && (a.nanos < b.nanos ==> elapsed == 0),
        a.nanos + span <= u64::MAX && call_ensures(Instant::after, (a, span), later) ==> later.nanos
            == a.nanos + span,
{
}

/// The sooner of two deadlines is one of them, and not behind the other; one that is not there
/// yields to one that is.
pub proof fn law_the_sooner_deadline_comes_first(
    left: Option<Instant>,
    right: Option<Instant>,
    first: Option<Instant>,
)
    requires
        call_ensures(sooner, (left, right), first),
    ensures
        first is None <==> left is None && right is None,
        left is Some ==> first is Some && first->0.nanos <= left->0.nanos,
        right is Some ==> first is Some && first->0.nanos <= right->0.nanos,
        first == left || first == right,
{
}

/// The first of some deadlines is one of them, and none comes before it.
pub proof fn law_the_first_deadline_is_the_earliest(deadlines: Seq<Option<Instant>>)
    ensures
        earliest_of(deadlines) is Some ==> deadlines.contains(earliest_of(deadlines)),
        forall|i: int|
            0 <= i < deadlines.len() && (#[trigger] deadlines[i]) is Some ==> earliest_of(deadlines)
                is Some && earliest_of(deadlines)->0.nanos <= deadlines[i]->0.nanos,
    decreases deadlines.len(),
{
    if deadlines.len() > 0 {
        let front = deadlines.drop_last();
        law_the_first_deadline_is_the_earliest(front);
        assert(deadlines[deadlines.len() - 1] == deadlines.last());
        if earliest_of(front) is Some {
            let i = front.index_of(earliest_of(front));
            assert(deadlines[i] == earliest_of(front));
        }
        assert forall|i: int|
            0 <= i < deadlines.len() && (#[trigger] deadlines[i]) is Some implies earliest_of(
            deadlines,
        ) is Some && earliest_of(deadlines)->0.nanos <= deadlines[i]->0.nanos by {
            if i < front.len() {
                assert(front[i] == deadlines[i]);
            }
        }
    }
}

/// The application sleeps until the first of what it waits for: a save, a close, a pane, an expired
/// layout, and short intervals while it closes or checks. With nothing to wait for it sleeps on.
pub proof fn law_the_application_wakes_for_the_first(
    pending: &Pending,
    now: Instant,
    wake: Option<Instant>,
)
    requires
        now.nanos + 50_000_000 <= u64::MAX,
        call_ensures(next_wake, (pending, now), wake),
    ensures
        pending.save_at is Some ==> wake is Some && wake->0.nanos <= pending.save_at->0.nanos,
        pending.close_at is Some ==> wake is Some && wake->0.nanos <= pending.close_at->0.nanos,
        forall|i: int|
            0 <= i < pending.panes@.len() && (#[trigger] pending.panes@[i]) is Some ==> wake is Some
                && wake->0.nanos <= pending.panes@[i]->0.nanos,
        forall|i: int|
            0 <= i < pending.history@.len() && (#[trigger] pending.history@[i]) is Some ==> wake
                is Some && wake->0.nanos <= pending.history@[i]->0.nanos,
        pending.closing ==> wake is Some && wake->0.nanos <= now.nanos + 20_000_000,
        pending.checking ==> wake is Some && wake->0.nanos <= now.nanos + 50_000_000,
        wake is Some ==> wake == pending.save_at || wake == pending.close_at
            || pending.panes@.contains(wake) || pending.history@.contains(wake) || (pending.closing
            && wake->0.nanos == now.nanos + 20_000_000) || (pending.checking && wake->0.nanos
            == now.nanos + 50_000_000),
{
    let closing = if pending.closing {
        Some(now.spec_after(crate::schedule::CLOSING_INTERVAL))
    } else {
        None
    };
    let checking = if pending.checking {
        Some(now.spec_after(crate::schedule::CHECK_INTERVAL))
    } else {
        None
    };
    let all = seq![
        pending.save_at,
        pending.close_at,
        earliest_of(pending.panes@),
        closing,
        earliest_of(pending.history@),
        checking,
    ];
    law_the_first_deadline_is_the_earliest(pending.panes@);
    law_the_first_deadline_is_the_earliest(pending.history@);
    law_the_first_deadline_is_the_earliest(all);
    assert(all[0] == pending.save_at);
    assert(all[1] == pending.close_at);
    assert(all[2] == earliest_of(pending.panes@));
    assert(all[3] == closing);
    assert(all[4] == earliest_of(pending.history@));
    assert(all[5] == checking);
    assert(wake == earliest_of(all));
    if wake is Some {
        let i = all.index_of(wake);
        assert(all[i] == wake);
        assert(0 <= i < 6);
    }
}

/// A deadline is due from its instant on.
pub proof fn law_deadlines_are_due_from_their_instant(
    deadline: Option<Instant>,
    now: Instant,
    due: bool,
)
    requires
        call_ensures(is_due, (deadline, now), due),
    ensures
        deadline is None ==> !due,
        deadline matches Some(at) ==> (due <==> at.nanos <= now.nanos),
{
}

/// The next frame comes with the first of what moves on it.
pub proof fn law_frames_come_with_the_first_change(
    deadlines: FrameDeadlines,
    deadline: Option<Instant>,
)
    requires
        call_ensures(frame_deadline, (deadlines,), deadline),
    ensures
        deadline is None <==> deadlines.animation is None && deadlines.focus_hint is None
            && deadlines.navigation_warning is None && deadlines.blink is None,
        deadlines.animation is Some ==> deadline->0.nanos <= deadlines.animation->0.nanos,
        deadlines.focus_hint is Some ==> deadline->0.nanos <= deadlines.focus_hint->0.nanos,
        deadlines.navigation_warning is Some ==> deadline->0.nanos
            <= deadlines.navigation_warning->0.nanos,
        deadlines.blink is Some ==> deadline->0.nanos <= deadlines.blink->0.nanos,
        deadline == deadlines.animation || deadline == deadlines.focus_hint || deadline
            == deadlines.navigation_warning || deadline == deadlines.blink,
{
}

/// A request to repaint counts in the pass that made it and in the one behind.
pub proof fn law_requests_count_for_two_passes(requested: u64, current: u64, counts: bool)
    requires
        call_ensures(repaint_is_current, (requested, current), counts),
    ensures
        current == requested ==> counts,
        current == requested + 1 ==> counts,
        current < requested || current > requested + 1 ==> !counts,
{
}

/// A pane's tab is the first one that holds it.
pub proof fn law_panes_lie_in_their_tab<L>(
    window: &Window<L>,
    pane: Id,
    index: Option<usize>,
    i: int,
)
    requires
        call_ensures(tab_of_pane, (window, pane), index),
    ensures
        index matches Some(at) ==> at < window.tabs@.len() && window.tabs@[at as int].panes@.contains(
            pane,
        ),
        0 <= i < window.tabs@.len() && window.tabs@[i].panes@.contains(pane) ==> index is Some
            && index->0 <= i,
{
    if 0 <= i < window.tabs@.len() && window.tabs@[i].panes@.contains(pane) {
        assert(crate::workspace::holds_pane(window.tabs@[i], pane));
        if let Some(at) = index {
            assert(at <= i);
        }
    }
}

/// A change of a pane is painted where its tab is in front, and otherwise where the tab's own
/// marks changed.
pub proof fn law_changes_are_painted_where_they_show<L>(
    window: &Window<L>,
    pane: Id,
    indicators_changed: bool,
    repaint: bool,
    i: int,
)
    requires
        call_ensures(repaints_for, (window, pane, indicators_changed), repaint),
    ensures
        0 <= i < window.tabs@.len() && window.tabs@[i].panes@.contains(pane) && (i
            == window.active_tab || indicators_changed) ==> repaint,
        repaint ==> exists|j: int|
            0 <= j < window.tabs@.len() && (#[trigger] window.tabs@[j]).panes@.contains(pane) && (j
                == window.active_tab || indicators_changed),
{
    if 0 <= i < window.tabs@.len() && window.tabs@[i].panes@.contains(pane) {
        assert(crate::workspace::holds_pane(window.tabs@[i], pane));
    }
    if repaint {
        let j = choose|j: int|
            0 <= j < window.tabs@.len() && crate::workspace::holds_pane(
                #[trigger] window.tabs@[j],
                pane,
            ) && (j == window.active_tab || indicators_changed);
        assert(window.tabs@[j].panes@.contains(pane));
    }
}

/// Marks and errors always show, a title where it is on show, and contents in the tab in front, as
/// does a pane that was never drawn.
pub proof fn law_drained_changes_are_painted<L>(
    window: &Window<L>,
    tab: usize,
    changes: DrainChanges,
    exposure: PaneExposure,
    repaint: bool,
)
    requires
        call_ensures(repaints_after_drain, (window, tab, changes, exposure), repaint),
    ensures
        changes.indicators || changes.errors ==> repaint,
        changes.title && exposure.title_shown ==> repaint,
        changes.content && tab == window.active_tab ==> repaint,
        !exposure.prepared && tab == window.active_tab ==> repaint,
        !changes.indicators && !changes.errors && (!changes.title || !exposure.title_shown) && tab
            != window.active_tab ==> !repaint,
        !changes.indicators && !changes.errors && (!changes.title || !exposure.title_shown)
            && !changes.content && exposure.prepared ==> !repaint,
{
}

/// A session is told of what changed while it runs; a pane that loses the focus gives its gesture
/// up, and a hidden one its animation.
pub proof fn law_sessions_are_told_of_changes(
    told: PaneHostState,
    current: PaneHostState,
    exited: bool,
    step: HostStateStep,
)
    requires
        call_ensures(sync_pane, (told, current, exited), step),
    ensures
        exited ==> !step.notify,
        told == current ==> !step.notify,
        !exited && told.focused != current.focused ==> step.notify,
        !exited && told.visible != current.visible ==> step.notify,
        !exited && told.scheme != current.scheme ==> step.notify,
        step.reset_gesture <==> told.focused && !current.focused,
        step.reset_animation <==> !current.visible,
{
}

/// A blinking cursor shows in every other interval of six tenths of a second, beginning with the
/// first, and changes at the end of each.
pub proof fn law_cursors_blink_in_equal_intervals(
    started: Instant,
    now: Instant,
    intervals: int,
    rest: int,
    phase: (bool, Instant),
)
    requires
        intervals >= 0,
        0 <= rest < 600_000_000,
        now.nanos == started.nanos + intervals * 600_000_000 + rest,
        started.nanos + (intervals + 1) * 600_000_000 <= u64::MAX,
        call_ensures(cursor_blink_phase, (started, now), phase),
    ensures
        phase.0 <==> intervals % 2 == 0,
        phase.1.nanos == started.nanos + (intervals + 1) * 600_000_000,
{
}

/// A pane that gains the focus is hinted at for two seconds, once; without a pane there is no hint.
pub proof fn law_new_focus_is_hinted_at(hint: FocusHint, pane: Option<Id>, other: Id, now: Instant)
    requires
        now.nanos + 2_000_000_000 <= u64::MAX,
    ensures
        ({
            let after = hint.focused_on(pane, now);
            &&& after.pane == pane
            &&& hint.pane == pane ==> after == hint
            &&& hint.pane != pane && pane is Some ==> after.expires is Some
                && after.expires->0.nanos == now.nanos + 2_000_000_000
            &&& hint.pane != pane && pane is None ==> after.expires is None
        }),
        hint.spec_visible(other, now) <==> hint.pane == Some(other) && hint.expires is Some
            && now.nanos < hint.expires->0.nanos,
        hint.spec_visible(other, now) ==> hint.spec_deadline(now) == hint.expires,
        hint.spec_deadline(now) is Some ==> now.nanos < hint.spec_deadline(now)->0.nanos,
        !hint.dismissed().spec_visible(other, now),
        hint.dismissed().pane == hint.pane,
{
}

/// A title that asks for an action waits; one that begins with a spinner, alone or before a space,
/// works; any other is idle.
pub proof fn law_titles_tell_what_programs_do(title: Seq<char>, spaced: bool)
    ensures
        title_activity(title, spaced) == TitleActivity::Waiting <==> asks_for_action(title),
        title_activity(title, spaced) == TitleActivity::Working ==> title.len() > 0 && is_spinner(
            title[0],
        ) && (title.len() == 1 || spaced),
        !asks_for_action(title) && title.len() == 1 && is_spinner(title[0]) ==> title_activity(
            title,
            spaced,
        ) == TitleActivity::Working,
        !asks_for_action(title) && title.len() > 1 && is_spinner(title[0]) ==> (title_activity(
            title,
            spaced,
        ) == TitleActivity::Working <==> spaced),
        title.len() == 0 ==> title_activity(title, spaced) == TitleActivity::Idle,
        title.len() > 0 && !is_spinner(title[0]) && title[0] != '[' ==> title_activity(title, spaced)
            == TitleActivity::Idle,
{
    reveal_strlit("[ ! ] Action Required");
    reveal_strlit("[ . ] Action Required");
    if asks_for_action(title) {
        let a = "[ ! ] Action Required"@;
        let b = "[ . ] Action Required"@;
        assert(a[0] == '[' && b[0] == '[');
        if crate::text::has_prefix(title, a) {
            assert(title.subrange(0, a.len() as int)[0] == title[0]);
        } else {
            assert(title.subrange(0, b.len() as int)[0] == title[0]);
        }
    }
}

/// A request for an action stands at the start of a title, alone or before a bar.
pub proof fn law_requests_stand_at_the_start(rest: Seq<char>)
    ensures
        asks_for_action("[ ! ] Action Required"@),
        asks_for_action("[ . ] Action Required"@),
        asks_for_action("[ ! ] Action Required"@ + " | "@ + rest),
        asks_for_action("[ . ] Action Required"@ + " | "@ + rest),
        rest.len() > 0 && rest[0] != ' ' ==> !asks_for_action("[ ! ] Action Required"@ + rest)
            && !asks_for_action("[ . ] Action Required"@ + rest),
{
    reveal_strlit("[ ! ] Action Required");
    reveal_strlit("[ . ] Action Required");
    reveal_strlit(" | ");
    let a = "[ ! ] Action Required"@;
    let b = "[ . ] Action Required"@;
    let bar = " | "@;
    assert(a.subrange(0, a.len() as int) =~= a);
    assert(b.subrange(0, b.len() as int) =~= b);
    lemma_front(a, bar + rest);
    lemma_front(b, bar + rest);
    lemma_front(bar, rest);
    assert(a + bar + rest =~= a + (bar + rest));
    assert(b + bar + rest =~= b + (bar + rest));
    if rest.len() > 0 && rest[0] != ' ' {
        lemma_front(a, rest);
        lemma_front(b, rest);
        assert(a.len() == 21 && b.len() == 21 && bar.len() == 3 && bar[0] == ' ');
        assert(a[2] == '!' && b[2] == '.');
        if crate::text::has_prefix(rest, bar) {
            assert(rest.subrange(0, 3)[0] == rest[0]);
        }
        if crate::text::has_prefix(a + rest, b) {
            assert((a + rest).subrange(0, 21)[2] == '!');
        }
        if crate::text::has_prefix(b + rest, a) {
            assert((b + rest).subrange(0, 21)[2] == '.');
        }
    }
}

proof fn lemma_front(front: Seq<char>, rest: Seq<char>)
    ensures
        crate::text::has_prefix(front + rest, front),
        (front + rest).skip(front.len() as int) == rest,
{
    assert((front + rest).subrange(0, front.len() as int) =~= front);
    assert((front + rest).skip(front.len() as int) =~= rest);
}

/// A spinner is one of the ten frames of the common braille one, all in the braille block.
pub proof fn law_spinners_are_braille(c: char)
    ensures
        is_spinner(c) ==> 0x2800 <= c as u32 <= 0x28ff,
        is_spinner(c) <==> c as u32 == 0x280b || c as u32 == 0x2819 || c as u32 == 0x2839 || c
            as u32 == 0x2838 || c as u32 == 0x283c || c as u32 == 0x2834 || c as u32 == 0x2826 || c
            as u32 == 0x2827 || c as u32 == 0x2807 || c as u32 == 0x280f,
{
}

/// The white space is that of Unicode: six characters of ASCII, and nineteen others.
pub proof fn law_white_space_is_that_of_unicode(c: char)
    ensures
        (c as u32) < 128 ==> (white_space(c) <==> c as u32 == 32 || 9 <= c as u32 <= 13),
        128 <= c as u32 ==> (white_space(c) <==> c as u32 == 0x85 || c as u32 == 0xa0 || c as u32
            == 0x1680 || 0x2000 <= c as u32 <= 0x200a || c as u32 == 0x2028 || c as u32 == 0x2029
            || c as u32 == 0x202f || c as u32 == 0x205f || c as u32 == 0x3000),
{
}

/// Progress that is reported counts from then on for fifteen seconds, with its share where one was
/// given, capped at all of it. State zero ends it, and a state that is not known changes nothing.
pub proof fn law_progress_counts_until_it_times_out(
    activity: Activity,
    state: u8,
    value: Option<u8>,
    now: Instant,
)
    requires
        now.nanos + 15_000_000_000 <= u64::MAX,
    ensures
        ({
            let after = activity.with_progress(state, value, now);
            &&& state > 4 ==> after == activity
            &&& state == 0 ==> after.progress is None && after.progress_deadline is None
                && !after.reported_progress && after.progress_started is None
            &&& 1 <= state <= 4 ==> {
                &&& after.progress is Some && after.progress->0.state == state
                &&& value is None ==> after.progress->0.value is None
                &&& value is Some ==> after.progress->0.value is Some
                &&& value is Some && value->0 <= 100 ==> after.progress->0.value == value
                &&& value is Some && value->0 > 100 ==> after.progress->0.value == Some(100u8)
                &&& after.progress_deadline is Some
                &&& after.progress_deadline->0.nanos == now.nanos + 15_000_000_000
                &&& after.reported_progress <==> state == 1 || state == 3
                &&& after.active()
                &&& state != 4 && value is None ==> after.progress_started
                    == activity.progress_started
                &&& state == 4 || value is Some ==> after.progress_started is None
            }
            &&& after.command_running == activity.command_running && after.title == activity.title
        }),
{
}

/// Progress that is overdue is gone, and other progress stays.
pub proof fn law_overdue_progress_is_gone(activity: Activity, now: Instant)
    ensures
        ({
            let after = activity.expired(now);
            let due = activity.progress_deadline is Some && activity.progress_deadline->0.nanos
                <= now.nanos;
            &&& due ==> after.progress is None && after.progress_deadline is None
                && !after.reported_progress
            &&& !due ==> after == activity
            &&& after.command_running == activity.command_running
        }),
{
}

/// A pane is active while a command runs or progress counts; it reports work by its title or its
/// progress, unless the title waits.
pub proof fn law_work_is_reported_unless_it_waits(activity: Activity)
    ensures
        activity.command_running ==> activity.active(),
        activity.progress_deadline is Some ==> activity.active(),
        !activity.command_running && activity.progress_deadline is None ==> !activity.active(),
        activity.title == TitleActivity::Waiting ==> !activity.spec_reported_active(),
        activity.title == TitleActivity::Working ==> activity.spec_reported_active(),
        activity.title == TitleActivity::Idle ==> activity.spec_reported_active()
            == activity.reported_progress,
        !Activity::idle().active() && !Activity::idle().spec_reported_active(),
        Activity::idle().progress is None,
{
}

/// A command's start and end forget what titles and progress reported of the one before, and keep
/// the progress on show.
pub proof fn law_commands_forget_reports(activity: Activity, running: bool)
    ensures
        ({
            let after = activity.at_command(running);
            &&& after.command_running == running
            &&& after.title == TitleActivity::Idle && !after.reported_progress
            &&& after.progress == activity.progress && after.progress_deadline
                == activity.progress_deadline && after.progress_started == activity.progress_started
        }),
{
}

/// Progress shows its share; a pause without one shows as full, and other states without one as
/// unknown.
pub proof fn law_progress_shows_its_share(progress: Progress)
    ensures
        progress.value is Some ==> progress.spec_percentage() == progress.value,
        progress.value is None && progress.state == 4 ==> progress.spec_percentage() == Some(100u8),
        progress.value is None && progress.state != 4 ==> progress.spec_percentage() is None,
{
}

/// An animation of unknown progress runs from its first frame, and others do not run.
pub proof fn law_unknown_progress_bounces_from_its_first_frame(now: Instant, elapsed: Option<u64>)
    ensures
        forall|activity: &mut Activity|
            #![trigger call_ensures(Activity::progress_elapsed, (activity, now), elapsed)]
            call_ensures(Activity::progress_elapsed, (activity, now), elapsed) ==> {
                let after = *final(activity);
                let unknown = activity.progress is Some && activity.progress->0.value is None
                    && activity.progress->0.state != 4;
                &&& elapsed is Some <==> unknown
                &&& !unknown ==> after == *activity
                &&& unknown && activity.progress_started is None ==> elapsed == Some(0u64)
                    && after.progress_started == Some(now)
                &&& unknown && activity.progress_started is Some ==> after == *activity && (
                now.nanos >= activity.progress_started->0.nanos ==> elapsed->0 == now.nanos
                    - activity.progress_started->0.nanos)
            },
{
}

/// A flash lasts for a second and a fifth, and is drawn frame by frame until its end.
pub proof fn law_flashes_are_drawn_to_their_end(
    flash: &CompletionFlash,
    now: Instant,
    deadline: Option<Instant>,
)
    requires
        flash.fits(now),
        call_ensures(CompletionFlash::next_repaint, (flash, now), deadline),
    ensures
        flash.started is None ==> deadline is None,
        flash.started is Some ==> {
            let end = flash.started->0.nanos + 1_200_000_000;
            &&& now.nanos >= end ==> deadline is None
            &&& now.nanos < end ==> deadline is Some && now.nanos < deadline->0.nanos <= end
            &&& now.nanos < end ==> deadline->0.nanos == end || deadline->0.nanos == now.nanos
                + 16_666_667
        },
{
}

/// A flash that runs is not begun anew by another stop.
pub proof fn law_running_flashes_go_on(now: Instant)
    ensures
        forall|flash: &mut CompletionFlash|
            #![trigger call_ensures(CompletionFlash::start_if_idle, (flash, now), ())]
            flash.started is Some && flash.started->0.nanos + 1_200_000_000 <= u64::MAX
                && call_ensures(CompletionFlash::start_if_idle, (flash, now), ()) ==> {
                &&& now.nanos < flash.started->0.nanos + 1_200_000_000 ==> *final(flash) == *flash
                &&& now.nanos >= flash.started->0.nanos + 1_200_000_000 ==> final(flash).started
                    == Some(now)
            },
        forall|flash: &mut CompletionFlash|
            #![trigger call_ensures(CompletionFlash::start_if_idle, (flash, now), ())]
            flash.started is None && call_ensures(CompletionFlash::start_if_idle, (flash, now), ())
                ==> final(flash).started == Some(now),
{
}

/// A directory goes by the last component of its path, whatever stands before it, with a slash
/// behind it or without.
pub proof fn law_directories_go_by_their_last_component(before: Seq<char>, name: Seq<char>)
    requires
        before.len() == 0 || before.last() == '/',
        name.len() > 0,
        !name.contains('/'),
        name != seq!['.'],
        name != seq!['.', '.'],
    ensures
        name_of_directory(before + name) == Some(name),
        name_of_directory(before + name + seq!['/']) == Some(name),
        name_of_directory(before + name + seq!['/', '.']) == Some(name),
{
    let path = before + name;
    let n = path.len() as int;
    lemma_component(before, name, path);
    let slashed = path + seq!['/'];
    assert(slashed[n] == '/');
    lemma_same_component(path, slashed, n);
    let dotted = path + seq!['/', '.'];
    assert(dotted[n] == '/' && dotted[n + 1] == '.');
    lemma_same_component(path, dotted, n);
    assert(crate::presentation::component_start(dotted, n + 1) == n + 1);
    assert(crate::presentation::component_start(dotted, n + 2) == n + 1);
    assert(dotted.subrange(n + 1, n + 2) =~= seq!['.']);
    assert(crate::presentation::last_component(dotted, n + 2)
        == crate::presentation::last_component(dotted, n + 1));
}

proof fn lemma_component(before: Seq<char>, name: Seq<char>, path: Seq<char>)
    requires
        before.len() == 0 || before.last() == '/',
        name.len() > 0,
        !name.contains('/'),
        name != seq!['.'],
        path == before + name,
    ensures
        crate::presentation::last_component(path, path.len() as int) == Some(name),
{
    let n = path.len() as int;
    assert(path[n - 1] == name[name.len() - 1]);
    lemma_start(before, name, path, n);
    assert(path.subrange(before.len() as int, n) =~= name);
}

proof fn lemma_start(before: Seq<char>, name: Seq<char>, path: Seq<char>, end: int)
    requires
        before.len() == 0 || before.last() == '/',
        !name.contains('/'),
        path == before + name,
        before.len() <= end <= path.len(),
    ensures
        crate::presentation::component_start(path, end) == before.len(),
    decreases end,
{
    if end > before.len() {
        assert(path[end - 1] == name[end - 1 - before.len()]);
        lemma_start(before, name, path, end - 1);
    } else if end > 0 {
        assert(path[end - 1] == before.last());
    }
}

proof fn lemma_same_component(path: Seq<char>, longer: Seq<char>, end: int)
    requires
        0 <= end <= path.len() <= longer.len(),
        forall|i: int| 0 <= i < end ==> path[i] == #[trigger] longer[i],
    ensures
        crate::presentation::last_component(longer, end) == crate::presentation::last_component(
            path,
            end,
        ),
    decreases end,
{
    if end > 0 {
        assert(longer[end - 1] == path[end - 1]);
        if path[end - 1] == '/' {
            lemma_same_component(path, longer, end - 1);
        } else {
            lemma_same_start(path, longer, end);
            let start = crate::presentation::component_start(path, end);
            assert(longer.subrange(start, end) =~= path.subrange(start, end));
            lemma_same_component(path, longer, start);
        }
    }
}

proof fn lemma_same_start(path: Seq<char>, longer: Seq<char>, end: int)
    requires
        0 <= end <= path.len() <= longer.len(),
        forall|i: int| 0 <= i < end ==> path[i] == #[trigger] longer[i],
    ensures
        crate::presentation::component_start(longer, end) == crate::presentation::component_start(
            path,
            end,
        ),
        0 <= crate::presentation::component_start(path, end) <= end,
        end > 0 && path[end - 1] != '/' ==> crate::presentation::component_start(path, end) < end,
    decreases end,
{
    if end > 0 {
        assert(longer[end - 1] == path[end - 1]);
        if path[end - 1] != '/' {
            lemma_same_start(path, longer, end - 1);
        }
    }
}

/// A directory's label is shown where it has a name, on the focused pane only if the window lacks
/// the focus or the user wants it there.
pub proof fn law_labels_are_shown_on_other_panes(
    name: Option<String>,
    focused: bool,
    window_focused: bool,
    show_focused: bool,
    label: Option<DirectoryLabel>,
)
    requires
        call_ensures(DirectoryLabel::new, (name, focused, window_focused, show_focused), label),
    ensures
        name is None || name->0@.len() == 0 ==> label is None,
        name is Some && name->0@.len() > 0 && !focused ==> label is Some,
        name is Some && name->0@.len() > 0 && !window_focused ==> label is Some,
        name is Some && name->0@.len() > 0 && focused && window_focused ==> (label is Some
            <==> show_focused),
        label is Some ==> Some(label->0.name) == name && label->0.focused == focused,
{
}

/// The focused pane's label is large, others where the user wants it; activity shows on the others
/// alone, and a flash on the focused one only where it is wanted.
pub proof fn law_labels_tell_of_the_other_panes(
    label: &DirectoryLabel,
    wanted: bool,
    happens: bool,
    large: bool,
    active: bool,
    flash: bool,
)
    requires
        call_ensures(DirectoryLabel::large, (label, wanted), large),
        call_ensures(DirectoryLabel::shows_activity, (label, happens), active),
        call_ensures(DirectoryLabel::shows_flash, (label, happens, wanted), flash),
    ensures
        label.focused ==> large && !active && (flash <==> happens && wanted),
        !label.focused ==> (large <==> wanted) && (active <==> happens) && (flash <==> happens),
{
}

/// A tab's colour is the one that was assigned, else the platform's; its text is black on light
/// colours and white on dark ones, by how bright the eye sees them.
pub proof fn law_tab_text_is_readable(
    assigned: Option<[u8; 3]>,
    platform: [u8; 3],
    accent: TabAccent,
)
    requires
        call_ensures(TabAccent::new, (assigned, platform), accent),
    ensures
        assigned is Some ==> accent.background == assigned->0,
        assigned is None ==> accent.background == platform,
        accent.foreground@.len() == 3,
        accent.foreground@[0] == accent.foreground@[1] && accent.foreground@[1]
            == accent.foreground@[2],
        ({
            let color = accent.background;
            let light = 299 * color[0] + 587 * color[1] + 114 * color[2];
            &&& light > 127_500 ==> accent.foreground@[0] == 0
            &&& light <= 127_500 ==> accent.foreground@[0] == 255
        }),
{
}

/// Input for a session that takes it is written, other input waits behind what waits already, up to
/// sixteen megabytes, and none is lost: what is refused leaves the queue as it was.
pub proof fn law_input_waits_its_turn(
    bytes: Vec<u8>,
    direct: WriteOutcome,
    result: Result<(), InputError>,
)
    ensures
        forall|queue: &mut InputQueue|
            #![trigger call_ensures(InputQueue::enqueue, (queue, bytes, direct), result)]
            call_ensures(InputQueue::enqueue, (queue, bytes, direct), result) ==> {
                let before = queue.packets@;
                let after = final(queue).packets@;
                let total = packet_bytes(before) + bytes@.len();
                &&& bytes@.len() == 0 ==> result is Ok && after == before
                &&& bytes@.len() > 0 && before.len() > 0 && total <= 16 * 1024 * 1024 ==> result
                    is Ok && after == before.push(bytes)
                &&& bytes@.len() > 0 && before.len() > 0 && total > 16 * 1024 * 1024 ==> result
                    == Err::<(), InputError>(InputError::Full) && after == before
                &&& bytes@.len() > 0 && before.len() == 0 && direct == WriteOutcome::Written
                    ==> result is Ok && after == before
                &&& bytes@.len() > 0 && before.len() == 0 && direct == WriteOutcome::Failed
                    ==> result == Err::<(), InputError>(InputError::Session) && after == before
                &&& bytes@.len() > 0 && before.len() == 0 && direct == WriteOutcome::WouldBlock
                    && total <= 16 * 1024 * 1024 ==> result is Ok && after == before.push(bytes)
            },
{
}

/// What was written leaves the queue from its front; what would block stays, and a failure empties
/// the queue.
pub proof fn law_written_input_leaves_from_the_front(
    outcome: WriteOutcome,
    result: Result<bool, InputError>,
    i: int,
)
    ensures
        forall|queue: &mut InputQueue|
            #![trigger call_ensures(InputQueue::flushed, (queue, outcome), result)]
            queue.packets@.len() > 0 && call_ensures(InputQueue::flushed, (queue, outcome), result)
                ==> {
                let before = queue.packets@;
                let after = final(queue).packets@;
                &&& outcome == WriteOutcome::Written ==> result == Ok::<bool, InputError>(true)
                    && after.len() == before.len() - 1 && (0 <= i < after.len() ==> after[i]
                    == before[i + 1])
                &&& outcome == WriteOutcome::WouldBlock ==> result == Ok::<bool, InputError>(false)
                    && after == before
                &&& outcome == WriteOutcome::Failed ==> result is Err && after.len() == 0
            },
{
}

/// The size of a queue is that of its packets, and what waits is their bytes, one behind the other.
pub proof fn law_queues_count_their_packets(packets: Seq<Vec<u8>>, packet: Vec<u8>)
    ensures
        packet_bytes(Seq::<Vec<u8>>::empty()) == 0,
        packet_bytes(packets.push(packet)) == packet_bytes(packets) + packet@.len(),
        joined(packets).len() == packet_bytes(packets),
        joined(packets.push(packet)) == joined(packets) + packet@,
    decreases packets.len(),
{
    let all = packets.push(packet);
    if packets.len() == 0 {
        assert(all.drop_first() =~= Seq::<Vec<u8>>::empty());
        assert(all[0] == packet);
        assert(packet_bytes(all.drop_first()) == 0);
        assert(joined(all.drop_first()) =~= Seq::<u8>::empty());
        assert(joined(all) =~= joined(packets) + packet@);
    } else {
        let rest = packets.drop_first();
        law_queues_count_their_packets(rest, packet);
        assert(all.drop_first() =~= rest.push(packet));
        assert(all[0] == packets[0]);
        assert(joined(all) =~= joined(packets) + packet@);
    }
}

/// Output that is held back is shown after a second at the latest: each new batch has its own
/// second, and one that is over is not waited for again.
pub proof fn law_held_output_waits_for_a_second(
    output: SynchronizedOutput,
    held: bool,
    generation: u64,
    now: Instant,
)
    requires
        now.nanos + 1_000_000_000 <= u64::MAX,
    ensures
        ({
            let after = output.updated(held, generation, now);
            let fresh = output.deadline is None || output.generation != generation;
            &&& !held ==> after.deadline is None
            &&& held && fresh ==> after.generation == generation && after.deadline is Some
                && after.deadline->0.nanos == now.nanos + 1_000_000_000
            &&& held && !fresh && output.deadline->0.nanos > now.nanos ==> after == output
            &&& held && !fresh && output.deadline->0.nanos <= now.nanos ==> after.deadline is None
        }),
{
}

/// Held output is let go exactly when its second is over.
pub proof fn law_held_output_is_let_go(
    held: bool,
    generation: u64,
    now: Instant,
    result: (Option<Instant>, bool),
)
    ensures
        forall|output: &mut SynchronizedOutput|
            #![trigger call_ensures(SynchronizedOutput::update, (output, held, generation, now), result)]
            call_ensures(SynchronizedOutput::update, (output, held, generation, now), result) ==> {
                &&& result.0 == final(output).deadline
                &&& result.1 <==> held && output.generation == generation && output.deadline is Some
                    && output.deadline->0.nanos <= now.nanos
                &&& !held ==> result.0 is None
            },
{
}

/// A pane is saved with what it shows, and is told as changed exactly if something of it did.
pub proof fn law_saved_panes_follow_their_pane(
    directory: &str,
    title: &str,
    title_override: &Option<String>,
    changed: bool,
)
    ensures
        forall|saved: &mut SavedPane|
            #![trigger call_ensures(crate::pane::update_saved, (saved, directory, title, title_override), changed)]
            call_ensures(
                crate::pane::update_saved,
                (saved, directory, title, title_override),
                changed,
            ) ==> {
                let after = *final(saved);
                &&& after.working_directory@ == directory@
                &&& title@.len() == 0 ==> after.title is None
                &&& title@.len() > 0 ==> after.title is Some && after.title->0@ == title@
                &&& *title_override is None ==> after.title_override is None
                &&& *title_override is Some ==> after.title_override is Some
                    && after.title_override->0@ == (*title_override)->0@
                &&& saved.working_directory@ != directory@ ==> changed
                &&& changed ==> saved.working_directory@ != after.working_directory@ || chars_of(
                    saved.title,
                ) != chars_of(after.title) || chars_of(saved.title_override) != chars_of(
                    after.title_override,
                )
                &&& !changed ==> after == *saved
            },
{
}

} // verus!
