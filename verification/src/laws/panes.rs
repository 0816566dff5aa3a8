//! What a pane's events tell its user.
use crate::formats::reported_directory;
use crate::panes::{
    drain_all, drain_end, drain_step, finish_body, holds_after_exit, DrainContext, DrainModel,
    Drained, NotifyOnCommandFinish, PaneEvent, PaneModel, PaneState,
};
use crate::text::{decimal, lossy_text};
use crate::time::Instant;
use vstd::prelude::*;

verus! {

/// Under the policy `Never` the end of a command adds no notice and leaves the mark of the unseen
/// as it was, with or without the focus.
pub proof fn law_silenced_commands_end_unnoticed(
    pane: PaneModel,
    drained: DrainModel,
    exit_code: Option<i32>,
    context: DrainContext,
    now: Instant,
)
    requires
        context.notify_on_command_finish == NotifyOnCommandFinish::Never,
    ensures
        ({
            let (after, told) = drain_step(
                pane,
                drained,
                PaneEvent::CommandEnd { exit_code },
                context,
                now,
            );
            &&& after.unseen == pane.unseen
            &&& told.notices == drained.notices
            &&& after.running is None
        }),
{
}

/// A command that ran as long as it takes marks its pane: under `Always` in either case, under
/// `Unfocused` exactly if the pane lacks the focus. The pane is then marked as unseen exactly if it
/// lacks the focus, and a running program's notice, with the title "Command finished", is the last
/// one exactly if the system shows them.
pub proof fn law_long_commands_are_announced(
    pane: PaneModel,
    drained: DrainModel,
    exit_code: Option<i32>,
    context: DrainContext,
    now: Instant,
    start: Instant,
)
    requires
        pane.running == Some(start),
        now.nanos - start.nanos >= context.notify_after,
        context.notify_on_command_finish == NotifyOnCommandFinish::Always || (
        context.notify_on_command_finish == NotifyOnCommandFinish::Unfocused && !context.focused),
    ensures
        ({
            let (after, told) = drain_step(
                pane,
                drained,
                PaneEvent::CommandEnd { exit_code },
                context,
                now,
            );
            &&& after.unseen == !context.focused
            &&& context.live && context.notify_system ==> told.notices.len()
                == drained.notices.len() + 1 && told.notices.last().0 == "Command finished"@
            &&& !(context.live && context.notify_system) ==> told.notices == drained.notices
            &&& forall|i: int|
                0 <= i < drained.notices.len() ==> told.notices[i] == #[trigger] drained.notices[i]
        }),
{
}

/// A command that ran too short, one that is not known to have begun, and under `Unfocused` one of
/// the focused pane, ends unnoticed.
pub proof fn law_other_commands_are_not_announced(
    pane: PaneModel,
    drained: DrainModel,
    exit_code: Option<i32>,
    context: DrainContext,
    now: Instant,
)
    requires
        pane.running is None || (now.nanos - pane.running->0.nanos < context.notify_after) || (
        context.notify_on_command_finish == NotifyOnCommandFinish::Unfocused && context.focused),
        pane.running is Some && now.nanos < pane.running->0.nanos ==> context.notify_after > 0,
    ensures
        ({
            let (after, told) = drain_step(
                pane,
                drained,
                PaneEvent::CommandEnd { exit_code },
                context,
                now,
            );
            after.unseen == pane.unseen && told.notices == drained.notices
        }),
{
}

/// The notice of a command says where it ran and with which code it ended; one without a code
/// counts as a success.
pub proof fn law_notices_tell_the_directory_and_the_code(cwd: Seq<char>, code: i32)
    ensures
        finish_body(cwd, None) == finish_body(cwd, Some(0)),
        code >= 0 ==> finish_body(cwd, Some(code)) == cwd + " — exited "@ + decimal(code as int),
        code < 0 ==> finish_body(cwd, Some(code)) == cwd + " — exited -"@ + decimal(
            -(code as int),
        ),
{
    reveal_strlit(" — exited ");
    reveal_strlit(" — exited -");
    assert(finish_body(cwd, Some(code)) =~= cwd + " — exited "@ + crate::text::signed_decimal(
        code as int,
    ));
    if code < 0 {
        assert(finish_body(cwd, Some(code)) =~= cwd + " — exited -"@ + decimal(-(code as int)));
    }
}

/// A program's own notice marks the pane as unseen exactly if it lacks the focus, and is handed on
/// word for word while the pane lives.
pub proof fn law_notifications_are_handed_on(
    pane: PaneModel,
    drained: DrainModel,
    title: Vec<u8>,
    body: Vec<u8>,
    context: DrainContext,
    now: Instant,
)
    ensures
        ({
            let (after, told) = drain_step(
                pane,
                drained,
                PaneEvent::Notification { title, body },
                context,
                now,
            );
            &&& after == (PaneModel { unseen: after.unseen, ..pane })
            &&& after.unseen <==> !context.focused
            &&& context.live ==> told.notices.len() == drained.notices.len() + 1
                && told.notices.last() == (lossy_text(title@), lossy_text(body@))
            &&& !context.live ==> told.notices == drained.notices
            &&& told.content_changed
        }),
{
}

/// A bell marks a pane that lacks the focus, and takes no mark away.
pub proof fn law_bells_mark_panes_without_the_focus(
    pane: PaneModel,
    drained: DrainModel,
    context: DrainContext,
    now: Instant,
)
    ensures
        ({
            let (after, told) = drain_step(pane, drained, PaneEvent::Bell, context, now);
            &&& !context.focused ==> after.unseen
            &&& context.focused ==> after.unseen == pane.unseen
            &&& after == (PaneModel { unseen: after.unseen, ..pane })
            &&& told == (DrainModel { content_changed: true, ..drained })
        }),
{
}

/// A command runs from its start, at the time of the event, to its end.
pub proof fn law_commands_run_from_start_to_end(
    pane: PaneModel,
    drained: DrainModel,
    exit_code: Option<i32>,
    context: DrainContext,
    now: Instant,
    later: Instant,
)
    ensures
        ({
            let (begun, told) = drain_step(pane, drained, PaneEvent::CommandStart, context, now);
            let (ended, _) = drain_step(
                begun,
                told,
                PaneEvent::CommandEnd { exit_code },
                context,
                later,
            );
            &&& begun.running == Some(now)
            &&& begun.unseen == pane.unseen && begun.title == pane.title && begun.cwd == pane.cwd
            &&& told.notices == drained.notices && told.stopped == drained.stopped
            &&& ended.running is None
            &&& ended.title == pane.title && ended.exited == pane.exited
        }),
{
}

/// A pane shows the title that its program gave last, and the window is told exactly if that is
/// another one; a title alone is no change of the contents.
pub proof fn law_titles_are_shown(
    pane: PaneModel,
    drained: DrainModel,
    bytes: Vec<u8>,
    context: DrainContext,
    now: Instant,
)
    ensures
        ({
            let (after, told) = drain_step(pane, drained, PaneEvent::Title(bytes), context, now);
            &&& pane.title_override is None ==> after.title == lossy_text(bytes@) && (
            told.title_changed <==> drained.title_changed || after.title != pane.title)
            &&& pane.title_override is Some ==> after.title == pane.title && told.title_changed
                == drained.title_changed
            &&& told.content_changed == drained.content_changed
            &&& after.unseen == pane.unseen && after.running == pane.running && after.exited
                == pane.exited
            &&& told.notices == drained.notices
        }),
{
}

/// An exit ends the pane's program and says so in its title and its message.
pub proof fn law_exits_are_told(
    pane: PaneModel,
    drained: DrainModel,
    code: u32,
    signal: Option<String>,
    runtime: u64,
    context: DrainContext,
    now: Instant,
)
    ensures
        ({
            let (after, told) = drain_step(
                pane,
                drained,
                PaneEvent::Exited { code, signal, runtime },
                context,
                now,
            );
            &&& after.exited
            &&& after.running is None
            &&& signal is None ==> after.title == "Exited "@ + decimal(code as int)
            &&& signal is Some ==> after.title == "Exited "@ + decimal(code as int) + " ("@
                + signal->0@ + ")"@
            &&& after.exit_message == Some(after.title + " — press any key to close"@)
            &&& told.close ==> context.live && !context.wait_after_command
            &&& context.live && !context.wait_after_command && runtime > context.abnormal_runtime
                * 1_000_000 + 999_999 ==> told.close
            &&& runtime <= context.abnormal_runtime * 1_000_000 ==> !told.close
            &&& after.unseen == pane.unseen
            &&& told.notices == drained.notices
        }),
{
    reveal_strlit(")");
    reveal_strlit("Exited ");
    reveal_strlit(" (");
    let (after, told) = drain_step(
        pane,
        drained,
        PaneEvent::Exited { code, signal, runtime },
        context,
        now,
    );
    if signal is None {
        assert(after.title =~= "Exited "@ + decimal(code as int));
    } else {
        assert(after.title =~= "Exited "@ + decimal(code as int) + " ("@ + signal->0@ + ")"@);
    }
}

/// A pane is held open behind its program where the user asked for it, and where the program ended
/// too soon to be read.
pub proof fn law_short_runs_are_held(abnormal_runtime: u64, millis: u64, rest: u64)
    requires
        rest < 1_000_000,
        millis * 1_000_000 + rest <= u64::MAX,
    ensures
        holds_after_exit(true, abnormal_runtime, (millis * 1_000_000 + rest) as u64),
        holds_after_exit(false, abnormal_runtime, (millis * 1_000_000 + rest) as u64) <==> millis
            <= abnormal_runtime,
{
}

/// Clipboard requests and errors are collected in their order, and nothing else of the pane
/// changes.
pub proof fn law_requests_and_errors_are_collected(
    pane: PaneModel,
    drained: DrainModel,
    request: usize,
    error: String,
    context: DrainContext,
    now: Instant,
)
    ensures
        ({
            let (after, told) = drain_step(
                pane,
                drained,
                PaneEvent::Clipboard(request),
                context,
                now,
            );
            let (failed, reported) = drain_step(
                pane,
                drained,
                PaneEvent::Error(error),
                context,
                now,
            );
            let (same, seen) = drain_step(pane, drained, PaneEvent::Other, context, now);
            &&& after == pane && failed == pane && same == pane
            &&& told.clipboard == drained.clipboard + seq![request]
            &&& told.errors == drained.errors
            &&& reported.errors == drained.errors + seq![error@]
            &&& reported.clipboard == drained.clipboard
            &&& told.content_changed && reported.content_changed && seen.content_changed
            &&& seen == (DrainModel { content_changed: true, ..drained })
        }),
{
    let (after, told) = drain_step(pane, drained, PaneEvent::Clipboard(request), context, now);
    let (failed, reported) = drain_step(pane, drained, PaneEvent::Error(error), context, now);
    assert(told.clipboard =~= drained.clipboard + seq![request]);
    assert(reported.errors =~= drained.errors + seq![error@]);
}

/// Progress is followed where the user shows it; where not, a report counts as the end of it. The
/// pane counts as stopped exactly if it was active before and is not after.
pub proof fn law_progress_stops_when_activity_ends(
    pane: PaneModel,
    drained: DrainModel,
    state: u8,
    value: Option<u8>,
    context: DrainContext,
    now: Instant,
)
    ensures
        ({
            let (after, told) = drain_step(
                pane,
                drained,
                PaneEvent::Progress { state, value },
                context,
                now,
            );
            let (cleared, _) = drain_step(
                pane,
                drained,
                PaneEvent::Progress { state: 0, value },
                context,
                now,
            );
            &&& !context.progress_style ==> after == cleared
            &&& told.stopped <==> drained.stopped || (pane.activity.active()
                && !after.activity.active())
            &&& after == (PaneModel { activity: after.activity, ..pane })
            &&& told.notices == drained.notices
        }),
{
}

/// Draining some events and then one more is draining them all; with no events nothing changes.
pub proof fn law_events_are_drained_in_order(
    pane: PaneModel,
    events: Seq<PaneEvent>,
    event: PaneEvent,
    context: DrainContext,
    now: Instant,
)
    ensures
        ({
            let (before, told) = drain_all(pane, events, context, now);
            drain_all(pane, events.push(event), context, now) == drain_step(
                before,
                told,
                event,
                context,
                now,
            )
        }),
        ({
            let (same, told) = drain_all(pane, Seq::empty(), context, now);
            &&& same == pane
            &&& !told.content_changed && !told.title_changed && !told.close && !told.stopped
            &&& told.notices.len() == 0 && told.clipboard.len() == 0 && told.errors.len() == 0
        }),
{
    assert(events.push(event).drop_last() =~= events);
}

/// Of a pane that did not exit the end of the events changes nothing. One that did runs nothing and
/// shows no activity, and is told as stopped if it showed some.
pub proof fn law_the_end_of_events_settles_exited_panes(pane: PaneModel, drained: DrainModel)
    ensures
        ({
            let (after, told) = drain_end(pane, drained);
            &&& !pane.exited ==> after == pane && told == drained
            &&& pane.exited ==> after.running is None && !after.activity.active()
            &&& pane.exited && pane.activity.active() ==> told.stopped
            &&& !pane.activity.active() ==> told.stopped == drained.stopped
            &&& told.notices == drained.notices && told.close == drained.close
            &&& after.title == pane.title && after.unseen == pane.unseen && after.exit_message
                == pane.exit_message
        }),
{
}

/// Under the policy `Never` only a program's own notifications give notices, whatever else happens.
pub proof fn law_silenced_panes_give_only_their_own_notices(
    pane: PaneModel,
    events: Seq<PaneEvent>,
    context: DrainContext,
    now: Instant,
)
    requires
        context.notify_on_command_finish == NotifyOnCommandFinish::Never,
        forall|i: int| 0 <= i < events.len() ==> !((#[trigger] events[i]) is Notification),
    ensures
        drain_all(pane, events, context, now).1.notices.len() == 0,
        (forall|i: int| 0 <= i < events.len() ==> !((#[trigger] events[i]) is Bell)) ==> drain_all(
            pane,
            events,
            context,
            now,
        ).0.unseen == pane.unseen,
    decreases events.len(),
{
    if events.len() > 0 {
        let front = events.drop_last();
        assert(!(events[events.len() - 1] is Notification));
        assert forall|i: int| 0 <= i < front.len() implies !((#[trigger] front[i])
            is Notification) by {
            assert(front[i] == events[i]);
        }
        if forall|i: int| 0 <= i < events.len() ==> !((#[trigger] events[i]) is Bell) {
            assert(!(events[events.len() - 1] is Bell));
            assert forall|i: int| 0 <= i < front.len() implies !((#[trigger] front[i]) is Bell) by {
                assert(front[i] == events[i]);
            }
        }
        law_silenced_panes_give_only_their_own_notices(pane, front, context, now);
    }
}

/// What a pane drains is what its events say, one by one, and of a silenced command no notice comes
/// out.
pub proof fn law_drained_commands_are_announced_by_policy(
    events: &Vec<PaneEvent>,
    context: &DrainContext,
    now: Instant,
    drained: Drained,
)
    requires
        events@.len() == 1,
        events@[0] is CommandEnd,
    ensures
        forall|pane: &mut PaneState|
            #![trigger call_ensures(PaneState::drain, (pane, events, context, now), drained)]
            call_ensures(PaneState::drain, (pane, events, context, now), drained) ==> {
                let after = *final(pane);
                let long = pane.running is Some && now.nanos >= pane.running->0.nanos && now.nanos
                    - pane.running->0.nanos >= context.notify_after;
                let policy = context.notify_on_command_finish;
                &&& policy == NotifyOnCommandFinish::Never ==> drained.notices@.len() == 0
                    && after.unseen == pane.unseen
                &&& policy == NotifyOnCommandFinish::Unfocused && context.focused
                    ==> drained.notices@.len() == 0 && after.unseen == pane.unseen
                &&& long && (policy == NotifyOnCommandFinish::Always || (policy
                    == NotifyOnCommandFinish::Unfocused && !context.focused)) ==> after.unseen
                    == !context.focused && drained.notices@.len() == if context.live
                    && context.notify_system {
                    1int
                } else {
                    0
                }
                &&& after.running is None
            },
{
    assert forall|pane: &mut PaneState|
        #![trigger call_ensures(PaneState::drain, (pane, events, context, now), drained)]
        call_ensures(PaneState::drain, (pane, events, context, now), drained) implies {
        let after = *final(pane);
        let long = pane.running is Some && now.nanos >= pane.running->0.nanos && now.nanos
            - pane.running->0.nanos >= context.notify_after;
        let policy = context.notify_on_command_finish;
        &&& policy == NotifyOnCommandFinish::Never ==> drained.notices@.len() == 0 && after.unseen
            == pane.unseen
        &&& policy == NotifyOnCommandFinish::Unfocused && context.focused
            ==> drained.notices@.len() == 0 && after.unseen == pane.unseen
        &&& long && (policy == NotifyOnCommandFinish::Always || (policy
            == NotifyOnCommandFinish::Unfocused && !context.focused)) ==> after.unseen
            == !context.focused && drained.notices@.len() == if context.live
            && context.notify_system {
            1int
        } else {
            0
        }
        &&& after.running is None
    } by {
        assert(events@.drop_last() =~= Seq::<PaneEvent>::empty());
        assert(events@.last() == events@[0]);
        let (before, told) = drain_all((*pane)@, events@.drop_last(), *context, now);
        assert(before == (*pane)@);
        let (after, all) = drain_all((*pane)@, events@, *context, now);
        assert((after, all) == drain_step(before, told, events@[0], *context, now));
        assert(((*final(pane))@, drained@) == drain_end(after, all));
        assert(drained@.notices.len() == drained.notices@.len());
        assert((*final(pane))@.unseen == final(pane).unseen);
    }
}

/// A new pane has its directory and title, runs nothing and has nothing unseen.
pub proof fn law_new_panes_are_quiet(
    cwd: String,
    title: String,
    title_override: Option<String>,
    pane: PaneState,
)
    requires
        call_ensures(PaneState::new, (cwd, title, title_override), pane),
    ensures
        pane.cwd == cwd && pane.title == title && pane.title_override == title_override,
        pane.running is None && !pane.unseen && !pane.exited && pane.exit_message is None,
        !pane.activity.active(),
{
}

/// A pane moves to a directory that was reported, and is told as moved exactly if that is another.
pub proof fn law_panes_follow_reported_directories(value: &str, moved: bool)
    ensures
        forall|pane: &mut PaneState|
            #![trigger call_ensures(PaneState::directory_reported, (pane, value), moved)]
            call_ensures(PaneState::directory_reported, (pane, value), moved) ==> {
                let after = *final(pane);
                &&& moved <==> after.cwd@ != pane.cwd@
                &&& reported_directory(value@) is Some ==> after.cwd@ == reported_directory(
                    value@,
                )->0
                &&& reported_directory(value@) is None ==> after.cwd@ == pane.cwd@
                &&& after.title@ == pane.title@ && after.unseen == pane.unseen && after.running
                    == pane.running && after.exited == pane.exited
            },
{
    assert forall|pane: &mut PaneState|
        #![trigger call_ensures(PaneState::directory_reported, (pane, value), moved)]
        call_ensures(PaneState::directory_reported, (pane, value), moved) implies {
        let after = *final(pane);
        &&& moved <==> after.cwd@ != pane.cwd@
        &&& reported_directory(value@) is Some ==> after.cwd@ == reported_directory(value@)->0
        &&& reported_directory(value@) is None ==> after.cwd@ == pane.cwd@
        &&& after.title@ == pane.title@ && after.unseen == pane.unseen && after.running
            == pane.running && after.exited == pane.exited
    } by {
        let model = (*final(pane))@;
        assert(model.cwd == final(pane).cwd@ && model.title == final(pane).title@);
        assert(model.unseen == final(pane).unseen && model.running == final(pane).running);
        assert(model.exited == final(pane).exited);
        assert((*pane)@.title == pane.title@);
    }
}

} // verus!
