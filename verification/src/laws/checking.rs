//! What the application's own check asks of its windows.
use crate::geometry::Pos;
use crate::smoke::{
    Happening, NativeEvent, Observation, Replay, Smoke, SmokeAction, SmokeFailure, SmokeStep, Stage,
};
use crate::time::Instant;
use vstd::prelude::*;

verus! {

/// The frames since some count, none where the count was reset.
pub open spec fn since(now: u64, before: u64) -> int {
    if now > before {
        now - before
    } else {
        0
    }
}

/// The check fails exactly where what it sees is wrong for its stage.
pub proof fn law_checks_fail_for_what_they_see(smoke: Smoke, seen: Observation)
    ensures
        ({
            let verdict = smoke.verdict(seen);
            let failed = |failure: SmokeFailure| verdict == SmokeStep::Fail(failure);
            &&& failed(SmokeFailure::WideCell) <==> smoke.stage == Stage::Greeting && seen.frames
                > 0 && seen.greeted && !seen.wide_cell
            &&& failed(SmokeFailure::Directory) <==> smoke.stage == Stage::Shells
                && seen.all_greeted && !seen.all_in_place
            &&& failed(SmokeFailure::NotRetained) <==> smoke.stage == Stage::Closed && (
            seen.closed_in_tab || !seen.closed_lives)
            &&& failed(SmokeFailure::NotRestored) <==> smoke.stage == Stage::Restored && !(
            seen.closed_in_tab && seen.closed_lives && seen.closed_greeted)
            &&& failed(SmokeFailure::NoAnimation) <==> smoke.stage == Stage::Progress
                && !smoke.offscreen && seen.frames <= smoke.idle_frames
            &&& failed(SmokeFailure::HiddenTitles) <==> smoke.stage == Stage::MaskedTitles
                && !seen.titles_arrived
            &&& failed(SmokeFailure::HiddenRedraws) <==> smoke.stage == Stage::MaskedTitles
                && seen.titles_arrived && since(seen.frames, smoke.idle_frames) > 4
            &&& failed(SmokeFailure::LabelTitles) <==> smoke.stage == Stage::LabelTitles && (
            !seen.titles_arrived || since(seen.frames, smoke.header_frames) < 10)
            &&& failed(SmokeFailure::LabelRebuilds) <==> smoke.stage == Stage::LabelTitles
                && seen.titles_arrived && since(seen.frames, smoke.header_frames) >= 10 && since(
                seen.prepares,
                smoke.header_prepares,
            ) > 8
            &&& failed(SmokeFailure::ActiveRedraws) <==> smoke.stage == Stage::TitlesCounted && (
            seen.frames > smoke.active_title_frames || seen.prepares > smoke.active_title_prepares)
            &&& failed(SmokeFailure::ActiveTitles) <==> smoke.stage == Stage::TitlesCounted
                && seen.frames <= smoke.active_title_frames && seen.prepares
                <= smoke.active_title_prepares && !seen.titles_arrived
            &&& failed(SmokeFailure::AppErrors) <==> smoke.stage == Stage::Idle && (!smoke.hover
                || seen.pointer_over_pane) && seen.errors
            &&& failed(SmokeFailure::IdleRedraws) <==> smoke.stage == Stage::Idle && (!smoke.hover
                || seen.pointer_over_pane) && !seen.errors && since(seen.frames, smoke.idle_frames)
                > 4
        }),
{
}

/// Each action is taken in its own stage, once what it waits for is there; the check passes when an
/// idle window stays idle.
pub proof fn law_checks_act_when_they_can(smoke: Smoke, seen: Observation)
    ensures
        ({
            let verdict = smoke.verdict(seen);
            let acts = |action: SmokeAction| verdict == SmokeStep::Act(action);
            &&& acts(SmokeAction::Type) <==> smoke.stage == Stage::Greeting && seen.frames > 0
                && seen.greeted && seen.wide_cell
            &&& acts(SmokeAction::Arrange) <==> smoke.stage == Stage::Echo && seen.echoed
            &&& acts(SmokeAction::Close) <==> smoke.stage == Stage::Shells && seen.all_greeted
                && seen.all_in_place && seen.all_progressed && smoke.closed is None
            &&& acts(SmokeAction::Save) <==> smoke.stage == Stage::Shells && seen.all_greeted
                && seen.all_in_place && seen.all_progressed && smoke.closed is Some
            &&& acts(SmokeAction::Picture) <==> smoke.stage == Stage::Picture && !seen.pictured
            &&& acts(SmokeAction::Inspect) <==> smoke.stage == Stage::Picture && seen.pictured
            &&& acts(SmokeAction::Undo) <==> smoke.stage == Stage::Closed && !seen.closed_in_tab
                && seen.closed_lives
            &&& acts(SmokeAction::MaskTitles) <==> smoke.stage == Stage::Progress && (
            smoke.offscreen || seen.frames > smoke.idle_frames)
            &&& acts(SmokeAction::ShowTitles) <==> smoke.stage == Stage::MaskedTitles
                && seen.titles_arrived && since(seen.frames, smoke.idle_frames) <= 4
            &&& acts(SmokeAction::PrepareTitles) <==> smoke.stage == Stage::LabelTitles
                && seen.titles_arrived && since(seen.frames, smoke.header_frames) >= 10 && since(
                seen.prepares,
                smoke.header_prepares,
            ) <= 8
            &&& acts(SmokeAction::Draw) <==> smoke.stage == Stage::TitlesSettled && !seen.prepared
            &&& acts(SmokeAction::SendTitles) <==> smoke.stage == Stage::TitlesSettled
                && seen.prepared
            &&& acts(SmokeAction::EndTitles) <==> smoke.stage == Stage::TitlesCounted
                && seen.frames <= smoke.active_title_frames && seen.prepares
                <= smoke.active_title_prepares && seen.titles_arrived
            &&& verdict == SmokeStep::Passed <==> smoke.stage == Stage::Idle && (!smoke.hover
                || seen.pointer_over_pane) && !seen.errors && since(seen.frames, smoke.idle_frames)
                <= 4
        }),
{
}

/// A stage ends with its action, or with what it waits for, and a failure ends none.
pub proof fn law_stages_end_with_their_action(smoke: Smoke, seen: Observation)
    ensures
        ({
            let verdict = smoke.verdict(seen);
            let next = smoke.next_stage(seen);
            &&& verdict is Fail || verdict is Passed ==> next == smoke.stage
            &&& verdict == SmokeStep::Act(SmokeAction::Picture) || verdict == SmokeStep::Act(
                SmokeAction::Draw,
            ) ==> next == smoke.stage
            &&& next != smoke.stage ==> match smoke.stage {
                Stage::Greeting => next == Stage::Echo,
                Stage::Echo => next == Stage::Shells,
                Stage::Shells => (next == Stage::Closed && smoke.closed is None) || (next
                    == Stage::Picture && smoke.closed is Some),
                Stage::Closed => next == Stage::Restored,
                Stage::Restored => next == Stage::Shells,
                Stage::Picture => next == Stage::Progress,
                Stage::Progress => next == Stage::MaskedTitles,
                Stage::MaskedTitles => next == Stage::LabelTitles,
                Stage::LabelTitles => next == Stage::TitlesReady,
                Stage::TitlesReady => next == Stage::TitlesSettled && seen.titles_arrived,
                Stage::TitlesSettled => next == Stage::TitlesSent,
                Stage::TitlesSent => next == Stage::TitlesCounted && seen.titles_arrived,
                Stage::TitlesCounted => next == Stage::Idle,
                Stage::Idle => false,
            }
            &&& verdict is Act && verdict != SmokeStep::Act(SmokeAction::Picture) && verdict
                != SmokeStep::Act(SmokeAction::Draw) ==> next != smoke.stage
            &&& smoke.stage == Stage::Restored && verdict == SmokeStep::Wait ==> next
                == Stage::Shells
            &&& (smoke.stage == Stage::TitlesReady || smoke.stage == Stage::TitlesSent)
                && seen.titles_arrived ==> next != smoke.stage
        }),
{
}

/// The check waits after what takes time: a tenth of a second for a picture, two seconds for
/// progress, three for titles, and a second and a half for an idle window.
pub proof fn law_checks_wait_for_what_takes_time(smoke: Smoke, seen: Observation)
    ensures
        ({
            let verdict = smoke.verdict(seen);
            let pause = smoke.pause(seen);
            &&& verdict == SmokeStep::Act(SmokeAction::Picture) ==> pause == Some(100_000_000u64)
            &&& verdict == SmokeStep::Act(SmokeAction::Inspect) ==> pause == Some(2_000_000_000u64)
            &&& verdict == SmokeStep::Act(SmokeAction::MaskTitles) || verdict == SmokeStep::Act(
                SmokeAction::ShowTitles,
            ) ==> pause == Some(3_000_000_000u64)
            &&& verdict == SmokeStep::Act(SmokeAction::PrepareTitles) ==> pause == Some(
                500_000_000u64,
            )
            &&& verdict == SmokeStep::Act(SmokeAction::EndTitles) ==> pause == Some(
                1_500_000_000u64,
            )
            &&& smoke.stage == Stage::TitlesReady && seen.titles_arrived ==> pause == Some(
                200_000_000u64,
            )
            &&& smoke.stage == Stage::TitlesSent && seen.titles_arrived ==> pause == Some(
                300_000_000u64,
            )
            &&& smoke.stage == Stage::Idle && verdict == SmokeStep::Wait ==> pause == Some(
                1_500_000_000u64,
            )
            &&& verdict is Fail || verdict is Passed ==> pause is None
        }),
{
}

/// What happens is counted while the check watches for needless work, each kind by itself.
pub proof fn law_happenings_are_counted_apart(event: Happening, other: Happening)
    ensures
        event != other ==> event.spec_index() != other.spec_index(),
        0 <= event.spec_index() < 14,
        forall|smoke: &mut Smoke|
            #![trigger call_ensures(Smoke::record, (smoke, event), ())]
            smoke.events@.len() == 14 && smoke.events@[event.spec_index()] < u64::MAX
                && call_ensures(Smoke::record, (smoke, event), ()) ==> {
                let after = *final(smoke);
                let watches = smoke.stage == Stage::Idle || smoke.stage == Stage::MaskedTitles
                    || smoke.stage == Stage::TitlesSent || smoke.stage == Stage::TitlesCounted;
                &&& !watches ==> after.events@ == smoke.events@
                &&& watches ==> after.events@[event.spec_index()]
                    == smoke.events@[event.spec_index()] + 1
                &&& watches && event != other ==> after.events@[other.spec_index()]
                    == smoke.events@[other.spec_index()]
                &&& after == (Smoke { events: after.events, ..*smoke })
            },
{
}

/// Input makes an idle check begin anew, and changes no other stage.
pub proof fn law_input_restarts_the_idle_check(frames: u64, now: Instant, position: Option<Pos>)
    requires
        now.nanos + 1_500_000_000 <= u64::MAX,
    ensures
        forall|smoke: &mut Smoke|
            #![trigger call_ensures(Smoke::input, (smoke, frames, now), ())]
            call_ensures(Smoke::input, (smoke, frames, now), ()) ==> {
                let after = *final(smoke);
                &&& smoke.stage == Stage::Idle ==> after.idle_frames == frames && after.next.nanos
                    == now.nanos + 1_500_000_000
                &&& smoke.stage != Stage::Idle ==> after == *smoke
                &&& after == (Smoke { idle_frames: after.idle_frames, next: after.next, ..*smoke })
            },
        forall|smoke: &mut Smoke|
            #![trigger call_ensures(Smoke::pointer, (smoke, position, frames, now), ())]
            call_ensures(Smoke::pointer, (smoke, position, frames, now), ()) ==> {
                let after = *final(smoke);
                let stays = match (smoke.pointer, position) {
                    (Some(a), Some(b)) => a.x.equals(b.x) && a.y.equals(b.y),
                    (None, None) => true,
                    _ => false,
                };
                &&& after.pointer == position
                &&& smoke.stage == Stage::Idle && smoke.hover && !stays ==> after.idle_frames
                    == frames && after.next.nanos == now.nanos + 1_500_000_000
                &&& smoke.stage != Stage::Idle || !smoke.hover || stays ==> after == (Smoke {
                    pointer: position,
                    ..*smoke
                })
            },
{
}

/// The check is over behind its deadline, and looks again when its pause is over.
pub proof fn law_checks_end_at_their_deadline(smoke: &Smoke, now: Instant, due: Result<bool, ()>)
    requires
        call_ensures(Smoke::is_due, (smoke, now), due),
    ensures
        due is Err <==> now.nanos > smoke.deadline.nanos,
        due matches Ok(looks) ==> (looks <==> now.nanos >= smoke.next.nanos),
{
}

/// A new check greets its window and has forty-five seconds.
pub proof fn law_new_checks_have_their_time(
    offscreen: bool,
    hover: bool,
    now: Instant,
    smoke: Smoke,
)
    requires
        now.nanos + 45_000_000_000 <= u64::MAX,
        call_ensures(Smoke::new, (offscreen, hover, now), smoke),
    ensures
        smoke.stage == Stage::Greeting,
        smoke.deadline.nanos == now.nanos + 45_000_000_000,
        smoke.next == now,
        smoke.offscreen == offscreen && smoke.hover == hover,
{
}

/// The user's own input is told from what the system makes up.
pub proof fn law_input_is_what_the_user_does(event: NativeEvent)
    ensures
        ({
            let (happening, input) = event.spec_happening();
            &&& input <==> event == (NativeEvent::CursorMoved { changed: true }) || event == (
            NativeEvent::Keyboard { synthetic: false }) || event == NativeEvent::MouseButton
                || event == NativeEvent::MouseWheel || event == NativeEvent::Touch
            &&& happening == Happening::CursorMoved <==> event == (NativeEvent::CursorMoved {
                changed: true,
            })
            &&& happening == Happening::CursorUnchanged <==> event == (NativeEvent::CursorMoved {
                changed: false,
            })
            &&& happening == Happening::UserInput <==> input && !(event is CursorMoved)
            &&& happening == Happening::CursorLeft <==> event == NativeEvent::CursorLeft
            &&& happening == Happening::Redraw <==> event == NativeEvent::Redraw
            &&& happening == Happening::Resize <==> event == NativeEvent::Resized
            &&& happening == Happening::Focus <==> event == NativeEvent::Focused
            &&& happening == Happening::Ime <==> event == NativeEvent::Ime
            &&& happening == Happening::Occlusion <==> event == NativeEvent::Occluded
        }),
{
}

/// A replay samples every frame behind its warm-up, with the time since the frame before, and is done
/// with as many samples as are wanted.
pub proof fn law_replays_sample_behind_their_warm_up(
    started: Instant,
    terminal: u64,
    wall: u64,
    cpu: u64,
    resident: u64,
    warmup: usize,
    wanted: usize,
    done: bool,
)
    ensures
        forall|replay: &mut Replay|
            #![trigger call_ensures(Replay::frame_drawn, (replay, started, terminal, wall, cpu, resident, warmup, wanted), done)]
            call_ensures(
                Replay::frame_drawn,
                (replay, started, terminal, wall, cpu, resident, warmup, wanted),
                done,
            ) ==> {
                let after = *final(replay);
                &&& after.frame == replay.frame + 1 && after.last_frame == Some(started)
                &&& replay.frame < warmup ==> after.samples@ == replay.samples@
                &&& replay.frame >= warmup ==> {
                    let sample = after.samples@.last();
                    &&& after.samples@.len() == replay.samples@.len() + 1
                    &&& sample@[0] == terminal && sample@[1] == wall && sample@[2] == cpu
                    &&& sample@[4] == resident
                    &&& replay.last_frame is None ==> sample@[3] == 0
                    &&& replay.last_frame is Some && started.nanos >= replay.last_frame->0.nanos
                        ==> sample@[3] == started.nanos - replay.last_frame->0.nanos
                }
                &&& done <==> after.samples@.len() == wanted
            },
{
}

/// A replay plays the first case of its name, and the case of mixed text for the number one; without
/// such a case there is none.
pub proof fn law_replays_find_their_case(
    name: &str,
    cases: &[&str],
    replay: Option<Replay>,
    i: int,
)
    requires
        call_ensures(Replay::new, (name, cases), replay),
        0 <= i < cases@.len(),
    ensures
        name@ != "1"@ && cases@[i]@ == name@ ==> replay is Some && replay->0.case <= i,
        name@ == "1"@ && cases@[i]@ == "mixed_unicode"@ ==> replay is Some && replay->0.case <= i,
        replay matches Some(played) ==> played.case < cases@.len() && (name@ != "1"@
            ==> cases@[played.case as int]@ == name@) && (name@ == "1"@
            ==> cases@[played.case as int]@ == "mixed_unicode"@),
        replay matches Some(played) ==> played.frame == 0 && played.samples@.len() == 0
            && played.last_frame is None,
{
    if replay is None {
        assert(crate::smoke::lacks_case(cases@, crate::smoke::workload_name(name@)));
        assert(cases@[i]@ != crate::smoke::workload_name(name@));
    } else {
        let at = replay->0.case as int;
        assert(crate::smoke::case_at(cases@, crate::smoke::workload_name(name@), at));
        if i < at {
            assert(cases@[i]@ != crate::smoke::workload_name(name@));
        }
    }
}

} // verus!
