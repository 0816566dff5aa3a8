//! How windows, tabs and their sessions come and go.
use crate::actions::Action;
use crate::application::{defers_pointer, toggle_quick, DeferredPointer, QuickStep};
use crate::history::{History, Record};
use crate::host::Host;
use crate::lifecycle::{
    focus_pane, is_shown, others, paste_target_exists, reconcile, record_panes, retained,
    runs_initial_command, start_directory, start_title, theme_changed, windowless_action,
    FocusChange, NativeWindow, Reconciliation, WindowlessStep,
};
use crate::pane::SavedPane;
use crate::panes::PaneState;
use crate::presentation::Id;
use crate::workspace::{
    all_panes, contains_pane, needs_confirmation, ConfirmCloseSurface, Tab, Window, Workspace,
};
use std::collections::HashMap;
use vstd::prelude::*;

verus! {

/// The tab that is gone to is in front, and its pane has the focus. The row of tabs stays as it is
/// unless the tab itself is moved.
pub proof fn law_tabs_that_are_gone_to_come_to_the_front<L>(action: &Action, focused: Id)
    ensures
        forall|window: &mut Window<L>|
            #![trigger call_ensures(Window::<L>::switch_tab, (window, action), focused)]
            window.active_tab < window.tabs@.len() && call_ensures(
                Window::<L>::switch_tab,
                (window, action),
                focused,
            ) ==> {
                let after = *final(window);
                let count = window.tabs@.len();
                let active = window.active_tab;
                &&& focused == after.tabs@[after.active_tab as int].focused
                &&& *action matches Action::GotoTab(number) ==> (1 <= number <= count
                    ==> after.active_tab == number - 1) && (number > count ==> after.active_tab
                    == count - 1)
                &&& *action is LastTab ==> after.active_tab == count - 1
                &&& *action is NextTab && active + 1 < count ==> after.active_tab == active + 1
                &&& *action is NextTab && active + 1 == count ==> after.active_tab == 0
                &&& *action is PreviousTab && active > 0 ==> after.active_tab == active - 1
                &&& *action is PreviousTab && active == 0 ==> after.active_tab == count - 1
                &&& !(*action is MoveTab) ==> after.tabs@ == window.tabs@
                &&& *action is MoveTab ==> after.tabs@.len() == count
                    && after.tabs@[after.active_tab as int] == window.tabs@[active as int]
                &&& after.id == window.id && after.quick == window.quick
            },
{
    assert forall|window: &mut Window<L>|
        #![trigger call_ensures(Window::<L>::switch_tab, (window, action), focused)]
        window.active_tab < window.tabs@.len() && call_ensures(
            Window::<L>::switch_tab,
            (window, action),
            focused,
        ) implies {
        let after = *final(window);
        let count = window.tabs@.len();
        let active = window.active_tab;
        &&& focused == after.tabs@[after.active_tab as int].focused
        &&& *action matches Action::GotoTab(number) ==> (1 <= number <= count ==> after.active_tab
            == number - 1) && (number > count ==> after.active_tab == count - 1)
        &&& *action is LastTab ==> after.active_tab == count - 1
        &&& *action is NextTab && active + 1 < count ==> after.active_tab == active + 1
        &&& *action is NextTab && active + 1 == count ==> after.active_tab == 0
        &&& *action is PreviousTab && active > 0 ==> after.active_tab == active - 1
        &&& *action is PreviousTab && active == 0 ==> after.active_tab == count - 1
        &&& !(*action is MoveTab) ==> after.tabs@ == window.tabs@
        &&& *action is MoveTab ==> after.tabs@.len() == count
            && after.tabs@[after.active_tab as int] == window.tabs@[active as int]
        &&& after.id == window.id && after.quick == window.quick
    } by {
        assert(window.tabs.len() == window.tabs@.len());
        crate::laws::tabs::law_neighbouring_tabs_are_one_apart(
            window.active_tab,
            window.tabs.len(),
        );
    }
}

/// A new tab comes behind the others and to the front.
pub proof fn law_new_tabs_come_last<L>(tab: Tab<L>)
    ensures
        forall|window: &mut Window<L>|
            #![trigger call_ensures(Window::<L>::add_tab, (window, tab), ())]
            call_ensures(Window::<L>::add_tab, (window, tab), ()) ==> {
                let after = *final(window);
                &&& after.tabs@.len() == window.tabs@.len() + 1
                &&& after.tabs@[after.active_tab as int] == tab
                &&& after.active_tab + 1 == after.tabs@.len()
                &&& forall|i: int|
                    0 <= i < window.tabs@.len() ==> #[trigger] after.tabs@[i] == window.tabs@[i]
            },
{
}

/// Closing takes the window, or its tab in front where that has no pane left or is meant itself, and
/// with its last tab the window. All else stays in its order, and the tab behind comes to the front,
/// or the last one.
pub proof fn law_closing_leaves_the_rest<L>(action: &Action, id: Id, tab_lives: bool, w: int)
    ensures
        forall|workspace: &mut Workspace<L>|
            #![trigger call_ensures(Workspace::<L>::close, (workspace, action, id, tab_lives), ())]
            workspace.wf() && 0 <= w < workspace.windows@.len() && workspace.windows@[w].id == id && (
            forall|j: int| 0 <= j < w ==> (#[trigger] workspace.windows@[j]).id != id)
                && call_ensures(Workspace::<L>::close, (workspace, action, id, tab_lives), ()) ==> {
                let before = workspace.windows@;
                let after = final(workspace).windows@;
                let count = before[w].tabs@.len();
                let active = before[w].active_tab;
                let goes = *action is CloseWindow || ((*action is CloseTab || !tab_lives) && count
                    == 1);
                &&& goes ==> after.len() == before.len() - 1
                &&& !goes ==> after.len() == before.len()
                &&& forall|j: int| 0 <= j < w ==> #[trigger] after[j] == before[j]
                &&& goes ==> forall|j: int| w < j < before.len() ==> #[trigger] before[j] == after[j
                    - 1]
                &&& !goes ==> forall|j: int|
                    w < j < before.len() ==> #[trigger] after[j] == before[j]
                &&& !goes && (*action is CloseTab || !tab_lives) ==> {
                    &&& after[w].tabs@.len() == count - 1
                    &&& forall|t: int| 0 <= t < active ==> #[trigger] after[w].tabs@[t]
                        == before[w].tabs@[t]
                    &&& forall|t: int|
                        active < t < count ==> #[trigger] before[w].tabs@[t] == after[w].tabs@[t - 1]
                    &&& active + 1 < count ==> after[w].active_tab == active
                    &&& active + 1 == count ==> after[w].active_tab + 1 == active
                }
                &&& !(*action is CloseWindow) && !(*action is CloseTab) && tab_lives ==> after
                    == before
            },
{
    assert forall|workspace: &mut Workspace<L>|
        #![trigger call_ensures(Workspace::<L>::close, (workspace, action, id, tab_lives), ())]
        workspace.wf() && 0 <= w < workspace.windows@.len() && workspace.windows@[w].id == id && (
        forall|j: int| 0 <= j < w ==> (#[trigger] workspace.windows@[j]).id != id) && call_ensures(
            Workspace::<L>::close,
            (workspace, action, id, tab_lives),
            (),
        ) implies {
        let before = workspace.windows@;
        let after = final(workspace).windows@;
        let count = before[w].tabs@.len();
        let active = before[w].active_tab;
        let goes = *action is CloseWindow || ((*action is CloseTab || !tab_lives) && count == 1);
        &&& goes ==> after.len() == before.len() - 1
        &&& !goes ==> after.len() == before.len()
        &&& forall|j: int| 0 <= j < w ==> #[trigger] after[j] == before[j]
        &&& goes ==> forall|j: int| w < j < before.len() ==> #[trigger] before[j] == after[j - 1]
        &&& !goes ==> forall|j: int| w < j < before.len() ==> #[trigger] after[j] == before[j]
        &&& !goes && (*action is CloseTab || !tab_lives) ==> {
            &&& after[w].tabs@.len() == count - 1
            &&& forall|t: int| 0 <= t < active ==> #[trigger] after[w].tabs@[t] == before[w].tabs@[t]
            &&& forall|t: int|
                active < t < count ==> #[trigger] before[w].tabs@[t] == after[w].tabs@[t - 1]
            &&& active + 1 < count ==> after[w].active_tab == active
            &&& active + 1 == count ==> after[w].active_tab + 1 == active
        }
        &&& !(*action is CloseWindow) && !(*action is CloseTab) && tab_lives ==> after == before
    } by {
        assert(workspace.windows@[w].wf());
        assert(crate::workspace::window_at(workspace.windows@, id, w));
        let i = (*workspace).index_of(id)->0;
        assert(crate::workspace::window_at(workspace.windows@, id, i));
        assert(i == w);
    }
}

/// A close is asked about only where it was not approved and something would be interrupted: never
/// under `False`, and never for other actions.
pub proof fn law_confirmations_are_asked_for_once<L>(
    workspace: &Workspace<L>,
    window: Id,
    action: &Action,
    approved: bool,
    panes: &HashMap<Id, PaneState>,
    policy: ConfirmCloseSurface,
    shell_reports: bool,
    needed: bool,
    i: int,
)
    requires
        call_ensures(
            needs_confirmation,
            (workspace, window, action, approved, panes, policy, shell_reports),
            needed,
        ),
    ensures
        approved ==> !needed,
        policy == ConfirmCloseSurface::False ==> !needed,
        needed ==> *action == Action::CloseSurface || *action == Action::CloseTab || *action
            == Action::CloseWindow || *action == Action::CloseAllWindows || *action == Action::Quit,
        ({
            let closing = workspace.closing_panes(*action, window);
            &&& (*action == Action::CloseSurface || *action == Action::CloseTab || *action
                == Action::CloseWindow || *action == Action::CloseAllWindows || *action
                == Action::Quit) && !approved && policy == ConfirmCloseSurface::Always && 0 <= i
                < closing.len() && panes@.contains_key(closing[i]) && !panes@[closing[i]].exited
                ==> needed
            &&& (forall|j: int|
                0 <= j < closing.len() && panes@.contains_key(#[trigger] closing[j])
                    ==> panes@[closing[j]].exited) ==> !needed
        }),
{
}

/// What is left without some panes are the others, in their order.
pub proof fn law_the_others_are_left(ids: Seq<Id>, kept: Seq<Id>, id: Id)
    ensures
        others(ids, kept).contains(id) <==> ids.contains(id) && !kept.contains(id),
        others(ids, kept).len() <= ids.len(),
        (forall|i: int| 0 <= i < ids.len() ==> !kept.contains(#[trigger] ids[i])) ==> others(
            ids,
            kept,
        ) == ids,
    decreases ids.len(),
{
    if ids.len() > 0 {
        let front = ids.drop_last();
        let last = ids.last();
        law_the_others_are_left(front, kept, id);
        let left = others(front, kept);
        let all = others(ids, kept);
        assert(ids[ids.len() - 1] == last);
        if ids.contains(id) && id != last {
            let i = ids.index_of(id);
            assert(front[i] == id);
        }
        if front.contains(id) {
            let i = front.index_of(id);
            assert(ids[i] == id);
        }
        if !kept.contains(last) {
            assert(all == left.push(last));
            assert(all[all.len() - 1] == last);
            if left.contains(id) {
                let i = left.index_of(id);
                assert(all[i] == id);
            }
            if all.contains(id) && id != last {
                let i = all.index_of(id);
                assert(left[i] == id);
            }
        }
        if forall|i: int| 0 <= i < ids.len() ==> !kept.contains(#[trigger] ids[i]) {
            assert forall|i: int| 0 <= i < front.len() implies !kept.contains(
                #[trigger] front[i],
            ) by {
                assert(ids[i] == front[i]);
            }
            assert(all =~= ids);
        }
    }
}

/// The panes that some records keep are those of each of their layouts.
pub proof fn law_records_keep_their_panes<L>(records: Seq<Record<Workspace<L>>>, pane: Id)
    ensures
        record_panes(records).contains(pane) <==> exists|i: int|
            0 <= i < records.len() && all_panes((#[trigger] records[i]).layout.windows@).contains(
                pane,
            ),
    decreases records.len(),
{
    if records.len() > 0 {
        let front = records.drop_last();
        law_records_keep_their_panes(front, pane);
        let own = all_panes(records.last().layout.windows@);
        lemma_either(record_panes(front), own, pane);
        if record_panes(records).contains(pane) {
            if own.contains(pane) {
                assert(all_panes(records[records.len() - 1].layout.windows@).contains(pane));
            } else {
                let i = choose|i: int|
                    0 <= i < front.len() && all_panes(
                        (#[trigger] front[i]).layout.windows@,
                    ).contains(pane);
                assert(all_panes(records[i].layout.windows@).contains(pane));
            }
        }
        if exists|i: int|
            0 <= i < records.len() && all_panes((#[trigger] records[i]).layout.windows@).contains(
                pane,
            ) {
            let i = choose|i: int|
                0 <= i < records.len() && all_panes(
                    (#[trigger] records[i]).layout.windows@,
                ).contains(pane);
            if i < records.len() - 1 {
                assert(all_panes(front[i].layout.windows@).contains(pane));
            }
        }
    }
}

proof fn lemma_either(a: Seq<Id>, b: Seq<Id>, pane: Id)
    ensures
        (a + b).contains(pane) <==> a.contains(pane) || b.contains(pane),
{
    if a.contains(pane) {
        let i = a.index_of(pane);
        assert((a + b)[i] == pane);
    }
    if b.contains(pane) {
        let i = b.index_of(pane);
        assert((a + b)[a.len() + i] == pane);
    }
}

/// A pane's session is closed exactly when neither the layout nor what can be undone or redone holds
/// the pane; one is started for each pane of the layout that has none and did not fail, and a
/// failure is forgotten with its pane.
pub proof fn law_sessions_live_while_their_panes_can_come_back<L>(
    workspace: &Workspace<L>,
    history: &History<Workspace<L>>,
    running: &Vec<Id>,
    failed: &Vec<Id>,
    plan: Reconciliation,
    pane: Id,
)
    requires
        call_ensures(reconcile, (workspace, history, running, failed), plan),
    ensures
        ({
            let shown = all_panes(workspace.windows@).contains(pane);
            let undone = exists|i: int|
                0 <= i < history.undo@.len() && all_panes(
                    (#[trigger] history.undo@[i]).layout.windows@,
                ).contains(pane);
            let redone = exists|i: int|
                0 <= i < history.redo@.len() && all_panes(
                    (#[trigger] history.redo@[i]).layout.windows@,
                ).contains(pane);
            let held = shown || undone || redone;
            &&& plan.close@.contains(pane) <==> running@.contains(pane) && !held
            &&& plan.forget@.contains(pane) <==> failed@.contains(pane) && !held
            &&& plan.spawn@.contains(pane) <==> shown && !running@.contains(pane)
                && !failed@.contains(pane)
        }),
{
    let held = retained(*workspace, *history);
    law_the_others_are_left(running@, held, pane);
    law_the_others_are_left(failed@, held, pane);
    let shown = all_panes(workspace.windows@);
    law_the_others_are_left(shown, running@, pane);
    law_the_others_are_left(others(shown, running@), failed@, pane);
    law_records_keep_their_panes(history.undo@, pane);
    law_records_keep_their_panes(history.redo@, pane);
    lemma_either(shown + record_panes(history.undo@), record_panes(history.redo@), pane);
    lemma_either(shown, record_panes(history.undo@), pane);
}

/// A new window comes behind the others with one tab, which is in front.
pub proof fn law_new_windows_come_last<L>(id: Id, tab: Tab<L>, quick: bool)
    ensures
        forall|workspace: &mut Workspace<L>|
            #![trigger call_ensures(Workspace::<L>::add_window, (workspace, id, tab, quick), ())]
            call_ensures(Workspace::<L>::add_window, (workspace, id, tab, quick), ()) ==> {
                let before = workspace.windows@;
                let after = final(workspace).windows@;
                &&& after.len() == before.len() + 1
                &&& after.last().id == id && after.last().quick == quick
                &&& after.last().tabs@.len() == 1 && after.last().tabs@[0] == tab
                &&& after.last().active_tab == 0
                &&& forall|i: int| 0 <= i < before.len() ==> #[trigger] after[i] == before[i]
            },
{
    assert forall|workspace: &mut Workspace<L>|
        #![trigger call_ensures(Workspace::<L>::add_window, (workspace, id, tab, quick), ())]
        call_ensures(Workspace::<L>::add_window, (workspace, id, tab, quick), ()) implies {
        let before = workspace.windows@;
        let after = final(workspace).windows@;
        &&& after.len() == before.len() + 1
        &&& after.last().id == id && after.last().quick == quick
        &&& after.last().tabs@.len() == 1 && after.last().tabs@[0] == tab
        &&& after.last().active_tab == 0
        &&& forall|i: int| 0 <= i < before.len() ==> #[trigger] after[i] == before[i]
    } by {
        let before = workspace.windows@;
        let after = final(workspace).windows@;
        assert forall|i: int| 0 <= i < before.len() implies #[trigger] after[i] == before[i] by {
            assert(after.drop_last()[i] == after[i]);
        }
    }
}

/// A window is needed while there is none but quick ones, and the application ends without windows
/// where the user wants it to.
pub proof fn law_an_ordinary_window_is_needed<L>(
    workspace: &Workspace<L>,
    quit_after_last: bool,
    needs: bool,
    quits: bool,
    quick: Option<Id>,
    i: int,
)
    requires
        call_ensures(Workspace::<L>::needs_window, (workspace,), needs),
        call_ensures(Workspace::<L>::quits, (workspace, quit_after_last), quits),
        call_ensures(Workspace::<L>::quick_window, (workspace,), quick),
    ensures
        needs <==> forall|j: int|
            0 <= j < workspace.windows@.len() ==> (#[trigger] workspace.windows@[j]).quick,
        quits <==> quit_after_last && workspace.windows@.len() == 0,
        quits ==> needs && quick is None,
        0 <= i < workspace.windows@.len() && workspace.windows@[i].quick ==> quick is Some,
{
}

/// A pane is found in the first window and tab that hold it, and shown by bringing that tab to the
/// front and no other.
pub proof fn law_panes_are_found_where_they_are<L>(
    workspace: &Workspace<L>,
    pane: Id,
    place: Option<(usize, usize)>,
    w: int,
)
    requires
        call_ensures(Workspace::<L>::find_pane, (workspace, pane), place),
    ensures
        place matches Some((window, tab)) ==> window < workspace.windows@.len() && tab
            < workspace.windows@[window as int].tabs@.len()
            && workspace.windows@[window as int].tabs@[tab as int].panes@.contains(pane),
        0 <= w < workspace.windows@.len() && contains_pane(workspace.windows@[w], pane) ==> place
            is Some && (place->0).0 <= w,
{
    if let Some((window, tab)) = place {
        assert(workspace.place_of(pane, window as int, tab as int));
        if 0 <= w < window {
            assert(!contains_pane(workspace.windows@[w], pane));
        }
    } else if 0 <= w < workspace.windows@.len() {
        assert(workspace.lacks(pane));
        assert(!contains_pane(workspace.windows@[w], pane));
    }
}

/// Showing a pane brings its tab to the front of its window, and changes no other window.
pub proof fn law_shown_panes_come_to_the_front<L>(pane: Id, shown: Option<Id>)
    ensures
        forall|workspace: &mut Workspace<L>|
            #![trigger call_ensures(Workspace::<L>::show_pane, (workspace, pane), shown)]
            call_ensures(Workspace::<L>::show_pane, (workspace, pane), shown) ==> {
                let before = workspace.windows@;
                let after = final(workspace).windows@;
                &&& after.len() == before.len()
                &&& shown is None ==> after == before
                &&& shown is Some ==> exists|w: int|
                    0 <= w < before.len() && (#[trigger] after[w]).id == shown->0
                        && after[w].active_tab < after[w].tabs@.len()
                        && after[w].tabs@[after[w].active_tab as int].panes@.contains(pane)
                        && after[w].tabs == before[w].tabs
                &&& forall|i: int|
                    #![trigger after[i]]
                    0 <= i < before.len() ==> after[i].id == before[i].id && after[i].tabs
                        == before[i].tabs
            },
{
    assert forall|workspace: &mut Workspace<L>|
        #![trigger call_ensures(Workspace::<L>::show_pane, (workspace, pane), shown)]
        call_ensures(Workspace::<L>::show_pane, (workspace, pane), shown) implies {
        let before = workspace.windows@;
        let after = final(workspace).windows@;
        &&& after.len() == before.len()
        &&& shown is None ==> after == before
        &&& shown is Some ==> exists|w: int|
            0 <= w < before.len() && (#[trigger] after[w]).id == shown->0 && after[w].active_tab
                < after[w].tabs@.len()
                && after[w].tabs@[after[w].active_tab as int].panes@.contains(pane)
                && after[w].tabs == before[w].tabs
        &&& forall|i: int|
            #![trigger after[i]]
            0 <= i < before.len() ==> after[i].id == before[i].id && after[i].tabs
                == before[i].tabs
    } by {
        let before = workspace.windows@;
        let after = final(workspace).windows@;
        if let Some(id) = shown {
            let (w, t) = choose|w: int, t: int| #[trigger]
                (*workspace).place_of(pane, w, t) && before[w].id == id && after.len()
                    == before.len() && after[w].tabs == before[w].tabs && after[w].id == id
                    && after[w].quick == before[w].quick && after[w].active_tab == t && forall|
                    i: int,
                |
                    0 <= i < before.len() && i != w ==> #[trigger] after[i] == before[i];
            assert(after[w].id == id);
            assert forall|i: int|
                #![trigger after[i]]
                0 <= i < before.len() implies after[i].id == before[i].id && after[i].tabs
                == before[i].tabs by {
                if i != w {
                    assert(after[i] == before[i]);
                }
            }
        }
    }
}

/// Without a window the application still undoes, opens windows and ends.
pub proof fn law_actions_without_a_window(action: &Action, step: WindowlessStep)
    requires
        call_ensures(windowless_action, (action,), step),
    ensures
        *action is Undo <==> step == (WindowlessStep::History { redo: false }),
        *action is Redo <==> step == (WindowlessStep::History { redo: true }),
        *action is ToggleQuickTerminal <==> step == (WindowlessStep::Open { quick: true }),
        *action is NewWindow || *action is NewTab <==> step == (WindowlessStep::Open {
            quick: false,
        }),
        *action is Quit <==> step == WindowlessStep::Quit,
{
}

/// A session starts where the one before it was, else where the user wants it, else at home.
pub proof fn law_sessions_start_in_the_nearest_directory(
    previous: Option<String>,
    configured: Option<String>,
    home: Option<String>,
    directory: String,
)
    requires
        call_ensures(start_directory, (previous, configured, home), directory),
    ensures
        previous is Some ==> directory@ == previous->0@,
        previous is None && configured is Some ==> directory@ == configured->0@,
        previous is None && configured is None && home is Some ==> directory@ == home->0@,
        previous is None && configured is None && home is None ==> directory@ == seq!['/'],
{
    reveal_strlit("/");
    assert("/"@ =~= seq!['/']);
}

/// A restored pane shows the title that was saved, the user's own before the program's.
pub proof fn law_restored_panes_keep_their_title(
    saved: Option<&SavedPane>,
    titles: (String, Option<String>),
)
    requires
        call_ensures(start_title, (saved,), titles),
    ensures
        saved is None ==> titles.0@.len() == 0 && titles.1 is None,
        saved matches Some(pane) ==> {
            &&& pane.title_override is Some ==> titles.0@ == pane.title_override->0@ && titles.1
                is Some && titles.1->0@ == pane.title_override->0@
            &&& pane.title_override is None ==> titles.1 is None
            &&& pane.title_override is None && pane.title is Some ==> titles.0@ == pane.title->0@
            &&& pane.title_override is None && pane.title is None ==> titles.0@.len() == 0
        },
{
}

/// The initial command is run by the first pane that asks, and by no other from then on.
pub proof fn law_one_pane_runs_the_initial_command(pane: Id, runs: bool)
    ensures
        forall|initial: &mut Option<Id>|
            #![trigger call_ensures(runs_initial_command, (initial, pane), runs)]
            call_ensures(runs_initial_command, (initial, pane), runs) ==> {
                &&& *initial is None ==> runs && *final(initial) == Some(pane)
                &&& *initial is Some ==> *final(initial) == *initial
                &&& *initial is Some ==> (runs <==> (*initial)->0 == pane)
            },
{
}

/// A pane shows exactly if the tab in front of a window that is up and uncovered shows it.
pub proof fn law_panes_show_in_uncovered_windows<L>(
    workspace: Workspace<L>,
    natives: Seq<NativeWindow>,
    pane: Id,
    n: int,
    w: int,
)
    requires
        workspace.wf(),
        0 <= n < natives.len(),
        0 <= w < workspace.windows@.len(),
        workspace.windows@[w].id == natives[n].id,
        forall|j: int| 0 <= j < w ==> (#[trigger] workspace.windows@[j]).id != natives[n].id,
        natives[n].state.visible,
        !natives[n].state.occluded,
    ensures
        ({
            let tab = workspace.windows@[w].tabs@[workspace.windows@[w].active_tab as int];
            &&& !natives[n].state.peek && tab.visible@.contains(pane) ==> is_shown(
                workspace,
                natives,
                pane,
            )
            &&& natives[n].state.peek && tab.peeked@.contains(pane) ==> is_shown(
                workspace,
                natives,
                pane,
            )
            &&& natives.len() == 1 && !natives[n].state.peek && !tab.visible@.contains(pane)
                ==> !is_shown(workspace, natives, pane)
        }),
{
    let id = natives[n].id;
    assert(crate::workspace::window_at(workspace.windows@, id, w));
    let i = workspace.index_of(id)->0;
    assert(crate::workspace::window_at(workspace.windows@, id, i));
    assert(i == w);
    assert(workspace.windows@[w].wf());
    let tab = workspace.windows@[w].tabs@[workspace.windows@[w].active_tab as int];
    if (natives[n].state.peek && tab.peeked@.contains(pane)) || (!natives[n].state.peek
        && tab.visible@.contains(pane)) {
        assert(crate::lifecycle::shows_in(workspace, natives[n], pane));
    }
}

/// Windows that are hidden or covered show no pane.
pub proof fn law_covered_windows_show_no_pane<L>(
    workspace: Workspace<L>,
    natives: Seq<NativeWindow>,
    pane: Id,
)
    requires
        forall|n: int|
            0 <= n < natives.len() ==> !(#[trigger] natives[n]).state.visible
                || natives[n].state.occluded,
    ensures
        !is_shown(workspace, natives, pane),
{
}

/// A paste has a target while the pane runs in the window it was meant for.
pub proof fn law_pastes_stay_in_their_window<L>(
    workspace: &Workspace<L>,
    window: Id,
    pane: Id,
    running: bool,
    alive: bool,
    w: int,
)
    requires
        call_ensures(paste_target_exists, (workspace, window, pane, running), alive),
    ensures
        !running ==> !alive,
        alive ==> exists|i: int|
            0 <= i < workspace.windows@.len() && (#[trigger] workspace.windows@[i]).id == window
                && contains_pane(workspace.windows@[i], pane),
        running && 0 <= w < workspace.windows@.len() && workspace.windows@[w].id == window && (
        forall|j: int| 0 <= j < w ==> (#[trigger] workspace.windows@[j]).id != window)
            && contains_pane(workspace.windows@[w], pane) ==> alive,
{
    if 0 <= w < workspace.windows@.len() && workspace.windows@[w].id == window && (forall|j: int|
        0 <= j < w ==> (#[trigger] workspace.windows@[j]).id != window) {
        assert(crate::workspace::window_at(workspace.windows@, window, w));
        let i = workspace.index_of(window)->0;
        assert(crate::workspace::window_at(workspace.windows@, window, i));
        assert(i == w);
    }
    if alive {
        let i = workspace.index_of(window)->0;
        assert(crate::workspace::window_at(workspace.windows@, window, i));
        assert(workspace.windows@[i].id == window);
    }
}

/// The pane that gains the focus is seen, and the one that loses it starts anew.
pub proof fn law_the_focus_passes_from_pane_to_pane(
    previous: Option<Id>,
    pane: Id,
    change: FocusChange,
)
    requires
        call_ensures(focus_pane, (previous, pane), change),
    ensures
        change.seen == pane,
        previous is None ==> change.reset is None,
        previous matches Some(before) ==> (before == pane ==> change.reset is None) && (before
            != pane ==> change.reset == Some(before)),
{
}

/// A change of the system's theme is followed, once.
pub proof fn law_the_theme_is_followed(system_dark: Option<bool>, reload: bool)
    ensures
        forall|dark: &mut bool|
            #![trigger call_ensures(theme_changed, (dark, system_dark), reload)]
            call_ensures(theme_changed, (dark, system_dark), reload) ==> {
                &&& system_dark is None ==> !reload && *final(dark) == *dark
                &&& system_dark is Some ==> *final(dark) == system_dark->0
                &&& reload <==> *final(dark) != *dark
            },
{
}

/// The quick window is toggled where it is this one, turned to where it is another, and opened
/// where there is none.
pub proof fn law_the_quick_window_is_toggled(
    host: &Host,
    quick: bool,
    other: Option<Id>,
    step: QuickStep,
)
    requires
        call_ensures(toggle_quick, (host, quick, other), step),
    ensures
        quick ==> step == (QuickStep::Toggle { visible: !host.visible }),
        !quick && other is None ==> step == QuickStep::Create,
        !quick && other is Some ==> step == QuickStep::Other(other->0),
{
}

/// A passive movement waits in place of the one before it, any other event of the pointer drops it,
/// and the rest leave it.
pub proof fn law_passive_movements_replace_each_other(
    passive: bool,
    pointer_event: bool,
    deferred: DeferredPointer,
)
    requires
        call_ensures(defers_pointer, (passive, pointer_event), deferred),
    ensures
        passive <==> deferred == DeferredPointer::Replace,
        !passive && pointer_event <==> deferred == DeferredPointer::Forget,
        !passive && !pointer_event <==> deferred == DeferredPointer::Keep,
{
}

} // verus!
