//! How tabs are reached and what closing asks for.
use crate::actions::Action;
use crate::presentation::Id;
use crate::panes::PaneState;
use crate::workspace::{
    all_panes, any_interrupted, chosen_tab, contains_pane, interrupts, native_or_initial,
    shown_panes, tab_panes, with_tab_moved, ConfirmCloseSurface, NativeState, Tab, Window,
    Workspace,
};
use vstd::prelude::*;

verus! {

/// Each tab is reached by its number, counted from one; a number behind the last one's reaches the
/// last tab.
pub proof fn law_tabs_are_reached_by_their_numbers(active: usize, count: usize, number: usize)
    requires
        active < count,
        1 <= number,
    ensures
        number <= count ==> chosen_tab(Action::GotoTab(number), active as int, count as int)
            == number - 1,
        number > count ==> chosen_tab(Action::GotoTab(number), active as int, count as int) == count
            - 1,
{
}

/// The next tab is the one behind, the previous one the one before; behind the last comes the
/// first.
pub proof fn law_neighbouring_tabs_are_one_apart(active: usize, count: usize)
    requires
        active < count,
    ensures
        ({
            let next = chosen_tab(Action::NextTab, active as int, count as int);
            let previous = chosen_tab(Action::PreviousTab, active as int, count as int);
            let last = chosen_tab(Action::LastTab, active as int, count as int);
            &&& active + 1 < count ==> next == active + 1
            &&& active + 1 == count ==> next == 0
            &&& active > 0 ==> previous == active - 1
            &&& active == 0 ==> previous == count - 1
            &&& last + 1 == count
        }),
{
    let n = count as int;
    if active + 1 < count {
        vstd::arithmetic::div_mod::lemma_small_mod((active + 1) as nat, count as nat);
    } else {
        vstd::arithmetic::div_mod::lemma_mod_self_0(n);
    }
    if active > 0 {
        vstd::arithmetic::div_mod::lemma_small_mod((active - 1) as nat, count as nat);
        vstd::arithmetic::div_mod::lemma_mod_add_multiples_vanish(active - 1, n);
    } else {
        vstd::arithmetic::div_mod::lemma_small_mod((count - 1) as nat, count as nat);
    }
}

/// A tab moves by the given distance and stops at the ends of the row.
pub proof fn law_tabs_move_by_their_distance(active: usize, count: usize, distance: i32)
    requires
        active < count,
    ensures
        ({
            let to = chosen_tab(Action::MoveTab(distance), active as int, count as int);
            &&& 0 <= to < count
            &&& to - active == distance || (distance < 0 && to == 0 && -distance > active) || (
            distance > 0 && to == count - 1 && distance > count - 1 - active)
        }),
{
}

/// A tab that is moved stands at its new place, and the others keep their order around it.
pub proof fn law_moved_tabs_pass_the_others<L>(tabs: Seq<Tab<L>>, from: int, to: int, i: int)
    requires
        0 <= from < tabs.len(),
        0 <= to < tabs.len(),
        0 <= i < tabs.len(),
    ensures
        ({
            let moved = with_tab_moved(tabs, from, to);
            &&& moved.len() == tabs.len()
            &&& moved[to] == tabs[from]
            &&& from < i <= to ==> moved[i - 1] == tabs[i]
            &&& to <= i < from ==> moved[i + 1] == tabs[i]
            &&& (i < from && i < to) || (i > from && i > to) ==> moved[i] == tabs[i]
        }),
{
}

/// A window shows the panes of its active tab: those of the layout, or in a peek those of the peek.
/// One that is hidden or covered shows none.
pub proof fn law_windows_show_their_active_tab<L>(
    window: Window<L>,
    visible: bool,
    occluded: bool,
    peek: bool,
)
    requires
        window.wf(),
    ensures
        visible && !occluded && !peek ==> shown_panes(window, visible, occluded, peek)
            == window.tabs@[window.active_tab as int].visible@,
        visible && !occluded && peek ==> shown_panes(window, visible, occluded, peek)
            == window.tabs@[window.active_tab as int].peeked@,
        !visible || occluded ==> shown_panes(window, visible, occluded, peek).len() == 0,
{
}

/// A window that has not come up yet counts as shown unless it is the quick one.
pub proof fn law_new_windows_are_shown<L>(window: Window<L>, native: NativeState)
    ensures
        native_or_initial(window, Some(native)) == native,
        native_or_initial(window, None).visible <==> !window.quick,
        !native_or_initial(window, None).occluded && !native_or_initial(window, None).peek,
{
}

/// A window is found by its ID exactly if it is there, and no other one is taken for it.
pub proof fn law_windows_are_found_by_their_id<L>(workspace: Workspace<L>, id: Id, i: int)
    ensures
        0 <= i < workspace.windows@.len() && workspace.windows@[i].id == id ==> workspace.index_of(
            id,
        ) is Some && 0 <= workspace.index_of(id)->0 <= i,
        workspace.index_of(id) matches Some(j) ==> 0 <= j < workspace.windows@.len()
            && workspace.windows@[j].id == id,
    decreases i,
{
    let windows = workspace.windows@;
    if 0 <= i < windows.len() && windows[i].id == id {
        if forall|j: int| 0 <= j < i ==> (#[trigger] windows[j]).id != id {
            assert(crate::workspace::window_at(windows, id, i));
        } else {
            let j = choose|j: int| 0 <= j < i && (#[trigger] windows[j]).id == id;
            law_windows_are_found_by_their_id(workspace, id, j);
        }
    }
    if let Some(j) = workspace.index_of(id) {
        assert(crate::workspace::window_at(windows, id, j));
    }
}

/// A window's tab and focus are those of the tab in front.
pub proof fn law_the_tab_in_front_has_the_focus<L>(workspace: Workspace<L>, id: Id, i: int)
    requires
        workspace.wf(),
        0 <= i < workspace.windows@.len(),
        workspace.windows@[i].id == id,
        forall|j: int| 0 <= j < i ==> (#[trigger] workspace.windows@[j]).id != id,
    ensures
        ({
            let window = workspace.windows@[i];
            let tab = window.tabs@[window.active_tab as int];
            workspace.tab_of(id) == Some(tab) && workspace.focus_of(id) == Some(tab.focused)
        }),
{
    law_windows_are_found_by_their_id(workspace, id, i);
    let j = workspace.index_of(id)->0;
    assert(workspace.windows@[j].id == id);
    assert(workspace.windows@[i].wf());
}

/// The panes of some tabs are those of each of them, and no others.
pub proof fn law_tabs_hold_their_panes<L>(tabs: Seq<Tab<L>>, pane: Id)
    ensures
        tab_panes(tabs).contains(pane) <==> exists|i: int|
            0 <= i < tabs.len() && (#[trigger] tabs[i]).panes@.contains(pane),
    decreases tabs.len(),
{
    if tabs.len() > 0 {
        let front = tabs.drop_last();
        law_tabs_hold_their_panes(front, pane);
        lemma_joined(tab_panes(front), tabs.last().panes@, pane);
        if tab_panes(tabs).contains(pane) {
            if tabs.last().panes@.contains(pane) {
                assert(tabs[tabs.len() - 1].panes@.contains(pane));
            } else {
                let i = choose|i: int|
                    0 <= i < front.len() && (#[trigger] front[i]).panes@.contains(pane);
                assert(tabs[i].panes@.contains(pane));
            }
        }
        if exists|i: int| 0 <= i < tabs.len() && (#[trigger] tabs[i]).panes@.contains(pane) {
            let i = choose|i: int|
                0 <= i < tabs.len() && (#[trigger] tabs[i]).panes@.contains(pane);
            if i < tabs.len() - 1 {
                assert(front[i].panes@.contains(pane));
            }
        }
    }
}

proof fn lemma_joined(a: Seq<Id>, b: Seq<Id>, pane: Id)
    ensures
        (a + b).contains(pane) <==> a.contains(pane) || b.contains(pane),
{
    if a.contains(pane) {
        let i = a.index_of(pane);
        assert((a + b)[i] == pane);
    }
    if b.contains(pane) {
        let i = b.index_of(pane);
        assert((a + b)[a.len() + i] == pane);
    }
}

/// The panes of all windows are those of each of their tabs, and no others.
pub proof fn law_windows_hold_their_panes<L>(windows: Seq<Window<L>>, pane: Id)
    ensures
        all_panes(windows).contains(pane) <==> exists|i: int|
            0 <= i < windows.len() && contains_pane(#[trigger] windows[i], pane),
    decreases windows.len(),
{
    if windows.len() > 0 {
        let front = windows.drop_last();
        law_windows_hold_their_panes(front, pane);
        let tabs = windows.last().tabs@;
        law_tabs_hold_their_panes(tabs, pane);
        lemma_joined(all_panes(front), tab_panes(tabs), pane);
        law_windows_hold_the_panes_of_their_tabs(windows.last(), pane);
        if all_panes(windows).contains(pane) {
            if tab_panes(tabs).contains(pane) {
                assert(contains_pane(windows[windows.len() - 1], pane));
            } else {
                let i = choose|i: int| 0 <= i < front.len() && contains_pane(#[trigger] front[i], pane);
                assert(contains_pane(windows[i], pane));
            }
        }
        if exists|i: int| 0 <= i < windows.len() && contains_pane(#[trigger] windows[i], pane) {
            let i = choose|i: int|
                0 <= i < windows.len() && contains_pane(#[trigger] windows[i], pane);
            if i < windows.len() - 1 {
                assert(contains_pane(front[i], pane));
            }
        }
    }
}

/// A window contains the panes that one of its tabs holds.
pub proof fn law_windows_hold_the_panes_of_their_tabs<L>(window: Window<L>, pane: Id)
    ensures
        contains_pane(window, pane) <==> exists|i: int|
            0 <= i < window.tabs@.len() && (#[trigger] window.tabs@[i]).panes@.contains(pane),
{
    let tabs = window.tabs@;
    if exists|i: int| 0 <= i < tabs.len() && (#[trigger] tabs[i]).panes@.contains(pane) {
        let i = choose|i: int| 0 <= i < tabs.len() && (#[trigger] tabs[i]).panes@.contains(pane);
        assert(crate::workspace::holds_pane(tabs[i], pane));
    }
    if contains_pane(window, pane) {
        let i = choose|i: int|
            0 <= i < tabs.len() && crate::workspace::holds_pane(#[trigger] tabs[i], pane);
        assert(tabs[i].panes@.contains(pane));
    }
}

/// Closing a surface closes the focused pane, closing a tab the panes of the tab in front, closing
/// a window those of all its tabs, and quitting those of all windows.
pub proof fn law_closing_takes_what_it_names<L>(
    workspace: Workspace<L>,
    id: Id,
    i: int,
    pane: Id,
)
    requires
        workspace.wf(),
        0 <= i < workspace.windows@.len(),
        workspace.windows@[i].id == id,
        forall|j: int| 0 <= j < i ==> (#[trigger] workspace.windows@[j]).id != id,
    ensures
        ({
            let window = workspace.windows@[i];
            let tab = window.tabs@[window.active_tab as int];
            &&& workspace.closing_panes(Action::CloseSurface, id).contains(pane) <==> pane
                == tab.focused
            &&& workspace.closing_panes(Action::CloseTab, id).contains(pane)
                <==> tab.panes@.contains(pane)
            &&& workspace.closing_panes(Action::CloseWindow, id).contains(pane) <==> exists|j: int|
                0 <= j < window.tabs@.len() && (#[trigger] window.tabs@[j]).panes@.contains(pane)
            &&& workspace.closing_panes(Action::Quit, id).contains(pane) <==> exists|j: int|
                0 <= j < workspace.windows@.len() && contains_pane(
                    #[trigger] workspace.windows@[j],
                    pane,
                )
            &&& workspace.closing_panes(Action::CloseAllWindows, id).contains(pane) <==> exists|
                j: int,
            |
                0 <= j < workspace.windows@.len() && contains_pane(
                    #[trigger] workspace.windows@[j],
                    pane,
                )
        }),
{
    law_the_tab_in_front_has_the_focus(workspace, id, i);
    law_windows_are_found_by_their_id(workspace, id, i);
    let window = workspace.windows@[i];
    law_tabs_hold_their_panes(window.tabs@, pane);
    law_windows_hold_their_panes(workspace.windows@, pane);
    let focused = window.tabs@[window.active_tab as int].focused;
    assert(seq![focused][0] == focused);
    let j = workspace.index_of(id)->0;
    assert(workspace.windows@[j].id == id);
}

/// A pane whose program has ended is closed unasked, under every policy. One that lives is always
/// asked for under `Always` and never under `False`; under `True` it is asked for while a command
/// runs, and where the shell does not tell.
pub proof fn law_policies_decide_what_is_asked(pane: PaneState, shell_reports: bool)
    ensures
        pane.exited ==> forall|policy: ConfirmCloseSurface|
            !(#[trigger] interrupts(pane, policy, shell_reports)),
        !interrupts(pane, ConfirmCloseSurface::False, shell_reports),
        !pane.exited ==> interrupts(pane, ConfirmCloseSurface::Always, shell_reports),
        !pane.exited && pane.running is Some ==> interrupts(
            pane,
            ConfirmCloseSurface::True,
            shell_reports,
        ),
        !pane.exited && pane.running is None ==> (interrupts(
            pane,
            ConfirmCloseSurface::True,
            shell_reports,
        ) <==> !shell_reports),
{
}

/// One live pane is enough to ask under `Always`; under `False` nothing is asked.
pub proof fn law_one_pane_is_enough_to_ask(
    candidates: Seq<Id>,
    panes: Map<Id, PaneState>,
    shell_reports: bool,
    i: int,
)
    requires
        0 <= i < candidates.len(),
        panes.contains_key(candidates[i]),
        !panes[candidates[i]].exited,
    ensures
        any_interrupted(candidates, panes, ConfirmCloseSurface::Always, shell_reports),
        !any_interrupted(candidates, panes, ConfirmCloseSurface::False, shell_reports),
        panes[candidates[i]].running is Some ==> any_interrupted(
            candidates,
            panes,
            ConfirmCloseSurface::True,
            shell_reports,
        ),
        !any_interrupted(
            candidates.filter(|id: Id| panes.contains_key(id) && panes[id].exited),
            panes,
            ConfirmCloseSurface::Always,
            shell_reports,
        ),
{
    assert(interrupts(panes[candidates[i]], ConfirmCloseSurface::Always, shell_reports));
    let ended = |id: Id| panes.contains_key(id) && panes[id].exited;
    let rest = candidates.filter(ended);
    if any_interrupted(rest, panes, ConfirmCloseSurface::Always, shell_reports) {
        let j = choose|j: int|
            0 <= j < rest.len() && panes.contains_key(#[trigger] rest[j]) && interrupts(
                panes[rest[j]],
                ConfirmCloseSurface::Always,
                shell_reports,
            );
        candidates.lemma_filter_pred(ended, j);
    }
}

/// A window's index is the first with its ID.
pub proof fn law_windows_have_one_index<L>(
    workspace: &Workspace<L>,
    id: Id,
    index: Option<usize>,
    w: int,
)
    requires
        call_ensures(Workspace::<L>::index, (workspace, id), index),
    ensures
        index matches Some(at) ==> at < workspace.windows@.len() && workspace.windows@[at as int].id
            == id,
        0 <= w < workspace.windows@.len() && workspace.windows@[w].id == id ==> index is Some
            && index->0 <= w,
{
    law_windows_are_found_by_their_id(*workspace, id, w);
}

} // verus!
