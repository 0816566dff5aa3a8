//! Windows, their tabs and their panes. How the panes of a tab are split is the host's: a tab
//! carries that layout along.
use crate::actions::Action;
use crate::panes::PaneState;
use crate::presentation::Id;
use std::collections::HashMap;
use vstd::prelude::*;

verus! {

/// A tab and its panes.
#[derive(Clone)]
pub struct Tab<L> {
    pub id: Id,
    /// The panes of the tab, in the order of its layout.
    pub panes: Vec<Id>,
    /// Those that show while a zoom may hide the others.
    pub visible: Vec<Id>,
    /// Those that show during a peek.
    pub peeked: Vec<Id>,
    pub focused: Id,
    pub zoomed: bool,
    /// The title that the user gave to the tab.
    pub title: Option<String>,
    pub layout: L,
}

/// A window and its tabs.
#[derive(Clone)]
pub struct Window<L> {
    pub id: Id,
    pub tabs: Vec<Tab<L>>,
    pub active_tab: usize,
    /// The window drops down over others at a hotkey.
    pub quick: bool,
}

impl<L> Window<L> {
    /// A window has a tab in front.
    pub open spec fn wf(self) -> bool {
        self.active_tab < self.tabs@.len()
    }
}

/// All windows.
#[derive(Clone)]
pub struct Workspace<L> {
    pub windows: Vec<Window<L>>,
}

/// The first window with this ID.
pub open spec fn window_at<L>(windows: Seq<Window<L>>, id: Id, index: int) -> bool {
    &&& 0 <= index < windows.len()
    &&& windows[index].id == id
    &&& forall|i: int| 0 <= i < index ==> (#[trigger] windows[i]).id != id
}

/// The tab of this pane.
pub open spec fn holds_pane<L>(tab: Tab<L>, pane: Id) -> bool {
    tab.panes@.contains(pane)
}

/// Some tab of the window has the pane.
pub open spec fn contains_pane<L>(window: Window<L>, pane: Id) -> bool {
    exists|i: int| 0 <= i < window.tabs@.len() && holds_pane(#[trigger] window.tabs@[i], pane)
}

/// Whether a list has a pane.
pub fn has_id(ids: &Vec<Id>, id: Id) -> (found: bool)
    ensures
        found == ids@.contains(id),
{
    let mut i: usize = 0;
    while i < ids.len()
        invariant
            i <= ids@.len(),
            forall|j: int| 0 <= j < i ==> ids@[j] != id,
        decreases ids@.len() - i,
    {
        if ids[i] == id {
            assert(ids@[i as int] == id);
            return true;
        }
        i += 1;
    }
    false
}

fn copy_ids(ids: &Vec<Id>) -> (copy: Vec<Id>)
    ensures
        copy@ == ids@,
{
    let mut copy: Vec<Id> = Vec::new();
    append_ids(&mut copy, ids);
    assert(Seq::<Id>::empty() + ids@ =~= ids@);
    copy
}

fn append_ids(all: &mut Vec<Id>, ids: &Vec<Id>)
    ensures
        final(all)@ == old(all)@ + ids@,
{
    let ghost before = all@;
    let mut i: usize = 0;
    assert(before + ids@.take(0) =~= before);
    while i < ids.len()
        invariant
            i <= ids@.len(),
            all@ == before + ids@.take(i as int),
        decreases ids@.len() - i,
    {
        all.push(ids[i]);
        i += 1;
        assert(all@ =~= before + ids@.take(i as int));
    }
    assert(ids@.take(i as int) =~= ids@);
}

pub fn window_contains_pane<L>(window: &Window<L>, pane: Id) -> (found: bool)
    ensures
        found == contains_pane(*window, pane),
{
    let mut i: usize = 0;
    while i < window.tabs.len()
        invariant
            i <= window.tabs@.len(),
            forall|j: int| 0 <= j < i ==> !holds_pane(#[trigger] window.tabs@[j], pane),
        decreases window.tabs@.len() - i,
    {
        if has_id(&window.tabs[i].panes, pane) {
            assert(holds_pane(window.tabs@[i as int], pane));
            return true;
        }
        i += 1;
    }
    false
}

/// The panes that a window shows: none while it is hidden or covered, all of its tab in front
/// during a peek.
pub open spec fn shown_panes<L>(
    window: Window<L>,
    visible: bool,
    occluded: bool,
    peek: bool,
) -> Seq<Id> {
    if !visible || occluded || window.active_tab >= window.tabs@.len() {
        Seq::empty()
    } else if peek {
        window.tabs@[window.active_tab as int].peeked@
    } else {
        window.tabs@[window.active_tab as int].visible@
    }
}

pub fn window_visible_panes<L>(window: &Window<L>, visible: bool, occluded: bool, peek: bool) -> (
    panes: Vec<Id>)
    ensures
        panes@ == shown_panes(*window, visible, occluded, peek),
{
    if !visible || occluded || window.active_tab >= window.tabs.len() {
        return Vec::new();
    }
    let tab = &window.tabs[window.active_tab];
    if peek {
        copy_ids(&tab.peeked)
    } else {
        copy_ids(&tab.visible)
    }
}

/// How a native window shows.
#[derive(Clone, Copy, Debug, PartialEq, Eq, Structural)]
pub struct NativeState {
    pub visible: bool,
    pub occluded: bool,
    pub peek: bool,
}

/// Normal windows are shown during creation; quick windows start hidden.
pub open spec fn native_or_initial<L>(
    window: Window<L>,
    native: Option<NativeState>,
) -> NativeState {
    match native {
        Some(native) => native,
        None => NativeState { visible: !window.quick, occluded: false, peek: false },
    }
}

/// The panes that a window shows, or will once it is opened.
pub fn initial_visible_panes<L>(window: &Window<L>, native: Option<NativeState>) -> (panes: Vec<
    Id,
>)
    ensures
        ({
            let state = native_or_initial(*window, native);
            panes@ == shown_panes(*window, state.visible, state.occluded, state.peek)
        }),
{
    let state = match native {
        Some(native) => native,
        None => NativeState { visible: !window.quick, occluded: false, peek: false },
    };
    window_visible_panes(window, state.visible, state.occluded, state.peek)
}

/// The tab that comes to the front.
pub open spec fn chosen_tab(action: Action, active: int, count: int) -> int {
    match action {
        Action::NextTab => (active + 1) % count,
        Action::PreviousTab => (active + count - 1) % count,
        Action::LastTab => count - 1,
        Action::GotoTab(tab) => if tab - 1 < count - 1 {
            tab - 1
        } else {
            count - 1
        },
        Action::MoveTab(offset) => if active + offset < 0 {
            0
        } else if active + offset > count - 1 {
            count - 1
        } else {
            active + offset
        },
        _ => active,
    }
}

/// The tab that comes to the front, of `count`. Tabs to go to are counted from one.
pub fn choose_tab(action: &Action, active: usize, count: usize) -> (chosen: usize)
    requires
        active < count,
        *action is GotoTab ==> action->GotoTab_0 >= 1,
    ensures
        chosen == chosen_tab(*action, active as int, count as int),
        chosen < count,
{
    match action {
        Action::NextTab => if active + 1 < count {
            assert((active + 1) % (count as int) == active + 1) by (nonlinear_arith)
                requires
                    0 <= active + 1 < count,
            ;
            active + 1
        } else {
            assert(count as int % count as int == 0) by (nonlinear_arith)
                requires
                    count > 0,
            ;
            0
        },
        Action::PreviousTab => if active > 0 {
            assert((active + count - 1) % (count as int) == active - 1) by (nonlinear_arith)
                requires
                    0 < active < count,
            ;
            active - 1
        } else {
            assert((count - 1) % (count as int) == count - 1) by (nonlinear_arith)
                requires
                    0 <= count - 1 < count,
            ;
            count - 1
        },
        Action::LastTab => count - 1,
        Action::GotoTab(tab) => if *tab - 1 < count - 1 {
            *tab - 1
        } else {
            count - 1
        },
        Action::MoveTab(offset) => if *offset < 0 {
            let step: u32 = (-(*offset as i64)) as u32;
            if (step as u64) < active as u64 {
                active - step as usize
            } else {
                0
            }
        } else {
            let step: u32 = *offset as u32;
            if (step as u64) < (count - active) as u64 {
                active + step as usize
            } else {
                count - 1
            }
        },
        _ => active,
    }
}

/// The tabs of a window with one moved to another place.
pub open spec fn with_tab_moved<L>(tabs: Seq<Tab<L>>, from: int, to: int) -> Seq<Tab<L>> {
    tabs.remove(from).insert(to, tabs[from])
}

impl<L> Window<L> {
    /// Brings another tab to the front, or moves the one in front. Returns the pane that takes
    /// the focus.
    pub fn switch_tab(&mut self, action: &Action) -> (focused: Id)
        requires
            old(self).wf(),
            *action is GotoTab ==> action->GotoTab_0 >= 1,
        ensures
            final(self).wf(),
            final(self).id == old(self).id,
            final(self).quick == old(self).quick,
            final(self).active_tab == chosen_tab(
                *action,
                old(self).active_tab as int,
                old(self).tabs@.len() as int,
            ),
            final(self).tabs@ == if *action is MoveTab {
                with_tab_moved(
                    old(self).tabs@,
                    old(self).active_tab as int,
                    final(self).active_tab as int,
                )
            } else {
                old(self).tabs@
            },
            focused == final(self).tabs@[final(self).active_tab as int].focused,
    {
        let count: usize = self.tabs.len();
        let chosen: usize = choose_tab(action, self.active_tab, count);
        let moves = match action {
            Action::MoveTab(_) => true,
            _ => false,
        };
        if moves {
            let tab = self.tabs.remove(self.active_tab);
            self.tabs.insert(chosen, tab);
        }
        self.active_tab = chosen;
        self.tabs[chosen].focused
    }

    /// Opens a tab behind the others and brings it to the front.
    pub fn add_tab(&mut self, tab: Tab<L>)
        requires
            old(self).tabs@.len() < usize::MAX,
        ensures
            final(self).wf(),
            final(self).tabs@ == old(self).tabs@.push(tab),
            final(self).active_tab == old(self).tabs@.len(),
            final(self).id == old(self).id,
            final(self).quick == old(self).quick,
    {
        self.tabs.push(tab);
        self.active_tab = self.tabs.len() - 1;
    }
}

impl<L> Workspace<L> {
    pub open spec fn wf(self) -> bool {
        forall|i: int| 0 <= i < self.windows@.len() ==> (#[trigger] self.windows@[i]).wf()
    }

    /// The index of the window with this ID.
    pub open spec fn index_of(self, id: Id) -> Option<int> {
        if exists|i: int| #[trigger] window_at(self.windows@, id, i) {
            Some(choose|i: int| #[trigger] window_at(self.windows@, id, i))
        } else {
            None
        }
    }

    /// The tab in front of the window with this ID.
    pub open spec fn tab_of(self, id: Id) -> Option<Tab<L>> {
        match self.index_of(id) {
            Some(i) if self.windows@[i].wf() => Some(
                self.windows@[i].tabs@[self.windows@[i].active_tab as int],
            ),
            _ => None,
        }
    }

    /// The pane with the focus in the tab in front of the window with this ID.
    pub open spec fn focus_of(self, id: Id) -> Option<Id> {
        match self.tab_of(id) {
            Some(tab) => Some(tab.focused),
            None => None,
        }
    }

    pub fn index(&self, id: Id) -> (index: Option<usize>)
        ensures
            match index {
                Some(index) => self.index_of(id) == Some(index as int) && window_at(
                    self.windows@,
                    id,
                    index as int,
                ),
                None => self.index_of(id) is None,
            },
    {
        let mut i: usize = 0;
        while i < self.windows.len()
            invariant
                i <= self.windows@.len(),
                forall|j: int| 0 <= j < i ==> (#[trigger] self.windows@[j]).id != id,
            decreases self.windows@.len() - i,
        {
            if self.windows[i].id == id {
                proof {
                    assert(window_at(self.windows@, id, i as int));
                    assert forall|j: int| #[trigger] window_at(self.windows@, id, j) implies j
                        == i by {}
                }
                return Some(i);
            }
            i += 1;
        }
        assert forall|j: int| !(#[trigger] window_at(self.windows@, id, j)) by {}
        None
    }

    pub fn tab(&self, id: Id) -> (tab: Option<&Tab<L>>)
        ensures
            match tab {
                Some(tab) => self.tab_of(id) == Some(*tab),
                None => self.tab_of(id) is None,
            },
    {
        match self.index(id) {
            Some(index) => {
                let window = &self.windows[index];
                if window.active_tab < window.tabs.len() {
                    Some(&window.tabs[window.active_tab])
                } else {
                    None
                }
            },
            None => None,
        }
    }

    pub fn focused(&self, id: Id) -> (pane: Option<Id>)
        ensures
            pane == self.focus_of(id),
    {
        match self.tab(id) {
            Some(tab) => Some(tab.focused),
            None => None,
        }
    }
}

/// What the panes of tabs say together.
pub open spec fn tab_panes<L>(tabs: Seq<Tab<L>>) -> Seq<Id>
    decreases tabs.len(),
{
    if tabs.len() == 0 {
        Seq::empty()
    } else {
        tab_panes(tabs.drop_last()) + tabs.last().panes@
    }
}

pub open spec fn all_panes<L>(windows: Seq<Window<L>>) -> Seq<Id>
    decreases windows.len(),
{
    if windows.len() == 0 {
        Seq::empty()
    } else {
        all_panes(windows.drop_last()) + tab_panes(windows.last().tabs@)
    }
}

fn window_panes<L>(window: &Window<L>) -> (panes: Vec<Id>)
    ensures
        panes@ == tab_panes(window.tabs@),
{
    let mut panes: Vec<Id> = Vec::new();
    let mut i: usize = 0;
    while i < window.tabs.len()
        invariant
            i <= window.tabs@.len(),
            panes@ == tab_panes(window.tabs@.take(i as int)),
        decreases window.tabs@.len() - i,
    {
        append_ids(&mut panes, &window.tabs[i].panes);
        assert(window.tabs@.take(i + 1).drop_last() =~= window.tabs@.take(i as int));
        i += 1;
    }
    assert(window.tabs@.take(i as int) =~= window.tabs@);
    panes
}

impl<L> Workspace<L> {
    /// All panes, window by window and tab by tab.
    pub fn panes(&self) -> (panes: Vec<Id>)
        ensures
            panes@ == all_panes(self.windows@),
    {
        let mut panes: Vec<Id> = Vec::new();
        let mut i: usize = 0;
        while i < self.windows.len()
            invariant
                i <= self.windows@.len(),
                panes@ == all_panes(self.windows@.take(i as int)),
            decreases self.windows@.len() - i,
        {
            let more = window_panes(&self.windows[i]);
            append_ids(&mut panes, &more);
            assert(self.windows@.take(i + 1).drop_last() =~= self.windows@.take(i as int));
            i += 1;
        }
        assert(self.windows@.take(i as int) =~= self.windows@);
        panes
    }

    /// The panes that an action closes: the focused one, those of the tab in front or of the
    /// window, or all.
    pub open spec fn closing_panes(self, action: Action, window: Id) -> Seq<Id> {
        if action is CloseSurface {
            match self.tab_of(window) {
                Some(tab) => seq![tab.focused],
                None => Seq::empty(),
            }
        } else if action is CloseTab {
            match self.tab_of(window) {
                Some(tab) => tab.panes@,
                None => Seq::empty(),
            }
        } else if action is CloseWindow {
            match self.index_of(window) {
                Some(i) => tab_panes(self.windows@[i].tabs@),
                None => Seq::empty(),
            }
        } else {
            all_panes(self.windows@)
        }
    }

    pub fn close_candidates(&self, action: &Action, window: Id) -> (panes: Vec<Id>)
        ensures
            panes@ == self.closing_panes(*action, window),
    {
        match action {
            Action::CloseSurface => {
                let mut panes: Vec<Id> = Vec::new();
                if let Some(tab) = self.tab(window) {
                    panes.push(tab.focused);
                    assert(panes@ =~= seq![tab.focused]);
                }
                panes
            },
            Action::CloseTab => match self.tab(window) {
                Some(tab) => copy_ids(&tab.panes),
                None => Vec::new(),
            },
            Action::CloseWindow => match self.index(window) {
                Some(index) => window_panes(&self.windows[index]),
                None => Vec::new(),
            },
            _ => self.panes(),
        }
    }

    /// Closes what the action says in the window with this ID. `tab_lives` tells whether the tab
    /// in front keeps another pane, where a pane of it was closed.
    pub fn close(&mut self, action: &Action, window: Id, tab_lives: bool)
        requires
            old(self).wf(),
        ensures
            final(self).wf(),
            match old(self).index_of(window) {
                None => final(self).windows@ == old(self).windows@,
                Some(i) => {
                    let closed = old(self).windows@[i];
                    let tab = closed.active_tab as int;
                    let tab_goes = *action is CloseTab || !tab_lives;
                    if *action is CloseWindow || (tab_goes && closed.tabs@.len() == 1) {
                        final(self).windows@ == old(self).windows@.remove(i)
                    } else if tab_goes {
                        &&& final(self).windows@.len() == old(self).windows@.len()
                        &&& forall|j: int|
                            0 <= j < old(self).windows@.len() && j != i
                                ==> #[trigger] final(self).windows@[j] == old(self).windows@[j]
                        &&& final(self).windows@[i].id == closed.id
                        &&& final(self).windows@[i].quick == closed.quick
                        &&& final(self).windows@[i].tabs@ == closed.tabs@.remove(tab)
                        &&& final(self).windows@[i].active_tab == if tab < closed.tabs@.len() - 1 {
                            tab
                        } else {
                            closed.tabs@.len() - 2
                        }
                    } else {
                        final(self).windows@ == old(self).windows@
                    }
                },
            },
    {
        let index: usize = match self.index(window) {
            Some(index) => index,
            None => {
                return;
            },
        };
        let whole = match action {
            Action::CloseWindow => true,
            _ => false,
        };
        let tab_goes = match action {
            Action::CloseTab => true,
            _ => !tab_lives,
        };
        let ghost before = *self;
        assert(self.windows@[index as int].wf());
        if whole || (tab_goes && self.windows[index].tabs.len() == 1) {
            self.windows.remove(index);
            proof {
                assert forall|i: int| 0 <= i < self.windows@.len() implies (
                #[trigger] self.windows@[i]).wf() by {
                    let j = if i < index {
                        i
                    } else {
                        i + 1
                    };
                    assert(before.windows@[j].wf());
                }
            }
        } else if tab_goes {
            let mut window = self.windows.remove(index);
            let tab: usize = window.active_tab;
            window.tabs.remove(tab);
            let last: usize = window.tabs.len() - 1;
            window.active_tab = if tab < last {
                tab
            } else {
                last
            };
            let ghost changed = window;
            self.windows.insert(index, window);
            proof {
                assert(self.windows@ =~= before.windows@.update(index as int, changed));
                assert forall|i: int| 0 <= i < self.windows@.len() implies (
                #[trigger] self.windows@[i]).wf() by {
                    assert(before.windows@[i].wf());
                }
            }
        }
    }
}

/// When closing a pane is confirmed first.
#[derive(Clone, Copy, Debug, PartialEq, Eq, Structural)]
pub enum ConfirmCloseSurface {
    False,
    True,
    Always,
}

/// Closing this pane would interrupt something: it has not exited, and the user wants to be
/// asked always, or a command runs in it, or one may for all that the shell tells.
pub open spec fn interrupts(
    pane: PaneState,
    policy: ConfirmCloseSurface,
    shell_reports: bool,
) -> bool {
    !pane.exited && (policy == ConfirmCloseSurface::Always || (policy == ConfirmCloseSurface::True
        && (pane.running is Some || !shell_reports)))
}

/// Some of these panes are known and would be interrupted.
pub open spec fn any_interrupted(
    candidates: Seq<Id>,
    panes: Map<Id, PaneState>,
    policy: ConfirmCloseSurface,
    shell_reports: bool,
) -> bool {
    exists|i: int|
        0 <= i < candidates.len() && panes.contains_key(#[trigger] candidates[i]) && interrupts(
            panes[candidates[i]],
            policy,
            shell_reports,
        )
}

/// Whether an action waits for the user's confirmation: it closes panes, was not approved yet,
/// and would interrupt one. `shell_reports` tells whether shells report their commands.
pub fn needs_confirmation<L>(
    workspace: &Workspace<L>,
    window: Id,
    action: &Action,
    approved: bool,
    panes: &HashMap<Id, PaneState>,
    policy: ConfirmCloseSurface,
    shell_reports: bool,
) -> (needed: bool)
    ensures
        needed == (!approved && action.spec_closes() && any_interrupted(
            workspace.closing_panes(*action, window),
            panes@,
            policy,
            shell_reports,
        )),
{
    if approved || !action.closes() {
        return false;
    }
    let candidates = workspace.close_candidates(action, window);
    let mut i: usize = 0;
    while i < candidates.len()
        invariant
            i <= candidates@.len(),
            !approved && action.spec_closes(),
            candidates@ == workspace.closing_panes(*action, window),
            forall|j: int|
                0 <= j < i ==> !(panes@.contains_key(#[trigger] candidates@[j]) && interrupts(
                    panes@[candidates@[j]],
                    policy,
                    shell_reports,
                )),
        decreases candidates@.len() - i,
    {
        if let Some(pane) = panes.get(&candidates[i]) {
            if !pane.exited && (policy == ConfirmCloseSurface::Always || (policy
                == ConfirmCloseSurface::True && (pane.running.is_some() || !shell_reports))) {
                assert(panes@.contains_key(candidates@[i as int]));
                return true;
            }
        }
        i += 1;
    }
    false
}

/// Going on and coming back leads to the same tab.
pub proof fn law_next_and_previous_tab_undo_each_other(active: int, count: int)
    requires
        0 <= active < count,
    ensures
        chosen_tab(
            Action::PreviousTab,
            chosen_tab(Action::NextTab, active, count),
            count,
        ) == active,
        chosen_tab(
            Action::NextTab,
            chosen_tab(Action::PreviousTab, active, count),
            count,
        ) == active,
{
    assert((active + 1) % count == if active + 1 < count {
        active + 1
    } else {
        0
    }) by (nonlinear_arith)
        requires
            0 <= active < count,
    ;
    assert((active + count - 1) % count == if active > 0 {
        active - 1
    } else {
        count - 1
    }) by (nonlinear_arith)
        requires
            0 <= active < count,
    ;
    let next = (active + 1) % count;
    assert((next + count - 1) % count == if next > 0 {
        next - 1
    } else {
        count - 1
    }) by (nonlinear_arith)
        requires
            0 <= next < count,
    ;
    let previous = (active + count - 1) % count;
    assert((previous + 1) % count == if previous + 1 < count {
        previous + 1
    } else {
        0
    }) by (nonlinear_arith)
        requires
            0 <= previous < count,
    ;
}

/// Moving a tab keeps every tab, the moved one in front and the others in their order.
pub proof fn law_moving_a_tab_keeps_the_tabs<L>(tabs: Seq<Tab<L>>, from: int, to: int)
    requires
        0 <= from < tabs.len(),
        0 <= to < tabs.len(),
    ensures
        with_tab_moved(tabs, from, to).len() == tabs.len(),
        with_tab_moved(tabs, from, to)[to] == tabs[from],
        with_tab_moved(tabs, from, to).to_multiset() == tabs.to_multiset(),
        with_tab_moved(tabs, from, to).remove(to) == tabs.remove(from),
{
    let without = tabs.remove(from);
    assert(with_tab_moved(tabs, from, to).remove(to) =~= without);
    vstd::seq_lib::to_multiset_remove(tabs, from);
    vstd::seq_lib::to_multiset_insert(without, to, tabs[from]);
    assert(tabs.to_multiset().contains(tabs[from])) by {
        assert(tabs.contains(tabs[from]));
        vstd::seq_lib::to_multiset_contains(tabs, tabs[from]);
    }
    assert(with_tab_moved(tabs, from, to).to_multiset() =~= tabs.to_multiset());
}

/// A hidden or covered window shows no pane.
pub proof fn law_hidden_windows_show_no_panes<L>(
    window: Window<L>,
    visible: bool,
    occluded: bool,
    peek: bool,
)
    requires
        !visible || occluded,
    ensures
        shown_panes(window, visible, occluded, peek).len() == 0,
{
}

} // verus!
