//! Which panes and windows there have to be, and what they start with.
use crate::actions::Action;
use crate::history::{History, Record};
use crate::pane::{copy_optional, SavedPane};
use crate::presentation::Id;
use crate::schedule::{tab_of_pane, tab_with};
use crate::text::chars_of;
use crate::workspace::{all_panes, contains_pane, has_id, Workspace};
use std::collections::HashSet;
use vstd::prelude::*;
use vstd::string::*;

verus! {

/// The members of `ids` that `kept` has not.
pub open spec fn others(ids: Seq<Id>, kept: Seq<Id>) -> Seq<Id>
    decreases ids.len(),
{
    if ids.len() == 0 {
        Seq::empty()
    } else if kept.contains(ids.last()) {
        others(ids.drop_last(), kept)
    } else {
        others(ids.drop_last(), kept).push(ids.last())
    }
}

/// The IDs that are not kept, in their order.
pub fn without(ids: &Vec<Id>, kept: &Vec<Id>) -> (left: Vec<Id>)
    ensures
        left@ == others(ids@, kept@),
{
    let mut left: Vec<Id> = Vec::new();
    let mut i: usize = 0;
    while i < ids.len()
        invariant
            i <= ids@.len(),
            left@ == others(ids@.take(i as int), kept@),
        decreases ids@.len() - i,
    {
        assert(ids@.take(i + 1).drop_last() =~= ids@.take(i as int));
        if !has_id(kept, ids[i]) {
            left.push(ids[i]);
        }
        i += 1;
    }
    assert(ids@.take(i as int) =~= ids@);
    left
}

/// The panes of remembered layouts.
pub open spec fn record_panes<L>(records: Seq<Record<Workspace<L>>>) -> Seq<Id>
    decreases records.len(),
{
    if records.len() == 0 {
        Seq::empty()
    } else {
        record_panes(records.drop_last()) + all_panes(records.last().layout.windows@)
    }
}

fn append_records<L>(panes: &mut Vec<Id>, records: &Vec<Record<Workspace<L>>>)
    ensures
        final(panes)@ == old(panes)@ + record_panes(records@),
{
    let ghost before = panes@;
    let mut i: usize = 0;
    assert(before + Seq::<Id>::empty() =~= before);
    while i < records.len()
        invariant
            i <= records@.len(),
            panes@ == before + record_panes(records@.take(i as int)),
        decreases records@.len() - i,
    {
        let mut more = records[i].layout.panes();
        let ghost added = more@;
        panes.append(&mut more);
        assert(records@.take(i + 1).drop_last() =~= records@.take(i as int));
        assert(panes@ =~= before + (record_panes(records@.take(i as int)) + added));
        i += 1;
    }
    assert(records@.take(i as int) =~= records@);
}

/// The panes whose sessions live on: those of the windows, and those that an undo or a redo can
/// bring back.
pub open spec fn retained<L>(workspace: Workspace<L>, history: History<Workspace<L>>) -> Seq<Id> {
    all_panes(workspace.windows@) + record_panes(history.undo@) + record_panes(history.redo@)
}

/// Collects the panes whose sessions live on.
pub fn retained_panes<L>(workspace: &Workspace<L>, history: &History<Workspace<L>>) -> (panes: Vec<
    Id,
>)
    ensures
        panes@ == retained(*workspace, *history),
{
    let mut panes = workspace.panes();
    append_records(&mut panes, &history.undo);
    append_records(&mut panes, &history.redo);
    panes
}

/// What has to be done so that the sessions and the windows are those of the layout.
pub struct Reconciliation {
    /// Sessions to close.
    pub close: Vec<Id>,
    /// Failures to forget.
    pub forget: Vec<Id>,
    /// Panes to start.
    pub spawn: Vec<Id>,
}

/// Compares the layout with the panes that run and those that failed to start.
pub fn reconcile<L>(
    workspace: &Workspace<L>,
    history: &History<Workspace<L>>,
    running: &Vec<Id>,
    failed: &Vec<Id>,
) -> (plan: Reconciliation)
    ensures
        plan.close@ == others(running@, retained(*workspace, *history)),
        plan.forget@ == others(failed@, retained(*workspace, *history)),
        plan.spawn@ == others(others(all_panes(workspace.windows@), running@), failed@),
{
    let kept = retained_panes(workspace, history);
    let required = workspace.panes();
    let missing = without(&required, running);
    Reconciliation {
        close: without(running, &kept),
        forget: without(failed, &kept),
        spawn: without(&missing, failed),
    }
}

proof fn lemma_others(ids: Seq<Id>, kept: Seq<Id>, id: Id)
    ensures
        others(ids, kept).contains(id) <==> ids.contains(id) && !kept.contains(id),
    decreases ids.len(),
{
    if ids.len() > 0 {
        lemma_others(ids.drop_last(), kept, id);
        let last = ids.last();
        assert(ids =~= ids.drop_last().push(last));
        assert(ids.contains(id) <==> ids.drop_last().contains(id) || last == id) by {
            if ids.drop_last().contains(id) {
                let i = choose|i: int| 0 <= i < ids.drop_last().len() && ids.drop_last()[i] == id;
                assert(ids[i] == id);
            }
            if last == id {
                assert(ids[ids.len() - 1] == id);
            }
        }
        if !kept.contains(last) {
            let rest = others(ids.drop_last(), kept);
            assert(rest.push(last).contains(id) <==> rest.contains(id) || last == id) by {
                if rest.contains(id) {
                    let i = choose|i: int| 0 <= i < rest.len() && rest[i] == id;
                    assert(rest.push(last)[i] == id);
                }
                if last == id {
                    assert(rest.push(last)[rest.len() as int] == id);
                }
            }
        }
    }
}

proof fn lemma_record_panes<L>(records: Seq<Record<Workspace<L>>>, k: int, pane: Id)
    requires
        0 <= k < records.len(),
        all_panes(records[k].layout.windows@).contains(pane),
    ensures
        record_panes(records).contains(pane),
    decreases records.len(),
{
    let before = record_panes(records.drop_last());
    let last = all_panes(records.last().layout.windows@);
    if k < records.len() - 1 {
        lemma_record_panes(records.drop_last(), k, pane);
        let i = choose|i: int| 0 <= i < before.len() && before[i] == pane;
        assert(record_panes(records)[i] == pane);
    } else {
        let i = choose|i: int| 0 <= i < last.len() && last[i] == pane;
        assert(record_panes(records)[before.len() + i] == pane);
    }
}

/// No pane of the layout, nor one that can be brought back, loses its session; every other
/// running pane does.
pub proof fn law_sessions_follow_the_layout<L>(
    workspace: Workspace<L>,
    history: History<Workspace<L>>,
    running: Seq<Id>,
    pane: Id,
)
    requires
        running.contains(pane),
    ensures
        others(running, retained(workspace, history)).contains(pane) <==> !retained(
            workspace,
            history,
        ).contains(pane),
        all_panes(workspace.windows@).contains(pane) ==> !others(
            running,
            retained(workspace, history),
        ).contains(pane),
        forall|k: int|
            0 <= k < history.undo@.len() && all_panes(
                (#[trigger] history.undo@[k]).layout.windows@,
            ).contains(pane) ==> !others(running, retained(workspace, history)).contains(pane),
        forall|k: int|
            0 <= k < history.redo@.len() && all_panes(
                (#[trigger] history.redo@[k]).layout.windows@,
            ).contains(pane) ==> !others(running, retained(workspace, history)).contains(pane),
{
    let kept = retained(workspace, history);
    lemma_others(running, kept, pane);
    let own = all_panes(workspace.windows@).len();
    assert forall|k: int|
        0 <= k < history.undo@.len() && all_panes(
            (#[trigger] history.undo@[k]).layout.windows@,
        ).contains(pane) implies kept.contains(pane) by {
        lemma_record_panes(history.undo@, k, pane);
        let i = choose|i: int|
            0 <= i < record_panes(history.undo@).len() && record_panes(history.undo@)[i] == pane;
        assert(kept[own + i] == pane);
    }
    assert forall|k: int|
        0 <= k < history.redo@.len() && all_panes(
            (#[trigger] history.redo@[k]).layout.windows@,
        ).contains(pane) implies kept.contains(pane) by {
        lemma_record_panes(history.redo@, k, pane);
        let i = choose|i: int|
            0 <= i < record_panes(history.redo@).len() && record_panes(history.redo@)[i] == pane;
        assert(kept[own + record_panes(history.undo@).len() + i] == pane);
    }
    if all_panes(workspace.windows@).contains(pane) {
        let i = choose|i: int|
            0 <= i < all_panes(workspace.windows@).len() && all_panes(workspace.windows@)[i]
                == pane;
        assert(kept[i] == pane);
    }
}

/// A pane of the layout is started exactly if it neither runs nor failed.
pub proof fn law_missing_panes_are_started<L>(
    workspace: Workspace<L>,
    running: Seq<Id>,
    failed: Seq<Id>,
    pane: Id,
)
    ensures
        others(others(all_panes(workspace.windows@), running), failed).contains(pane) <==> {
            &&& all_panes(workspace.windows@).contains(pane)
            &&& !running.contains(pane)
            &&& !failed.contains(pane)
        },
{
    lemma_others(all_panes(workspace.windows@), running, pane);
    lemma_others(others(all_panes(workspace.windows@), running), failed, pane);
}

impl<L> Workspace<L> {
    /// Opens a window behind the others, with one tab.
    pub fn add_window(&mut self, id: Id, tab: crate::workspace::Tab<L>, quick: bool)
        requires
            old(self).wf(),
        ensures
            final(self).wf(),
            final(self).windows@.len() == old(self).windows@.len() + 1,
            final(self).windows@.drop_last() == old(self).windows@,
            final(self).windows@.last().id == id,
            final(self).windows@.last().tabs@ == seq![tab],
            final(self).windows@.last().active_tab == 0,
            final(self).windows@.last().quick == quick,
    {
        let ghost before = *self;
        let mut tabs = Vec::new();
        tabs.push(tab);
        assert(tabs@ =~= seq![tab]);
        self.windows.push(crate::workspace::Window { id, tabs, active_tab: 0, quick });
        proof {
            assert(self.windows@.drop_last() =~= before.windows@);
            assert forall|i: int| 0 <= i < self.windows@.len() implies (
            #[trigger] self.windows@[i]).wf() by {
                if i < before.windows@.len() {
                    assert(before.windows@[i].wf());
                }
            }
        }
    }
}

impl<L> Workspace<L> {
    /// Only quick windows are left, which show at a hotkey alone.
    pub open spec fn only_quick(self) -> bool {
        forall|i: int| 0 <= i < self.windows@.len() ==> (#[trigger] self.windows@[i]).quick
    }

    /// Whether the application opens a window when it starts or comes back.
    pub fn needs_window(&self) -> (needs: bool)
        ensures
            needs == self.only_quick(),
    {
        let mut i: usize = 0;
        while i < self.windows.len()
            invariant
                i <= self.windows@.len(),
                forall|j: int| 0 <= j < i ==> (#[trigger] self.windows@[j]).quick,
            decreases self.windows@.len() - i,
        {
            if !self.windows[i].quick {
                assert(!self.windows@[i as int].quick);
                return false;
            }
            i += 1;
        }
        true
    }

    /// Whether the application ends with its last window.
    pub fn quits(&self, quit_after_last: bool) -> (quits: bool)
        ensures
            quits == (self.windows@.len() == 0 && quit_after_last),
    {
        self.windows.len() == 0 && quit_after_last
    }

    /// The quick window, if there is one.
    pub fn quick_window(&self) -> (id: Option<Id>)
        ensures
            match id {
                Some(id) => exists|i: int|
                    0 <= i < self.windows@.len() && (#[trigger] self.windows@[i]).quick
                        && self.windows@[i].id == id && forall|j: int|
                        0 <= j < i ==> !(#[trigger] self.windows@[j]).quick,
                None => forall|i: int|
                    0 <= i < self.windows@.len() ==> !(#[trigger] self.windows@[i]).quick,
            },
    {
        let mut i: usize = 0;
        while i < self.windows.len()
            invariant
                i <= self.windows@.len(),
                forall|j: int| 0 <= j < i ==> !(#[trigger] self.windows@[j]).quick,
            decreases self.windows@.len() - i,
        {
            if self.windows[i].quick {
                assert(self.windows@[i as int].quick);
                return Some(self.windows[i].id);
            }
            i += 1;
        }
        None
    }

    /// The first window and tab that have the pane.
    pub open spec fn place_of(self, pane: Id, window: int, tab: int) -> bool {
        &&& 0 <= window < self.windows@.len()
        &&& tab_with(self.windows@[window], pane, tab)
        &&& forall|i: int|
            0 <= i < window ==> !contains_pane(#[trigger] self.windows@[i], pane)
    }

    /// No window has the pane.
    pub open spec fn lacks(self, pane: Id) -> bool {
        forall|i: int|
            0 <= i < self.windows@.len() ==> !contains_pane(#[trigger] self.windows@[i], pane)
    }

    /// Finds the first window and tab that have the pane.
    pub fn find_pane(&self, pane: Id) -> (place: Option<(usize, usize)>)
        ensures
            place is None ==> self.lacks(pane),
            match place {
                Some((window, tab)) => self.place_of(pane, window as int, tab as int),
                None => forall|i: int|
                    0 <= i < self.windows@.len() ==> !contains_pane(
                        #[trigger] self.windows@[i],
                        pane,
                    ),
            },
    {
        let mut i: usize = 0;
        while i < self.windows.len()
            invariant
                i <= self.windows@.len(),
                forall|j: int|
                    0 <= j < i ==> !contains_pane(#[trigger] self.windows@[j], pane),
            decreases self.windows@.len() - i,
        {
            if let Some(tab) = tab_of_pane(&self.windows[i], pane) {
                return Some((i, tab));
            }
            i += 1;
        }
        None
    }

    /// Brings the tab of a pane to the front of its window, as a click on its notification does.
    /// Returns the window.
    pub fn show_pane(&mut self, pane: Id) -> (window: Option<Id>)
        requires
            old(self).wf(),
        ensures
            final(self).wf(),
            match window {
                Some(id) => exists|w: int, t: int| #[trigger]
                    old(self).place_of(pane, w, t) && old(self).windows@[w].id == id
                        && final(self).windows@.len() == old(self).windows@.len()
                        && final(self).windows@[w].tabs == old(self).windows@[w].tabs
                        && final(self).windows@[w].id == id && final(self).windows@[w].quick
                        == old(self).windows@[w].quick && final(self).windows@[w].active_tab == t
                        && forall|i: int|
                        0 <= i < old(self).windows@.len() && i != w
                            ==> #[trigger] final(self).windows@[i] == old(self).windows@[i],
                None => final(self).windows@ == old(self).windows@ && forall|i: int|
                    0 <= i < old(self).windows@.len() ==> !contains_pane(
                        #[trigger] old(self).windows@[i],
                        pane,
                    ),
            },
    {
        match self.find_pane(pane) {
            Some((window, tab)) => {
                let ghost before = *self;
                let mut shown = self.windows.remove(window);
                shown.active_tab = tab;
                let id: Id = shown.id;
                let ghost changed = shown;
                self.windows.insert(window, shown);
                proof {
                    assert(self.windows@ =~= before.windows@.update(window as int, changed));
                    assert(before.place_of(pane, window as int, tab as int));
                    assert forall|i: int| 0 <= i < self.windows@.len() implies (
                    #[trigger] self.windows@[i]).wf() by {
                        assert(before.windows@[i].wf());
                    }
                }
                Some(id)
            },
            None => None,
        }
    }
}

/// What an action of the menu does when no window is open.
#[derive(Clone, Copy, Debug, PartialEq, Eq, Structural)]
pub enum WindowlessStep {
    Nothing,
    /// A layout is brought back.
    History { redo: bool },
    /// A window opens, and shows at once if it is the quick one.
    Open { quick: bool },
    Quit,
}

pub fn windowless_action(action: &Action) -> (step: WindowlessStep)
    ensures
        step == match *action {
            Action::Undo => WindowlessStep::History { redo: false },
            Action::Redo => WindowlessStep::History { redo: true },
            Action::ToggleQuickTerminal => WindowlessStep::Open { quick: true },
            Action::NewWindow | Action::NewTab => WindowlessStep::Open { quick: false },
            Action::Quit => WindowlessStep::Quit,
            _ => WindowlessStep::Nothing,
        },
{
    match action {
        Action::Undo => WindowlessStep::History { redo: false },
        Action::Redo => WindowlessStep::History { redo: true },
        Action::ToggleQuickTerminal => WindowlessStep::Open { quick: true },
        Action::NewWindow | Action::NewTab => WindowlessStep::Open { quick: false },
        Action::Quit => WindowlessStep::Quit,
        _ => WindowlessStep::Nothing,
    }
}

/// The directory in which a pane starts: where it was, if that is still a directory, else where
/// the configuration says, else home, else the root.
pub fn start_directory(
    previous: Option<String>,
    configured: Option<String>,
    home: Option<String>,
) -> (directory: String)
    ensures
        directory@ == match (previous, configured, home) {
            (Some(previous), _, _) => previous@,
            (None, Some(configured), _) => configured@,
            (None, None, Some(home)) => home@,
            (None, None, None) => "/"@,
        },
{
    match (previous, configured, home) {
        (Some(previous), _, _) => previous,
        (None, Some(configured), _) => configured,
        (None, None, Some(home)) => home,
        (None, None, None) => "/".to_owned(),
    }
}

/// The title and the override with which a pane starts, from what was saved of it.
pub fn start_title(saved: Option<&SavedPane>) -> (titles: (String, Option<String>))
    ensures
        match saved {
            Some(saved) => {
                &&& chars_of(titles.1) == chars_of(saved.title_override)
                &&& titles.0@ == match (saved.title_override, saved.title) {
                    (Some(title), _) => title@,
                    (None, Some(title)) => title@,
                    (None, None) => Seq::empty(),
                }
            },
            None => titles.1 is None && titles.0@.len() == 0,
        },
{
    match saved {
        Some(saved) => {
            let title = match (&saved.title_override, &saved.title) {
                (Some(title), _) => title.as_str().to_owned(),
                (None, Some(title)) => title.as_str().to_owned(),
                (None, None) => String::new(),
            };
            (title, copy_optional(&saved.title_override))
        },
        None => (String::new(), None),
    }
}

/// The first pane that ever starts runs the initial command; `initial` remembers it.
pub fn runs_initial_command(initial: &mut Option<Id>, pane: Id) -> (runs: bool)
    ensures
        runs == (*old(initial) is None || *old(initial) == Some(pane)),
        *final(initial) == if *old(initial) is None {
            Some(pane)
        } else {
            *old(initial)
        },
{
    match *initial {
        Some(first) => first == pane,
        None => {
            *initial = Some(pane);
            true
        },
    }
}

/// A native window, by the window of the layout that it shows.
#[derive(Clone, Copy, Debug)]
pub struct NativeWindow {
    pub id: Id,
    pub state: crate::workspace::NativeState,
}

/// Whether a pane shows in one of the native windows.
pub open spec fn is_shown<L>(workspace: Workspace<L>, natives: Seq<NativeWindow>, pane: Id) -> bool {
    exists|n: int| 0 <= n < natives.len() && shows_in(workspace, #[trigger] natives[n], pane)
}

/// Whether a pane shows in a native window.
pub open spec fn shows_in<L>(workspace: Workspace<L>, native: NativeWindow, pane: Id) -> bool {
    match workspace.index_of(native.id) {
        Some(i) => crate::workspace::shown_panes(
            workspace.windows@[i],
            native.state.visible,
            native.state.occluded,
            native.state.peek,
        ).contains(pane),
        None => false,
    }
}

/// The panes that show in some native window.
pub fn visible_panes<L>(workspace: &Workspace<L>, natives: &Vec<NativeWindow>) -> (visible:
    HashSet<Id>)
    ensures
        forall|pane: Id| #[trigger]
            visible@.contains(pane) <==> is_shown(*workspace, natives@, pane),
{
    let mut visible: HashSet<Id> = HashSet::new();
    let mut n: usize = 0;
    while n < natives.len()
        invariant
            n <= natives@.len(),
            forall|pane: Id| #[trigger]
                visible@.contains(pane) <==> is_shown(*workspace, natives@.take(n as int), pane),
        decreases natives@.len() - n,
    {
        let native = natives[n];
        let ghost before = visible@;
        let ghost earlier = natives@.take(n as int);
        let ghost later = natives@.take(n + 1);
        let panes = match workspace.index(native.id) {
            Some(index) => crate::workspace::window_visible_panes(
                &workspace.windows[index],
                native.state.visible,
                native.state.occluded,
                native.state.peek,
            ),
            None => Vec::new(),
        };
        assert forall|pane: Id| #[trigger] panes@.contains(pane) <==> shows_in(
            *workspace,
            native,
            pane,
        ) by {}
        let mut i: usize = 0;
        while i < panes.len()
            invariant
                i <= panes@.len(),
                forall|pane: Id| #[trigger]
                    visible@.contains(pane) <==> before.contains(pane) || panes@.take(
                        i as int,
                    ).contains(pane),
            decreases panes@.len() - i,
        {
            visible.insert(panes[i]);
            proof {
                let next = panes@.take(i + 1);
                let last = panes@.take(i as int);
                assert(next =~= last.push(panes@[i as int]));
                assert forall|pane: Id| #[trigger] next.contains(pane) <==> last.contains(pane)
                    || pane == panes@[i as int] by {
                    if last.contains(pane) {
                        let k = choose|k: int| 0 <= k < last.len() && last[k] == pane;
                        assert(next[k] == pane);
                    }
                    if pane == panes@[i as int] {
                        assert(next[i as int] == pane);
                    }
                }
            }
            i += 1;
        }
        proof {
            assert(panes@.take(i as int) =~= panes@);
            assert(later =~= earlier.push(native));
            assert forall|pane: Id| #[trigger] visible@.contains(pane) <==> is_shown(
                *workspace,
                later,
                pane,
            ) by {
                assert(visible@.contains(pane) <==> before.contains(pane) || panes@.contains(pane));
                assert(before.contains(pane) <==> is_shown(*workspace, earlier, pane));
                if is_shown(*workspace, earlier, pane) {
                    let k = choose|k: int|
                        0 <= k < earlier.len() && shows_in(
                            *workspace,
                            #[trigger] earlier[k],
                            pane,
                        );
                    assert(shows_in(*workspace, later[k], pane));
                }
                if shows_in(*workspace, native, pane) {
                    assert(shows_in(*workspace, later[n as int], pane));
                }
                if is_shown(*workspace, later, pane) {
                    let k = choose|k: int|
                        0 <= k < later.len() && shows_in(*workspace, #[trigger] later[k], pane);
                    if k < n {
                        assert(shows_in(*workspace, earlier[k], pane));
                    }
                }
            }
        }
        n += 1;
    }
    assert(natives@.take(n as int) =~= natives@);
    visible
}

/// Whether a paste still has a destination: the pane is in a tab of the window and runs.
pub fn paste_target_exists<L>(workspace: &Workspace<L>, window: Id, pane: Id, running: bool) -> (
    alive: bool)
    ensures
        alive == (running && match workspace.index_of(window) {
            Some(i) => contains_pane(workspace.windows@[i], pane),
            None => false,
        }),
{
    running && match workspace.index(window) {
        Some(index) => crate::workspace::window_contains_pane(&workspace.windows[index], pane),
        None => false,
    }
}

/// What a change of the focused pane brings with it.
#[derive(Clone, Copy, Debug, PartialEq, Eq, Structural)]
pub struct FocusChange {
    /// The pane that gives up its selection gesture.
    pub reset: Option<Id>,
    /// The pane whose notifications are seen.
    pub seen: Id,
}

/// Gives the focus of a window to a pane, whose tab is in front.
pub fn focus_pane(previous: Option<Id>, pane: Id) -> (change: FocusChange)
    ensures
        change.reset == if previous is Some && previous != Some(pane) {
            previous
        } else {
            None
        },
        change.seen == pane,
{
    match previous {
        Some(previous) if previous != pane => FocusChange { reset: Some(previous), seen: pane },
        _ => FocusChange { reset: None, seen: pane },
    }
}

/// Follows the system's appearance, where it is known; tells whether the configuration is read
/// again.
pub fn theme_changed(dark_mode: &mut bool, system_dark: Option<bool>) -> (reload: bool)
    ensures
        reload == (system_dark is Some && system_dark->0 != *old(dark_mode)),
        *final(dark_mode) == match system_dark {
            Some(dark) => dark,
            None => *old(dark_mode),
        },
{
    match system_dark {
        Some(dark) => {
            let changed = *dark_mode != dark;
            *dark_mode = dark;
            changed
        },
        None => false,
    }
}

} // verus!
