//! Texts and colours that the windows show around their terminals.
use crate::actions::{Action, Direction};
use crate::panes::PaneState;
use crate::presentation::{
    common_directory_name, directory_name, name_of_directory, shared_name, CompletionFlash,
    DirectoryLabel, Id, Progress, FLASH_DURATION,
};
use crate::screen::Rgb;
use crate::text::{decimal, has_prefix, lowered, matches_at, push_decimal, to_chars};
use crate::time::Instant;
use crate::workspace::{has_id, holds_pane, Tab, Window, Workspace};
use std::collections::HashMap;
use vstd::prelude::*;
use vstd::string::*;

verus! {

/// How much of a title a tab shows.
pub const TAB_TITLE_CHARS: usize = 26;

/// The title of a tab: the one that the user gave, else the focused pane's.
pub open spec fn tab_title<L>(tab: Tab<L>, panes: Map<Id, PaneState>) -> Seq<char> {
    if tab.title is Some && tab.title->0@.len() > 0 {
        tab.title->0@
    } else if panes.contains_key(tab.focused) && panes[tab.focused].title@.len() > 0 {
        panes[tab.focused].title@
    } else {
        "Terminal"@
    }
}

/// How many of the panes report work.
pub open spec fn working_panes(ids: Seq<Id>, panes: Map<Id, PaneState>) -> int
    decreases ids.len(),
{
    if ids.len() == 0 {
        0
    } else {
        working_panes(ids.drop_last(), panes) + if panes.contains_key(ids.last())
            && panes[ids.last()].activity.spec_reported_active() {
            1int
        } else {
            0int
        }
    }
}

/// Some of the panes want to be looked at.
pub open spec fn any_unseen(ids: Seq<Id>, panes: Map<Id, PaneState>) -> bool {
    exists|i: int|
        0 <= i < ids.len() && panes.contains_key(#[trigger] ids[i]) && panes[ids[i]].unseen
}

/// Something runs in one of the panes.
pub open spec fn any_active(ids: Seq<Id>, panes: Map<Id, PaneState>) -> bool {
    exists|i: int|
        0 <= i < ids.len() && panes.contains_key(#[trigger] ids[i])
            && panes[ids[i]].activity.active()
}

/// The beginning of a title.
pub open spec fn shortened(title: Seq<char>) -> Seq<char> {
    if title.len() <= TAB_TITLE_CHARS {
        title
    } else {
        title.take(TAB_TITLE_CHARS as int)
    }
}

/// The label of a tab: its title, and marks for attention, work and zoom.
pub open spec fn tab_text(title: Seq<char>, attention: bool, working: int, zoomed: bool) -> Seq<
    char,
> {
    shortened(title) + (if attention {
        " ●"@
    } else {
        Seq::empty()
    }) + (if working > 0 {
        " ▶ "@ + decimal(working)
    } else {
        Seq::empty()
    }) + (if zoomed {
        " ◩"@
    } else {
        Seq::empty()
    })
}

/// Writes the label of a tab.
pub fn write_tab_text(title: &str, attention: bool, working: usize, zoomed: bool) -> (label: String)
    ensures
        label@ == tab_text(title@, attention, working as int, zoomed),
{
    let chars = to_chars(title);
    let shown: usize = if chars.len() <= TAB_TITLE_CHARS {
        chars.len()
    } else {
        TAB_TITLE_CHARS
    };
    let mut label = crate::text::from_chars(chars.as_slice(), 0, shown);
    assert(label@ =~= shortened(title@));
    let ghost short = label@;
    if attention {
        label.append(" ●");
    }
    assert(label@ =~= short + (if attention {
        " ●"@
    } else {
        Seq::empty()
    }));
    let ghost marked = label@;
    if working > 0 {
        label.append(" ▶ ");
        push_decimal(&mut label, working as u64);
    }
    assert(label@ =~= marked + (if working > 0 {
        " ▶ "@ + decimal(working as int)
    } else {
        Seq::empty()
    }));
    let ghost counted = label@;
    if zoomed {
        label.append(" ◩");
    }
    assert(label@ =~= counted + (if zoomed {
        " ◩"@
    } else {
        Seq::empty()
    }));
    label
}

fn count_working(ids: &Vec<Id>, panes: &HashMap<Id, PaneState>) -> (count: usize)
    ensures
        count == working_panes(ids@, panes@),
        count <= ids@.len(),
{
    let mut count: usize = 0;
    let mut i: usize = 0;
    while i < ids.len()
        invariant
            i <= ids@.len(),
            count <= i,
            count == working_panes(ids@.take(i as int), panes@),
        decreases ids@.len() - i,
    {
        assert(ids@.take(i + 1).drop_last() =~= ids@.take(i as int));
        if let Some(pane) = panes.get(&ids[i]) {
            if pane.activity.reported_active() {
                count += 1;
            }
        }
        i += 1;
    }
    assert(ids@.take(i as int) =~= ids@);
    count
}

/// Whether one of the panes wants to be looked at.
pub fn wants_attention(ids: &Vec<Id>, panes: &HashMap<Id, PaneState>) -> (found: bool)
    ensures
        found == any_unseen(ids@, panes@),
{
    let mut i: usize = 0;
    while i < ids.len()
        invariant
            i <= ids@.len(),
            forall|j: int|
                0 <= j < i ==> !(panes@.contains_key(#[trigger] ids@[j]) && panes@[ids@[j]].unseen),
        decreases ids@.len() - i,
    {
        if let Some(pane) = panes.get(&ids[i]) {
            if pane.unseen {
                assert(panes@.contains_key(ids@[i as int]));
                return true;
            }
        }
        i += 1;
    }
    false
}

/// Whether something runs in one of the panes.
pub fn shows_activity(ids: &Vec<Id>, panes: &HashMap<Id, PaneState>) -> (found: bool)
    ensures
        found == any_active(ids@, panes@),
{
    let mut i: usize = 0;
    while i < ids.len()
        invariant
            i <= ids@.len(),
            forall|j: int|
                0 <= j < i ==> !(panes@.contains_key(#[trigger] ids@[j])
                    && panes@[ids@[j]].activity.active()),
        decreases ids@.len() - i,
    {
        if let Some(pane) = panes.get(&ids[i]) {
            if pane.activity.is_active() {
                assert(panes@.contains_key(ids@[i as int]));
                return true;
            }
        }
        i += 1;
    }
    false
}

/// The label of a tab, and whether something runs in it.
pub fn tab_label<L>(tab: &Tab<L>, panes: &HashMap<Id, PaneState>) -> (label: (String, bool))
    ensures
        label.0@ == tab_text(
            tab_title(*tab, panes@),
            any_unseen(tab.panes@, panes@),
            working_panes(tab.panes@, panes@),
            tab.zoomed,
        ),
        label.1 == any_active(tab.panes@, panes@),
{
    let given = match &tab.title {
        Some(title) => if title.as_str().is_empty() {
            None
        } else {
            Some(title.as_str())
        },
        None => None,
    };
    let title = match given {
        Some(title) => title,
        None => match panes.get(&tab.focused) {
            Some(pane) => if pane.title.as_str().is_empty() {
                "Terminal"
            } else {
                pane.title.as_str()
            },
            None => "Terminal",
        },
    };
    let working: usize = count_working(&tab.panes, panes);
    let attention = wants_attention(&tab.panes, panes);
    (write_tab_text(title, attention, working, tab.zoomed), shows_activity(&tab.panes, panes))
}

/// How many of the panes want to be looked at, on the application's badge.
pub open spec fn unseen_count(ids: Seq<Id>, panes: Map<Id, PaneState>) -> int
    decreases ids.len(),
{
    if ids.len() == 0 {
        0
    } else {
        unseen_count(ids.drop_last(), panes) + if panes.contains_key(ids.last())
            && panes[ids.last()].unseen {
            1int
        } else {
            0int
        }
    }
}

pub fn badge_count<L>(workspace: &Workspace<L>, panes: &HashMap<Id, PaneState>) -> (count: usize)
    ensures
        count == unseen_count(crate::workspace::all_panes(workspace.windows@), panes@),
{
    let ids = workspace.panes();
    let mut count: usize = 0;
    let mut i: usize = 0;
    while i < ids.len()
        invariant
            i <= ids@.len(),
            count <= i,
            count == unseen_count(ids@.take(i as int), panes@),
        decreases ids@.len() - i,
    {
        assert(ids@.take(i + 1).drop_last() =~= ids@.take(i as int));
        if let Some(pane) = panes.get(&ids[i]) {
            if pane.unseen {
                count += 1;
            }
        }
        i += 1;
    }
    assert(ids@.take(i as int) =~= ids@);
    count
}

/// The title of a window: its pane's title, else its directory.
pub open spec fn window_text(pane: Option<(Seq<char>, Seq<char>)>) -> Seq<char> {
    (match pane {
        Some((title, cwd)) => if title.len() > 0 {
            title
        } else {
            cwd
        },
        None => "Rustty"@,
    }) + " — Rustty"@
}

/// The title of a window whose focused pane is in this state, if it has one.
pub fn window_title(pane: Option<&PaneState>) -> (title: String)
    ensures
        title@ == window_text(
            match pane {
                Some(pane) => Some((pane.title@, pane.cwd@)),
                None => None,
            },
        ),
{
    let name = match pane {
        Some(pane) => if pane.title.as_str().is_empty() {
            pane.cwd.as_str()
        } else {
            pane.title.as_str()
        },
        None => "Rustty",
    };
    let mut title = name.to_owned();
    title.append(" — Rustty");
    title
}

/// The label of a quadrant, whose panes are in these directories: `holds_focus` tells whether the
/// focused pane, or the one that a peek is at, is among them.
pub fn quadrant_label(
    directories: &[Option<&str>],
    holds_focus: bool,
    window_focused: bool,
    peek: bool,
) -> (label: Option<DirectoryLabel>)
    ensures
        label is Some <==> shared_name(directories@) is Some && shared_name(directories@)->0.len()
            > 0 && (!holds_focus || !window_focused || peek),
        label is Some ==> Some(label->0.name@) == shared_name(directories@) && label->0.focused
            == holds_focus,
{
    let name = common_directory_name(directories);
    DirectoryLabel::new(name, holds_focus, window_focused, peek)
}

/// The label of a single pane; `hint` tells whether its focus was just announced.
pub fn pane_label(cwd: &str, selected: bool, window_focused: bool, hint: bool) -> (label: Option<
    DirectoryLabel,
>)
    ensures
        label is Some <==> name_of_directory(cwd@) is Some && (!selected || !window_focused
            || hint),
        label is Some ==> Some(label->0.name@) == name_of_directory(cwd@) && label->0.focused
            == selected,
{
    let name = directory_name(cwd);
    DirectoryLabel::new(name, selected, window_focused, hint)
}

/// The pulses that a pane's stop begins in a tab that holds it: the tab's where it is behind others,
/// the pane's where another has the focus, and that of a quadrant with a label of its own.
pub open spec fn stopped_flashes(
    flashes: Map<Id, CompletionFlash>,
    tab: Id,
    in_front: bool,
    pane: Id,
    focused: Id,
    quadrant: Option<Id>,
    now: Instant,
) -> Map<Id, CompletionFlash> {
    let started = CompletionFlash { started: Some(now) };
    let first = if in_front {
        flashes
    } else {
        flashes.insert(tab, started)
    };
    let second = if pane == focused {
        first
    } else {
        first.insert(pane, pulsed(first, pane, now))
    };
    match quadrant {
        Some(quadrant) => second.insert(quadrant, pulsed(second, quadrant, now)),
        None => second,
    }
}

/// A pulse that goes on, or begins.
pub open spec fn pulsed(flashes: Map<Id, CompletionFlash>, id: Id, now: Instant) -> CompletionFlash {
    if flashes.contains_key(id) && flashes[id].running(now) {
        flashes[id]
    } else {
        CompletionFlash { started: Some(now) }
    }
}

fn pulse(flashes: &mut HashMap<Id, CompletionFlash>, id: Id, now: Instant)
    requires
        old(flashes)@.contains_key(id) ==> old(flashes)@[id].fits(now),
    ensures
        final(flashes)@ == old(flashes)@.insert(id, pulsed(old(flashes)@, id, now)),
{
    let mut flash = match flashes.get(&id) {
        Some(flash) => *flash,
        None => CompletionFlash { started: None },
    };
    flash.start_if_idle(now);
    flashes.insert(id, flash);
}

/// The pulses after a pane stopped, as one tab sees it: only a tab of the pane begins any.
pub open spec fn tab_flashes<L>(
    flashes: Map<Id, CompletionFlash>,
    tab: Tab<L>,
    in_front: bool,
    pane: Id,
    quadrant: Option<Id>,
    now: Instant,
) -> Map<Id, CompletionFlash> {
    if holds_pane(tab, pane) {
        stopped_flashes(flashes, tab.id, in_front, pane, tab.focused, quadrant, now)
    } else {
        flashes
    }
}

/// The clock reaches the end of every pulse.
pub open spec fn flashes_fit(flashes: Map<Id, CompletionFlash>, now: Instant) -> bool {
    forall|id: Id| #[trigger] flashes.contains_key(id) ==> flashes[id].fits(now)
}

/// Begins the pulses for a pane that stopped, if this is a tab of it. `quadrant` is the pane's
/// where it has a label.
pub fn activity_stopped<L>(
    flashes: &mut HashMap<Id, CompletionFlash>,
    tab: &Tab<L>,
    in_front: bool,
    pane: Id,
    quadrant: Option<Id>,
    now: Instant,
)
    requires
        now.reaches(FLASH_DURATION),
        flashes_fit(old(flashes)@, now),
    ensures
        final(flashes)@ == tab_flashes(old(flashes)@, *tab, in_front, pane, quadrant, now),
        flashes_fit(final(flashes)@, now),
{
    if !has_id(&tab.panes, pane) {
        return;
    }
    if !in_front {
        flashes.insert(tab.id, CompletionFlash { started: Some(now) });
    }
    if pane != tab.focused {
        pulse(flashes, pane, now);
    }
    if let Some(quadrant) = quadrant {
        pulse(flashes, quadrant, now);
    }
}

/// The labelled quadrant that is listed for a tab.
pub open spec fn labelled_quadrant(quadrants: Seq<(Id, Id)>, tab: Id) -> Option<Id>
    decreases quadrants.len(),
{
    if quadrants.len() == 0 {
        None
    } else if quadrants[0].0 == tab {
        Some(quadrants[0].1)
    } else {
        labelled_quadrant(quadrants.drop_first(), tab)
    }
}

fn quadrant_of(quadrants: &Vec<(Id, Id)>, tab: Id) -> (quadrant: Option<Id>)
    ensures
        quadrant == labelled_quadrant(quadrants@, tab),
{
    let mut i: usize = 0;
    assert(quadrants@.skip(0) =~= quadrants@);
    while i < quadrants.len()
        invariant
            i <= quadrants@.len(),
            labelled_quadrant(quadrants@, tab) == labelled_quadrant(quadrants@.skip(i as int), tab),
        decreases quadrants@.len() - i,
    {
        assert(quadrants@.skip(i as int).drop_first() =~= quadrants@.skip(i + 1));
        if quadrants[i].0 == tab {
            return Some(quadrants[i].1);
        }
        i += 1;
    }
    None
}

/// The pulses after a pane stopped, as the first `count` tabs of a window see it.
pub open spec fn window_flashes<L>(
    flashes: Map<Id, CompletionFlash>,
    window: Window<L>,
    count: int,
    pane: Id,
    quadrants: Seq<(Id, Id)>,
    now: Instant,
) -> Map<Id, CompletionFlash>
    decreases count,
{
    if count <= 0 {
        flashes
    } else {
        let tab = window.tabs@[count - 1];
        tab_flashes(
            window_flashes(flashes, window, count - 1, pane, quadrants, now),
            tab,
            count - 1 == window.active_tab,
            pane,
            labelled_quadrant(quadrants, tab.id),
            now,
        )
    }
}

/// The pulses after a pane stopped, as the first `count` windows see it.
pub open spec fn workspace_flashes<L>(
    flashes: Map<Id, CompletionFlash>,
    windows: Seq<Window<L>>,
    count: int,
    pane: Id,
    quadrants: Seq<(Id, Id)>,
    now: Instant,
) -> Map<Id, CompletionFlash>
    decreases count,
{
    if count <= 0 {
        flashes
    } else {
        let window = windows[count - 1];
        window_flashes(
            workspace_flashes(flashes, windows, count - 1, pane, quadrants, now),
            window,
            window.tabs@.len() as int,
            pane,
            quadrants,
            now,
        )
    }
}

impl<L> Workspace<L> {
    /// Begins the pulses for a pane that stopped, in all of its tabs. `quadrants` lists, by tab,
    /// the pane's quadrants that have a label.
    pub fn activity_stopped(
        &self,
        flashes: &mut HashMap<Id, CompletionFlash>,
        pane: Id,
        quadrants: &Vec<(Id, Id)>,
        now: Instant,
    )
        requires
            now.reaches(FLASH_DURATION),
            flashes_fit(old(flashes)@, now),
        ensures
            final(flashes)@ == workspace_flashes(
                old(flashes)@,
                self.windows@,
                self.windows@.len() as int,
                pane,
                quadrants@,
                now,
            ),
            flashes_fit(final(flashes)@, now),
    {
        let ghost before = flashes@;
        let mut i: usize = 0;
        while i < self.windows.len()
            invariant
                now.reaches(FLASH_DURATION),
                i <= self.windows@.len(),
                flashes_fit(flashes@, now),
                flashes@ == workspace_flashes(
                    before,
                    self.windows@,
                    i as int,
                    pane,
                    quadrants@,
                    now,
                ),
            decreases self.windows@.len() - i,
        {
            let window = &self.windows[i];
            let ghost begun = flashes@;
            let mut j: usize = 0;
            while j < window.tabs.len()
                invariant
                    now.reaches(FLASH_DURATION),
                    j <= window.tabs@.len(),
                    flashes_fit(flashes@, now),
                    flashes@ == window_flashes(begun, *window, j as int, pane, quadrants@, now),
                decreases window.tabs@.len() - j,
            {
                let tab = &window.tabs[j];
                let quadrant = quadrant_of(quadrants, tab.id);
                activity_stopped(flashes, tab, j == window.active_tab, pane, quadrant, now);
                j += 1;
            }
            i += 1;
        }
    }
}

/// The pulse with this ID is the same in both.
pub open spec fn same_pulse(
    one: Map<Id, CompletionFlash>,
    two: Map<Id, CompletionFlash>,
    id: Id,
) -> bool {
    one.contains_key(id) == two.contains_key(id) && (one.contains_key(id) ==> one[id] == two[id])
}

/// A stop of the pane in this tab may begin the pulse with this ID.
pub open spec fn may_pulse<L>(tab: Tab<L>, pane: Id, quadrants: Seq<(Id, Id)>, id: Id) -> bool {
    holds_pane(tab, pane) && (id == tab.id || (id == pane && pane != tab.focused)
        || labelled_quadrant(quadrants, tab.id) == Some(id))
}

proof fn lemma_window_pulses<L>(
    flashes: Map<Id, CompletionFlash>,
    window: Window<L>,
    count: int,
    pane: Id,
    quadrants: Seq<(Id, Id)>,
    now: Instant,
    id: Id,
)
    requires
        0 <= count <= window.tabs@.len(),
        forall|j: int|
            0 <= j < window.tabs@.len() ==> !(#[trigger] may_pulse(
                window.tabs@[j],
                pane,
                quadrants,
                id,
            )),
    ensures
        same_pulse(flashes, window_flashes(flashes, window, count, pane, quadrants, now), id),
    decreases count,
{
    if count > 0 {
        lemma_window_pulses(flashes, window, count - 1, pane, quadrants, now, id);
        assert(!may_pulse(window.tabs@[count - 1], pane, quadrants, id));
    }
}

proof fn lemma_workspace_pulses<L>(
    flashes: Map<Id, CompletionFlash>,
    windows: Seq<Window<L>>,
    count: int,
    pane: Id,
    quadrants: Seq<(Id, Id)>,
    now: Instant,
    id: Id,
)
    requires
        0 <= count <= windows.len(),
        forall|i: int, j: int|
            0 <= i < windows.len() && 0 <= j < windows[i].tabs@.len() ==> !(#[trigger] may_pulse(
                windows[i].tabs@[j],
                pane,
                quadrants,
                id,
            )),
    ensures
        same_pulse(flashes, workspace_flashes(flashes, windows, count, pane, quadrants, now), id),
    decreases count,
{
    if count > 0 {
        lemma_workspace_pulses(flashes, windows, count - 1, pane, quadrants, now, id);
        let window = windows[count - 1];
        assert forall|j: int| 0 <= j < window.tabs@.len() implies !(#[trigger] may_pulse(
            window.tabs@[j],
            pane,
            quadrants,
            id,
        )) by {
            assert(!may_pulse(windows[count - 1].tabs@[j], pane, quadrants, id));
        }
        lemma_window_pulses(
            workspace_flashes(flashes, windows, count - 1, pane, quadrants, now),
            window,
            window.tabs@.len() as int,
            pane,
            quadrants,
            now,
            id,
        );
    }
}

/// A stop pulses only in the pane's own tabs: every other tab, a pane that has the focus in all
/// of its tabs, and a quadrant that no such tab labels keep the pulse that they had, or none.
pub proof fn law_stops_pulse_only_where_the_pane_is<L>(
    workspace: Workspace<L>,
    flashes: Map<Id, CompletionFlash>,
    pane: Id,
    quadrants: Seq<(Id, Id)>,
    now: Instant,
    id: Id,
)
    requires
        forall|i: int, j: int|
            0 <= i < workspace.windows@.len() && 0 <= j < workspace.windows@[i].tabs@.len()
                ==> !(#[trigger] may_pulse(
                workspace.windows@[i].tabs@[j],
                pane,
                quadrants,
                id,
            )),
    ensures
        same_pulse(
            flashes,
            workspace_flashes(
                flashes,
                workspace.windows@,
                workspace.windows@.len() as int,
                pane,
                quadrants,
                now,
            ),
            id,
        ),
{
    lemma_workspace_pulses(
        flashes,
        workspace.windows@,
        workspace.windows@.len() as int,
        pane,
        quadrants,
        now,
        id,
    );
}

/// The colour of a progress bar that does not take the tab's, and the bar's name.
pub open spec fn progress_look(state: u8) -> (Option<Rgb>, Seq<char>) {
    if state == 2 {
        (Some(Rgb { r: 255, g: 59, b: 48 }), "Terminal progress — Error"@)
    } else if state == 4 {
        (Some(Rgb { r: 255, g: 149, b: 0 }), "Terminal progress — Paused"@)
    } else if state == 3 {
        (None, "Terminal progress — In progress"@)
    } else {
        (None, "Terminal progress"@)
    }
}

/// The colour of a progress bar, where it is not the tab's, and the bar's name.
pub fn progress_style(progress: Progress) -> (style: (Option<Rgb>, String))
    ensures
        (style.0, style.1@) == progress_look(progress.state),
{
    match progress.state {
        2 => (Some(Rgb { r: 255, g: 59, b: 48 }), "Terminal progress — Error".to_owned()),
        4 => (Some(Rgb { r: 255, g: 149, b: 0 }), "Terminal progress — Paused".to_owned()),
        3 => (None, "Terminal progress — In progress".to_owned()),
        _ => (None, "Terminal progress".to_owned()),
    }
}

/// The text occurs in the other.
pub open spec fn occurs(text: Seq<char>, part: Seq<char>) -> bool {
    exists|i: int| 0 <= i <= text.len() && has_prefix(#[trigger] text.skip(i), part)
}

/// Whether a text occurs in another.
pub fn contains_text(text: &str, part: &str) -> (found: bool)
    ensures
        found == occurs(text@, part@),
{
    let chars = to_chars(text);
    let mut i: usize = 0;
    while i < chars.len()
        invariant
            chars@ == text@,
            i <= chars@.len(),
            forall|j: int| 0 <= j < i ==> !has_prefix(#[trigger] text@.skip(j), part@),
        decreases chars@.len() - i,
    {
        if matches_at(chars.as_slice(), i, part) {
            assert(has_prefix(text@.skip(i as int), part@));
            return true;
        }
        i += 1;
    }
    if matches_at(chars.as_slice(), chars.len(), part) {
        assert(has_prefix(text@.skip(chars@.len() as int), part@));
        true
    } else {
        false
    }
}

/// Whether an entry of the command palette answers to what was typed, in whatever case.
pub fn palette_matches(label: &str, query: &str) -> (found: bool)
    ensures
        found == occurs(lowered(label@), lowered(query@)),
{
    contains_text(label.to_lowercase().as_str(), query.to_lowercase().as_str())
}

/// The entries of the command palette.
pub open spec fn palette_entries() -> Seq<(Seq<char>, Action)> {
    seq![
        ("New window"@, Action::NewWindow),
        ("New tab"@, Action::NewTab),
        ("Split right"@, Action::NewSplit(Direction::Right)),
        ("Split down"@, Action::NewSplit(Direction::Down)),
        ("Zoom pane"@, Action::ToggleSplitZoom),
        ("Zoom quadrant"@, Action::ToggleQuadrantZoom),
        ("Equalize splits"@, Action::EqualizeSplits),
        ("Find"@, Action::StartSearch),
        ("Open configuration"@, Action::OpenConfig),
        ("Open saved layout"@, Action::OpenLayout),
        ("Reload configuration"@, Action::ReloadConfig),
        ("Toggle quick terminal"@, Action::ToggleQuickTerminal),
        ("Undo layout change"@, Action::Undo),
        ("Redo layout change"@, Action::Redo),
    ]
}

pub fn palette_actions() -> (entries: Vec<(&'static str, Action)>)
    ensures
        entries@.len() == palette_entries().len(),
        forall|i: int|
            0 <= i < entries@.len() ==> (#[trigger] entries@[i]).0@ == palette_entries()[i].0
                && entries@[i].1 == palette_entries()[i].1,
{
    vec![
        ("New window", Action::NewWindow),
        ("New tab", Action::NewTab),
        ("Split right", Action::NewSplit(Direction::Right)),
        ("Split down", Action::NewSplit(Direction::Down)),
        ("Zoom pane", Action::ToggleSplitZoom),
        ("Zoom quadrant", Action::ToggleQuadrantZoom),
        ("Equalize splits", Action::EqualizeSplits),
        ("Find", Action::StartSearch),
        ("Open configuration", Action::OpenConfig),
        ("Open saved layout", Action::OpenLayout),
        ("Reload configuration", Action::ReloadConfig),
        ("Toggle quick terminal", Action::ToggleQuickTerminal),
        ("Undo layout change", Action::Undo),
        ("Redo layout change", Action::Redo),
    ]
}

/// The theme of the user interface.
#[derive(Clone, Copy, Debug, PartialEq, Eq, Structural)]
pub enum WindowTheme {
    System,
    Light,
    Dark,
    /// As bright as the terminals.
    Auto,
}

/// The theme for a background: `Auto` weighs its brightness.
pub fn ui_theme(theme: WindowTheme, background: Rgb) -> (chosen: WindowTheme)
    ensures
        chosen == if theme == WindowTheme::Auto {
            if 299 * background.r + 587 * background.g + 114 * background.b < 128000 {
                WindowTheme::Dark
            } else {
                WindowTheme::Light
            }
        } else {
            theme
        },
{
    if theme == WindowTheme::Auto {
        let brightness: u32 = 299 * background.r as u32 + 587 * background.g as u32 + 114
            * background.b as u32;
        if brightness < 128000 {
            WindowTheme::Dark
        } else {
            WindowTheme::Light
        }
    } else {
        theme
    }
}

/// What terminals are told of the system's appearance.
#[derive(Clone, Copy, Debug, PartialEq, Eq, Structural)]
pub enum ColorScheme {
    Light,
    Dark,
}

pub fn color_scheme(dark_mode: bool) -> (scheme: ColorScheme)
    ensures
        scheme == if dark_mode {
            ColorScheme::Dark
        } else {
            ColorScheme::Light
        },
{
    if dark_mode {
        ColorScheme::Dark
    } else {
        ColorScheme::Light
    }
}

/// A tab's label is short, however long its title: the title's part of it is bounded.
pub proof fn law_tab_titles_are_bounded(title: Seq<char>)
    ensures
        shortened(title).len() <= TAB_TITLE_CHARS,
        title.len() > TAB_TITLE_CHARS ==> shortened(title).len() == TAB_TITLE_CHARS,
        title.len() <= TAB_TITLE_CHARS ==> shortened(title) == title,
        has_prefix(title, shortened(title)),
{
    assert(title.subrange(0, shortened(title).len() as int) =~= shortened(title));
}

} // verus!
