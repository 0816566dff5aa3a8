//! What tabs, windows and labels tell of their panes.
use crate::actions::{Action, Direction};
use crate::labels::{
    badge_count, color_scheme, labelled_quadrant, occurs, palette_actions, palette_matches,
    pane_label, progress_look, quadrant_label, tab_flashes, tab_label, tab_text, tab_title,
    ui_theme, unseen_count, window_flashes, window_text, working_panes, workspace_flashes,
    ColorScheme, WindowTheme,
};
use crate::panes::PaneState;
use crate::presentation::{
    name_of_directory, optional_name, shared_name, CompletionFlash, DirectoryLabel, Id,
    TitleActivity,
};
use crate::screen::Rgb;
use crate::text::{decimal, lowered};
use crate::time::Instant;
use crate::workspace::{Tab, Window, Workspace};
use std::collections::HashMap;
use vstd::prelude::*;

verus! {

/// A tab goes by the title that the user gave it, else by that of its focused pane, and by a word of
/// its own where both are empty.
pub proof fn law_tabs_go_by_their_title<L>(tab: Tab<L>, panes: Map<Id, PaneState>)
    ensures
        ({
            let title = tab_title(tab, panes);
            let named = tab.title is Some && tab.title->0@.len() > 0;
            let shown = panes.contains_key(tab.focused) && panes[tab.focused].title@.len() > 0;
            &&& named ==> title == tab.title->0@
            &&& !named && shown ==> title == panes[tab.focused].title@
            &&& !named && !shown ==> title == "Terminal"@
        }),
{
}

/// A tab's label begins with its title, cut behind twenty-six characters; marks for attention, for
/// work with the number of panes at it, and for a zoom follow, in this order.
pub proof fn law_tab_labels_add_their_marks(
    title: Seq<char>,
    attention: bool,
    working: int,
    zoomed: bool,
)
    ensures
        title.len() <= 26 ==> tab_text(title, false, 0, false) == title,
        title.len() > 26 ==> tab_text(title, false, 0, false) == title.subrange(0, 26),
        tab_text(title, true, 0, false) == tab_text(title, false, 0, false) + " ●"@,
        working > 0 ==> tab_text(title, attention, working, false) == tab_text(
            title,
            attention,
            0,
            false,
        ) + " ▶ "@ + decimal(working),
        tab_text(title, attention, working, true) == tab_text(title, attention, working, false)
            + " ◩"@,
{
    assert(tab_text(title, false, 0, false) =~= if title.len() <= 26 {
        title
    } else {
        title.subrange(0, 26)
    });
    assert(tab_text(title, true, 0, false) =~= tab_text(title, false, 0, false) + " ●"@);
    if working > 0 {
        assert(tab_text(title, attention, working, false) =~= tab_text(title, attention, 0, false)
            + " ▶ "@ + decimal(working));
    }
    assert(tab_text(title, attention, working, true) =~= tab_text(title, attention, working, false)
        + " ◩"@);
}

/// A tab's label tells of all its panes: its mark of attention is there exactly if one of them is
/// unseen, its number counts those at work, and its activity shows exactly if one is active.
pub proof fn law_tab_labels_tell_of_their_panes<L>(
    tab: &Tab<L>,
    panes: &HashMap<Id, PaneState>,
    label: (String, bool),
    working: int,
)
    requires
        call_ensures(tab_label, (tab, panes), label),
        working == working_panes(tab.panes@, panes@),
    ensures
        label.1 <==> exists|i: int|
            0 <= i < tab.panes@.len() && panes@.contains_key(#[trigger] tab.panes@[i]) && (
            panes@[tab.panes@[i]].activity.command_running
                || panes@[tab.panes@[i]].activity.progress_deadline is Some),
        label.0@ == tab_text(
            tab_title(*tab, panes@),
            exists|i: int|
                0 <= i < tab.panes@.len() && panes@.contains_key(#[trigger] tab.panes@[i])
                    && panes@[tab.panes@[i]].unseen,
            working,
            tab.zoomed,
        ),
{
}

/// Each pane that reports work counts once: by its title or its progress, unless its title waits.
pub proof fn law_working_panes_count_once(ids: Seq<Id>, panes: Map<Id, PaneState>, id: Id)
    ensures
        ({
            let activity = panes[id].activity;
            let works = panes.contains_key(id) && activity.title != TitleActivity::Waiting && (
            activity.title == TitleActivity::Working || activity.reported_progress);
            &&& working_panes(Seq::empty(), panes) == 0
            &&& works ==> working_panes(ids.push(id), panes) == working_panes(ids, panes) + 1
            &&& !works ==> working_panes(ids.push(id), panes) == working_panes(ids, panes)
        }),
{
    assert(ids.push(id).drop_last() =~= ids);
}

/// Each unseen pane counts once in the application's badge.
pub proof fn law_unseen_panes_count_once(ids: Seq<Id>, panes: Map<Id, PaneState>, id: Id)
    ensures
        unseen_count(Seq::empty(), panes) == 0,
        panes.contains_key(id) && panes[id].unseen ==> unseen_count(ids.push(id), panes)
            == unseen_count(ids, panes) + 1,
        !panes.contains_key(id) || !panes[id].unseen ==> unseen_count(ids.push(id), panes)
            == unseen_count(ids, panes),
{
    assert(ids.push(id).drop_last() =~= ids);
}

/// The badge counts every pane of every window: it is bare exactly if none is unseen.
pub proof fn law_the_badge_is_bare_when_all_is_seen<L>(
    workspace: &Workspace<L>,
    panes: &HashMap<Id, PaneState>,
    count: usize,
)
    requires
        call_ensures(badge_count, (workspace, panes), count),
    ensures
        ({
            let ids = crate::workspace::all_panes(workspace.windows@);
            count == 0 <==> forall|i: int|
                0 <= i < ids.len() ==> !(panes@.contains_key(#[trigger] ids[i])
                    && panes@[ids[i]].unseen)
        }),
{
    lemma_none_unseen(crate::workspace::all_panes(workspace.windows@), panes@);
}

proof fn lemma_none_unseen(ids: Seq<Id>, panes: Map<Id, PaneState>)
    ensures
        unseen_count(ids, panes) >= 0,
        unseen_count(ids, panes) == 0 <==> forall|i: int|
            0 <= i < ids.len() ==> !(panes.contains_key(#[trigger] ids[i]) && panes[ids[i]].unseen),
    decreases ids.len(),
{
    if ids.len() > 0 {
        let front = ids.drop_last();
        lemma_none_unseen(front, panes);
        assert(ids[ids.len() - 1] == ids.last());
        if unseen_count(ids, panes) == 0 {
            assert forall|i: int| 0 <= i < ids.len() implies !(panes.contains_key(#[trigger] ids[i])
                && panes[ids[i]].unseen) by {
                if i < front.len() {
                    assert(front[i] == ids[i]);
                }
            }
        }
        if forall|i: int|
            0 <= i < ids.len() ==> !(panes.contains_key(#[trigger] ids[i]) && panes[ids[i]].unseen) {
            assert forall|i: int| 0 <= i < front.len() implies !(panes.contains_key(
                #[trigger] front[i],
            ) && panes[front[i]].unseen) by {
                assert(ids[i] == front[i]);
            }
        }
    }
}

/// A window goes by its pane's title, else by its directory, and always by the application's name.
pub proof fn law_windows_go_by_their_pane(title: Seq<char>, cwd: Seq<char>)
    ensures
        title.len() > 0 ==> window_text(Some((title, cwd))) == title + " — Rustty"@,
        title.len() == 0 ==> window_text(Some((title, cwd))) == cwd + " — Rustty"@,
        window_text(None) == "Rustty — Rustty"@,
{
    reveal_strlit("Rustty");
    reveal_strlit(" — Rustty");
    reveal_strlit("Rustty — Rustty");
    assert(window_text(None) =~= "Rustty — Rustty"@);
}

/// When a pane's activity stops, its tab flashes unless it is in front, the pane unless it has the
/// tab's focus, and its quadrant in any case. The tab's flash begins anew; the others go on where
/// they run. Nothing else flashes.
pub proof fn law_stops_flash_where_they_are_not_seen<L>(
    flashes: Map<Id, CompletionFlash>,
    tab: Tab<L>,
    in_front: bool,
    pane: Id,
    quadrant: Option<Id>,
    now: Instant,
    id: Id,
)
    requires
        tab.id != pane,
        quadrant != Some(tab.id),
        quadrant != Some(pane),
    ensures
        ({
            let after = tab_flashes(flashes, tab, in_front, pane, quadrant, now);
            let here = tab.panes@.contains(pane);
            let runs = flashes.contains_key(id) && flashes[id].started is Some && now.nanos
                < flashes[id].started->0.nanos + 1_200_000_000;
            let pulses = here && ((id == pane && pane != tab.focused) || Some(id) == quadrant);
            &&& !here ==> after == flashes
            &&& here && id == tab.id && !in_front ==> after.contains_key(id) && after[id].started
                == Some(now)
            &&& pulses && runs ==> after.contains_key(id) && after[id] == flashes[id]
            &&& pulses && !runs ==> after.contains_key(id) && after[id].started == Some(now)
            &&& !pulses && !(here && id == tab.id && !in_front) ==> after.contains_key(id)
                == flashes.contains_key(id) && (after.contains_key(id) ==> after[id] == flashes[id])
        }),
{
}

/// A stop is told to the tab that holds the pane, wherever that tab is.
pub proof fn law_stops_reach_the_tab_of_the_pane<L>(
    flashes: Map<Id, CompletionFlash>,
    windows: Seq<Window<L>>,
    pane: Id,
    quadrants: Seq<(Id, Id)>,
    now: Instant,
    w: int,
    t: int,
)
    requires
        0 <= w < windows.len(),
        0 <= t < windows[w].tabs@.len(),
        windows[w].tabs@[t].panes@.contains(pane),
        forall|i: int, j: int|
            0 <= i < windows.len() && 0 <= j < windows[i].tabs@.len() && (i != w || j != t) ==> !(
            #[trigger] windows[i].tabs@[j]).panes@.contains(pane),
    ensures
        workspace_flashes(flashes, windows, windows.len() as int, pane, quadrants, now)
            == tab_flashes(
            flashes,
            windows[w].tabs@[t],
            t == windows[w].active_tab,
            pane,
            labelled_quadrant(quadrants, windows[w].tabs@[t].id),
            now,
        ),
{
    lemma_windows(flashes, windows, windows.len() as int, pane, quadrants, now, w, t);
}

proof fn lemma_tabs<L>(
    flashes: Map<Id, CompletionFlash>,
    window: Window<L>,
    count: int,
    pane: Id,
    quadrants: Seq<(Id, Id)>,
    now: Instant,
    t: int,
)
    requires
        0 <= count <= window.tabs@.len(),
        forall|j: int|
            0 <= j < window.tabs@.len() && j != t ==> !(#[trigger] window.tabs@[j]).panes@.contains(
                pane,
            ),
    ensures
        window_flashes(flashes, window, count, pane, quadrants, now) == if 0 <= t < count {
            tab_flashes(
                flashes,
                window.tabs@[t],
                t == window.active_tab,
                pane,
                labelled_quadrant(quadrants, window.tabs@[t].id),
                now,
            )
        } else {
            flashes
        },
    decreases count,
{
    if count > 0 {
        lemma_tabs(flashes, window, count - 1, pane, quadrants, now, t);
        if count - 1 != t {
            assert(!window.tabs@[count - 1].panes@.contains(pane));
        }
    }
}

proof fn lemma_windows<L>(
    flashes: Map<Id, CompletionFlash>,
    windows: Seq<Window<L>>,
    count: int,
    pane: Id,
    quadrants: Seq<(Id, Id)>,
    now: Instant,
    w: int,
    t: int,
)
    requires
        0 <= count <= windows.len(),
        0 <= w < windows.len(),
        0 <= t < windows[w].tabs@.len(),
        forall|i: int, j: int|
            0 <= i < windows.len() && 0 <= j < windows[i].tabs@.len() && (i != w || j != t) ==> !(
            #[trigger] windows[i].tabs@[j]).panes@.contains(pane),
    ensures
        workspace_flashes(flashes, windows, count, pane, quadrants, now) == if w < count {
            tab_flashes(
                flashes,
                windows[w].tabs@[t],
                t == windows[w].active_tab,
                pane,
                labelled_quadrant(quadrants, windows[w].tabs@[t].id),
                now,
            )
        } else {
            flashes
        },
    decreases count,
{
    if count > 0 {
        lemma_windows(flashes, windows, count - 1, pane, quadrants, now, w, t);
        let before = workspace_flashes(flashes, windows, count - 1, pane, quadrants, now);
        let n = windows[count - 1].tabs@.len() as int;
        lemma_tabs(
            before,
            windows[count - 1],
            n,
            pane,
            quadrants,
            now,
            if count - 1 == w {
                t
            } else {
                -1
            },
        );
    }
}

/// A tab's quadrant is the first that is listed for it.
pub proof fn law_quadrants_are_listed_by_tab(quadrants: Seq<(Id, Id)>, tab: Id, i: int)
    requires
        0 <= i < quadrants.len(),
        quadrants[i].0 == tab,
        forall|j: int| 0 <= j < i ==> (#[trigger] quadrants[j]).0 != tab,
    ensures
        labelled_quadrant(quadrants, tab) == Some(quadrants[i].1),
    decreases quadrants.len(),
{
    if i > 0 {
        assert(quadrants[0].0 != tab);
        let rest = quadrants.drop_first();
        assert forall|j: int| 0 <= j < i - 1 implies (#[trigger] rest[j]).0 != tab by {
            assert(rest[j] == quadrants[j + 1]);
        }
        law_quadrants_are_listed_by_tab(rest, tab, i - 1);
    }
}

/// Errors are red and pauses orange; other progress has the platform's colour. Each says what it
/// is.
pub proof fn law_progress_is_told_by_its_colour(state: u8)
    ensures
        progress_look(state).0 is Some <==> state == 2 || state == 4,
        progress_look(2).0 == Some(Rgb { r: 255, g: 59, b: 48 }),
        progress_look(4).0 == Some(Rgb { r: 255, g: 149, b: 0 }),
        progress_look(1).1 == "Terminal progress"@,
        progress_look(2).1 == "Terminal progress — Error"@,
        progress_look(3).1 == "Terminal progress — In progress"@,
        progress_look(4).1 == "Terminal progress — Paused"@,
{
}

/// A text occurs in another exactly if the other can be cut into what stands before it, the text
/// and what stands behind.
pub proof fn law_texts_occur_within_others(
    text: Seq<char>,
    part: Seq<char>,
    before: Seq<char>,
    behind: Seq<char>,
)
    ensures
        occurs(before + part + behind, part),
        occurs(text, part) ==> exists|i: int|
            0 <= i && i + part.len() <= text.len() && #[trigger] text.subrange(i, i + part.len())
                == part,
{
    let whole = before + part + behind;
    let n = before.len() as int;
    assert(whole.skip(n).subrange(0, part.len() as int) =~= part);
    assert(crate::text::has_prefix(whole.skip(n), part));
    if occurs(text, part) {
        let i = choose|i: int|
            0 <= i <= text.len() && crate::text::has_prefix(#[trigger] text.skip(i), part);
        assert(text.subrange(i, i + part.len()) =~= text.skip(i).subrange(0, part.len() as int));
    }
}

/// The palette finds its entries by any part of their names, whatever the case.
pub proof fn law_the_palette_finds_parts_of_names(
    label: &str,
    query: &str,
    found: bool,
    before: Seq<char>,
    behind: Seq<char>,
)
    requires
        call_ensures(palette_matches, (label, query), found),
    ensures
        lowered(label@) == before + lowered(query@) + behind ==> found,
        found ==> lowered(query@).len() <= lowered(label@).len(),
{
    law_texts_occur_within_others(lowered(label@), lowered(query@), before, behind);
}

/// The name of an action in the palette, where it is there.
pub open spec fn entry_of(action: Action) -> Option<Seq<char>> {
    match action {
        Action::NewWindow => Some("New window"@),
        Action::NewTab => Some("New tab"@),
        Action::NewSplit(Direction::Right) => Some("Split right"@),
        Action::NewSplit(Direction::Down) => Some("Split down"@),
        Action::ToggleSplitZoom => Some("Zoom pane"@),
        Action::ToggleQuadrantZoom => Some("Zoom quadrant"@),
        Action::EqualizeSplits => Some("Equalize splits"@),
        Action::StartSearch => Some("Find"@),
        Action::OpenConfig => Some("Open configuration"@),
        Action::OpenLayout => Some("Open saved layout"@),
        Action::ReloadConfig => Some("Reload configuration"@),
        Action::ToggleQuickTerminal => Some("Toggle quick terminal"@),
        Action::Undo => Some("Undo layout change"@),
        Action::Redo => Some("Redo layout change"@),
        _ => None,
    }
}

/// Every entry of the palette does what its name says, and no action is there twice.
pub proof fn law_palette_entries_do_what_they_say(
    entries: Vec<(&'static str, Action)>,
    i: int,
    j: int,
)
    requires
        call_ensures(palette_actions, (), entries),
        0 <= i < entries@.len(),
        0 <= j < entries@.len(),
    ensures
        entries@.len() == 14,
        entry_of(entries@[i].1) == Some(entries@[i].0@),
        i != j ==> entries@[i].1 != entries@[j].1,
{
    assert(entries@.len() == 14);
}

/// An automatic theme follows the background, dark under dark colours and light under light ones;
/// one that was chosen stays.
pub proof fn law_themes_follow_the_background(
    theme: WindowTheme,
    background: Rgb,
    chosen: WindowTheme,
)
    requires
        call_ensures(ui_theme, (theme, background), chosen),
    ensures
        theme != WindowTheme::Auto ==> chosen == theme,
        theme == WindowTheme::Auto ==> chosen == WindowTheme::Dark || chosen == WindowTheme::Light,
        theme == WindowTheme::Auto && background.r < 128 && background.g < 128 && background.b < 128
            ==> chosen == WindowTheme::Dark,
        theme == WindowTheme::Auto && background.r >= 128 && background.g >= 128 && background.b
            >= 128 ==> chosen == WindowTheme::Light,
        theme == WindowTheme::Auto ==> (chosen == WindowTheme::Dark <==> 299 * background.r + 587
            * background.g + 114 * background.b < 128_000),
{
}

/// Programs are told of a dark system as dark and of a light one as light.
pub proof fn law_schemes_follow_the_system(dark_mode: bool, scheme: ColorScheme)
    requires
        call_ensures(color_scheme, (dark_mode,), scheme),
    ensures
        scheme == ColorScheme::Dark <==> dark_mode,
        scheme == ColorScheme::Light <==> !dark_mode,
{
}

/// A pane's label is its directory's name, on the selected pane only where the window lacks the
/// focus or a hint is on.
pub proof fn law_panes_are_labelled_by_their_directory(
    cwd: &str,
    selected: bool,
    window_focused: bool,
    hint: bool,
    label: Option<DirectoryLabel>,
)
    requires
        call_ensures(pane_label, (cwd, selected, window_focused, hint), label),
    ensures
        label matches Some(label) ==> name_of_directory(cwd@) == Some(label.name@) && label.focused
            == selected,
        selected && window_focused && !hint ==> label is None,
        !selected || !window_focused || hint ==> (label is Some <==> name_of_directory(cwd@)
            is Some),
{
}

/// A quadrant's label is the name that its panes' directories share, on the one with the focus only
/// where the window lacks it or in a peek.
pub proof fn law_quadrants_are_labelled_by_what_they_share(
    directories: &[Option<&str>],
    holds_focus: bool,
    window_focused: bool,
    peek: bool,
    label: Option<DirectoryLabel>,
    i: int,
)
    requires
        call_ensures(quadrant_label, (directories, holds_focus, window_focused, peek), label),
    ensures
        holds_focus && window_focused && !peek ==> label is None,
        label is Some ==> label->0.focused == holds_focus && directories@.len() > 0,
        label is Some && 0 <= i < directories@.len() ==> directories@[i] is Some
            && name_of_directory(directories@[i]->0@) == Some(label->0.name@),
        (!holds_focus || !window_focused || peek) && directories@.len() == 1 && directories@[0]
            is Some && name_of_directory(directories@[0]->0@) is Some ==> label is Some,
{
    if label is Some && 0 <= i < directories@.len() {
        assert(optional_name(directories@[i]) == optional_name(directories@[0]));
    }
    if directories@.len() == 1 && directories@[0] is Some {
        assert(shared_name(directories@) == optional_name(directories@[0]));
        lemma_named(directories@[0]->0@);
    }
}

proof fn lemma_named(path: Seq<char>)
    ensures
        name_of_directory(path) is Some ==> name_of_directory(path)->0.len() > 0,
{
}

} // verus!
