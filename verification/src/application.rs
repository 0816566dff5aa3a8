//! Actions from the bindings, the menus and the palette on their way through a window.
use crate::actions::Action;
use crate::geometry::Rect;
use crate::host::{Confirmation, Host, MouseButton};
use crate::input::{edit_events, edit_menu_action, is_edit, EditEvent};
use crate::panes::PaneState;
use crate::presentation::{FocusHint, Id, FOCUS_HINT_DURATION};
use crate::time::Instant;
use crate::workspace::{any_interrupted, needs_confirmation, ConfirmCloseSurface, Workspace};
use std::collections::HashMap;
use vstd::prelude::*;

verus! {

/// What comes of an action before it is performed.
pub enum ActionStart {
    /// A text field takes these events in its place.
    Edit(Vec<EditEvent>),
    /// The user is asked first.
    Ask,
    Perform(Action),
}

/// What the user wants to be asked about.
#[derive(Clone, Copy, Debug)]
pub struct ClosePolicy {
    pub confirm: ConfirmCloseSurface,
    /// Shells report their commands.
    pub shell_reports: bool,
}

impl Host {
    /// Begins an action: a text field with the keyboard takes editing actions, and closing what
    /// runs is asked about unless it was approved. `clipboard` is the text to paste into a field.
    pub fn begin_action<L>(
        &mut self,
        action: Action,
        approved: bool,
        clipboard: Option<String>,
        workspace: &Workspace<L>,
        panes: &HashMap<Id, PaneState>,
        policy: ClosePolicy,
    ) -> (start: ActionStart)
        ensures
            ({
                let edits = old(self).takes_keyboard() && is_edit(action);
                let asks = !edits && !approved && action.spec_closes() && any_interrupted(
                    workspace.closing_panes(action, old(self).id),
                    panes@,
                    policy.confirm,
                    policy.shell_reports,
                );
                &&& match start {
                    ActionStart::Edit(events) => edits && events@ == edit_events(
                        action,
                        clipboard,
                    ),
                    ActionStart::Ask => asks,
                    ActionStart::Perform(performed) => !edits && !asks && performed == action,
                }
                &&& *final(self) == if asks {
                    Host { confirm: Some(Confirmation::Close(action)), ..*old(self) }
                } else {
                    *old(self)
                }
            }),
    {
        let ui = self.ui_input();
        if let Some(events) = edit_menu_action(&action, ui, clipboard) {
            return ActionStart::Edit(events);
        }
        if needs_confirmation(
            workspace,
            self.id,
            &action,
            approved,
            panes,
            policy.confirm,
            policy.shell_reports,
        ) {
            self.confirm = Some(Confirmation::Close(action));
            return ActionStart::Ask;
        }
        ActionStart::Perform(action)
    }
}

/// What an action of Find does in a pane.
#[derive(Clone, Copy, Debug, PartialEq, Eq, Structural)]
pub enum SearchStep {
    /// Nothing: the action was not performed.
    Refuse,
    /// Find opens, and looks for the selection if asked to.
    Open { selection: bool },
    Close,
    Navigate { next: bool },
}

/// The rectangles without that of one pane.
pub open spec fn without_rect(rects: Seq<(Id, Rect)>, pane: Id) -> Seq<(Id, Rect)>
    decreases rects.len(),
{
    if rects.len() == 0 {
        Seq::empty()
    } else if rects.last().0 == pane {
        without_rect(rects.drop_last(), pane)
    } else {
        without_rect(rects.drop_last(), pane).push(rects.last())
    }
}

fn remove_rect(rects: &Vec<(Id, Rect)>, pane: Id) -> (left: Vec<(Id, Rect)>)
    ensures
        left@ == without_rect(rects@, pane),
{
    let mut left: Vec<(Id, Rect)> = Vec::new();
    let mut i: usize = 0;
    while i < rects.len()
        invariant
            i <= rects@.len(),
            left@ == without_rect(rects@.take(i as int), pane),
        decreases rects@.len() - i,
    {
        assert(rects@.take(i + 1).drop_last() =~= rects@.take(i as int));
        if rects[i].0 != pane {
            left.push(rects[i]);
        }
        i += 1;
    }
    assert(rects@.take(i as int) =~= rects@);
    left
}

/// What an action of Find does: it needs a terminal in the tab in front, and to close or navigate
/// an open Find.
pub open spec fn find_step(action: Action, reachable: bool, open: bool) -> SearchStep {
    if !reachable {
        SearchStep::Refuse
    } else {
        match action {
            Action::StartSearch => SearchStep::Open { selection: false },
            Action::SearchSelection => SearchStep::Open { selection: true },
            Action::EndSearch => if open {
                SearchStep::Close
            } else {
                SearchStep::Refuse
            },
            Action::NavigateSearch { next } => if open {
                SearchStep::Navigate { next }
            } else {
                SearchStep::Refuse
            },
            _ => SearchStep::Refuse,
        }
    }
}

impl Host {
    /// Decides on an action of Find in a pane, and moves the keyboard with it. `reachable` tells
    /// whether the pane is in the tab in front and its terminal can be had, `open` whether Find
    /// is open in it.
    pub fn search_action(&mut self, pane: Id, action: &Action, reachable: bool, open: bool) -> (step:
        SearchStep)
        ensures
            step == find_step(*action, reachable, open),
            match step {
                SearchStep::Open { .. } => *final(self) == (Host {
                    search_focus: Some(pane),
                    focus_text_input: true,
                    ..*old(self)
                }),
                SearchStep::Close => {
                    &&& final(self).search_rects@ == without_rect(old(self).search_rects@, pane)
                    &&& *final(self) == (Host {
                        search_rects: final(self).search_rects,
                        search_focus: if old(self).search_focus == Some(pane) {
                            None
                        } else {
                            old(self).search_focus
                        },
                        ..*old(self)
                    })
                },
                _ => *final(self) == *old(self),
            },
    {
        if !reachable {
            return SearchStep::Refuse;
        }
        match action {
            Action::StartSearch | Action::SearchSelection => {
                self.search_focus = Some(pane);
                self.focus_text_input = true;
                let selection = match action {
                    Action::SearchSelection => true,
                    _ => false,
                };
                SearchStep::Open { selection }
            },
            Action::EndSearch => {
                if !open {
                    return SearchStep::Refuse;
                }
                self.search_rects = remove_rect(&self.search_rects, pane);
                if self.search_focus == Some(pane) {
                    self.search_focus = None;
                }
                SearchStep::Close
            },
            Action::NavigateSearch { next } => {
                if open {
                    SearchStep::Navigate { next: *next }
                } else {
                    SearchStep::Refuse
                }
            },
            _ => SearchStep::Refuse,
        }
    }

    /// A button went down anywhere in the window. The old hint goes before this click can focus
    /// another pane.
    pub fn press_begun(&mut self)
        ensures
            *final(self) == (Host { focus_hint: old(self).focus_hint.dismissed(), ..*old(self) }),
    {
        self.focus_hint.dismiss();
    }

    /// A button went down; `None` stands for one that terminals do not know.
    pub fn button_pressed(&mut self, button: Option<MouseButton>)
        ensures
            *final(self) == (Host { mouse_button: button, ..*old(self) }),
    {
        self.mouse_button = button;
    }

    /// A button came up, and its drag is over.
    pub fn button_released(&mut self)
        ensures
            *final(self) == (Host { mouse_button: None, selection_drag: None, ..*old(self) }),
    {
        self.mouse_button = None;
        self.selection_drag = None;
    }
}

/// A click shows the hint of the pane that it moves the focus to, and hides that of the pane
/// that had the focus already.
pub proof fn law_clicks_show_the_hint_of_a_new_pane_only(
    hint: FocusHint,
    clicked: Id,
    now: Instant,
)
    requires
        now.reaches(FOCUS_HINT_DURATION),
    ensures
        hint.dismissed().focused_on(Some(clicked), now).spec_visible(clicked, now) <==> hint.pane
            != Some(clicked),
{
}

/// What toggling the quick terminal does.
#[derive(Clone, Copy, Debug, PartialEq, Eq, Structural)]
pub enum QuickStep {
    /// This window is the quick one: it shows or hides.
    Toggle { visible: bool },
    /// The quick window with this ID is opened where it is not, and shows or hides.
    Other(Id),
    /// There is none yet.
    Create,
}

/// Decides what toggling the quick terminal from a window does: `quick` tells whether the window
/// is the quick one, `other` which one is.
pub fn toggle_quick(host: &Host, quick: bool, other: Option<Id>) -> (step: QuickStep)
    ensures
        step == if quick {
            QuickStep::Toggle { visible: !host.visible }
        } else {
            match other {
                Some(id) => QuickStep::Other(id),
                None => QuickStep::Create,
            }
        },
{
    if quick {
        QuickStep::Toggle { visible: !host.visible }
    } else {
        match other {
            Some(id) => QuickStep::Other(id),
            None => QuickStep::Create,
        }
    }
}

/// What an event of the pointer does to a movement that the user interface has not heard of.
#[derive(Clone, Copy, Debug, PartialEq, Eq, Structural)]
pub enum DeferredPointer {
    /// It is the new position.
    Replace,
    /// The user interface hears of the pointer by itself.
    Forget,
    Keep,
}

/// A passive movement takes the place of an earlier one; any other event of the pointer makes it
/// obsolete.
pub fn defers_pointer(passive: bool, pointer_event: bool) -> (deferred: DeferredPointer)
    ensures
        deferred == if passive {
            DeferredPointer::Replace
        } else if pointer_event {
            DeferredPointer::Forget
        } else {
            DeferredPointer::Keep
        },
{
    if passive {
        DeferredPointer::Replace
    } else if pointer_event {
        DeferredPointer::Forget
    } else {
        DeferredPointer::Keep
    }
}

/// A running pane is never closed without the user's word where they always want to be asked, nor,
/// where they want to by default, while a command runs or may run; and they are never asked where
/// they do not want to be.
pub proof fn law_running_panes_are_not_closed_unasked(
    candidates: Seq<Id>,
    panes: Map<Id, PaneState>,
    shell_reports: bool,
    i: int,
)
    requires
        0 <= i < candidates.len(),
        panes.contains_key(candidates[i]),
        !panes[candidates[i]].exited,
    ensures
        any_interrupted(candidates, panes, ConfirmCloseSurface::Always, shell_reports),
        !any_interrupted(candidates, panes, ConfirmCloseSurface::False, shell_reports),
        panes[candidates[i]].running is Some || !shell_reports ==> any_interrupted(
            candidates,
            panes,
            ConfirmCloseSurface::True,
            shell_reports,
        ),
{
    assert(panes.contains_key(candidates[i]));
}

} // verus!
