//! The state of one native window: what has its input, what its pointer is over, and when it is
//! drawn again.
use crate::actions::{Action, Direction};
use crate::geometry::{Pos, Rect, Scalar};
use crate::input::SelectionDrag;
use crate::keys::{HeldModifiers, Modifiers};
use crate::mouse::LinkHit;
use crate::presentation::{FocusHint, Id, FOCUS_HINT_DURATION};
use crate::time::{Instant, MILLISECOND};
use std::collections::{HashSet, VecDeque};
use vstd::prelude::*;

verus! {

/// How long a blocked move of the focus is shown.
pub const NAVIGATION_WARNING: u64 = 500 * MILLISECOND;

/// How many clipboard requests wait for the user in one window.
pub const MAX_CLIPBOARD_REQUESTS: usize = 16;

#[derive(Clone, Copy, Debug, PartialEq, Eq, Structural)]
pub enum MouseButton {
    Left,
    Middle,
    Right,
    WheelUp,
    WheelDown,
    WheelLeft,
    WheelRight,
}

#[derive(Clone, Copy, Debug, PartialEq, Eq, Structural)]
pub enum MouseAction {
    Press,
    Release,
    Move,
}

#[derive(Clone, Copy, Debug, PartialEq, Eq, Structural)]
pub enum Axis {
    Horizontal,
    Vertical,
}

/// The line between two panes, by the split that it belongs to.
#[derive(Clone, Copy, Debug, PartialEq, Eq, Structural)]
pub struct Divider {
    pub split: Id,
    pub axis: Axis,
}

/// A look at all quadrants of a zoomed tab while a chord is held.
#[derive(Clone, Copy, Debug, PartialEq, Eq, Structural)]
pub struct Peek {
    pub chord: Modifiers,
    pub target: Id,
    pub navigation_used: bool,
}

/// A paste that waits for its destination or for the user.
#[derive(Debug)]
pub struct PendingPaste {
    pub pane: Id,
    pub data: Vec<u8>,
}

/// What the user is asked about.
#[derive(Debug)]
pub enum Confirmation {
    Close(Action),
    Paste(PendingPaste),
}

/// A link under the pointer.
#[derive(Debug)]
pub struct HoveredLink {
    pub pane: Id,
    pub uri: String,
    /// Where it stands on the window.
    pub bounds: Vec<Rect>,
}

/// One native window.
pub struct Host {
    pub id: Id,
    /// The panes on the window, by ascending ID.
    pub rects: Vec<(Id, Rect)>,
    /// The Find overlays on the window, by ascending ID.
    pub search_rects: Vec<(Id, Rect)>,
    /// The area that the panes and the gaps between them share.
    pub content: Rect,
    pub divider_drag: Option<Divider>,
    pub modifiers: HeldModifiers,
    pub consumed_keys: HashSet<u64>,
    /// The bindings that go on with the keys pressed so far.
    pub sequence: Vec<usize>,
    pub sequence_len: usize,
    pub composing: bool,
    pub preedit: String,
    pub preedit_selection: Option<(usize, usize)>,
    pub peek: Option<Peek>,
    pub navigation_warning: Option<(Id, Instant)>,
    pub mouse: Pos,
    pub pointer_inside: bool,
    /// Where a link was last looked for.
    pub link_hit: Option<LinkHit>,
    pub hovered_link: Option<HoveredLink>,
    pub mouse_button: Option<MouseButton>,
    pub selection_drag: Option<SelectionDrag>,
    pub focused: bool,
    pub focus_hint: FocusHint,
    pub cursor_blink_started: Instant,
    pub visible: bool,
    pub occluded: bool,
    pub deadline: Option<Instant>,
    pub search_focus: Option<Id>,
    pub focus_text_input: bool,
    pub popup_open: bool,
    pub messages_open: bool,
    pub layout_picker: bool,
    pub palette: bool,
    pub palette_query: String,
    pub confirm: Option<Confirmation>,
    /// Clipboard requests by pane and number.
    pub clipboard_requests: VecDeque<(Id, usize)>,
    pub frames: u64,
}

/// The first of the rectangles that holds the position.
pub open spec fn first_hit(rects: Seq<(Id, Rect)>, position: Pos) -> Option<Id>
    decreases rects.len(),
{
    if rects.len() == 0 {
        None
    } else if rects[0].1.encloses(position) {
        Some(rects[0].0)
    } else {
        first_hit(rects.drop_first(), position)
    }
}

/// Finds the first of the rectangles that holds the position.
pub fn hit(rects: &Vec<(Id, Rect)>, position: Pos) -> (id: Option<Id>)
    ensures
        id == first_hit(rects@, position),
{
    let mut i: usize = 0;
    assert(rects@.skip(0) =~= rects@);
    while i < rects.len()
        invariant
            i <= rects@.len(),
            first_hit(rects@, position) == first_hit(rects@.skip(i as int), position),
        decreases rects@.len() - i,
    {
        assert(rects@.skip(i as int).drop_first() =~= rects@.skip(i + 1));
        if rects[i].1.contains(position) {
            return Some(rects[i].0);
        }
        i += 1;
    }
    None
}

/// What a clipboard request comes to.
#[derive(Clone, Copy, Debug, PartialEq, Eq, Structural)]
pub enum ClipboardAccess {
    Ask,
    Allow,
    Deny,
}

impl Host {
    /// The panes are listed by ascending ID, each once.
    pub open spec fn wf(self) -> bool {
        &&& forall|i: int, j: int|
            0 <= i < j < self.rects@.len() ==> (#[trigger] self.rects@[i]).0 < (
            #[trigger] self.rects@[j]).0
        &&& self.clipboard_requests@.len() <= MAX_CLIPBOARD_REQUESTS
    }

    /// Something other than Find takes all input.
    pub open spec fn is_modal(self) -> bool {
        self.palette || self.popup_open || self.messages_open || self.layout_picker
            || self.confirm is Some || self.clipboard_requests@.len() > 0
    }

    /// The user interface takes the keyboard.
    pub open spec fn takes_keyboard(self) -> bool {
        self.search_focus is Some || self.is_modal()
    }

    /// The pane under the pointer.
    pub open spec fn pane_under_pointer(self) -> Option<Id> {
        if self.pointer_inside {
            first_hit(self.rects@, self.mouse)
        } else {
            None
        }
    }

    /// Drawing the window would show.
    pub open spec fn shows(self) -> bool {
        self.visible && !self.occluded
    }

    /// A window that was just opened; a quick one starts hidden.
    pub fn new(id: Id, quick: bool, now: Instant, mouse: Pos) -> (host: Host)
        ensures
            host.wf(),
            host.id == id,
            host.visible == !quick,
            !host.occluded && !host.focused,
            !host.takes_keyboard(),
            host.rects@.len() == 0,
            host.search_rects@.len() == 0,
            host.content.min.x.bits == 0 && host.content.min.y.bits == 0,
            host.content.max.x.bits == 0x3f80_0000 && host.content.max.y.bits == 0x3f80_0000,
            !host.modifiers.state.shift && !host.modifiers.state.control,
            !host.modifiers.state.alt && !host.modifiers.state.super_key,
            host.modifiers.left == host.modifiers.state,
            host.modifiers.right == host.modifiers.state,
            host.consumed_keys@ == Set::<u64>::empty(),
            host.sequence@.len() == 0 && host.sequence_len == 0,
            !host.composing && host.preedit@.len() == 0 && host.preedit_selection is None,
            host.divider_drag is None && host.peek is None && host.navigation_warning is None,
            host.mouse == mouse && !host.pointer_inside,
            host.link_hit is None && host.hovered_link is None,
            host.mouse_button is None && host.selection_drag is None,
            host.focus_hint == (FocusHint { pane: None, expires: None }),
            host.cursor_blink_started == now,
            host.deadline is None,
            !host.focus_text_input,
            host.palette_query@.len() == 0,
            host.frames == 0,
    {
        let none = Modifiers { shift: false, control: false, alt: false, super_key: false };
        let zero = Scalar { bits: 0 };
        let one = Scalar { bits: 0x3f80_0000 };
        Host {
            id,
            rects: Vec::new(),
            search_rects: Vec::new(),
            content: Rect { min: Pos { x: zero, y: zero }, max: Pos { x: one, y: one } },
            divider_drag: None,
            modifiers: HeldModifiers { state: none, left: none, right: none },
            consumed_keys: HashSet::new(),
            sequence: Vec::new(),
            sequence_len: 0,
            composing: false,
            preedit: String::new(),
            preedit_selection: None,
            peek: None,
            navigation_warning: None,
            mouse,
            pointer_inside: false,
            link_hit: None,
            hovered_link: None,
            mouse_button: None,
            selection_drag: None,
            focused: false,
            focus_hint: FocusHint { pane: None, expires: None },
            cursor_blink_started: now,
            visible: !quick,
            occluded: false,
            deadline: None,
            search_focus: None,
            focus_text_input: false,
            popup_open: false,
            messages_open: false,
            layout_picker: false,
            palette: false,
            palette_query: String::new(),
            confirm: None,
            clipboard_requests: VecDeque::new(),
            frames: 0,
        }
    }

    pub fn hovered_pane(&self) -> (pane: Option<Id>)
        ensures
            pane == self.pane_under_pointer(),
    {
        if !self.pointer_inside {
            return None;
        }
        self.pane_at(self.mouse)
    }

    pub fn pane_at(&self, position: Pos) -> (pane: Option<Id>)
        ensures
            pane == first_hit(self.rects@, position),
    {
        hit(&self.rects, position)
    }

    pub fn ui_input(&self) -> (ui: bool)
        ensures
            ui == self.takes_keyboard(),
    {
        self.search_focus.is_some() || self.modal_input()
    }

    pub fn modal_input(&self) -> (modal: bool)
        ensures
            modal == self.is_modal(),
    {
        self.palette || self.popup_open || self.messages_open || self.layout_picker
            || self.confirm.is_some() || self.clipboard_requests.len() > 0
    }

    /// The window shows the title of the pane apart from its tab: `read_out` to a screen reader,
    /// or in a question about the pane.
    pub open spec fn titles(self, pane: Id, read_out: bool) -> bool {
        ||| read_out
        ||| self.confirm matches Some(Confirmation::Paste(paste)) && paste.pane == pane
        ||| self.clipboard_requests@.len() > 0 && self.clipboard_requests@[0].0 == pane
    }

    pub fn shows_title(&self, pane: Id, read_out: bool) -> (shows: bool)
        ensures
            shows == self.titles(pane, read_out),
    {
        if read_out {
            return true;
        }
        if let Some(Confirmation::Paste(paste)) = &self.confirm {
            if paste.pane == pane {
                return true;
            }
        }
        self.clipboard_requests.len() > 0 && self.clipboard_requests[0].0 == pane
    }

    /// Whether a request to draw the window goes through.
    pub fn repaints(&self) -> (shows: bool)
        ensures
            shows == self.shows(),
    {
        self.visible && !self.occluded
    }

    /// The focus that counts: that of a window which the user is in.
    pub open spec fn keyboard_target(self, focused: Option<Id>) -> Option<Id> {
        if self.focused && self.visible {
            focused
        } else {
            None
        }
    }

    pub fn target(&self, focused: Option<Id>) -> (pane: Option<Id>)
        ensures
            pane == self.keyboard_target(focused),
    {
        if self.focused && self.visible {
            focused
        } else {
            None
        }
    }

    /// Typing into a pane hides its focus hint and restarts the cursor's blinking. `focused` is
    /// the pane with the focus in the tab in front. Tells whether the window is drawn again.
    pub fn terminal_input(&mut self, pane: Id, focused: Option<Id>, now: Instant) -> (repaint: bool)
        requires
            now.reaches(FOCUS_HINT_DURATION),
        ensures
            ({
                let target = old(self).keyboard_target(focused);
                let hint = old(self).focus_hint.focused_on(target, now);
                &&& repaint == (target == Some(pane))
                &&& *final(self) == if repaint {
                    Host {
                        focus_hint: hint.dismissed(),
                        cursor_blink_started: now,
                        ..*old(self)
                    }
                } else {
                    Host { focus_hint: hint, ..*old(self) }
                }
            }),
    {
        let target = self.target(focused);
        self.focus_hint.focus(target, now);
        if target == Some(pane) {
            self.focus_hint.dismiss();
            self.cursor_blink_started = now;
            true
        } else {
            false
        }
    }

    /// Follows a change of focus with the hint; tells whether the window is drawn again.
    pub fn sync_focus(&mut self, focused: Option<Id>, now: Instant) -> (repaint: bool)
        requires
            now.reaches(FOCUS_HINT_DURATION),
        ensures
            ({
                let target = old(self).keyboard_target(focused);
                &&& repaint == (old(self).focus_hint.pane != target)
                &&& *final(self) == (Host {
                    focus_hint: old(self).focus_hint.focused_on(target, now),
                    ..*old(self)
                })
            }),
    {
        let target = self.target(focused);
        self.focus_hint.focus(target, now)
    }

    /// The pointer and the input method let go of the terminal.
    pub open spec fn released(self) -> Host {
        Host {
            divider_drag: None,
            mouse_button: None,
            selection_drag: None,
            composing: false,
            preedit_selection: None,
            ..self
        }
    }

    /// Hands the input to the user interface, once it takes it. Tells whether it does, so that
    /// the terminal's selection gesture ends too.
    pub fn yield_to_ui(&mut self) -> (yields: bool)
        ensures
            yields == old(self).takes_keyboard(),
            !yields ==> *final(self) == *old(self),
            yields ==> final(self).preedit@.len() == 0 && *final(self) == (Host {
                preedit: final(self).preedit,
                ..old(self).released()
            }),
    {
        if !self.ui_input() {
            return false;
        }
        self.mouse_button = None;
        self.selection_drag = None;
        self.divider_drag = None;
        self.composing = false;
        self.preedit = String::new();
        self.preedit_selection = None;
        true
    }

    /// Follows the window's focus. Losing it ends whatever the keyboard and the pointer had begun.
    pub fn focus_changed(&mut self, focused: bool)
        ensures
            focused ==> *final(self) == (Host { focused: true, ..*old(self) }),
            !focused ==> {
                &&& final(self).preedit@.len() == 0
                &&& final(self).sequence@.len() == 0
                &&& final(self).consumed_keys@ == Set::<u64>::empty()
                &&& final(self).modifiers.state == Modifiers::none()
                &&& final(self).modifiers.left == Modifiers::none()
                &&& final(self).modifiers.right == Modifiers::none()
                &&& *final(self) == (Host {
                    focused: false,
                    peek: None,
                    sequence_len: 0,
                    preedit: final(self).preedit,
                    sequence: final(self).sequence,
                    consumed_keys: final(self).consumed_keys,
                    modifiers: final(self).modifiers,
                    ..old(self).released()
                })
            },
    {
        self.focused = focused;
        if !focused {
            let none = Modifiers { shift: false, control: false, alt: false, super_key: false };
            self.peek = None;
            self.modifiers = HeldModifiers { state: none, left: none, right: none };
            self.consumed_keys = HashSet::new();
            self.divider_drag = None;
            self.mouse_button = None;
            self.selection_drag = None;
            self.composing = false;
            self.preedit = String::new();
            self.preedit_selection = None;
            self.sequence = Vec::new();
            self.sequence_len = 0;
        }
    }

    /// A quick window hides once it lost the focus and nothing of it asks for input. `lost` is
    /// what the system says of the focus.
    pub fn hides_on_blur(&self, quick: bool, lost: bool, autohide: bool) -> (hides: bool)
        ensures
            hides == (quick && lost && autohide && !self.takes_keyboard()),
    {
        quick && lost && autohide && !self.ui_input()
    }

    /// Follows whether other windows cover this one; tells whether it is drawn again.
    pub fn occlusion_changed(&mut self, occluded: bool) -> (repaint: bool)
        ensures
            repaint == !occluded,
            *final(self) == if occluded {
                Host { occluded: true, deadline: None, ..*old(self) }
            } else {
                Host { occluded: false, ..*old(self) }
            },
    {
        self.occluded = occluded;
        if occluded {
            self.deadline = None;
            false
        } else {
            true
        }
    }

    /// Text that an input method composes; it is empty where composing ends.
    pub fn preedit_changed(&mut self, text: String, selection: Option<(usize, usize)>)
        ensures
            *final(self) == (Host {
                composing: text@.len() > 0,
                preedit: text,
                preedit_selection: selection,
                ..*old(self)
            }),
    {
        self.composing = !text.as_str().is_empty();
        self.preedit = text;
        self.preedit_selection = selection;
    }

    /// An input method committed its text, or was switched off.
    pub fn preedit_ended(&mut self)
        ensures
            final(self).preedit@.len() == 0,
            *final(self) == (Host {
                composing: false,
                preedit: final(self).preedit,
                preedit_selection: None,
                ..*old(self)
            }),
    {
        self.composing = false;
        self.preedit = String::new();
        self.preedit_selection = None;
    }

    /// Opens or closes the command palette.
    pub fn toggle_palette(&mut self)
        ensures
            final(self).palette_query@.len() == 0,
            *final(self) == (Host {
                palette: !old(self).palette,
                palette_query: final(self).palette_query,
                focus_text_input: !old(self).palette || old(self).search_focus is Some,
                ..*old(self)
            }),
    {
        self.palette = !self.palette;
        self.palette_query = String::new();
        self.focus_text_input = self.palette || self.search_focus.is_some();
    }

    /// The palette closes on a choice or on Escape, and Find takes the keyboard again.
    pub fn close_palette(&mut self)
        ensures
            *final(self) == (Host {
                palette: false,
                focus_text_input: old(self).search_focus is Some,
                ..*old(self)
            }),
    {
        self.palette = false;
        self.focus_text_input = self.search_focus.is_some();
    }

    /// Find loses the keyboard when an action moved the focus to another pane.
    pub fn focus_moved(&mut self, before: Option<Id>, after: Option<Id>)
        ensures
            before == after ==> *final(self) == *old(self),
            before != after ==> final(self).search_rects@.len() == 0 && *final(self) == (Host {
                search_focus: None,
                search_rects: final(self).search_rects,
                ..*old(self)
            }),
    {
        if before != after {
            self.search_focus = None;
            self.search_rects = Vec::new();
        }
    }

    /// A click on a tab leaves Find and any peek.
    pub fn tab_selected(&mut self)
        ensures
            final(self).search_rects@.len() == 0,
            *final(self) == (Host {
                search_focus: None,
                search_rects: final(self).search_rects,
                peek: None,
                ..*old(self)
            }),
    {
        self.search_focus = None;
        self.search_rects = Vec::new();
        self.peek = None;
    }

    /// Asks for a frame at `deadline`; tells whether it is due already.
    pub fn request_frame(&mut self, deadline: Instant, now: Instant) -> (repaint: bool)
        ensures
            repaint == (deadline.nanos <= now.nanos),
            *final(self) == if repaint {
                *old(self)
            } else {
                Host {
                    deadline: crate::time::spec_sooner(old(self).deadline, Some(deadline)),
                    ..*old(self)
                }
            },
    {
        if deadline.nanos <= now.nanos {
            true
        } else {
            self.deadline = crate::time::sooner(self.deadline, Some(deadline));
            false
        }
    }

    /// Looks at the deadline before waiting: one that passed is over and the window is drawn,
    /// one ahead is waited for while the window shows.
    pub fn wait_for(&mut self, now: Instant) -> (result: (bool, Option<Instant>))
        ensures
            ({
                let due = old(self).deadline is Some && old(self).deadline->0.nanos <= now.nanos;
                &&& result.0 == due
                &&& result.1 == if !due && old(self).shows() {
                    old(self).deadline
                } else {
                    None
                }
                &&& *final(self) == if due {
                    Host { deadline: None, ..*old(self) }
                } else {
                    *old(self)
                }
            }),
    {
        match self.deadline {
            Some(deadline) => {
                if deadline.nanos <= now.nanos {
                    self.deadline = None;
                    (true, None)
                } else if self.visible && !self.occluded {
                    (false, Some(deadline))
                } else {
                    (false, None)
                }
            },
            None => (false, None),
        }
    }

    /// What becomes of a clipboard request: nothing yet where the user is asked, else whether it
    /// is allowed. Locations that the platform does not have are left to it to refuse.
    pub open spec fn clipboard_decision(self, policy: ClipboardAccess, supported: bool) -> Option<
        bool,
    > {
        match policy {
            ClipboardAccess::Deny => Some(false),
            ClipboardAccess::Allow => Some(true),
            ClipboardAccess::Ask => if !supported {
                Some(true)
            } else if self.clipboard_requests@.len() < MAX_CLIPBOARD_REQUESTS {
                None
            } else {
                Some(false)
            },
        }
    }

    /// Queues a clipboard request of a pane for the user, or decides on it: `Some` tells whether
    /// it is allowed.
    pub fn queue_clipboard(
        &mut self,
        pane: Id,
        request: usize,
        policy: ClipboardAccess,
        supported: bool,
    ) -> (decision: Option<bool>)
        requires
            old(self).wf(),
        ensures
            final(self).wf(),
            decision == old(self).clipboard_decision(policy, supported),
            final(self).clipboard_requests@ == if decision is None {
                old(self).clipboard_requests@.push((pane, request))
            } else {
                old(self).clipboard_requests@
            },
            *final(self) == (Host {
                clipboard_requests: final(self).clipboard_requests,
                ..*old(self)
            }),
    {
        if policy == ClipboardAccess::Ask && supported && self.clipboard_requests.len()
            < MAX_CLIPBOARD_REQUESTS {
            self.clipboard_requests.push_back((pane, request));
            None
        } else {
            Some(policy != ClipboardAccess::Deny && (policy == ClipboardAccess::Allow || !supported))
        }
    }

    /// Takes the clipboard request that the user has answered.
    pub fn answer_clipboard(&mut self) -> (request: Option<(Id, usize)>)
        requires
            old(self).wf(),
        ensures
            final(self).wf(),
            old(self).clipboard_requests@.len() == 0 ==> request is None,
            old(self).clipboard_requests@.len() > 0 ==> {
                &&& request == Some(old(self).clipboard_requests@[0])
                &&& final(self).clipboard_requests@ == old(self).clipboard_requests@.drop_first()
            },
            *final(self) == (Host {
                clipboard_requests: final(self).clipboard_requests,
                ..*old(self)
            }),
    {
        let request = self.clipboard_requests.pop_front();
        proof {
            if old(self).clipboard_requests@.len() > 0 {
                assert(self.clipboard_requests@ =~= old(self).clipboard_requests@.drop_first());
            }
        }
        request
    }
}

/// An explicit denial is respected, whatever waits and wherever the request goes; an explicit
/// permission is too.
pub proof fn law_explicit_clipboard_policies_decide(host: Host, supported: bool)
    ensures
        host.clipboard_decision(ClipboardAccess::Deny, supported) == Some(false),
        host.clipboard_decision(ClipboardAccess::Allow, supported) == Some(true),
        host.clipboard_decision(ClipboardAccess::Ask, true) != Some(true),
{
}

/// What follows from a move of the focus by keyboard.
#[derive(Clone, Copy, Debug, PartialEq, Eq, Structural)]
pub struct Navigation {
    /// The tab shows all of its panes again.
    pub unzoom: bool,
    /// The pane that takes the focus.
    pub focus: Option<Id>,
    /// A zoomed tab zooms to the pane that takes the focus.
    pub rezoom: bool,
    /// The window is drawn to show that there is nothing in this direction.
    pub warn: bool,
    /// The action did something.
    pub performed: bool,
}

impl Host {
    /// The focus moves: there is a pane in this direction, and another one.
    pub open spec fn moves(from: Option<Id>, target: Option<Id>) -> bool {
        target is Some && target != from
    }

    /// Whether a peek is begun before moving to another quadrant.
    pub fn begins_peek(&self, direction: Direction) -> (begins: bool)
        ensures
            begins == (direction.spec_is_quadrant() && self.peek is None),
    {
        direction.is_quadrant() && self.peek.is_none()
    }

    /// Whether a zoomed tab is asked to unzoom, as there is no pane to move to.
    pub fn asks_to_unzoom(direction: Direction, from: Option<Id>, target: Option<Id>) -> (asks: bool)
        ensures
            asks == (!direction.spec_is_quadrant() && !Host::moves(from, target)),
    {
        !direction.is_quadrant() && !(target.is_some() && target != from)
    }

    /// The peek during and after a move of the focus.
    pub open spec fn navigated_peek(
        self,
        direction: Direction,
        target: Option<Id>,
        begun: Option<Peek>,
    ) -> Option<Peek> {
        if !direction.spec_is_quadrant() {
            self.peek
        } else {
            let peek = if self.peek is None {
                begun
            } else {
                self.peek
            };
            match peek {
                Some(peek) => Some(
                    Peek {
                        navigation_used: true,
                        target: match target {
                            Some(target) => target,
                            None => peek.target,
                        },
                        ..peek
                    },
                ),
                None => None,
            }
        }
    }

    /// Moves the focus from a pane to the one in some direction, if there is one. `begun` is the
    /// peek that the tab began, where it was asked to, and `unzoomed` whether it did unzoom.
    pub fn navigate(
        &mut self,
        direction: Direction,
        from: Option<Id>,
        target: Option<Id>,
        begun: Option<Peek>,
        unzoomed: bool,
        now: Instant,
    ) -> (navigation: Navigation)
        requires
            now.reaches(NAVIGATION_WARNING),
        ensures
            ({
                let quadrant = direction.spec_is_quadrant();
                let moved = Host::moves(from, target);
                let peek = old(self).navigated_peek(direction, target, begun);
                let blocked = !moved && !(!quadrant && unzoomed);
                &&& navigation.unzoom == (quadrant && (moved || peek is Some))
                &&& navigation.focus == if moved {
                    target
                } else {
                    None
                }
                &&& navigation.rezoom == (moved && !quadrant)
                &&& navigation.warn == (blocked && from is Some)
                &&& navigation.performed == (!blocked || (from is Some && quadrant && peek is Some))
                &&& *final(self) == (Host {
                    peek,
                    navigation_warning: if !blocked {
                        None
                    } else if from is Some {
                        Some((from->0, now.spec_after(NAVIGATION_WARNING)))
                    } else {
                        old(self).navigation_warning
                    },
                    ..*old(self)
                })
            }),
    {
        let quadrant = direction.is_quadrant();
        let moved = target.is_some() && target != from;
        let blocked = !moved && !(!quadrant && unzoomed);
        let peek = self.next_peek(direction, target, begun);
        let peeking = peek.is_some();
        self.peek = peek;
        if !blocked {
            self.navigation_warning = None;
        } else if let Some(from) = from {
            self.navigation_warning = Some((from, now.after(NAVIGATION_WARNING)));
        }
        Navigation {
            unzoom: quadrant && (moved || peeking),
            focus: if moved {
                target
            } else {
                None
            },
            rezoom: moved && !quadrant,
            warn: blocked && from.is_some(),
            performed: !blocked || (from.is_some() && quadrant && peeking),
        }
    }

    fn next_peek(&self, direction: Direction, target: Option<Id>, begun: Option<Peek>) -> (peek:
        Option<Peek>)
        ensures
            peek == self.navigated_peek(direction, target, begun),
    {
        if !direction.is_quadrant() {
            return self.peek;
        }
        let peek = if self.peek.is_none() {
            begun
        } else {
            self.peek
        };
        match peek {
            Some(peek) => Some(
                Peek {
                    navigation_used: true,
                    target: match target {
                        Some(target) => target,
                        None => peek.target,
                    },
                    chord: peek.chord,
                },
            ),
            None => None,
        }
    }
}

} // verus!
