//! The way of pointer events: to Find, to the dividers, to a peek, to programs or to the
//! selection.
use crate::geometry::{Pos, Rect};
use crate::host::{first_hit, hit, Axis, Divider, Host, HoveredLink, MouseAction, MouseButton};
use crate::input::SelectionDrag;
use crate::presentation::Id;
use crate::screen::{GridPoint, Screen, Selection};
use crate::text::same_text;
use crate::workspace::has_id;
use vstd::prelude::*;
use vstd::string::*;

verus! {

/// How many wheel steps one scroll sends to a program.
pub const MAX_WHEEL_REPORTS: usize = 128;

impl MouseButton {
    pub open spec fn spec_is_wheel(self) -> bool {
        self is WheelUp || self is WheelDown || self is WheelLeft || self is WheelRight
    }

    pub fn is_wheel(self) -> (wheel: bool)
        ensures
            wheel == self.spec_is_wheel(),
    {
        match self {
            MouseButton::WheelUp
            | MouseButton::WheelDown
            | MouseButton::WheelLeft
            | MouseButton::WheelRight => true,
            _ => false,
        }
    }
}

pub open spec fn turns_wheel(button: Option<MouseButton>) -> bool {
    button is Some && button->0.spec_is_wheel()
}

fn wheel_turned(button: Option<MouseButton>) -> (wheel: bool)
    ensures
        wheel == turns_wheel(button),
{
    match button {
        Some(button) => button.is_wheel(),
        None => false,
    }
}

/// Where a pointer event goes behind Find.
#[derive(Clone, Copy, Debug, PartialEq, Eq, Structural)]
pub enum MouseRoute {
    /// Nowhere.
    Nothing,
    /// To the divider that is dragged: it follows the pointer, or was let go.
    Divide { divider: Divider, follows: bool },
    /// A divider was taken hold of, and the layout before is to be remembered.
    Grab,
    /// A peek goes on to a pane of another quadrant.
    PeekAt(Id),
    /// To a pane, which takes the focus where `focus` says so.
    Pane { pane: Id, focus: bool },
}

/// What the host knows about the place of the pointer.
#[derive(Clone, Copy, Debug)]
pub struct PointerContext {
    /// A window of the user interface lies over the panes there.
    pub over_ui: bool,
    /// The divider there, in the tab as it shows.
    pub divider: Option<Divider>,
    /// The pane that a peek would go on to from there.
    pub quadrant: Option<Id>,
    /// The pane with the focus in the tab in front.
    pub focused: Option<Id>,
}

impl Host {
    /// A press of a button, not of the wheel, while nothing is modal.
    pub open spec fn clicks(self, action: MouseAction, button: Option<MouseButton>) -> bool {
        !self.is_modal() && action == MouseAction::Press && !turns_wheel(button)
    }

    /// A press on a Find overlay gives it the keyboard, and its pane the focus; `Some` names it.
    /// A press on the terminals takes the keyboard from Find.
    pub fn press_find(
        &mut self,
        action: MouseAction,
        button: Option<MouseButton>,
        over_ui: bool,
    ) -> (pane: Option<Id>)
        ensures
            pane == if old(self).clicks(action, button) {
                first_hit(old(self).search_rects@, old(self).mouse)
            } else {
                None
            },
            *final(self) == if pane is Some {
                Host {
                    search_focus: pane,
                    focus_text_input: true,
                    mouse_button: None,
                    selection_drag: None,
                    ..*old(self)
                }
            } else if old(self).clicks(action, button) && !over_ui {
                Host { search_focus: None, ..*old(self) }
            } else {
                *old(self)
            },
    {
        if self.modal_input() || action != MouseAction::Press || wheel_turned(button) {
            return None;
        }
        let pane = hit(&self.search_rects, self.mouse);
        if pane.is_some() {
            self.search_focus = pane;
            self.focus_text_input = true;
            self.mouse_button = None;
            self.selection_drag = None;
        } else if !over_ui {
            self.search_focus = None;
        }
        pane
    }

    /// A divider can be taken hold of.
    pub open spec fn divides(self, context: PointerContext) -> bool {
        !self.is_modal() && self.peek is None && context.divider is Some
    }

    /// Where a pointer event goes.
    pub open spec fn mouse_route(
        self,
        action: MouseAction,
        button: Option<MouseButton>,
        context: PointerContext,
    ) -> MouseRoute {
        let left = action == MouseAction::Press && button == Some(MouseButton::Left);
        let under = self.pane_under_pointer();
        if self.divider_drag is Some {
            MouseRoute::Divide {
                divider: self.divider_drag->0,
                follows: action == MouseAction::Move,
            }
        } else if context.over_ui {
            MouseRoute::Nothing
        } else if self.divides(context) {
            if left {
                MouseRoute::Grab
            } else {
                MouseRoute::Nothing
            }
        } else if under is None && (action == MouseAction::Press || self.mouse_button is None) {
            MouseRoute::Nothing
        } else if self.peek is Some {
            if left && under is Some && context.quadrant is Some {
                MouseRoute::PeekAt(context.quadrant->0)
            } else {
                MouseRoute::Nothing
            }
        } else if turns_wheel(button) {
            // Wheel reports follow the pointer without changing the keyboard target.
            match under {
                Some(pane) => MouseRoute::Pane { pane, focus: false },
                None => MouseRoute::Nothing,
            }
        } else if action == MouseAction::Press && under is Some {
            MouseRoute::Pane { pane: under->0, focus: true }
        } else {
            match context.focused {
                Some(pane) => MouseRoute::Pane { pane, focus: false },
                None => MouseRoute::Nothing,
            }
        }
    }

    /// Finds where a pointer event goes, and follows the drag of a divider and the peek.
    pub fn route_mouse(
        &mut self,
        action: MouseAction,
        button: Option<MouseButton>,
        context: PointerContext,
    ) -> (route: MouseRoute)
        ensures
            route == old(self).mouse_route(action, button, context),
            *final(self) == (Host {
                divider_drag: if route is Grab {
                    context.divider
                } else if route is Divide && action == MouseAction::Release {
                    None
                } else {
                    old(self).divider_drag
                },
                peek: match route {
                    MouseRoute::PeekAt(target) => Some(
                        crate::host::Peek { target, ..old(self).peek->0 },
                    ),
                    _ => old(self).peek,
                },
                ..*old(self)
            }),
    {
        let left = action == MouseAction::Press && button == Some(MouseButton::Left);
        if let Some(divider) = self.divider_drag {
            if action == MouseAction::Release {
                self.divider_drag = None;
            }
            return MouseRoute::Divide { divider, follows: action == MouseAction::Move };
        }
        if context.over_ui {
            return MouseRoute::Nothing;
        }
        if !self.modal_input() && self.peek.is_none() && context.divider.is_some() {
            if left {
                self.divider_drag = context.divider;
                return MouseRoute::Grab;
            }
            return MouseRoute::Nothing;
        }
        let under = self.hovered_pane();
        if under.is_none() && (action == MouseAction::Press || self.mouse_button.is_none()) {
            return MouseRoute::Nothing;
        }
        if let Some(peek) = self.peek {
            if left && under.is_some() {
                if let Some(target) = context.quadrant {
                    self.peek = Some(
                        crate::host::Peek {
                            target,
                            chord: peek.chord,
                            navigation_used: peek.navigation_used,
                        },
                    );
                    return MouseRoute::PeekAt(target);
                }
            }
            return MouseRoute::Nothing;
        }
        if wheel_turned(button) {
            match under {
                Some(pane) => MouseRoute::Pane { pane, focus: false },
                None => MouseRoute::Nothing,
            }
        } else if action == MouseAction::Press && under.is_some() {
            match under {
                Some(pane) => MouseRoute::Pane { pane, focus: true },
                None => MouseRoute::Nothing,
            }
        } else {
            match context.focused {
                Some(pane) => MouseRoute::Pane { pane, focus: false },
                None => MouseRoute::Nothing,
            }
        }
    }

    /// A program takes the pointer: a selection in progress ends. Tells whether the window is
    /// drawn again; a mere movement changes nothing on it.
    pub fn mouse_reported(&mut self, action: MouseAction, errors: bool) -> (repaint: bool)
        ensures
            repaint == (action != MouseAction::Move || errors),
            *final(self) == (Host { selection_drag: None, ..*old(self) }),
    {
        self.selection_drag = None;
        action != MouseAction::Move || errors
    }
}

/// What a pointer event does to the selection of a pane.
#[derive(Clone, Copy, Debug, PartialEq, Eq, Structural)]
pub enum SelectStep {
    Nothing,
    /// The link under the pointer is opened, where it belongs to the pane.
    OpenLink { matches: bool },
    /// A selection begins at the pressed cell.
    Begin,
    /// The selection follows the pointer.
    Extend(Selection),
    /// The selection is finished.
    Finish,
}

impl Host {
    /// A movement without a drag of the left button selects nothing.
    pub fn ignores_motion(&self, action: MouseAction) -> (ignores: bool)
        ensures
            ignores == (action == MouseAction::Move && (self.mouse_button != Some(
                MouseButton::Left,
            ) || self.selection_drag is None)),
    {
        let dragging = match self.mouse_button {
            Some(button) => button == MouseButton::Left,
            None => false,
        };
        action == MouseAction::Move && (!dragging || self.selection_drag.is_none())
    }

    /// What a pointer event at a cell of a pane does to its selection. `links` tells whether
    /// links can be opened.
    pub open spec fn select_step(
        self,
        action: MouseAction,
        button: Option<MouseButton>,
        pane: Id,
        point: GridPoint,
        links: bool,
    ) -> SelectStep {
        if action == MouseAction::Press && button == Some(MouseButton::Left) {
            if self.modifiers.state.super_key && links {
                SelectStep::OpenLink {
                    matches: self.hovered_link is Some && self.hovered_link->0.pane == pane,
                }
            } else {
                SelectStep::Begin
            }
        } else if action == MouseAction::Move && self.mouse_button == Some(MouseButton::Left) {
            match self.selection_drag {
                Some(drag) if !drag.position.equals(self.mouse) => SelectStep::Extend(
                    Selection {
                        start: drag.anchor,
                        end: point,
                        rectangular: self.modifiers.state.alt,
                    },
                ),
                _ => SelectStep::Nothing,
            }
        } else if action == MouseAction::Release && self.selection_drag is Some {
            SelectStep::Finish
        } else {
            SelectStep::Nothing
        }
    }

    /// Selects with the pointer at a cell of a pane.
    pub fn select(
        &mut self,
        action: MouseAction,
        button: Option<MouseButton>,
        pane: Id,
        point: GridPoint,
        links: bool,
    ) -> (step: SelectStep)
        ensures
            step == old(self).select_step(action, button, pane, point, links),
            *final(self) == (Host {
                selection_drag: match step {
                    SelectStep::OpenLink { .. } => None,
                    SelectStep::Begin => Some(
                        SelectionDrag { anchor: point, position: old(self).mouse },
                    ),
                    SelectStep::Extend(_) => Some(
                        SelectionDrag {
                            position: old(self).mouse,
                            ..old(self).selection_drag->0
                        },
                    ),
                    SelectStep::Finish => None,
                    SelectStep::Nothing => old(self).selection_drag,
                },
                ..*old(self)
            }),
    {
        let left_press = action == MouseAction::Press && match button {
            Some(button) => button == MouseButton::Left,
            None => false,
        };
        let left_held = match self.mouse_button {
            Some(button) => button == MouseButton::Left,
            None => false,
        };
        if left_press {
            if self.modifiers.state.super_key && links {
                self.selection_drag = None;
                let matches = match &self.hovered_link {
                    Some(link) => link.pane == pane,
                    None => false,
                };
                SelectStep::OpenLink { matches }
            } else {
                self.selection_drag = Some(SelectionDrag::new(point, self.mouse));
                SelectStep::Begin
            }
        } else if action == MouseAction::Move && left_held {
            let mut drag = match self.selection_drag {
                Some(drag) => drag,
                None => {
                    return SelectStep::Nothing;
                },
            };
            match drag.update(self.mouse, point, self.modifiers.state.alt) {
                Some(selection) => {
                    self.selection_drag = Some(drag);
                    SelectStep::Extend(selection)
                },
                None => SelectStep::Nothing,
            }
        } else if action == MouseAction::Release && self.selection_drag.is_some() {
            self.selection_drag = None;
            SelectStep::Finish
        } else {
            SelectStep::Nothing
        }
    }
}

/// The cell under a point of the text area, in whole pixels; points beyond the last column or
/// row belong to it.
pub fn cell_under(
    x: usize,
    y: usize,
    cell_width: u32,
    cell_height: u32,
    cols: u16,
    rows: u16,
) -> (cell: (usize, usize))
    requires
        cell_width > 0,
        cell_height > 0,
        cols > 0,
        rows > 0,
    ensures
        cell.0 == if x as int / cell_width as int <= cols - 1 {
            x as int / cell_width as int
        } else {
            cols - 1
        },
        cell.1 == if y as int / cell_height as int <= rows - 1 {
            y as int / cell_height as int
        } else {
            rows - 1
        },
{
    let col: usize = x / cell_width as usize;
    let row: usize = y / cell_height as usize;
    let last_col: usize = cols as usize - 1;
    let last_row: usize = rows as usize - 1;
    (
        if col <= last_col {
            col
        } else {
            last_col
        },
        if row <= last_row {
            row
        } else {
            last_row
        },
    )
}

/// What scrolling by whole rows does in a pane.
#[derive(Debug, PartialEq, Eq)]
pub enum ScrollStep {
    /// The program is told of wheel steps.
    Wheel { count: usize, up: bool },
    /// The program gets cursor keys, and a selection goes.
    Keys { bytes: Vec<u8>, deselect: bool },
    /// The terminal's viewport moves.
    Viewport,
}

/// What a terminal says about scrolling.
#[derive(Clone, Copy, Debug)]
pub struct ScrollModes {
    /// The program takes the mouse, and Shift does not keep it from it.
    pub reporting: bool,
    pub alternate_screen: bool,
    pub mouse_mode: u16,
    /// Scrolling stands for cursor keys on the alternate screen.
    pub alternate_scroll: bool,
    /// Cursor keys are sent in their application form.
    pub application_keys: bool,
}

impl ScrollModes {
    pub open spec fn sends_keys(self) -> bool {
        !self.reporting && self.alternate_screen && self.mouse_mode == 0 && self.alternate_scroll
    }
}

/// The steps that a number of rows stands for.
pub open spec fn scroll_count(rows: int) -> int {
    let distance = if rows < 0 {
        -rows
    } else {
        rows
    };
    if distance <= MAX_WHEEL_REPORTS {
        distance
    } else {
        MAX_WHEEL_REPORTS as int
    }
}

/// An ordinary cursor key up or down.
pub open spec fn cursor_key(up: bool, application: bool) -> Seq<u8> {
    seq![
        0x1bu8,
        if application {
            0x4fu8
        } else {
            0x5bu8
        },
        if up {
            0x41u8
        } else {
            0x42u8
        },
    ]
}

/// A sequence of bytes over and over.
pub open spec fn repeated(bytes: Seq<u8>, count: int) -> Seq<u8>
    decreases count,
{
    if count <= 0 {
        Seq::empty()
    } else {
        repeated(bytes, count - 1) + bytes
    }
}

fn cursor_keys(count: usize, up: bool, application: bool) -> (bytes: Vec<u8>)
    ensures
        bytes@ == repeated(cursor_key(up, application), count as int),
{
    let mut bytes: Vec<u8> = Vec::new();
    let mut i: usize = 0;
    while i < count
        invariant
            i <= count,
            bytes@ == repeated(cursor_key(up, application), i as int),
        decreases count - i,
    {
        let ghost before = bytes@;
        bytes.push(0x1b);
        bytes.push(if application {
            0x4f
        } else {
            0x5b
        });
        bytes.push(if up {
            0x41
        } else {
            0x42
        });
        assert(bytes@ =~= before + cursor_key(up, application));
        i += 1;
    }
    bytes
}

/// Decides what scrolling by whole rows does, upwards for positive ones.
pub fn scroll_step(rows: isize, modes: ScrollModes) -> (step: ScrollStep)
    ensures
        match step {
            ScrollStep::Wheel { count, up } => modes.reporting && count == scroll_count(rows as int)
                && up == (rows > 0),
            ScrollStep::Keys { bytes, deselect } => modes.sends_keys() && bytes@ == repeated(
                cursor_key(rows > 0, modes.application_keys),
                scroll_count(rows as int),
            ) && deselect == (rows != 0),
            ScrollStep::Viewport => !modes.reporting && !modes.sends_keys(),
        },
{
    let limit: isize = MAX_WHEEL_REPORTS as isize;
    let count: usize = if rows > limit || rows < -limit {
        MAX_WHEEL_REPORTS
    } else if rows < 0 {
        (-rows) as usize
    } else {
        rows as usize
    };
    if modes.reporting {
        ScrollStep::Wheel { count, up: rows > 0 }
    } else if modes.alternate_screen && modes.mouse_mode == 0 && modes.alternate_scroll {
        // Alternate scroll emits ordinary cursor keys, independent of keyboard protocols and
        // held modifiers.
        ScrollStep::Keys {
            bytes: cursor_keys(count, rows > 0, modes.application_keys),
            deselect: count != 0,
        }
    } else {
        ScrollStep::Viewport
    }
}

/// However far the wheel turned at once, a program gets a bounded answer.
pub proof fn law_scroll_reports_are_bounded(rows: int, key: Seq<u8>)
    requires
        key.len() == 3,
    ensures
        0 <= scroll_count(rows) <= MAX_WHEEL_REPORTS,
        -MAX_WHEEL_REPORTS <= rows <= MAX_WHEEL_REPORTS ==> scroll_count(rows) == rows
            || scroll_count(rows) == -rows,
        repeated(key, scroll_count(rows)).len() == 3 * scroll_count(rows),
{
    lemma_repeated_length(key, scroll_count(rows));
}

proof fn lemma_repeated_length(key: Seq<u8>, count: int)
    requires
        key.len() == 3,
        count >= 0,
    ensures
        repeated(key, count).len() == 3 * count,
    decreases count,
{
    if count > 0 {
        lemma_repeated_length(key, count - 1);
    }
}

impl Host {
    /// The pane that scrolls: the one under the pointer, unless something else has the pointer.
    pub fn scroll_target(&self, over_ui: bool) -> (target: Option<Option<Id>>)
        ensures
            target == if self.is_modal() || self.peek is Some || self.divider_drag is Some
                || over_ui {
                None
            } else {
                Some(self.pane_under_pointer())
            },
    {
        if self.modal_input() || self.peek.is_some() || self.divider_drag.is_some() || over_ui {
            None
        } else {
            Some(self.hovered_pane())
        }
    }

    /// A file can be dropped here: on a pane, under nothing else.
    pub fn drop_target(&self, position: Pos, over_ui: bool) -> (pane: Option<Id>)
        ensures
            pane == if self.is_modal() || over_ui {
                None
            } else {
                first_hit(self.rects@, position)
            },
    {
        if self.modal_input() || over_ui {
            None
        } else {
            self.pane_at(position)
        }
    }
}

/// Where the pointer is, as far as links are concerned.
#[derive(Clone, Copy, Debug)]
pub struct LinkHit {
    pub pane: Id,
    pub generation: u64,
    pub viewport_offset: usize,
    pub point: GridPoint,
    pub area: Rect,
    pub cell: Pos,
}

impl LinkHit {
    pub open spec fn equals(self, other: LinkHit) -> bool {
        &&& self.pane == other.pane
        &&& self.generation == other.generation
        &&& self.viewport_offset == other.viewport_offset
        &&& self.point == other.point
        &&& self.area.equals(other.area)
        &&& self.cell.equals(other.cell)
    }

    pub fn same(&self, other: &LinkHit) -> (same: bool)
        ensures
            same == self.equals(*other),
    {
        self.pane == other.pane && self.generation == other.generation && self.viewport_offset
            == other.viewport_offset && self.point == other.point && self.area.same(&other.area)
            && self.cell.same(other.cell)
    }
}

/// The conditions under which a link shows that it can be opened.
#[derive(Clone, Copy, Debug)]
pub struct LinkConditions {
    pub links: bool,
    pub platform: bool,
    pub over_ui: bool,
    pub on_divider: bool,
    /// The program has the pointer.
    pub reporting: bool,
    /// The program holds its output back.
    pub synchronized: bool,
}

impl Host {
    /// Whether the pointer looks for a link. Without Command there is no scan.
    pub fn seeks_link(&self, conditions: LinkConditions) -> (seeks: bool)
        ensures
            seeks == (self.modifiers.state.super_key && conditions.links && !self.is_modal()
                && self.peek is None && self.divider_drag is None && conditions.platform
                && !conditions.over_ui && !conditions.on_divider && !conditions.reporting
                && !conditions.synchronized),
    {
        self.modifiers.state.super_key && conditions.links && !self.modal_input()
            && self.peek.is_none() && self.divider_drag.is_none() && conditions.platform
            && !conditions.over_ui && !conditions.on_divider && !conditions.reporting
            && !conditions.synchronized
    }

    /// Whether the link at this place is known already.
    pub fn knows_link(&self, place: &LinkHit) -> (known: bool)
        ensures
            known == (self.link_hit is Some && self.link_hit->0.equals(*place)),
    {
        match &self.link_hit {
            Some(last) => last.same(place),
            None => false,
        }
    }

    /// Notes the link at a place, or that there is none; tells whether another one shows.
    pub fn found_link(&mut self, place: LinkHit, link: Option<HoveredLink>) -> (changed: bool)
        ensures
            changed == !same_links(old(self).hovered_link, link),
            *final(self) == (Host { link_hit: Some(place), hovered_link: link, ..*old(self) }),
    {
        let changed = match (&self.hovered_link, &link) {
            (None, None) => false,
            (Some(old_link), Some(new_link)) => !old_link.same(new_link),
            _ => true,
        };
        self.link_hit = Some(place);
        self.hovered_link = link;
        changed
    }

    /// The pointer is over no link, or looks for none; tells whether one was shown.
    pub fn leave_link(&mut self) -> (changed: bool)
        ensures
            changed == (old(self).hovered_link is Some),
            *final(self) == (Host { link_hit: None, hovered_link: None, ..*old(self) }),
    {
        let changed = self.hovered_link.is_some();
        self.link_hit = None;
        self.hovered_link = None;
        changed
    }
}

/// The rectangles are the same, one by one.
pub open spec fn same_bounds(left: Seq<Rect>, right: Seq<Rect>) -> bool {
    left.len() == right.len() && forall|i: int|
        0 <= i < left.len() ==> (#[trigger] left[i]).equals(right[i])
}

/// Both are the same link in the same place, or there is none.
pub open spec fn same_links(left: Option<HoveredLink>, right: Option<HoveredLink>) -> bool {
    match (left, right) {
        (None, None) => true,
        (Some(left), Some(right)) => left.equals(right),
        _ => false,
    }
}

impl HoveredLink {
    pub open spec fn equals(self, other: HoveredLink) -> bool {
        self.pane == other.pane && self.uri@ == other.uri@ && same_bounds(
            self.bounds@,
            other.bounds@,
        )
    }

    pub fn same(&self, other: &HoveredLink) -> (same: bool)
        ensures
            same == self.equals(*other),
    {
        if self.pane != other.pane || !same_text(self.uri.as_str(), other.uri.as_str())
            || self.bounds.len() != other.bounds.len() {
            return false;
        }
        let mut i: usize = 0;
        while i < self.bounds.len()
            invariant
                i <= self.bounds@.len() == other.bounds@.len(),
                forall|j: int|
                    0 <= j < i ==> (#[trigger] self.bounds@[j]).equals(other.bounds@[j]),
            decreases self.bounds@.len() - i,
        {
            if !self.bounds[i].same(&other.bounds[i]) {
                assert(!self.bounds@[i as int].equals(other.bounds@[i as int]));
                return false;
            }
            i += 1;
        }
        true
    }
}

/// The position is on a pane that runs.
pub open spec fn on_live_pane(rects: Seq<(Id, Rect)>, failed: Seq<Id>, position: Pos) -> bool {
    exists|i: int|
        0 <= i < rects.len() && (#[trigger] rects[i]).1.encloses(position) && !failed.contains(
            rects[i].0,
        )
}

fn is_on_live_pane(rects: &Vec<(Id, Rect)>, failed: &Vec<Id>, position: Pos) -> (found: bool)
    ensures
        found == on_live_pane(rects@, failed@, position),
{
    let mut i: usize = 0;
    while i < rects.len()
        invariant
            i <= rects@.len(),
            forall|j: int|
                0 <= j < i ==> !((#[trigger] rects@[j]).1.encloses(position) && !failed@.contains(
                    rects@[j].0,
                )),
        decreases rects@.len() - i,
    {
        if rects[i].1.contains(position) && !has_id(failed, rects[i].0) {
            assert(rects@[i as int].1.encloses(position));
            return true;
        }
        i += 1;
    }
    false
}

impl Host {
    /// The position is on a pane that runs, or in a gap between the panes.
    pub open spec fn over_terminals(self, failed: Seq<Id>, position: Pos) -> bool {
        on_live_pane(self.rects@, failed, position) || (self.content.encloses(position)
            && first_hit(self.rects@, position) is None)
    }

    fn is_over_terminals(&self, failed: &Vec<Id>, position: Pos) -> (over: bool)
        ensures
            over == self.over_terminals(failed@, position),
    {
        is_on_live_pane(&self.rects, failed, position) || (self.content.contains(position)
            && self.pane_at(position).is_none())
    }

    /// Whether the pointer merely moves over terminals, from where it was to `position`, so that
    /// the user interface need not hear of it. Crossing a gap between panes changes the native
    /// cursor at most. `free` tells that neither place lies under a window of the user
    /// interface, which is not using the pointer.
    pub fn passive_mouse_motion(&self, position: Pos, failed: &Vec<Id>, free: bool) -> (passive: bool)
        ensures
            passive == (!self.is_modal() && self.peek is None && self.divider_drag is None
                && self.mouse_button is None && self.pointer_inside && free && self.over_terminals(
                failed@,
                self.mouse,
            ) && self.over_terminals(failed@, position)),
    {
        !self.modal_input() && self.peek.is_none() && self.divider_drag.is_none()
            && self.mouse_button.is_none() && self.pointer_inside && free
            && self.is_over_terminals(failed, self.mouse) && self.is_over_terminals(
            failed,
            position,
        )
    }
}

/// Turning the wheel reaches the pane under the pointer, and moves neither the focus nor a
/// divider that was not held, nor the target of a peek.
pub proof fn law_the_wheel_leaves_the_focus(
    host: Host,
    action: MouseAction,
    button: MouseButton,
    context: PointerContext,
)
    requires
        button.spec_is_wheel(),
    ensures
        match host.mouse_route(action, Some(button), context) {
            MouseRoute::Pane { pane, focus } => !focus && host.pane_under_pointer() == Some(pane),
            MouseRoute::Divide { .. } => host.divider_drag is Some,
            MouseRoute::Nothing => true,
            MouseRoute::Grab => false,
            MouseRoute::PeekAt(_) => false,
        },
{
}

/// The cell that a link is looked for at: the leading half of a wide character, and nothing where
/// the row has no such cell or only fills up before a wide one.
pub open spec fn link_column(screen: Screen, row: int, col: int, spacer: bool) -> Option<int> {
    if row < 0 || row >= screen.height() || col < 0 || col >= screen.rows@[screen.top()
        + row].cells@.len() || spacer {
        None
    } else if screen.rows@[screen.top() + row].cells@[col].width == 0 && col > 0 {
        Some(col - 1)
    } else {
        Some(col)
    }
}

/// Finds the cell that a link is looked for at; `spacer` tells whether the one under the pointer
/// only fills up a row.
pub fn link_point(screen: &Screen, row: usize, col: usize, spacer: bool) -> (point: Option<GridPoint>)
    requires
        screen.wf(),
    ensures
        match link_column(*screen, row as int, col as int, spacer) {
            Some(column) => point == Some(
                GridPoint { row: screen.rows@[screen.top() + row].id, col: column as usize },
            ),
            None => point is None,
        },
{
    let height: usize = screen.rows.len() - screen.history_len;
    if row >= height {
        return None;
    }
    let found = &screen.rows[screen.history_len - screen.viewport_offset + row];
    if col >= found.cells.len() || spacer {
        return None;
    }
    let col: usize = if found.cells[col].width == 0 && col > 0 {
        col - 1
    } else {
        col
    };
    Some(GridPoint { row: found.id, col })
}

/// A part of a link on one visible row: its first column and its width.
#[derive(Clone, Copy, Debug, PartialEq, Eq, Structural)]
pub struct LinkSpan {
    pub row: usize,
    pub left: usize,
    pub width: usize,
}

/// The row with this ID, counted from the top of the viewport.
pub open spec fn visible_row(screen: Screen, id: u64) -> Option<int> {
    match screen.index_of(id) {
        Some(i) if screen.top() <= i < screen.top() + screen.height() => Some(i - screen.top()),
        _ => None,
    }
}

/// The column behind a link on a row: behind its last character, which may be wide, or behind
/// the row.
pub open spec fn link_right(screen: Screen, end: GridPoint, end_row: int, row: int) -> int {
    let cells = screen.rows@[screen.top() + row].cells@;
    if row == end_row {
        end.col + if end.col < cells.len() && cells[end.col as int].width > 1 {
            cells[end.col as int].width as int
        } else {
            1
        }
    } else {
        cells.len() as int
    }
}

/// The parts of a link from one visible row to another.
pub open spec fn link_spans(screen: Screen, start: GridPoint, end: GridPoint) -> Seq<LinkSpan> {
    match (visible_row(screen, start.row), visible_row(screen, end.row)) {
        (Some(first), Some(last)) => Seq::new(
            if last >= first {
                (last - first + 1) as nat
            } else {
                0
            },
            |i: int|
                {
                    let row = first + i;
                    let left = if row == first {
                        start.col as int
                    } else {
                        0
                    };
                    let right = link_right(screen, end, last, row);
                    LinkSpan {
                        row: row as usize,
                        left: left as usize,
                        width: if right > left {
                            (right - left) as usize
                        } else {
                            0
                        },
                    }
                },
        ),
        _ => Seq::empty(),
    }
}

fn find_visible(screen: &Screen, id: u64) -> (row: Option<usize>)
    requires
        screen.wf(),
    ensures
        match row {
            Some(row) => visible_row(*screen, id) == Some(row as int) && row < screen.height(),
            None => visible_row(*screen, id) is None,
        },
{
    let top: usize = screen.history_len - screen.viewport_offset;
    let height: usize = screen.rows.len() - screen.history_len;
    match screen.position(id) {
        Some(index) => if top <= index && index - top < height {
            Some(index - top)
        } else {
            None
        },
        None => None,
    }
}

/// The parts of a link that the viewport shows, where it shows both of its ends.
pub fn link_bounds(screen: &Screen, start: GridPoint, end: GridPoint) -> (spans: Vec<LinkSpan>)
    requires
        screen.wf(),
        end.col <= usize::MAX - 255,
    ensures
        spans@ == link_spans(*screen, start, end),
{
    let mut spans: Vec<LinkSpan> = Vec::new();
    let (first, last) = match (find_visible(screen, start.row), find_visible(screen, end.row)) {
        (Some(first), Some(last)) => (first, last),
        _ => {
            assert(spans@ =~= link_spans(*screen, start, end));
            return spans;
        },
    };
    let top: usize = screen.history_len - screen.viewport_offset;
    let ghost all = link_spans(*screen, start, end);
    let mut row: usize = first;
    assert(spans@ =~= all.take(0));
    while row <= last
        invariant
            screen.wf(),
            end.col <= usize::MAX - 255,
            top == screen.top(),
            visible_row(*screen, start.row) == Some(first as int),
            visible_row(*screen, end.row) == Some(last as int),
            all == link_spans(*screen, start, end),
            last < screen.height(),
            first <= row,
            row <= last + 1 || first > last,
            first > last ==> row == first,
            spans@ == all.take(row - first),
        decreases last + 1 - row,
    {
        assert(screen.rows.len() == screen.rows@.len());
        let cells = &screen.rows[top + row].cells;
        let left: usize = if row == first {
            start.col
        } else {
            0
        };
        let right: usize = if row == last {
            end.col + if end.col < cells.len() && cells[end.col].width > 1 {
                cells[end.col].width as usize
            } else {
                1
            }
        } else {
            cells.len()
        };
        let span = LinkSpan {
            row,
            left,
            width: if right > left {
                right - left
            } else {
                0
            },
        };
        spans.push(span);
        assert(span == all[row - first]);
        assert(all.take(row - first).push(span) =~= all.take(row - first + 1));
        row += 1;
    }
    assert(all.take(row - first) =~= all);
    spans
}

/// The pointer over the window.
#[derive(Debug)]
pub enum PointerCursor {
    ColResize,
    RowResize,
    Pointer,
    /// The shape that the program asked for, by its name.
    Named(String),
}

/// The name stands for a shape of the pointer: one of the CSS names.
pub open spec fn is_cursor_name(name: Seq<char>) -> bool {
    ||| name == "default"@
    ||| name == "context-menu"@
    ||| name == "help"@
    ||| name == "pointer"@
    ||| name == "progress"@
    ||| name == "wait"@
    ||| name == "cell"@
    ||| name == "crosshair"@
    ||| name == "text"@
    ||| name == "vertical-text"@
    ||| name == "alias"@
    ||| name == "copy"@
    ||| name == "move"@
    ||| name == "no-drop"@
    ||| name == "not-allowed"@
    ||| name == "grab"@
    ||| name == "grabbing"@
    ||| name == "e-resize"@
    ||| name == "n-resize"@
    ||| name == "ne-resize"@
    ||| name == "nw-resize"@
    ||| name == "s-resize"@
    ||| name == "se-resize"@
    ||| name == "sw-resize"@
    ||| name == "w-resize"@
    ||| name == "ew-resize"@
    ||| name == "ns-resize"@
    ||| name == "nesw-resize"@
    ||| name == "nwse-resize"@
    ||| name == "col-resize"@
    ||| name == "row-resize"@
    ||| name == "all-scroll"@
    ||| name == "zoom-in"@
    ||| name == "zoom-out"@
}

/// `CursorIcon::from_str` accepts exactly the CSS names of the pointer's shapes.
#[verifier::external_body]
fn names_cursor(name: &str) -> (known: bool)
    ensures
        known == is_cursor_name(name@),
{
    name.parse::<winit::window::CursorIcon>().is_ok()
}

/// What the pointer shows.
pub enum PointerModel {
    ColResize,
    RowResize,
    Pointer,
    Named(Seq<char>),
}

impl View for PointerCursor {
    type V = PointerModel;

    open spec fn view(&self) -> PointerModel {
        match self {
            PointerCursor::ColResize => PointerModel::ColResize,
            PointerCursor::RowResize => PointerModel::RowResize,
            PointerCursor::Pointer => PointerModel::Pointer,
            PointerCursor::Named(name) => PointerModel::Named(name@),
        }
    }
}

impl Host {
    /// Nothing of the panes has the pointer.
    pub open spec fn pointer_elsewhere(self) -> bool {
        self.is_modal() || self.peek is Some || first_hit(self.search_rects@, self.mouse) is Some
    }

    /// The pointer that the window itself asks for: over a divider or over a link. `divider` is
    /// the one under the pointer.
    pub open spec fn own_pointer(self, divider: Option<Divider>) -> Option<PointerModel> {
        let over = if self.divider_drag is Some {
            self.divider_drag
        } else {
            divider
        };
        if over is Some {
            Some(
                match over->0.axis {
                    Axis::Horizontal => PointerModel::ColResize,
                    Axis::Vertical => PointerModel::RowResize,
                },
            )
        } else if self.hovered_link is Some && self.pane_under_pointer() == Some(
            self.hovered_link->0.pane,
        ) {
            Some(PointerModel::Pointer)
        } else {
            None
        }
    }

    /// The pointer over the window, where `shape` is what the pane under the pointer asked for
    /// and `known` whether that names a shape.
    pub open spec fn pointer(
        self,
        divider: Option<Divider>,
        shape: Option<Seq<char>>,
        known: bool,
    ) -> Option<PointerModel> {
        if self.pointer_elsewhere() {
            None
        } else if self.own_pointer(divider) is Some {
            self.own_pointer(divider)
        } else if self.pane_under_pointer() is Some && shape is Some && known {
            Some(PointerModel::Named(shape->0))
        } else {
            None
        }
    }

    /// Chooses the pointer; `known` tells whether the shape names one.
    pub fn choose_pointer(&self, divider: Option<Divider>, shape: Option<&str>, known: bool) -> (
        cursor: Option<PointerCursor>)
        ensures
            match cursor {
                Some(cursor) => self.pointer(
                    divider,
                    crate::keys::borrowed_chars(shape),
                    known,
                ) == Some(cursor@),
                None => self.pointer(
                    divider,
                    crate::keys::borrowed_chars(shape),
                    known,
                ) is None,
            },
    {
        if self.modal_input() || self.peek.is_some() || hit(
            &self.search_rects,
            self.mouse,
        ).is_some() {
            return None;
        }
        let over = if self.divider_drag.is_some() {
            self.divider_drag
        } else {
            divider
        };
        if let Some(divider) = over {
            return Some(
                match divider.axis {
                    Axis::Horizontal => PointerCursor::ColResize,
                    Axis::Vertical => PointerCursor::RowResize,
                },
            );
        }
        let pane = match self.hovered_pane() {
            Some(pane) => pane,
            None => {
                return None;
            },
        };
        if let Some(link) = &self.hovered_link {
            if link.pane == pane {
                return Some(PointerCursor::Pointer);
            }
        }
        match shape {
            Some(shape) => if known {
                Some(PointerCursor::Named(shape.to_owned()))
            } else {
                None
            },
            None => None,
        }
    }

    /// The pointer over the window; `shape` is what the pane under the pointer asked for.
    pub fn pointer_cursor(&self, divider: Option<Divider>, shape: Option<&str>) -> (cursor: Option<
        PointerCursor,
    >)
        ensures
            ({
                let model = self.pointer(
                    divider,
                    crate::keys::borrowed_chars(shape),
                    shape is Some && is_cursor_name(shape->0@),
                );
                match cursor {
                    Some(cursor) => model == Some(cursor@),
                    None => model is None,
                }
            }),
    {
        let known = match shape {
            Some(shape) => names_cursor(shape),
            None => false,
        };
        self.choose_pointer(divider, shape, known)
    }
}

} // verus!
