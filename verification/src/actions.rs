//! What the user can ask of the application.
use vstd::prelude::*;

verus! {

/// Where a split or a move of the focus goes.
#[derive(Clone, Copy, Debug, PartialEq, Eq, Structural)]
pub enum Direction {
    Left,
    Right,
    Up,
    Down,
    Previous,
    Next,
    QuadrantLeft,
    QuadrantRight,
    QuadrantUp,
    QuadrantDown,
}

impl Direction {
    pub open spec fn spec_is_quadrant(self) -> bool {
        self is QuadrantLeft || self is QuadrantRight || self is QuadrantUp || self is QuadrantDown
    }

    /// Whether the direction leads to another quadrant of the tab.
    pub fn is_quadrant(self) -> (quadrant: bool)
        ensures
            quadrant == self.spec_is_quadrant(),
    {
        match self {
            Direction::QuadrantLeft
            | Direction::QuadrantRight
            | Direction::QuadrantUp
            | Direction::QuadrantDown => true,
            _ => false,
        }
    }
}

/// An action of a key binding, a menu or the command palette. Amounts of font size are carried
/// as the bits of a number of points.
#[derive(Clone, Debug, PartialEq, Eq)]
pub enum Action {
    Ignore,
    Unbind,
    Text(Vec<u8>),
    NewWindow,
    NewTab,
    NewSplit(Direction),
    GotoSplit(Direction),
    ToggleSplitZoom,
    ToggleQuadrantZoom,
    ResizeSplit { direction: Direction, amount: u16 },
    EqualizeSplits,
    NextTab,
    PreviousTab,
    LastTab,
    GotoTab(usize),
    MoveTab(i32),
    CloseSurface,
    CloseTab,
    CloseWindow,
    CloseAllWindows,
    Quit,
    ToggleQuickTerminal,
    ToggleFullscreen,
    ToggleCommandPalette,
    CopyToClipboard,
    PasteFromClipboard,
    PasteFromSelection,
    SelectAll,
    ClearScreen,
    StartSearch,
    SearchSelection,
    EndSearch,
    NavigateSearch { next: bool },
    ScrollToTop,
    ScrollToBottom,
    ScrollPageUp,
    ScrollPageDown,
    ScrollToSelection,
    JumpToPrompt(i32),
    OpenConfig,
    OpenLayout,
    ReloadConfig,
    IncreaseFontSize(u32),
    DecreaseFontSize(u32),
    ResetFontSize,
    Undo,
    Redo,
}

impl Action {
    /// The action closes panes.
    pub open spec fn spec_closes(self) -> bool {
        self is CloseSurface || self is CloseTab || self is CloseWindow || self is CloseAllWindows
            || self is Quit
    }

    pub fn closes(&self) -> (closes: bool)
        ensures
            closes == self.spec_closes(),
    {
        match self {
            Action::CloseSurface
            | Action::CloseTab
            | Action::CloseWindow
            | Action::CloseAllWindows
            | Action::Quit => true,
            _ => false,
        }
    }

    /// The layout before the action can be brought back.
    pub open spec fn spec_remembers(self) -> bool {
        self is NewWindow || self is NewTab || self is NewSplit || self is ResizeSplit
            || self is EqualizeSplits || self is CloseSurface || self is CloseTab
            || self is CloseWindow || self is CloseAllWindows
    }

    pub fn remembers(&self) -> (remembers: bool)
        ensures
            remembers == self.spec_remembers(),
    {
        match self {
            Action::NewWindow
            | Action::NewTab
            | Action::NewSplit(_)
            | Action::ResizeSplit { .. }
            | Action::EqualizeSplits
            | Action::CloseSurface
            | Action::CloseTab
            | Action::CloseWindow
            | Action::CloseAllWindows => true,
            _ => false,
        }
    }
}

/// The action belongs to the terminal or to text editing rather than to the application.
pub open spec fn stays_in_find(action: Action) -> bool {
    match action {
        Action::Ignore
        | Action::Unbind
        | Action::Text(_)
        | Action::CopyToClipboard
        | Action::PasteFromClipboard
        | Action::PasteFromSelection
        | Action::SelectAll
        | Action::ClearScreen
        | Action::ScrollToTop
        | Action::ScrollToBottom
        | Action::ScrollPageUp
        | Action::ScrollPageDown
        | Action::ScrollToSelection
        | Action::JumpToPrompt(_)
        | Action::Undo
        | Action::Redo => true,
        _ => false,
    }
}

/// Find keeps application navigation available while text-editing shortcuts stay in its field.
pub fn search_shortcut(action: &Action) -> (available: bool)
    ensures
        available == !stays_in_find(*action),
{
    match action {
        Action::StartSearch
        | Action::EndSearch
        | Action::SearchSelection
        | Action::NavigateSearch { .. }
        | Action::NewWindow
        | Action::NewTab
        | Action::NewSplit(_)
        | Action::CloseSurface
        | Action::CloseTab
        | Action::CloseWindow
        | Action::CloseAllWindows
        | Action::Quit
        | Action::GotoSplit(_)
        | Action::ResizeSplit { .. }
        | Action::EqualizeSplits
        | Action::ToggleSplitZoom
        | Action::ToggleQuadrantZoom
        | Action::ToggleQuickTerminal
        | Action::ToggleFullscreen
        | Action::ToggleCommandPalette
        | Action::NextTab
        | Action::PreviousTab
        | Action::LastTab
        | Action::GotoTab(_)
        | Action::MoveTab(_)
        | Action::ReloadConfig
        | Action::OpenConfig
        | Action::OpenLayout
        | Action::IncreaseFontSize(_)
        | Action::DecreaseFontSize(_)
        | Action::ResetFontSize => true,
        _ => false,
    }
}

} // verus!
