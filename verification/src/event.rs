use vstd::prelude::*;

verus! {

/// A keyboard key as the navigation core reads it: the keys that take part in
/// keybindings, and `Other` for every key no binding mentions.
#[derive(Clone, Copy, Debug, PartialEq, Eq, Hash, Structural)]
pub enum KeyCode {
    Esc,
    Enter,
    Up,
    Down,
    Left,
    Right,
    Char(char),
    Other,
}

/// The modifier keys held together with a key press.
#[derive(Clone, Copy, Debug, PartialEq, Eq, Hash, Structural)]
pub struct KeyModifiers {
    pub shift: bool,
    pub control: bool,
    pub alt: bool,
}

/// One key press: a key code together with the modifier set held at the time.
#[derive(Clone, Copy, Debug, PartialEq, Eq, Hash, Structural)]
pub struct KeyEvent {
    pub code: KeyCode,
    pub modifiers: KeyModifiers,
}

/// Application events: the high-level commands the dispatcher understands.
#[derive(Clone, Copy, Debug, PartialEq, Eq, Structural)]
pub enum AppEvent {
    /// Select Previous App Item
    AppPrev,
    /// Select Next App Item
    AppNext,
    /// Select Previous Action Item
    ActionPrev,
    /// Select Next Action Item
    ActionNext,
    /// Toggle Tree Node (Open/Close)
    ToggleActionNode,
    /// Activate Action Item
    ActivateAction,
    /// Quit the application.
    Quit,
}

/// One event of the merged stream the main loop consumes: a terminal key
/// press, a store-change notification, or an internally queued command.
#[derive(Clone, Copy, Debug, PartialEq, Eq, Structural)]
pub enum Event {
    /// A key press read from the terminal.
    Crossterm(KeyEvent),
    /// The application store reported a change; the snapshot should be re-read.
    SystemTray,
    /// An internally queued application command.
    App(AppEvent),
}

} // verus!
