use vstd::prelude::*;

verus! {

/// Visibility and input focus of the single main window.
///
/// The window object itself is never destroyed; it is only shown or hidden.
#[derive(Clone, Copy, Debug, PartialEq, Eq, Structural)]
pub struct WindowState {
    pub visible: bool,
    pub focused: bool,
}

impl WindowState {
    pub open spec fn shown() -> WindowState {
        WindowState { visible: true, focused: true }
    }

    pub open spec fn hidden() -> WindowState {
        WindowState { visible: false, focused: false }
    }

    /// The window before it is first shown.
    pub fn new() -> (w: WindowState)
        ensures
            w == WindowState::hidden(),
    {
        WindowState { visible: false, focused: false }
    }

    /// Makes the window visible, then gives it input focus.
    pub fn show(&mut self)
        ensures
            *final(self) == WindowState::shown(),
    {
        self.visible = true;
        self.focused = true;
    }

    /// Makes the window invisible; it stays alive and can be shown again.
    pub fn conceal(&mut self)
        ensures
            *final(self) == WindowState::hidden(),
    {
        self.visible = false;
        self.focused = false;
    }

    pub fn is_visible(&self) -> (r: bool)
        ensures
            r == self.visible,
    {
        self.visible
    }
}

} // verus!
