//! State of the window frame that the editor draws itself.
use vstd::prelude::*;

verus! {

/// Whether the window is shown normally, maximized or minimized.
#[derive(Debug, Copy, Clone, PartialEq, Eq, Default)]
pub enum WindowState {
    #[default]
    Normal,
    Maximized,
    Minimized,
}

impl WindowState {
    /// Switches between maximized and normal: a maximized window becomes normal, any
    /// other one maximized. Returns whether the window is to be maximized, which the
    /// caller passes on to the window system.
    pub fn toggle_maximized(&mut self) -> (maximize: bool)
        ensures
            maximize == (*old(self) != WindowState::Maximized),
            *final(self) == if maximize {
                WindowState::Maximized
            } else {
                WindowState::Normal
            },
    {
        match self {
            WindowState::Maximized => {
                *self = WindowState::Normal;
                false
            },
            _ => {
                *self = WindowState::Maximized;
                true
            },
        }
    }
}

} // verus!
