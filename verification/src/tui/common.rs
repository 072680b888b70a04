//! Values shared by the parts of the terminal user interface.

use vstd::prelude::*;
use vstd::string::StringExecFns;

verus! {

/// Smallest terminal width, in columns, at which the interface is drawn.
pub const MIN_TERMINAL_WIDTH: u16 = 64;

/// Smallest terminal height, in rows, at which the interface is drawn.
pub const MIN_TERMINAL_HEIGHT: u16 = 30;

/// A mutually exclusive mode of the interface.
#[derive(PartialEq, Eq, Structural, Debug, Clone, Copy)]
pub enum Pane {
    ResultsList,
    Help,
}

impl Pane {
    /// The short name under which a pane is shown.
    pub open spec fn spec_label(self) -> Seq<char> {
        match self {
            Pane::ResultsList => "rl"@,
            Pane::Help => "h"@,
        }
    }

    /// The short name under which the pane is shown.
    pub fn label(&self) -> (name: String)
        ensures
            name@ == self.spec_label(),
    {
        match self {
            Pane::ResultsList => String::from_str("rl"),
            Pane::Help => String::from_str("h"),
        }
    }
}

/// The size of the terminal, in character cells.
#[derive(PartialEq, Eq, Structural, Debug, Clone, Copy)]
pub struct TerminalDimensions {
    pub width: u16,
    pub height: u16,
}

/// Whether a terminal of the given size is below the minimum dimensions.
pub open spec fn too_small(width: u16, height: u16) -> bool {
    width < MIN_TERMINAL_WIDTH || height < MIN_TERMINAL_HEIGHT
}

impl TerminalDimensions {
    /// Tells whether the terminal is too small for the interface.
    pub fn is_too_small(&self) -> (small: bool)
        ensures
            small == too_small(self.width, self.height),
    {
        self.width < MIN_TERMINAL_WIDTH || self.height < MIN_TERMINAL_HEIGHT
    }
}

} // verus!
