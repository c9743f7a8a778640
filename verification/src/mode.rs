//! The two mode switches of the dashboard.

use vstd::prelude::*;

verus! {

/// Lifecycle state of the dashboard process.
///
/// The event loop goes on in every mode but `Exiting`. `RestartComms` is a
/// signal for whoever manages the connections; it does not stop the loop.
#[derive(Debug, Clone, Copy, PartialEq, Eq, Structural)]
pub enum Mode {
    Running,
    Exiting,
    RestartComms,
}

impl Default for Mode {
    fn default() -> (mode: Self)
        ensures
            mode == Mode::Running,
    {
        Mode::Running
    }
}

/// Whether key presses navigate (`Normal`) or edit the input text
/// (`Editing`).
#[derive(Debug, Clone, Copy, PartialEq, Eq, Structural)]
pub enum InputMode {
    Normal,
    Editing,
}

impl Default for InputMode {
    fn default() -> (mode: Self)
        ensures
            mode == InputMode::Normal,
    {
        InputMode::Normal
    }
}

} // verus!
