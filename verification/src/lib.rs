//! State machine, input editor and frame composition of a tabbed terminal
//! dashboard.
//!
//! The crate holds everything the dashboard decides: how a key press changes
//! the run mode, the selected tab, the input mode and the text being edited,
//! and which regions and texts make up a frame. Reading the terminal and
//! painting cells is left to the program around it.

pub mod about;
pub mod app;
pub mod clock;
pub mod editor;
pub mod frame;
pub mod journal;
pub mod key;
pub mod layout;
pub mod mode;
pub mod state;
pub mod tabs;
pub mod text;
