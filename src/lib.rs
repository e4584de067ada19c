//! Decision logic of a tray-resident desktop shell: the greeting command,
//! the tray menu, and what happens when the main window is asked to close.
//! The host framework performs every effect; this crate only decides them.

pub mod greeting;
pub mod text;
pub mod shell;
pub mod tray;
