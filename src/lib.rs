//! A global-shortcut paste utility: one key combination, bound at run time,
//! writes a fixed text to the clipboard and then types the paste keystroke.
//!
//! The library holds the decisions: which key names are accepted, which
//! binding is active and how it is replaced, whether a key event fires the
//! action, which steps the action takes, and how the main window reacts to
//! its events. Talking to the operating system is left to the caller.

pub mod commands;
pub mod error;
pub mod keys;
pub mod registry;
pub mod paste;
pub mod window;

pub use error::ErrorKind;
pub use keys::{Modifiers, Shortcut, ctrl_shortcut, ctrl_shortcut_from};
pub use registry::{KeyState, RebindPlan, Registry};
pub use paste::{Direction, Key, PasteStep, failure_kind, on_hotkey, paste_plan, paste_text};
pub use window::{Shell, ShellAction, WindowEvent};
pub use commands::greet;
