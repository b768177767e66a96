//! Cursor movement and in-place byte editing for a hex/ASCII editor.
//!
//! [`buffer`] holds the edited bytes together with the cursor, and
//! [`editor`] holds the command handlers of the two panes.
pub mod buffer;
pub mod editor;

pub use buffer::{AppData, EditState, Nibble};
pub use editor::{Command, Editor, Effect, Window};
