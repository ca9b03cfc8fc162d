//! A keyboard-driven checklist manager: named lists of items arranged side
//! by side, a modal (vi-like) key-binding resolver, a reducer that applies
//! actions while keeping the selection indices valid, and a bounded
//! undo/redo history of content snapshots.

pub mod app;
pub mod history;
pub mod keymap;
pub mod selection;
pub mod todo;

pub use app::App;
pub use keymap::{Action, Key, KeyPress, Mode, Modifiers};
pub use selection::SelectionList;
pub use todo::{Todo, TodoList};
