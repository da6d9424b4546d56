//! The core of a full-screen terminal text viewer: a line buffer, a cursor that
//! moves through it, and a viewport that scrolls to keep the cursor in sight.
//!
//! The library touches no terminal. It takes in the events that a terminal
//! delivers and gives back what is to be drawn; whoever owns the terminal
//! reads the one and carries out the other.
//!
//! - [`row`] and [`document`]: the lines and the line store.
//! - [`terminal`]: the terminal's size and the events.
//! - [`editor`]: the viewer itself, its cursor and its window.
//! - [`screen`]: the drawing commands.
//! - [`model`]: the viewer as a mathematical state, and what holds of it.
//! - [`text`]: facts about texts and their encodings.

pub mod document;
pub mod editor;
pub mod model;
pub mod row;
pub mod screen;
pub mod terminal;
pub mod text;

pub use document::Document;
pub use editor::{Editor, Position};
pub use row::Row;
pub use screen::DrawCommand;
pub use terminal::{Event, KeyCode, KeyEvent, KeyModifiers, Size, Terminal};
