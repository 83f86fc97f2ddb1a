//! Core of a minimal line-oriented terminal text editor: a text buffer made
//! of character lines, a cursor/viewport model that keeps the cursor visible
//! under a minimal-scroll policy, a pure key-event dispatcher, and a renderer
//! that lays the visible window out as a flat character grid.

pub mod buffer;
pub mod editor;
pub mod geom;
pub mod input;
pub mod render;
