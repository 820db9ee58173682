//! Rendering and navigation core of a small read-only terminal text viewer.

pub mod editor_content;
pub mod editor_rows;
pub mod editor_cursor_controller;
pub mod keyboard;
pub mod editor_output;
pub mod editor;
