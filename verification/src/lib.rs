//! A single-line text-editing interaction engine: selection arithmetic,
//! pixel-to-character hit-testing, caret-visibility scrolling and the
//! queued-action state machine that ties them together.

pub mod canvas_behavior;
pub mod clipboard;
pub mod context;
pub mod geometry;
pub mod hit_test;
pub mod input;
pub mod laws;
pub mod measure;
pub mod model;
pub mod selection;
pub mod text_behavior;
pub mod text_buffer;
pub mod utf16;
pub mod viewport;
