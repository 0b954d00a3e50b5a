//! State of a scrolling grid of charts, free of drawing and input devices.
pub mod calls;
pub mod data;
pub mod delete;
pub mod item;
pub mod laws;
pub mod render;
pub mod text;
pub mod touch;
pub mod view;
