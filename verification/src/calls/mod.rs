//! What a caller may rely on: for each call, what its result and the values it
//! changes have to do with what went in, field by field.
pub mod items;
pub mod render;
pub mod same;
pub mod texts;
pub mod touch;
pub mod view;
