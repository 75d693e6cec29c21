//! A minimal text-viewer core: a text buffer of rows of characters, a
//! cursor/viewport coordinate engine that turns movement commands into new
//! cursor and scroll state, and a renderer that produces the exact grid of
//! characters a terminal of a given size should display.

pub mod cursor;
pub mod keys;
pub mod render;
pub mod text;
