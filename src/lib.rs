//! A terminal dashboard shell: a screen layout engine, the cell glyphs of a
//! dungeon map, and the decisions of a fixed-tick render/input loop.
pub mod app;
pub mod grid;
pub mod layout;
pub mod panels;
