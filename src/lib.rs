//! A walled tile grid with a cursor, a toggled tile selection and a list of actors,
//! driven one input event at a time.

pub mod arena;
pub mod cursor;
pub mod entity;
pub mod grid;
pub mod laws;
pub mod selection;

pub use arena::{Arena, CursorSystem, Input, Maze};
pub use cursor::{Cursor, Direction, SelectedTile, init_cursor};
