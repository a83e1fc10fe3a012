//! Driver for a memory-mapped 80x25 text-mode display: packed colours,
//! two-byte cells, a grid of volatile cells, and a writer that places bytes,
//! wraps lines and scrolls.

pub mod cell;
pub mod color;
pub mod console;
pub mod grid;
pub mod screen;
pub mod writer;

pub use cell::{ScreenChar, BLANK};
pub use color::{Color, ColorCode};
pub use console::_print;
pub use grid::{Buffer, Cells, BUFFER_HEIGHT, BUFFER_WIDTH};
pub use screen::{LINE_FEED, PLACEHOLDER};
pub use writer::Writer;
