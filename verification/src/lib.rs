//! A text-mode display driver: colors, character cells, the grid of cells
//! that the hardware shows, a writer that prints bytes into its bottom row
//! and scrolls, and the place of the one writer that all call sites share.

pub mod buffer;
pub mod cell;
pub mod color;
pub mod laws;
pub mod model;
pub mod writer;

pub use buffer::{Buffer, BUFFER_HEIGHT, BUFFER_WIDTH};
pub use cell::ScreenChar;
pub use color::{Color, ColorCode};
pub use model::{LINE_FEED, PLACEHOLDER};
pub use writer::shared::{default_color_code, example_global_writer, with_writer, SharedWriter};
pub use writer::Writer;
