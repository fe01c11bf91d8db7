//! A text-mode screen writer: bytes go onto a grid of character cells,
//! lines wrap at the right edge and the grid scrolls at the bottom.

pub mod buffer;
pub mod color;
pub mod cursor;
pub mod screen;
pub mod screen_char;
pub mod writer;

pub use crate::buffer::Buffer;
pub use crate::color::{Color, ColorCode};
pub use crate::cursor::{BUFFER_HEIGHT, BUFFER_WIDTH};
pub use crate::screen_char::ScreenChar;
pub use crate::writer::Writer;
