//! A text console over a fixed-size character grid of memory-mapped display
//! cells: per-cell foreground/background color, line wrapping, and scrolling.

pub mod buffer;
pub mod color;
pub mod laws;
pub mod writer;

pub use buffer::Buffer;
pub use buffer::ScreenChar;
pub use buffer::BUFFER_HEIGHT;
pub use buffer::BUFFER_WIDTH;
pub use color::Color;
pub use color::ColorCode;
pub use writer::Writer;
pub use writer::_print;
