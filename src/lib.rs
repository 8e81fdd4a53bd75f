//! A text-mode console writer: bytes become coloured character cells on a
//! fixed 25 x 80 grid, with line wrap and scroll-up on the bottom row.

pub mod color;
pub mod lemmas;
pub mod vga_buffer;

pub use color::{Color, ColorCode};
pub use vga_buffer::{
    print_to_screen, ScreenChar, Writer, BUFFER_CELLS, BUFFER_HEIGHT, BUFFER_WIDTH, PLACEHOLDER,
};
