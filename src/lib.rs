//! A software-rendered frame: packed RGB colors, a row-major pixel buffer,
//! and a compositor that blits rectangular sources onto it with clipping.

mod buffer;
mod color;
mod context;
mod render;

pub use buffer::PixelBuffer;
pub use color::Color;
pub use context::Context;
pub use render::{Image, Renderable};
