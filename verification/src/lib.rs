//! A library that turns decoded image frames into monospaced-character art.
//!
//! The pipeline goes: decode a frame into a [`frame::Frame`], sample it into a
//! [`grid::CharacterGrid`] with [`rasterize::rasterize`], draw the grid back
//! into a bitmap, and name the written frames sequentially.  A small state
//! machine in [`job`] drives a whole video job around an external media tool.

pub mod codec;
pub mod errors;
pub mod frame;
pub mod grid;
pub mod job;
pub mod names;
pub mod quantize;
pub mod rasterize;
pub mod render;
