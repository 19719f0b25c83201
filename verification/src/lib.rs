//! The verified core of the nodem web front-end: the byte buffers that the
//! front-end keeps between calls, the conversion of the one-bit frame buffer
//! into RGBA pixels, the palette, and the command dispatch rules.

pub mod buffer;
pub mod framebuffer;
pub mod text;
pub mod command;
pub mod options;
pub mod buffers;

