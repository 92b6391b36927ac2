//! The frame-coordination core of an immediate-mode GUI backend.
//!
//! The GUI context, the window system and the GL painter stay outside this
//! crate; what is decided here is what a frame keeps between `run` and
//! `paint`, how texture changes accumulate, which viewport output is acted
//! upon, which degradations are reported, and the order in which a painter
//! is driven.

pub mod frame;
pub mod laws;
pub mod texture;
