//! Core of a small pixel-art editor: a CPU-resident pixel canvas addressed by
//! row-major coordinates, and the modal input state machine that decides how
//! key and text events are interpreted.

pub mod canvas;
pub mod color;
pub mod editor;
