//! The exact layer of an acoustic data modem.

pub mod array;
pub mod compose;
pub mod convolve;
pub mod log;
pub mod modulate;
pub mod playback;
pub mod symbols;
