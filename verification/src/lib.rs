//! Renders a fixed sequence of still images as a colored-glyph animation in a
//! character terminal: a triple-buffered frame ring with role swapping, a
//! strict ping-pong producer/consumer handoff, a banded cell encoder, and a
//! deficit-accumulating frame pacer.
pub mod encode;
pub mod frame;
pub mod pacer;
pub mod protocol;
pub mod ring;
pub mod source;
