//! A windowed prefetch cache for browsing a large ordered collection of
//! images one at a time.
//!
//! The core is [`circ_buf::CircularBuffer`]: a fixed-capacity ring of decoded
//! image slots that follows a moving current position inside a much larger
//! ordered item list. Navigation and deletion keep the ring's bookkeeping
//! consistent and report which item must be decoded into which slot next;
//! the surrounding application performs the decoding and stores the pixels.

pub mod circ_buf;
pub mod logic;
