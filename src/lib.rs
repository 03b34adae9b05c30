//! Streaming phase-vocoder pitch shifting: the integer and data-movement core.
//!
//! The numeric kernel (windowing, transforms, polar conversion) works on
//! floating-point samples and is driven from outside this crate; everything it
//! relies on for sizing, hop scheduling, FIFO buffering, overlap-add shifting,
//! phase unwrapping and bin remapping is defined and verified here.

pub mod bins;
pub mod sizing;
pub mod stream;

pub use bins::{accepts_bin, even_multiple, last_writers, last_writers_into};
pub use stream::{FrameStream, StreamError, StreamModel};
pub use sizing::{frame_size_for, half_size, ConfigError, Hop};

