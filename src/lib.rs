//! Lock-free relay of audio samples from a capture stream to a render stream.
//!
//! A sample travels through the library as the bit pattern of its
//! floating-point value (`f32::to_bits`), so that silence is the value `0`.

pub mod latency;
pub mod laws;
pub mod relay;
pub mod ring;
