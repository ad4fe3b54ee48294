//! Extracts still images from a decoded video at roughly one-second
//! intervals.
//!
//! The crate holds the decision core of the pipeline: selecting the video
//! stream, the timestamp-based sampling policy, validating converted frames,
//! numbering and naming the output images, and the phase protocol that a
//! driver must follow (read packets, then drain the decoder, then stop).
//! Demuxing, decoding and pixel conversion are outside capabilities; a thin
//! driver feeds their results in as plain values.

pub mod errors;
pub mod filename;
pub mod frame;
pub mod pipeline;
pub mod sampler;
pub mod stream;
pub mod writer;
