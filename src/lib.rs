//! Planning and checking for a single compute pass that fills one storage
//! buffer and reads it back through a staging buffer.
//!
//! The GPU work itself (device, pipeline, submission, mapping) is done by the
//! caller; this library decides the numbers that work is made of and checks
//! what comes back.

pub mod features;
pub mod plan;
pub mod readback;
