//! Host-side planning for GPU matrix multiplication: element buffers and
//! their byte layout, workgroup dispatch counts, the buffers a job stages on
//! the device, the life cycle of one job from device acquisition to
//! readback, and the CPU product and comparison by which a device result
//! is checked.
//!
//! Elements are IEEE-754 single-precision numbers held by their bit
//! patterns, so every statement about a buffer is a statement about 32-bit
//! words. Floating-point arithmetic is never done here: where a product or
//! a comparison needs it, the caller hands it in as a function on bit
//! patterns, and the contracts speak of what that function returned.
//!
//! The library decides and the host acts. A [`job::ComputeJob`] is told
//! what the host observed and answers with the next thing to do; it never
//! touches a device itself.

pub mod error;
pub mod matrix;
pub mod dispatch;
pub mod staging;
pub mod job;
pub mod reference;
pub mod comparison;
