//! Planning and bookkeeping for the conversion of a raw Bayer frame into a
//! quantized RGBA image on a compute device.
//!
//! The library decides and the caller carries out. It selects the device and
//! queue family, plans the images and staging buffers of a frame, lays out
//! the parameter blocks of the four stages, records the command buffers as
//! plain values, says in which order the outside work is done and what a
//! failed step means, and keeps the contexts of a process behind handles.
//! The device itself is driven by the caller.

pub mod error;
pub mod params;
pub mod pipeline;
pub mod registry;
pub mod shader;
