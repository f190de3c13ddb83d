//! A typed model of a streaming video device queue: the phase machine of the
//! queue, the per-buffer state table with its release fuses, and the memory
//! backends that buffers can be made of.

pub mod error;
pub mod state;
pub mod memory;
pub mod dmabuf;
pub mod device;
pub mod queue;
pub mod format;
