//! A fixed-capacity circular buffer (bounded FIFO queue) together with the
//! byte classification used by a serial polling loop.

pub mod buffer;
pub mod classify;
pub mod laws;
