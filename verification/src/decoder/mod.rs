//! Residency of decoded frames, and hardware decode.

pub mod backend;
pub mod pool;
pub mod range;
pub mod surface;
