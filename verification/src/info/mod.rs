//! Media probing: colour interpretation and its diagnostics, HDR side data, frame
//! rates, durations and channel layouts.

pub mod color;
pub mod detection;
pub mod diagnostics;
pub mod hdr;
pub mod hints;
pub mod probe;
pub mod stream;
