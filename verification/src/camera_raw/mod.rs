//! DNG and CinemaDNG: the TIFF container, the camera RAW metadata contract and
//! the integer half of Bayer reconstruction.

pub mod bayer;
pub mod decode;
pub mod dng;
pub mod tiff;
