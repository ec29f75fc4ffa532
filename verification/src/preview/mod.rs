//! Decode of preview frames: access policies, temporal selection, and diagnostics.

pub mod access;
pub mod diagnostics;
pub mod request;
pub mod temporal;
pub mod threading;
pub mod timing;
pub mod vocabulary;
