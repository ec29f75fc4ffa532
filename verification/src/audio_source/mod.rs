//! Decoded windows of audio sources, from bounded persistent decoder sessions.

pub mod evidence;
pub mod fault;
pub mod mapping;
pub mod permits;
pub mod process;
pub mod session;
pub mod shutdown;
pub mod slots;
pub mod startup;
pub mod teardown;
pub mod window;
