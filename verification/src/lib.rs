//! Decision core of the MacXLR sampler daemon and its desktop launcher.
//!
//! The crate holds what the daemon decides: which sampler button holds which
//! stream, which audio device the sampler uses, which aggregate devices stay
//! registered, and how the desktop shell brings the daemon up. Threads,
//! audio devices and processes stay with the caller, which hands in what it
//! observed and carries out what the library decides.

pub mod aggregates;
pub mod audio;
pub mod launcher;
pub mod laws;
pub mod paths;
pub mod patterns;
pub mod sampler;
