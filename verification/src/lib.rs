//! A verified emulation core for the SVC16 fantasy console: a word-addressed
//! 16-bit machine with three 65,536-word memory banks (main, screen, utility),
//! a fixed four-word instruction format, and a host-driven synchronization
//! protocol with an optional expansion interface.

pub mod cli;
pub mod codec;
pub mod engine;
pub mod expansions;
pub mod host;
pub mod laws;
pub mod word;
