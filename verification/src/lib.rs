//! A router-impersonating honeypot core: the packet classifier of the data
//! path, byte-exact protocol responders, router command-line emulators, and
//! the amplification profiler that feeds the block list.

pub mod common;
pub mod wire;
pub mod block_map;
pub mod stats;
pub mod events;
pub mod classifier;
pub mod text;
pub mod config;
pub mod protocols;
pub mod cli;
pub mod detection;
pub mod ebpf_manager;
