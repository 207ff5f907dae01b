//! Pull-based configuration sync agent: the persisted state record, the
//! randomized polling curve, remote addressing and the per-cycle decisions of
//! the daemon.

pub mod config;
pub mod daemon;
pub mod error;
pub mod flake;
pub mod opts;
pub mod remote;
