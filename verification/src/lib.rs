//! The rules by which composable VM image addons are mounted and used: which
//! addons the kernel command line declares, how each is found, verified and
//! mounted, and where the GPU components are then to be found.
//!
//! The library touches nothing itself. Procedures that need the machine say what
//! is to be done ([`host::Action`]) and are told what came of it
//! ([`host::Reply`]).

pub mod addon;
pub mod cmdline;
pub mod decimal;
pub mod device;
pub mod error;
pub mod gpu;
pub mod host;
pub mod laws;
pub mod text;
pub mod toolkit;
pub mod verity;
