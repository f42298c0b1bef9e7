//! What holds of the library as a whole.

pub mod addon;
pub mod cmdline;
pub mod decimal;
pub mod device;
pub mod error;
pub mod gpu;
pub mod host;
pub mod text;
pub mod toolkit;
pub mod verity;
