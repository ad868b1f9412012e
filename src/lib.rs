//! Cross-compilation orchestration: target classification, requirement
//! lookup, build-strategy selection, wrapper-shim and container planning,
//! and multi-target result aggregation.
pub mod strs;
pub mod error;
pub mod target;
pub mod config;
pub mod zig;
pub mod container;
pub mod toolchain;
pub mod strategy;
pub mod output;
pub mod plugin;

pub use error::{Error, ExitCode, Result};
