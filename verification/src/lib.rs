//! Core logic of a resumable build pipeline for sandboxed application
//! packages: command-dispatch routing, persisted pipeline state, and the
//! process-group lifecycle guard. All I/O (process spawning, the state
//! file, manifest loading) lives outside this crate; the functions here
//! compute, from plain values, exactly what that I/O layer must do.

pub mod build_dirs;
pub mod command;
pub mod errors;
pub mod manifest;
pub mod pipeline;
pub mod process;
pub mod scan;
pub mod state;
pub mod text;
pub mod utils;

pub use build_dirs::BuildDirs;
pub use command::DispatchTarget;
pub use command::ExecutionContext;
pub use errors::Error;
