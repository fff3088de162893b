//! The decisions behind a C bridge that lets Haskell drive a Temporal Core runtime.
//!
//! The bridge itself is raw pointers, threads and Tokio tasks. What it decides is here, as
//! functions from plain values to plain values: which handles keep a runtime alive and who tears
//! it down, what is written into which slot before a caller is woken, which telemetry a runtime is
//! started with and in what order, and which log lines are handed out.

pub mod array;
pub mod callback;
pub mod calls;
pub mod init;
pub mod lifecycle;
pub mod logs;
pub mod runtime;
pub mod telemetry;
