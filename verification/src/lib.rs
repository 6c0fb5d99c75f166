//! Execution core of a monorepo task orchestrator.
//!
//! Given a resolved target (a project's task), the library decides whether the
//! target's previous result can be replayed from its cache record, otherwise
//! models the retrying process runner that executes the task's command, writes
//! the outcome back into the record, publishes declared outputs into a shared
//! content-addressed area, gates dependency installation on the lockfile's
//! modification time, and estimates how much wall-clock time a full pipeline
//! saved against a sequential baseline.
//!
//! All process spawning, file system access, and (de)serialization live in the
//! unverified shell around this library; the library works on plain values.

pub mod action;
pub mod cache;
pub mod command;
pub mod deno_lock;
pub mod estimator;
pub mod install;
pub mod linker;
pub mod package;
pub mod runner;
pub mod strmap;
pub mod target;
