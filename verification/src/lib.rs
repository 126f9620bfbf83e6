//! Embedding lifecycle for a managed, garbage-collected language runtime
//! hosted inside the current process.
//!
//! The crate models and verifies the logic that coordinates the runtime's
//! bring-up and teardown: the process-wide singleton guard, the
//! `{NotStarted, Initializing, Initialized, Finalized}` state machine, the
//! shadow extension-module registration table, raw-allocator installation
//! ordering, the resource-backed module-loader bootstrap, and the
//! diagnostics capture that runs at teardown.  Alongside the lifecycle it
//! carries the build-configuration value type for an embeddable runtime
//! distribution and a small parser for library-stub metadata streams.

pub mod bytes;
pub mod config;
pub mod diagnostics;
pub mod distribution;
pub mod errors;
pub mod guard;
pub mod inittab;
pub mod lifecycle;
pub mod resources;
pub mod runtime;
pub mod starlark_args;
pub mod tbd;
