//! Lifecycle management for a handle to an embedded multi-backend key-value
//! engine, together with the planning of the native build that produces the
//! engine's libraries and binding surface.
//!
//! Everything here works on plain values. Spawning tools, touching the file
//! system and calling into the native engine are left to the caller, which
//! performs each action this crate hands out and reports back what happened.
//!
//! * [`backend`] selects the storage engines and front ends to build.
//! * [`orchestrator`] plans the configure, compile and preprocess commands,
//!   the link directives and the request for the binding generator.
//! * [`header`] recognizes an expanded header in which a conditional
//!   directive is left.
//! * [`pipeline`] sequences the build steps and stops at the first failure;
//!   [`progress`] holds what is proved of every run.
//! * [`database`] manages the one handle of an open database;
//!   [`lifecycle`] holds what is proved of every sequence of operations.
//! * [`error`] is the error type shared by all of them, and [`text`] the
//!   string helpers.

pub mod backend;
pub mod database;
pub mod error;
pub mod header;
pub mod lifecycle;
pub mod orchestrator;
pub mod pipeline;
pub mod progress;
pub mod text;

pub use database::Database;
pub use error::DataStoreError;
