//! Module compilation and sandbox configuration for an embedded WebAssembly
//! engine.
//!
//! The engine itself is reached from outside this library: the functions here
//! take what the engine handed back (a handle or nothing, a diagnostic buffer)
//! and decide what the caller sees, and they describe, list by list, the
//! arguments that configure an instance's sandbox.
pub mod error;
pub mod helper;
pub mod wasi_context;
pub mod boundary;
pub mod module;
