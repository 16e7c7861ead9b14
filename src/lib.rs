//! A bridge that lets a stack-based script host create and destroy the
//! objects of a WebAssembly engine through opaque handles.
//!
//! `lua` models the host's call frame, `objects` owns the native objects
//! behind the handles, `wasm` is the thin layer over wasmtime, and `registry`
//! holds the create/destroy operations and the namespace table that
//! publishes them.

pub mod lua;
pub mod objects;
pub mod wasm;
pub mod registry;
pub mod laws;
