//! Host-function linking for an embedded WebAssembly engine.
//!
//! The crate models the engine's function tables, code pages and closure
//! registry as plain values and proves the rules by which import slots are
//! resolved, checked against a signature contract and wired to trampolines.
pub mod error;
pub mod signature;
pub mod function;
pub mod code;
pub mod runtime;
pub mod module;
pub mod stack;
