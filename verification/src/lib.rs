//! A verified host-function import bridge for a WebAssembly engine.
//!
//! A WebAssembly module declares imported functions with static type
//! signatures; an embedder supplies dynamically-typed host callables to
//! implement them.  This crate matches the callables against the declared
//! signatures, wraps each one in a trampoline whose declared type equals
//! the resolved signature, and converts argument and result values between
//! the host's dynamic representation and the engine's tagged value union
//! on every call across the boundary.
//!
//! The engine itself (compilation, validation, instantiation) and the host
//! runtime (the dynamic language holding the callables) are external
//! collaborators: the bridge works on plain modeled values — type tags,
//! integers, floating-point bit patterns — and the embedder converts at
//! the boundary.

pub mod imports;
pub mod marshal;
pub mod module;
pub mod registry;
pub mod trampoline;
pub mod signature;
pub mod types;
pub mod value;
