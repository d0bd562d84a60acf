//! A host-side execution engine for a single sandboxed, compiled-to-bytecode
//! action: it instantiates the guest with a capability-scoped environment,
//! pushes structured input into the guest's memory, invokes its entry point,
//! and pulls a tagged success/failure outcome back out.

pub mod context;
pub mod decimal;
pub mod engine;
pub mod json;
pub mod marshal;
pub mod outcome;
pub mod sandbox;
pub mod types;

pub use engine::execute_wasm;
