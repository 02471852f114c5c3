//! Compute-shader properties and dispatch geometry.
//!
//! The crate keeps, for every compute shader, the bundle of facts a renderer
//! needs before it can launch it (bytecode, push-constant range, workgroup
//! size, binding names), and works out how many workgroups a workload needs.
//! Every executable function carries a contract that Verus proves.

pub mod bindings;
pub mod bytecode;
pub mod dispatch;
pub mod error;
pub mod shader;
pub mod toolchain;

pub use dispatch::Execution;
