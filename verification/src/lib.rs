//! Function-invocation and trait-conformance core of a smart-contract
//! virtual machine: typed argument binding over an untyped value
//! representation, deferred dynamic dispatch for trait-typed parameters,
//! and nominal trait-conformance checking across contract namespaces.

pub mod callables;
pub mod contexts;
pub mod errors;
pub mod types;
