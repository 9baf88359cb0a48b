//! Transaction construction and fee/cost policy for an Aleo-style virtual
//! machine.
//!
//! The crate validates program and function identifiers, resolves a program's
//! import graph into a dependency-first registration order (detecting missing
//! and cyclic imports), applies the fee-selection policy, derives cost
//! breakdowns for deployments and executions, and assembles transaction
//! requests for the proving runtime. The proving runtime itself, the ledger
//! store and the network query service are outside collaborators, reached
//! through a small set of trusted wrappers.

pub mod commands;
pub mod costfmt;
pub mod resolver;
pub mod runtime;
pub mod fee;
pub mod ident;
