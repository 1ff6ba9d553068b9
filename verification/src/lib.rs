//! A typed, schema-validating facade over a replicated task-graph document.
//!
//! The underlying document (a `yrs` CRDT) stores loosely-typed nested maps,
//! ordered sequences and rich-text values.  This crate presents a strongly
//! typed domain model on top of it — a graph of `Task` records — and turns
//! domain-level writes into the minimal set of replicated operations, so that
//! concurrent remote edits are preserved rather than clobbered.
//!
//! All verified readers and writers take the document's exclusive mutation
//! scope (which also serves for reading).  Read-only snapshots
//! (`YDocProxy::transact`) can still be acquired for use outside this crate,
//! but no verified reader accepts one: contracts are stated over the
//! mutation scope alone.

pub mod laws;
pub mod model;
pub mod nums;
pub mod reconcile;
pub mod ybridge;
pub mod yproxy;
