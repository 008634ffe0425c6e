//! Reconciliation engine for a container-runtime network watcher.
//!
//! The library guarantees that a fixed-name virtual network exists and that
//! every relevant container is attached to it, optionally under a DNS alias
//! derived from two orchestration labels.  All decisions — whether to create
//! the network, which containers still need attaching, which runtime events
//! call for an attach, and when the main loop shuts down — are verified here
//! over a plain data model; the binary around the library performs the actual
//! runtime calls and feeds their results back in as plain values.

pub mod alias;
pub mod endpoint;
pub mod events;
pub mod labels;
pub mod machine;
pub mod model;
pub mod names;
pub mod orchestrator;
