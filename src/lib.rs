//! Consolidation of conformance test suites from several proposal
//! repositories: the per-repository integration pipeline as a verified
//! state machine, the lock store that pins base revisions, change-set
//! detection and file selection.

pub mod text;
pub mod lock;
pub mod config;
pub mod select;
pub mod changes;
pub mod pipeline;
pub mod laws;
