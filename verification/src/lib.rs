//! Core engine of a desktop update checker: given a catalog of software
//! items, each carrying shell commands that report its installed and latest
//! versions, the library decides which items have an update available,
//! assembles structured outcomes for every executed command, and coordinates
//! bulk scans so that at most one runs at a time.
//!
//! The library never spawns a process itself: callers hand it a
//! `CommandExecutor` that runs one shell command and returns a
//! `CommandOutput`. Everything downstream of that seam — trimming, version
//! comparison, the update heuristics, error taxonomy, aggregation — is
//! verified.

pub mod batch;
pub mod catalog;
pub mod check;
pub mod guard;
pub mod history;
pub mod migrate;
pub mod model;
pub mod ops;
pub mod report;
pub mod runner;
pub mod store;
pub mod text;
