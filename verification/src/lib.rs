//! ScriptVault: a local catalog of shell and script artifacts.
//!
//! The library models the vault's three subsystems: the storage backend
//! contract with its local, whole-document implementation; the execution
//! engine's safety gating, metrics aggregation, and append-only history;
//! and the context detection and matching logic used to scope search.

pub mod cli;
pub mod config;
pub mod context;
pub mod errors;
pub mod execution;
pub mod local;
pub mod script;
pub mod storage;
pub mod support;
pub mod text;
pub mod vault;
