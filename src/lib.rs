//! Registry engine for repositories, the modules extracted from them,
//! immutable module version snapshots, module-to-repository links, forks and
//! deployment-wide counters, guarded by an admin configuration and a global
//! write switch.
//!
//! Every operation is a pure read-validate-write step over the records it is
//! handed: either it succeeds and returns the notifications to publish, or it
//! fails with a `Unit09Error` and leaves every record untouched. Callers pass
//! the authenticated actor, the records' addresses and the current time.

// Shared vocabulary.
pub mod address;
pub mod constants;
pub mod errors;
pub mod events;
pub mod seeds;
pub mod tags;
pub mod validators;

// Records.
pub mod config;
pub mod fork;
pub mod link;
pub mod metrics;
pub mod module;
pub mod module_version;
pub mod repo;

// Operations.
pub mod create_fork;
pub mod initialize;
pub mod link_module_to_repo;
pub mod record_metrics;
pub mod record_observation;
pub mod register_module;
pub mod register_repo;
pub mod set_config;
pub mod set_metadata;
pub mod update_fork_state;
pub mod update_module;
pub mod update_repo;

// Properties across calls.
pub mod laws;
