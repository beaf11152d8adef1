//! Notifications returned by accepted operations, for the caller to publish.
use vstd::prelude::*;

use crate::address::Address;

verus! {

/// The configuration was created or changed.
#[derive(Clone, Debug)]
pub struct ConfigUpdated {
    pub admin: Address,
    pub fee_bps: u16,
    pub max_modules_per_repo: u32,
}

/// A repository was registered.
#[derive(Clone, Debug)]
pub struct RepoRegistered {
    pub repo: Address,
    pub owner: Address,
    pub url: String,
}

/// A repository was updated.
#[derive(Clone, Debug)]
pub struct RepoUpdated {
    pub repo: Address,
    pub url: String,
}

/// A repository's activity flag flipped.
#[derive(Clone, Debug)]
pub struct RepoActivationChanged {
    pub repo: Address,
    pub is_active: bool,
    pub updated_at: i64,
}

/// A module was registered.
#[derive(Clone, Debug)]
pub struct ModuleRegistered {
    pub module: Address,
    pub repo: Address,
    pub owner: Address,
    pub category: String,
    pub major_version: u16,
    pub minor_version: u16,
    pub patch_version: u16,
}

/// A module was updated; the previous and new version and activity.
#[derive(Clone, Debug)]
pub struct ModuleUpdated {
    pub module: Address,
    pub repo: Address,
    pub previous_major_version: u16,
    pub previous_minor_version: u16,
    pub previous_patch_version: u16,
    pub new_major_version: u16,
    pub new_minor_version: u16,
    pub new_patch_version: u16,
    pub previous_is_active: bool,
    pub new_is_active: bool,
    pub updated_at: i64,
}

/// A version snapshot of a module was created.
#[derive(Clone, Debug)]
pub struct ModuleVersionRegistered {
    pub module: Address,
    pub major_version: u16,
    pub minor_version: u16,
    pub patch_version: u16,
    pub is_stable: bool,
}

/// A module was linked to a repository, or its link refreshed.
#[derive(Clone, Debug)]
pub struct ModuleLinkedToRepo {
    pub module: Address,
    pub repo: Address,
    pub linked_by: Address,
    pub is_primary: bool,
    pub updated_at: i64,
}

/// A fork was created.
#[derive(Clone, Debug)]
pub struct ForkCreated {
    pub fork: Address,
    pub parent: Address,
    pub owner: Address,
    pub label: String,
}

/// A fork's activity flag flipped.
#[derive(Clone, Debug)]
pub struct ForkStateUpdated {
    pub fork: Address,
    pub active: bool,
}

/// An observation of a repository was aggregated.
#[derive(Clone, Debug)]
pub struct ObservationRecorded {
    pub repo: Address,
    pub lines_of_code: u64,
    pub files_processed: u32,
    pub observed_at: i64,
}

/// The counters were overwritten by reconciliation.
#[derive(Clone, Debug)]
pub struct MetricsUpdated {
    pub total_repos: u64,
    pub total_modules: u64,
    pub total_forks: u64,
    pub total_observations: u64,
}

/// The deployment's description and tags were set.
#[derive(Clone, Debug)]
pub struct GlobalMetadataUpdated {
    pub admin: Address,
    pub description: String,
    pub tags: String,
    pub updated_at: i64,
}

/// Any notification.
#[derive(Clone, Debug)]
pub enum Event {
    ConfigUpdated(ConfigUpdated),
    RepoRegistered(RepoRegistered),
    RepoUpdated(RepoUpdated),
    RepoActivationChanged(RepoActivationChanged),
    ModuleRegistered(ModuleRegistered),
    ModuleUpdated(ModuleUpdated),
    ModuleVersionRegistered(ModuleVersionRegistered),
    ModuleLinkedToRepo(ModuleLinkedToRepo),
    ForkCreated(ForkCreated),
    ForkStateUpdated(ForkStateUpdated),
    ObservationRecorded(ObservationRecorded),
    MetricsUpdated(MetricsUpdated),
    GlobalMetadataUpdated(GlobalMetadataUpdated),
}

} // verus!
