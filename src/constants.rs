use vstd::prelude::*;

verus! {

/// Largest admissible fee, in basis points (100%).
pub const MAX_FEE_BPS: u16 = 10000;

/// Layout version written into every newly created record.
pub const CURRENT_SCHEMA_VERSION: u8 = 1;

/// Maximum byte length of repository, module and fork names.
pub const MAX_NAME_LEN: usize = 64;

/// Maximum byte length of a repository URL.
pub const MAX_URL_LEN: usize = 256;

/// Maximum byte length of a comma-separated tag list.
pub const MAX_TAGS_LEN: usize = 128;

/// Maximum byte length of a metadata or changelog URI.
pub const MAX_METADATA_URI_LEN: usize = 256;

/// Maximum byte length of a module category.
pub const MAX_MODULE_CATEGORY_LEN: usize = 32;

/// Maximum byte length of a version label.
pub const MAX_LABEL_LEN: usize = 64;

/// Maximum byte length of the notes on a module-repository link.
pub const MAX_NOTES_LEN: usize = 256;

/// Maximum byte length of the global deployment description.
pub const MAX_DESCRIPTION_LEN: usize = 512;

/// Largest number of lines of code one observation may report.
pub const MAX_LOC_PER_OBSERVATION: u64 = 50000000;

/// Largest number of files one observation may report.
pub const MAX_FILES_PER_OBSERVATION: u32 = 1000000;

/// Seed tag of the configuration record's address.
pub const CONFIG_SEED: &'static str = "config";

/// Seed tag of the lifecycle record's address.
pub const LIFECYCLE_SEED: &'static str = "lifecycle";

/// Seed tag of the metrics record's address.
pub const METRICS_SEED: &'static str = "metrics";

/// Seed tag of the global metadata record's address.
pub const GLOBAL_METADATA_SEED: &'static str = "global_metadata";

/// Seed tag of an authority record's address.
pub const AUTHORITY_SEED: &'static str = "authority";

/// Seed tag of a repository's address.
pub const REPO_SEED: &'static str = "repo";

/// Seed tag of a module's address.
pub const MODULE_SEED: &'static str = "module";

/// Seed tag of a module version snapshot's address.
pub const MODULE_VERSION_SEED: &'static str = "module_version";

/// Seed tag of a fork's address.
pub const FORK_SEED: &'static str = "fork";

/// Seed tag of a module-repository link's address.
pub const MODULE_REPO_LINK_SEED: &'static str = "module_repo_link";

} // verus!
