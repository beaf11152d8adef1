//! Associations between a module and a repository.
use vstd::prelude::*;

use crate::address::Address;
use crate::constants::CURRENT_SCHEMA_VERSION;

verus! {

/// The one record that links a module to a repository. Its identity
/// (`module`, `repo`) and `created_at` never change once it exists.
#[derive(Clone, Debug)]
pub struct ModuleRepoLink {
    pub module: Address,
    pub repo: Address,
    pub linked_by: Address,
    pub is_primary: bool,
    pub notes: String,
    pub created_at: i64,
    pub updated_at: i64,
    pub schema_version: u8,
}

impl ModuleRepoLink {
    /// A new link between `module` and `repo`, created and updated at `now`.
    pub fn new(
        module: Address,
        repo: Address,
        linked_by: Address,
        is_primary: bool,
        notes: String,
        now: i64,
    ) -> (r: ModuleRepoLink)
        ensures
            r == (ModuleRepoLink {
                module,
                repo,
                linked_by,
                is_primary,
                notes,
                created_at: now,
                updated_at: now,
                schema_version: CURRENT_SCHEMA_VERSION,
            }),
    {
        ModuleRepoLink {
            module,
            repo,
            linked_by,
            is_primary,
            notes,
            created_at: now,
            updated_at: now,
            schema_version: CURRENT_SCHEMA_VERSION,
        }
    }

    /// Overwrite the link's metadata; identity and creation time stay.
    pub fn refresh(&mut self, linked_by: Address, is_primary: bool, notes: String, now: i64)
        ensures
            *final(self) == (ModuleRepoLink {
                linked_by,
                is_primary,
                notes,
                updated_at: now,
                ..*old(self)
            }),
    {
        self.linked_by = linked_by;
        self.is_primary = is_primary;
        self.notes = notes;
        self.updated_at = now;
    }
}

} // verus!
