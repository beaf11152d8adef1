//! Forks: owned variants or configurations of a deployment.
use vstd::prelude::*;

use crate::address::Address;
use crate::config::updated;
use crate::constants::{CURRENT_SCHEMA_VERSION, MAX_METADATA_URI_LEN, MAX_NAME_LEN};
use crate::errors::Unit09Error;
use crate::validators::{
    assert_opt_uri, assert_optional_uri, assert_required_str, first_error, opt_uri_error, outcome,
    optional_uri_error, required_str_error,
};

verus! {

/// An owned variant, with a parent reference and an activity flag.
#[derive(Clone, Debug)]
pub struct Fork {
    pub fork_key: Address,
    pub parent: Address,
    pub owner: Address,
    pub label: String,
    pub metadata_uri: String,
    pub is_active: bool,
    pub created_at: i64,
    pub updated_at: i64,
    pub schema_version: u8,
}

/// The error due to the fields of a new fork.
pub open spec fn fork_fields_error(label: Seq<char>, metadata_uri: Seq<char>) -> Option<
    Unit09Error,
> {
    first_error(
        required_str_error(label, MAX_NAME_LEN as nat),
        optional_uri_error(metadata_uri, MAX_METADATA_URI_LEN as nat),
    )
}

impl Fork {
    /// A new active fork, after checking its label and metadata URI.
    pub fn new(
        fork_key: Address,
        parent: Address,
        owner: Address,
        label: String,
        metadata_uri: String,
        now: i64,
    ) -> (r: Result<Fork, Unit09Error>)
        ensures
            r matches Err(e) ==> fork_fields_error(label@, metadata_uri@) == Some(e),
            r is Ok ==> fork_fields_error(label@, metadata_uri@) is None,
            r matches Ok(f) ==> f == (Fork {
                fork_key,
                parent,
                owner,
                label,
                metadata_uri,
                is_active: true,
                created_at: now,
                updated_at: now,
                schema_version: CURRENT_SCHEMA_VERSION,
            }),
    {
        assert_required_str(label.as_str(), MAX_NAME_LEN)?;
        assert_optional_uri(metadata_uri.as_str(), MAX_METADATA_URI_LEN)?;
        Ok(Fork {
            fork_key,
            parent,
            owner,
            label,
            metadata_uri,
            is_active: true,
            created_at: now,
            updated_at: now,
            schema_version: CURRENT_SCHEMA_VERSION,
        })
    }

    /// Fails with `InvalidAuthority` unless `signer` owns the fork.
    pub fn assert_owner(&self, signer: &Address) -> (r: Result<(), Unit09Error>)
        ensures
            r == outcome(
                if self.owner == *signer { None } else { Some(Unit09Error::InvalidAuthority) },
            ),
    {
        if self.owner.same(signer) {
            Ok(())
        } else {
            Err(Unit09Error::InvalidAuthority)
        }
    }

    /// Replace the given fields, after checking a given metadata URI.
    pub fn apply_update(&mut self, is_active: Option<bool>, metadata_uri: Option<String>, now: i64) -> (r:
        Result<(), Unit09Error>)
        ensures
            r == outcome(opt_uri_error(metadata_uri, MAX_METADATA_URI_LEN as nat)),
            r is Err ==> *final(self) == *old(self),
            r is Ok ==> *final(self) == (Fork {
                is_active: updated(is_active, old(self).is_active),
                metadata_uri: updated(metadata_uri, old(self).metadata_uri),
                updated_at: now,
                ..*old(self)
            }),
    {
        assert_opt_uri(&metadata_uri, MAX_METADATA_URI_LEN)?;
        if let Some(v) = is_active {
            self.is_active = v;
        }
        if let Some(v) = metadata_uri {
            self.metadata_uri = v;
        }
        self.updated_at = now;
        Ok(())
    }
}

} // verus!
