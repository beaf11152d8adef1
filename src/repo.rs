//! Tracked repositories.
use vstd::prelude::*;

use crate::address::Address;
use crate::config::updated;
use crate::constants::{CURRENT_SCHEMA_VERSION, MAX_NAME_LEN, MAX_TAGS_LEN, MAX_URL_LEN};
use crate::errors::Unit09Error;
use crate::validators::{
    assert_max_len, assert_opt_bounded, assert_opt_required, assert_required_str,
    bounded_str_error, first_error, opt_bounded_error, opt_required_error, outcome,
    required_str_error,
};

verus! {

/// A tracked real-world codebase.
#[derive(Clone, Debug)]
pub struct Repo {
    pub repo_key: Address,
    pub authority: Address,
    pub name: String,
    pub url: String,
    pub tags: String,
    pub is_active: bool,
    pub allow_observation: bool,
    pub module_count: u64,
    pub created_at: i64,
    pub updated_at: i64,
    pub schema_version: u8,
}

/// The error due to the fields of a new repository.
pub open spec fn repo_fields_error(name: Seq<char>, url: Seq<char>, tags: Seq<char>) -> Option<
    Unit09Error,
> {
    first_error(
        required_str_error(name, MAX_NAME_LEN as nat),
        first_error(
            required_str_error(url, MAX_URL_LEN as nat),
            bounded_str_error(tags, MAX_TAGS_LEN as nat),
        ),
    )
}

/// The error due to the given replacements of a repository's fields.
pub open spec fn repo_update_error(
    name: Option<String>,
    url: Option<String>,
    tags: Option<String>,
) -> Option<Unit09Error> {
    first_error(
        opt_required_error(name, MAX_NAME_LEN as nat),
        first_error(
            opt_required_error(url, MAX_URL_LEN as nat),
            opt_bounded_error(tags, MAX_TAGS_LEN as nat),
        ),
    )
}

impl Repo {
    /// Strings within their bounds, name and URL not empty.
    pub open spec fn wf(&self) -> bool {
        repo_fields_error(self.name@, self.url@, self.tags@) is None
    }

    /// A new active repository with no modules, after checking its fields.
    pub fn new(
        repo_key: Address,
        authority: Address,
        name: String,
        url: String,
        tags: String,
        allow_observation: bool,
        now: i64,
    ) -> (r: Result<Repo, Unit09Error>)
        ensures
            r matches Err(e) ==> repo_fields_error(name@, url@, tags@) == Some(e),
            r is Ok ==> repo_fields_error(name@, url@, tags@) is None,
            r matches Ok(repo) ==> repo == (Repo {
                repo_key,
                authority,
                name,
                url,
                tags,
                is_active: true,
                allow_observation,
                module_count: 0,
                created_at: now,
                updated_at: now,
                schema_version: CURRENT_SCHEMA_VERSION,
            }),
            r matches Ok(repo) ==> repo.wf(),
    {
        assert_required_str(name.as_str(), MAX_NAME_LEN)?;
        assert_required_str(url.as_str(), MAX_URL_LEN)?;
        assert_max_len(tags.as_str(), MAX_TAGS_LEN)?;
        Ok(Repo {
            repo_key,
            authority,
            name,
            url,
            tags,
            is_active: true,
            allow_observation,
            module_count: 0,
            created_at: now,
            updated_at: now,
            schema_version: CURRENT_SCHEMA_VERSION,
        })
    }

    /// Fails with `InvalidAuthority` unless `signer` owns the repository.
    pub fn assert_authority(&self, signer: &Address) -> (r: Result<(), Unit09Error>)
        ensures
            r == outcome(
                if self.authority == *signer { None } else { Some(Unit09Error::InvalidAuthority) },
            ),
    {
        if self.authority.same(signer) {
            Ok(())
        } else {
            Err(Unit09Error::InvalidAuthority)
        }
    }

    /// Fails with `RepoInactive` when the repository is switched off.
    pub fn assert_active(&self) -> (r: Result<(), Unit09Error>)
        ensures
            r == outcome(if self.is_active { None } else { Some(Unit09Error::RepoInactive) }),
    {
        if self.is_active {
            Ok(())
        } else {
            Err(Unit09Error::RepoInactive)
        }
    }

    /// Replace the given fields, after checking every given value.
    pub fn apply_update(
        &mut self,
        name: Option<String>,
        url: Option<String>,
        tags: Option<String>,
        is_active: Option<bool>,
        allow_observation: Option<bool>,
        now: i64,
    ) -> (r: Result<(), Unit09Error>)
        ensures
            r == outcome(repo_update_error(name, url, tags)),
            r is Err ==> *final(self) == *old(self),
            r is Ok ==> *final(self) == (Repo {
                name: updated(name, old(self).name),
                url: updated(url, old(self).url),
                tags: updated(tags, old(self).tags),
                is_active: updated(is_active, old(self).is_active),
                allow_observation: updated(allow_observation, old(self).allow_observation),
                updated_at: now,
                ..*old(self)
            }),
            old(self).wf() && r is Ok ==> final(self).wf(),
    {
        assert_opt_required(&name, MAX_NAME_LEN)?;
        assert_opt_required(&url, MAX_URL_LEN)?;
        assert_opt_bounded(&tags, MAX_TAGS_LEN)?;
        if let Some(v) = name {
            self.name = v;
        }
        if let Some(v) = url {
            self.url = v;
        }
        if let Some(v) = tags {
            self.tags = v;
        }
        if let Some(v) = is_active {
            self.is_active = v;
        }
        if let Some(v) = allow_observation {
            self.allow_observation = v;
        }
        self.updated_at = now;
        Ok(())
    }

    /// Count one more module under this repository.
    pub fn increment_module_count(&mut self, now: i64) -> (r: Result<(), Unit09Error>)
        ensures
            r is Ok <==> old(self).module_count < u64::MAX,
            r matches Err(e) ==> e == Unit09Error::CounterOverflow && *final(self) == *old(self),
            r is Ok ==> *final(self) == (Repo {
                module_count: (old(self).module_count + 1) as u64,
                updated_at: now,
                ..*old(self)
            }),
    {
        match self.module_count.checked_add(1) {
            Some(v) => {
                self.module_count = v;
                self.updated_at = now;
                Ok(())
            },
            None => Err(Unit09Error::CounterOverflow),
        }
    }
}

} // verus!
