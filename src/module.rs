//! Modules: reusable, versioned units extracted from a repository.
use vstd::prelude::*;

use crate::address::Address;
use crate::config::updated;
use crate::constants::{
    CURRENT_SCHEMA_VERSION, MAX_METADATA_URI_LEN, MAX_MODULE_CATEGORY_LEN, MAX_NAME_LEN,
    MAX_TAGS_LEN,
};
use crate::errors::Unit09Error;
use crate::validators::{
    assert_max_len, assert_opt_bounded, assert_opt_required, assert_opt_uri, assert_required_str,
    assert_semver_non_zero, assert_uri, bounded_str_error, first_error, opt_bounded_error,
    opt_required_error, opt_uri_error, outcome, required_str_error, semver_error, uri_error,
};

verus! {

/// A reusable unit of logic owned by a repository's authority.
#[derive(Clone, Debug)]
pub struct Module {
    pub module_key: Address,
    pub repo: Address,
    pub authority: Address,
    pub name: String,
    pub metadata_uri: String,
    pub category: String,
    pub tags: String,
    pub is_active: bool,
    pub is_deprecated: bool,
    pub major_version: u16,
    pub minor_version: u16,
    pub patch_version: u16,
    pub usage_count: u64,
    pub last_used_at: i64,
    pub created_at: i64,
    pub updated_at: i64,
    pub schema_version: u8,
}

/// The error due to the fields of a new module.
pub open spec fn module_fields_error(
    name: Seq<char>,
    metadata_uri: Seq<char>,
    category: Seq<char>,
    tags: Seq<char>,
    version: (u16, u16, u16),
) -> Option<Unit09Error> {
    first_error(
        required_str_error(name, MAX_NAME_LEN as nat),
        first_error(
            uri_error(metadata_uri, MAX_METADATA_URI_LEN as nat),
            first_error(
                required_str_error(category, MAX_MODULE_CATEGORY_LEN as nat),
                first_error(bounded_str_error(tags, MAX_TAGS_LEN as nat), semver_error(version)),
            ),
        ),
    )
}

/// The error due to the given replacements of a module's fields.
pub open spec fn module_update_error(
    name: Option<String>,
    metadata_uri: Option<String>,
    category: Option<String>,
    tags: Option<String>,
    version: Option<(u16, u16, u16)>,
) -> Option<Unit09Error> {
    first_error(
        opt_required_error(name, MAX_NAME_LEN as nat),
        first_error(
            opt_uri_error(metadata_uri, MAX_METADATA_URI_LEN as nat),
            first_error(
                opt_required_error(category, MAX_MODULE_CATEGORY_LEN as nat),
                first_error(
                    opt_bounded_error(tags, MAX_TAGS_LEN as nat),
                    match version {
                        Some(v) => semver_error(v),
                        None => None,
                    },
                ),
            ),
        ),
    )
}

impl Module {
    /// The module's current semantic version.
    pub open spec fn version(&self) -> (u16, u16, u16) {
        (self.major_version, self.minor_version, self.patch_version)
    }

    /// Strings within their bounds, a known URI scheme, a non-zero version.
    pub open spec fn wf(&self) -> bool {
        module_fields_error(self.name@, self.metadata_uri@, self.category@, self.tags@, self.version())
            is None
    }

    /// A new active, non-deprecated, unused module, after checking its fields.
    pub fn init(
        module_key: Address,
        repo: Address,
        authority: Address,
        name: String,
        metadata_uri: String,
        category: String,
        tags: String,
        version: (u16, u16, u16),
        now: i64,
    ) -> (r: Result<Module, Unit09Error>)
        ensures
            r matches Err(e) ==> module_fields_error(name@, metadata_uri@, category@, tags@, version)
                == Some(e),
            r is Ok ==> module_fields_error(name@, metadata_uri@, category@, tags@, version) is None,
            r matches Ok(m) ==> m == (Module {
                module_key,
                repo,
                authority,
                name,
                metadata_uri,
                category,
                tags,
                is_active: true,
                is_deprecated: false,
                major_version: version.0,
                minor_version: version.1,
                patch_version: version.2,
                usage_count: 0,
                last_used_at: 0,
                created_at: now,
                updated_at: now,
                schema_version: CURRENT_SCHEMA_VERSION,
            }),
            r matches Ok(m) ==> m.wf(),
    {
        Self::validate_name(&name)?;
        Self::validate_metadata_uri(&metadata_uri)?;
        Self::validate_category(&category)?;
        Self::validate_tags(&tags)?;
        Self::validate_version(version)?;
        let (major, minor, patch) = version;
        Ok(Module {
            module_key,
            repo,
            authority,
            name,
            metadata_uri,
            category,
            tags,
            is_active: true,
            is_deprecated: false,
            major_version: major,
            minor_version: minor,
            patch_version: patch,
            usage_count: 0,
            last_used_at: 0,
            created_at: now,
            updated_at: now,
            schema_version: CURRENT_SCHEMA_VERSION,
        })
    }

    /// Replace the given fields, after checking every given value.
    pub fn apply_update(
        &mut self,
        name: Option<String>,
        metadata_uri: Option<String>,
        category: Option<String>,
        tags: Option<String>,
        is_active: Option<bool>,
        is_deprecated: Option<bool>,
        version: Option<(u16, u16, u16)>,
        now: i64,
    ) -> (r: Result<(), Unit09Error>)
        ensures
            r == outcome(module_update_error(name, metadata_uri, category, tags, version)),
            r is Err ==> *final(self) == *old(self),
            r is Ok ==> *final(self) == (Module {
                name: updated(name, old(self).name),
                metadata_uri: updated(metadata_uri, old(self).metadata_uri),
                category: updated(category, old(self).category),
                tags: updated(tags, old(self).tags),
                is_active: updated(is_active, old(self).is_active),
                is_deprecated: updated(is_deprecated, old(self).is_deprecated),
                major_version: updated(version, old(self).version()).0,
                minor_version: updated(version, old(self).version()).1,
                patch_version: updated(version, old(self).version()).2,
                updated_at: now,
                ..*old(self)
            }),
            old(self).wf() && r is Ok ==> final(self).wf(),
    {
        assert_opt_required(&name, MAX_NAME_LEN)?;
        assert_opt_uri(&metadata_uri, MAX_METADATA_URI_LEN)?;
        assert_opt_required(&category, MAX_MODULE_CATEGORY_LEN)?;
        assert_opt_bounded(&tags, MAX_TAGS_LEN)?;
        if let Some(v) = version {
            Self::validate_version(v)?;
        }
        if let Some(v) = name {
            self.name = v;
        }
        if let Some(v) = metadata_uri {
            self.metadata_uri = v;
        }
        if let Some(v) = category {
            self.category = v;
        }
        if let Some(v) = tags {
            self.tags = v;
        }
        if let Some(v) = is_active {
            self.is_active = v;
        }
        if let Some(v) = is_deprecated {
            self.is_deprecated = v;
        }
        if let Some(v) = version {
            let (major, minor, patch) = v;
            self.major_version = major;
            self.minor_version = minor;
            self.patch_version = patch;
        }
        self.updated_at = now;
        Ok(())
    }

    /// Fails with `InvalidAuthority` unless `signer` controls the module.
    pub fn assert_authority(&self, signer: &Address) -> (r: Result<(), Unit09Error>)
        ensures
            r == outcome(
                if self.authority == *signer { None } else { Some(Unit09Error::InvalidAuthority) },
            ),
    {
        if self.authority.same(signer) {
            Ok(())
        } else {
            Err(Unit09Error::InvalidAuthority)
        }
    }

    /// Fails with `ModuleInactive` when the module is switched off.
    pub fn assert_active(&self) -> (r: Result<(), Unit09Error>)
        ensures
            r == outcome(if self.is_active { None } else { Some(Unit09Error::ModuleInactive) }),
    {
        if self.is_active {
            Ok(())
        } else {
            Err(Unit09Error::ModuleInactive)
        }
    }

    /// Fails with `ModuleImmutable` when the module is deprecated.
    pub fn assert_not_deprecated(&self) -> (r: Result<(), Unit09Error>)
        ensures
            r == outcome(if self.is_deprecated { Some(Unit09Error::ModuleImmutable) } else { None }),
    {
        if self.is_deprecated {
            Err(Unit09Error::ModuleImmutable)
        } else {
            Ok(())
        }
    }

    /// Count one use of the module.
    pub fn record_usage(&mut self, now: i64) -> (r: Result<(), Unit09Error>)
        ensures
            r is Ok <==> old(self).usage_count < u64::MAX,
            r matches Err(e) ==> e == Unit09Error::CounterOverflow && *final(self) == *old(self),
            r is Ok ==> *final(self) == (Module {
                usage_count: (old(self).usage_count + 1) as u64,
                last_used_at: now,
                ..*old(self)
            }),
    {
        match self.usage_count.checked_add(1) {
            Some(v) => {
                self.usage_count = v;
                self.last_used_at = now;
                Ok(())
            },
            None => Err(Unit09Error::CounterOverflow),
        }
    }

    fn validate_name(name: &String) -> (r: Result<(), Unit09Error>)
        ensures
            r == outcome(required_str_error(name@, MAX_NAME_LEN as nat)),
    {
        assert_required_str(name.as_str(), MAX_NAME_LEN)
    }

    fn validate_metadata_uri(uri: &String) -> (r: Result<(), Unit09Error>)
        ensures
            r == outcome(uri_error(uri@, MAX_METADATA_URI_LEN as nat)),
    {
        assert_uri(uri.as_str(), MAX_METADATA_URI_LEN)
    }

    fn validate_category(category: &String) -> (r: Result<(), Unit09Error>)
        ensures
            r == outcome(required_str_error(category@, MAX_MODULE_CATEGORY_LEN as nat)),
    {
        assert_required_str(category.as_str(), MAX_MODULE_CATEGORY_LEN)
    }

    fn validate_tags(tags: &String) -> (r: Result<(), Unit09Error>)
        ensures
            r == outcome(bounded_str_error(tags@, MAX_TAGS_LEN as nat)),
    {
        assert_max_len(tags.as_str(), MAX_TAGS_LEN)
    }

    fn validate_version(version: (u16, u16, u16)) -> (r: Result<(), Unit09Error>)
        ensures
            r == outcome(semver_error(version)),
    {
        assert_semver_non_zero(version)
    }
}

} // verus!
