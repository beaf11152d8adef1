//! Append-only snapshots of a module at one semantic version.
//!
//! The fields are private: after creation only `deprecate` changes a
//! snapshot, and only its deprecation status.
use vstd::prelude::*;

use crate::address::Address;
use crate::constants::{CURRENT_SCHEMA_VERSION, MAX_LABEL_LEN, MAX_METADATA_URI_LEN};
use crate::errors::Unit09Error;
use crate::validators::{
    assert_max_len, assert_optional_uri, assert_semver_non_zero, assert_uri, bounded_str_error,
    first_error, optional_uri_error, outcome, semver_error, uri_error,
};

verus! {

/// Maximum byte length of a changelog URI.
pub const MAX_CHANGELOG_URI_LEN: usize = MAX_METADATA_URI_LEN;

/// What a snapshot holds.
pub struct ModuleVersionView {
    pub module: Address,
    pub version: (u16, u16, u16),
    pub metadata_uri: Seq<char>,
    pub changelog_uri: Seq<char>,
    pub label: Seq<char>,
    pub is_stable: bool,
    pub created_by: Address,
    pub created_at: i64,
    pub is_deprecated: bool,
    pub deprecated_at: i64,
    pub schema_version: u8,
}

/// An immutable snapshot of a module at one version, with a deprecation flag.
#[derive(Clone, Debug)]
pub struct ModuleVersion {
    module: Address,
    major_version: u16,
    minor_version: u16,
    patch_version: u16,
    metadata_uri: String,
    changelog_uri: String,
    label: String,
    is_stable: bool,
    is_deprecated: bool,
    created_at: i64,
    deprecated_at: i64,
    created_by: Address,
    schema_version: u8,
}

impl View for ModuleVersion {
    type V = ModuleVersionView;

    closed spec fn view(&self) -> ModuleVersionView {
        ModuleVersionView {
            module: self.module,
            version: (self.major_version, self.minor_version, self.patch_version),
            metadata_uri: self.metadata_uri@,
            changelog_uri: self.changelog_uri@,
            label: self.label@,
            is_stable: self.is_stable,
            created_by: self.created_by,
            created_at: self.created_at,
            is_deprecated: self.is_deprecated,
            deprecated_at: self.deprecated_at,
            schema_version: self.schema_version,
        }
    }
}

/// The error due to the fields of a new snapshot.
pub open spec fn version_fields_error(
    version: (u16, u16, u16),
    metadata_uri: Seq<char>,
    changelog_uri: Seq<char>,
    label: Seq<char>,
) -> Option<Unit09Error> {
    first_error(
        semver_error(version),
        first_error(
            uri_error(metadata_uri, MAX_METADATA_URI_LEN as nat),
            first_error(
                optional_uri_error(changelog_uri, MAX_CHANGELOG_URI_LEN as nat),
                bounded_str_error(label, MAX_LABEL_LEN as nat),
            ),
        ),
    )
}

/// Whether `v` is the snapshot made from these values at time `now`.
pub open spec fn is_new_snapshot(
    v: ModuleVersionView,
    module: Address,
    created_by: Address,
    version: (u16, u16, u16),
    metadata_uri: Seq<char>,
    changelog_uri: Seq<char>,
    label: Seq<char>,
    is_stable: bool,
    now: i64,
) -> bool {
    v == ModuleVersionView {
        module,
        version,
        metadata_uri,
        changelog_uri,
        label,
        is_stable,
        created_by,
        created_at: now,
        is_deprecated: false,
        deprecated_at: 0,
        schema_version: CURRENT_SCHEMA_VERSION,
    }
}

/// Whether `after` differs from `before` at most in its deprecation status.
pub open spec fn same_core(before: ModuleVersionView, after: ModuleVersionView) -> bool {
    after == ModuleVersionView {
        is_deprecated: after.is_deprecated,
        deprecated_at: after.deprecated_at,
        ..before
    }
}

/// The outcome of deprecating a snapshot at time `now`: refused when it is
/// already deprecated, else the snapshot with its status set.
pub open spec fn deprecation(v: ModuleVersionView, now: i64) -> Result<
    ModuleVersionView,
    Unit09Error,
> {
    if v.is_deprecated {
        Err(Unit09Error::AlreadyDeprecated)
    } else {
        Ok(ModuleVersionView { is_deprecated: true, deprecated_at: now, ..v })
    }
}

impl ModuleVersion {
    /// Strings within their bounds, known URI schemes, a non-zero version.
    pub open spec fn wf(&self) -> bool {
        version_fields_error(self@.version, self@.metadata_uri, self@.changelog_uri, self@.label)
            is None
    }

    /// A new snapshot, not deprecated, after checking its fields.
    pub fn init(
        module: Address,
        created_by: Address,
        version: (u16, u16, u16),
        metadata_uri: String,
        changelog_uri: String,
        label: String,
        is_stable: bool,
        now: i64,
    ) -> (r: Result<ModuleVersion, Unit09Error>)
        ensures
            r matches Err(e) ==> version_fields_error(version, metadata_uri@, changelog_uri@, label@)
                == Some(e),
            r is Ok ==> version_fields_error(version, metadata_uri@, changelog_uri@, label@) is None,
            r matches Ok(v) ==> is_new_snapshot(
                v@,
                module,
                created_by,
                version,
                metadata_uri@,
                changelog_uri@,
                label@,
                is_stable,
                now,
            ),
            r matches Ok(v) ==> v.wf(),
    {
        Self::validate_version(version)?;
        Self::validate_metadata_uri(&metadata_uri)?;
        Self::validate_changelog_uri(&changelog_uri)?;
        Self::validate_label(&label)?;
        let (major, minor, patch) = version;
        Ok(ModuleVersion {
            module,
            major_version: major,
            minor_version: minor,
            patch_version: patch,
            metadata_uri,
            changelog_uri,
            label,
            is_stable,
            is_deprecated: false,
            created_at: now,
            deprecated_at: 0,
            created_by,
            schema_version: CURRENT_SCHEMA_VERSION,
        })
    }

    /// Mark the snapshot deprecated; a second call fails with
    /// `AlreadyDeprecated` and changes nothing.
    pub fn deprecate(&mut self, now: i64) -> (r: Result<(), Unit09Error>)
        ensures
            match deprecation(old(self)@, now) {
                Ok(v) => r is Ok && final(self)@ == v,
                Err(e) => r == Err::<(), Unit09Error>(e) && *final(self) == *old(self),
            },
            same_core(old(self)@, final(self)@),
    {
        if self.is_deprecated {
            return Err(Unit09Error::AlreadyDeprecated);
        }
        self.is_deprecated = true;
        self.deprecated_at = now;
        Ok(())
    }

    /// The parent module's address.
    pub fn module(&self) -> (r: Address)
        ensures
            r == self@.module,
    {
        self.module
    }

    /// The snapshot's semantic version.
    pub fn version(&self) -> (r: (u16, u16, u16))
        ensures
            r == self@.version,
    {
        (self.major_version, self.minor_version, self.patch_version)
    }

    /// The metadata URI of this version.
    pub fn metadata_uri(&self) -> (r: &str)
        ensures
            r@ == self@.metadata_uri,
    {
        self.metadata_uri.as_str()
    }

    /// The changelog URI of this version, possibly empty.
    pub fn changelog_uri(&self) -> (r: &str)
        ensures
            r@ == self@.changelog_uri,
    {
        self.changelog_uri.as_str()
    }

    /// The label of this version, possibly empty.
    pub fn label(&self) -> (r: &str)
        ensures
            r@ == self@.label,
    {
        self.label.as_str()
    }

    /// Whether this version is meant for production use.
    pub fn is_stable(&self) -> (r: bool)
        ensures
            r == self@.is_stable,
    {
        self.is_stable
    }

    /// Who created the snapshot.
    pub fn created_by(&self) -> (r: Address)
        ensures
            r == self@.created_by,
    {
        self.created_by
    }

    /// When the snapshot was created.
    pub fn created_at(&self) -> (r: i64)
        ensures
            r == self@.created_at,
    {
        self.created_at
    }

    /// Whether the snapshot has been deprecated.
    pub fn is_deprecated(&self) -> (r: bool)
        ensures
            r == self@.is_deprecated,
    {
        self.is_deprecated
    }

    /// When the snapshot was deprecated; zero if it is not.
    pub fn deprecated_at(&self) -> (r: i64)
        ensures
            r == self@.deprecated_at,
    {
        self.deprecated_at
    }

    fn validate_version(version: (u16, u16, u16)) -> (r: Result<(), Unit09Error>)
        ensures
            r == outcome(semver_error(version)),
    {
        assert_semver_non_zero(version)
    }

    fn validate_metadata_uri(uri: &String) -> (r: Result<(), Unit09Error>)
        ensures
            r == outcome(uri_error(uri@, MAX_METADATA_URI_LEN as nat)),
    {
        assert_uri(uri.as_str(), MAX_METADATA_URI_LEN)
    }

    fn validate_changelog_uri(uri: &String) -> (r: Result<(), Unit09Error>)
        ensures
            r == outcome(optional_uri_error(uri@, MAX_CHANGELOG_URI_LEN as nat)),
    {
        assert_optional_uri(uri.as_str(), MAX_CHANGELOG_URI_LEN)
    }

    fn validate_label(label: &String) -> (r: Result<(), Unit09Error>)
        ensures
            r == outcome(bounded_str_error(label@, MAX_LABEL_LEN as nat)),
    {
        assert_max_len(label.as_str(), MAX_LABEL_LEN)
    }
}

} // verus!
