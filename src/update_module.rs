//! Owner updates of a module, optionally with a new version snapshot.
use vstd::prelude::*;

use crate::address::Address;
use crate::config::{assert_gate, gate_error, updated, Config, Lifecycle};
use crate::constants::{MAX_METADATA_URI_LEN, MAX_MODULE_CATEGORY_LEN, MAX_NAME_LEN, MAX_TAGS_LEN};
use crate::errors::Unit09Error;
use crate::events::{Event, ModuleUpdated, ModuleVersionRegistered};
use crate::module::{module_update_error, Module};
use crate::module_version::{is_new_snapshot, version_fields_error, ModuleVersion};
use crate::repo::Repo;
use crate::validators::{
    assert_opt_bounded, assert_opt_required, assert_opt_uri, assert_semver_non_zero, first_error,
};

verus! {

/// The fields a module's owner may replace, and an optional snapshot
/// request; `None` keeps the value.
#[derive(Debug)]
pub struct UpdateModuleArgs {
    pub name: Option<String>,
    pub metadata_uri: Option<String>,
    pub category: Option<String>,
    pub tags: Option<String>,
    pub is_active: Option<bool>,
    pub is_deprecated: Option<bool>,
    pub new_version: Option<(u16, u16, u16)>,
    pub create_version_snapshot: bool,
    pub version_label: Option<String>,
    pub changelog_uri: Option<String>,
    pub is_stable: Option<bool>,
}

/// The characters of an optional string, empty when absent.
pub open spec fn or_empty(s: Option<String>) -> Seq<char> {
    match s {
        Some(v) => v@,
        None => Seq::empty(),
    }
}

/// The metadata URI a module has after the update.
pub open spec fn updated_uri(module: Module, args: UpdateModuleArgs) -> Seq<char> {
    match args.metadata_uri {
        Some(v) => v@,
        None => module.metadata_uri@,
    }
}

/// The error due to a snapshot request: it needs a new version, and the
/// snapshot's fields must be valid.
pub open spec fn snapshot_request_error(module: Module, args: UpdateModuleArgs) -> Option<
    Unit09Error,
> {
    if !args.create_version_snapshot {
        None
    } else {
        match args.new_version {
            None => Some(Unit09Error::ValueOutOfRange),
            Some(v) => version_fields_error(
                v,
                updated_uri(module, args),
                or_empty(args.changelog_uri),
                or_empty(args.version_label),
            ),
        }
    }
}

/// The error due to a module update, in the order the checks run: global
/// guards, repository activity, ownership, the module's repository, the
/// given fields, the snapshot request.
pub open spec fn update_module_error(
    lifecycle: Lifecycle,
    config: Config,
    repo: Repo,
    module: Module,
    repo_address: Address,
    authority: Address,
    args: UpdateModuleArgs,
) -> Option<Unit09Error> {
    first_error(
        gate_error(lifecycle, config),
        first_error(
            if repo.is_active { None } else { Some(Unit09Error::RepoInactive) },
            first_error(
                if repo.authority == authority { None } else { Some(Unit09Error::InvalidAuthority) },
                first_error(
                    if module.repo == repo_address { None } else { Some(Unit09Error::InvalidPda) },
                    first_error(
                        module_update_error(
                            args.name,
                            args.metadata_uri,
                            args.category,
                            args.tags,
                            args.new_version,
                        ),
                        snapshot_request_error(module, args),
                    ),
                ),
            ),
        ),
    )
}

/// Apply the repository owner's update to the module at `module_address`.
/// A `ModuleUpdated` notification reports the previous and new version and
/// activity; when a snapshot was requested, the new `ModuleVersion` is
/// returned and a `ModuleVersionRegistered` follows. On error nothing
/// changes.
pub fn handle(
    lifecycle: &Lifecycle,
    config: &Config,
    repo: &Repo,
    module: &mut Module,
    repo_address: Address,
    module_address: Address,
    authority: Address,
    args: UpdateModuleArgs,
    now: i64,
) -> (r: Result<(Option<ModuleVersion>, Vec<Event>), Unit09Error>)
    ensures
        r matches Err(e) ==> update_module_error(
            *lifecycle,
            *config,
            *repo,
            *old(module),
            repo_address,
            authority,
            args,
        ) == Some(e) && *final(module) == *old(module),
        r is Ok ==> update_module_error(
            *lifecycle,
            *config,
            *repo,
            *old(module),
            repo_address,
            authority,
            args,
        ) is None,
        r matches Ok((snapshot, events)) ==> {
            &&& *final(module) == (Module {
                name: updated(args.name, old(module).name),
                metadata_uri: updated(args.metadata_uri, old(module).metadata_uri),
                category: updated(args.category, old(module).category),
                tags: updated(args.tags, old(module).tags),
                is_active: updated(args.is_active, old(module).is_active),
                is_deprecated: updated(args.is_deprecated, old(module).is_deprecated),
                major_version: updated(args.new_version, old(module).version()).0,
                minor_version: updated(args.new_version, old(module).version()).1,
                patch_version: updated(args.new_version, old(module).version()).2,
                updated_at: now,
                ..*old(module)
            })
            &&& old(module).wf() ==> final(module).wf()
            &&& events@.len() == if args.create_version_snapshot { 2int } else { 1int }
            &&& events@[0] matches Event::ModuleUpdated(ev) && ev.module == module_address && ev.repo
                == repo_address && (
            ev.previous_major_version,
            ev.previous_minor_version,
            ev.previous_patch_version,
            ) == old(module).version() && (
            ev.new_major_version,
            ev.new_minor_version,
            ev.new_patch_version,
            ) == final(module).version() && ev.previous_is_active == old(module).is_active
                && ev.new_is_active == final(module).is_active && ev.updated_at == now
            &&& !args.create_version_snapshot ==> snapshot is None
            &&& args.create_version_snapshot ==> (snapshot matches Some(v) && args.new_version
                matches Some(version) && is_new_snapshot(
                v@,
                module_address,
                old(module).authority,
                version,
                updated_uri(*old(module), args),
                or_empty(args.changelog_uri),
                or_empty(args.version_label),
                updated(args.is_stable, false),
                now,
            ) && v.wf())
            &&& args.create_version_snapshot ==> (events@[1] matches Event::ModuleVersionRegistered(
                ev,
            ) && ev.module == module_address && (ev.major_version, ev.minor_version, ev.patch_version)
                == final(module).version() && ev.is_stable == updated(args.is_stable, false))
        },
{
    assert_gate(lifecycle, config)?;
    repo.assert_active()?;
    repo.assert_authority(&authority)?;
    if !module.repo.same(&repo_address) {
        return Err(Unit09Error::InvalidPda);
    }
    let UpdateModuleArgs {
        name,
        metadata_uri,
        category,
        tags,
        is_active,
        is_deprecated,
        new_version,
        create_version_snapshot,
        version_label,
        changelog_uri,
        is_stable,
    } = args;
    assert_opt_required(&name, MAX_NAME_LEN)?;
    assert_opt_uri(&metadata_uri, MAX_METADATA_URI_LEN)?;
    assert_opt_required(&category, MAX_MODULE_CATEGORY_LEN)?;
    assert_opt_bounded(&tags, MAX_TAGS_LEN)?;
    if let Some(v) = new_version {
        assert_semver_non_zero(v)?;
    }
    let snapshot = if create_version_snapshot {
        let version = match new_version {
            Some(v) => v,
            None => return Err(Unit09Error::ValueOutOfRange),
        };
        let uri = match &metadata_uri {
            Some(s) => s.clone(),
            None => module.metadata_uri.clone(),
        };
        let changelog = match changelog_uri {
            Some(s) => s,
            None => String::new(),
        };
        let label = match version_label {
            Some(s) => s,
            None => String::new(),
        };
        let stable = match is_stable {
            Some(b) => b,
            None => false,
        };
        Some(
            ModuleVersion::init(
                module_address,
                module.authority,
                version,
                uri,
                changelog,
                label,
                stable,
                now,
            )?,
        )
    } else {
        None
    };
    let previous_is_active = module.is_active;
    let (previous_major, previous_minor, previous_patch) = (
        module.major_version,
        module.minor_version,
        module.patch_version,
    );
    module.apply_update(
        name,
        metadata_uri,
        category,
        tags,
        is_active,
        is_deprecated,
        new_version,
        now,
    )?;
    let mut events: Vec<Event> = Vec::new();
    events.push(
        Event::ModuleUpdated(
            ModuleUpdated {
                module: module_address,
                repo: repo_address,
                previous_major_version: previous_major,
                previous_minor_version: previous_minor,
                previous_patch_version: previous_patch,
                new_major_version: module.major_version,
                new_minor_version: module.minor_version,
                new_patch_version: module.patch_version,
                previous_is_active,
                new_is_active: module.is_active,
                updated_at: now,
            },
        ),
    );
    if let Some(v) = &snapshot {
        let (major, minor, patch) = v.version();
        events.push(
            Event::ModuleVersionRegistered(
                ModuleVersionRegistered {
                    module: module_address,
                    major_version: major,
                    minor_version: minor,
                    patch_version: patch,
                    is_stable: v.is_stable(),
                },
            ),
        );
    }
    Ok((snapshot, events))
}

} // verus!
