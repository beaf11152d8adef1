//! Registration of a module under a repository, optionally with a first
//! version snapshot.
use vstd::prelude::*;

use crate::address::Address;
use crate::config::{assert_gate, gate_error, Config, Lifecycle};
use crate::constants::{CURRENT_SCHEMA_VERSION, MAX_LABEL_LEN};
use crate::errors::Unit09Error;
use crate::events::{Event, ModuleRegistered, ModuleVersionRegistered};
use crate::metrics::Metrics;
use crate::module::{module_fields_error, Module};
use crate::module_version::{
    is_new_snapshot, version_fields_error, ModuleVersion, MAX_CHANGELOG_URI_LEN,
};
use crate::repo::Repo;
use crate::validators::{assert_max_len, bounded_str_error, first_error};

verus! {

/// What a repository's owner submits to register a module.
#[derive(Debug)]
pub struct RegisterModuleArgs {
    pub module_key: Address,
    pub name: String,
    pub metadata_uri: String,
    pub category: String,
    pub tags: String,
    pub version: (u16, u16, u16),
    pub version_label: String,
    pub changelog_uri: String,
    pub is_stable: bool,
    pub create_initial_version_snapshot: bool,
}

/// The error due to the snapshot fields of a registration: checked in full
/// when a snapshot is requested, else only their lengths.
pub open spec fn snapshot_fields_error(args: RegisterModuleArgs) -> Option<Unit09Error> {
    if args.create_initial_version_snapshot {
        version_fields_error(args.version, args.metadata_uri@, args.changelog_uri@, args.version_label@)
    } else {
        first_error(
            bounded_str_error(args.changelog_uri@, MAX_CHANGELOG_URI_LEN as nat),
            bounded_str_error(args.version_label@, MAX_LABEL_LEN as nat),
        )
    }
}

/// The error due to a module registration, in the order the checks run:
/// global guards, repository activity, ownership, fields, the repository's
/// module cap, and the module counter.
pub open spec fn register_module_error(
    lifecycle: Lifecycle,
    config: Config,
    metrics: Metrics,
    repo: Repo,
    authority: Address,
    args: RegisterModuleArgs,
) -> Option<Unit09Error> {
    first_error(
        gate_error(lifecycle, config),
        first_error(
            if repo.is_active { None } else { Some(Unit09Error::RepoInactive) },
            first_error(
                if repo.authority == authority { None } else { Some(Unit09Error::InvalidAuthority) },
                first_error(
                    module_fields_error(
                        args.name@,
                        args.metadata_uri@,
                        args.category@,
                        args.tags@,
                        args.version,
                    ),
                    first_error(
                        snapshot_fields_error(args),
                        if repo.module_count >= config.max_modules_per_repo {
                            Some(Unit09Error::ValueOutOfRange)
                        } else if metrics.total_modules == u64::MAX {
                            Some(Unit09Error::CounterOverflow)
                        } else {
                            None
                        },
                    ),
                ),
            ),
        ),
    )
}

/// Register a module at `module_address` under the repository at
/// `repo_address`. The new module is returned with, when requested, its
/// first version snapshot; the repository's module count and the module
/// counter go up by one. A `ModuleRegistered` notification is due, followed
/// by a `ModuleVersionRegistered` when a snapshot was made. On error nothing
/// changes.
pub fn handle(
    lifecycle: &Lifecycle,
    config: &Config,
    metrics: &mut Metrics,
    repo: &mut Repo,
    repo_address: Address,
    module_address: Address,
    authority: Address,
    args: RegisterModuleArgs,
    now: i64,
) -> (r: Result<(Module, Option<ModuleVersion>, Vec<Event>), Unit09Error>)
    ensures
        r matches Err(e) ==> register_module_error(
            *lifecycle,
            *config,
            *old(metrics),
            *old(repo),
            authority,
            args,
        ) == Some(e) && *final(metrics) == *old(metrics) && *final(repo) == *old(repo),
        r is Ok ==> register_module_error(*lifecycle, *config, *old(metrics), *old(repo), authority, args)
            is None,
        r matches Ok((module, snapshot, events)) ==> {
            &&& module == (Module {
                module_key: args.module_key,
                repo: repo_address,
                authority,
                name: args.name,
                metadata_uri: args.metadata_uri,
                category: args.category,
                tags: args.tags,
                is_active: true,
                is_deprecated: false,
                major_version: args.version.0,
                minor_version: args.version.1,
                patch_version: args.version.2,
                usage_count: 0,
                last_used_at: 0,
                created_at: now,
                updated_at: now,
                schema_version: CURRENT_SCHEMA_VERSION,
            })
            &&& module.wf()
            &&& *final(repo) == (Repo {
                module_count: (old(repo).module_count + 1) as u64,
                updated_at: now,
                ..*old(repo)
            })
            &&& *final(metrics) == (Metrics {
                total_modules: (old(metrics).total_modules + 1) as u64,
                updated_at: now,
                ..*old(metrics)
            })
            &&& events@.len() == if args.create_initial_version_snapshot { 2int } else { 1int }
            &&& events@[0] matches Event::ModuleRegistered(ev) && ev.module == module_address
                && ev.repo == repo_address && ev.owner == authority && ev.category@ == args.category@
                && (ev.major_version, ev.minor_version, ev.patch_version) == args.version
            &&& !args.create_initial_version_snapshot ==> snapshot is None
            &&& args.create_initial_version_snapshot ==> (snapshot matches Some(v) && is_new_snapshot(
                v@,
                module_address,
                authority,
                args.version,
                args.metadata_uri@,
                args.changelog_uri@,
                args.version_label@,
                args.is_stable,
                now,
            ) && v.wf())
            &&& args.create_initial_version_snapshot ==> (events@[1] matches Event::ModuleVersionRegistered(
                ev,
            ) && ev.module == module_address && (ev.major_version, ev.minor_version, ev.patch_version)
                == args.version && ev.is_stable == args.is_stable)
        },
{
    assert_gate(lifecycle, config)?;
    repo.assert_active()?;
    repo.assert_authority(&authority)?;
    let RegisterModuleArgs {
        module_key,
        name,
        metadata_uri,
        category,
        tags,
        version,
        version_label,
        changelog_uri,
        is_stable,
        create_initial_version_snapshot,
    } = args;
    let uri_copy = metadata_uri.clone();
    let category_copy = category.clone();
    let module = Module::init(
        module_key,
        repo_address,
        authority,
        name,
        metadata_uri,
        category,
        tags,
        version,
        now,
    )?;
    let snapshot = if create_initial_version_snapshot {
        Some(
            ModuleVersion::init(
                module_address,
                authority,
                version,
                uri_copy,
                changelog_uri,
                version_label,
                is_stable,
                now,
            )?,
        )
    } else {
        assert_max_len(changelog_uri.as_str(), MAX_CHANGELOG_URI_LEN)?;
        assert_max_len(version_label.as_str(), MAX_LABEL_LEN)?;
        None
    };
    if repo.module_count >= config.max_modules_per_repo as u64 {
        return Err(Unit09Error::ValueOutOfRange);
    }
    if metrics.total_modules == u64::MAX {
        return Err(Unit09Error::CounterOverflow);
    }
    repo.increment_module_count(now)?;
    metrics.increment_modules()?;
    metrics.updated_at = now;
    let (major, minor, patch) = version;
    let mut events: Vec<Event> = Vec::new();
    events.push(
        Event::ModuleRegistered(
            ModuleRegistered {
                module: module_address,
                repo: repo_address,
                owner: authority,
                category: category_copy,
                major_version: major,
                minor_version: minor,
                patch_version: patch,
            },
        ),
    );
    if create_initial_version_snapshot {
        events.push(
            Event::ModuleVersionRegistered(
                ModuleVersionRegistered {
                    module: module_address,
                    major_version: major,
                    minor_version: minor,
                    patch_version: patch,
                    is_stable,
                },
            ),
        );
    }
    Ok((module, snapshot, events))
}

} // verus!
