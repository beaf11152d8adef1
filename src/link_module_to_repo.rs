//! Idempotent linking of a module to a repository.
use vstd::prelude::*;

use crate::address::Address;
use crate::config::{assert_gate, gate_error, Config, Lifecycle};
use crate::constants::{CURRENT_SCHEMA_VERSION, MAX_NOTES_LEN};
use crate::errors::Unit09Error;
use crate::events::{Event, ModuleLinkedToRepo};
use crate::link::ModuleRepoLink;
use crate::module::Module;
use crate::repo::Repo;
use crate::validators::{assert_max_len, bounded_str_error, first_error};

verus! {

/// What a module's or repository's owner submits to link the two.
#[derive(Debug)]
pub struct LinkModuleToRepoArgs {
    pub is_primary: bool,
    pub notes: String,
}

/// The error due to a link request, in the order the checks run.
pub open spec fn link_error(
    lifecycle: Lifecycle,
    config: Config,
    repo: Repo,
    module: Module,
    authority: Address,
    args: LinkModuleToRepoArgs,
) -> Option<Unit09Error> {
    first_error(
        gate_error(lifecycle, config),
        first_error(
            if repo.is_active { None } else { Some(Unit09Error::RepoInactive) },
            first_error(
                if module.authority == authority || repo.authority == authority {
                    None
                } else {
                    Some(Unit09Error::InvalidAuthority)
                },
                bounded_str_error(args.notes@, MAX_NOTES_LEN as nat),
            ),
        ),
    )
}

/// The link held after an accepted request: a new one when none existed,
/// else the existing one with fresh metadata and its identity and creation
/// time kept.
pub open spec fn linked(
    before: Option<ModuleRepoLink>,
    module_address: Address,
    repo_address: Address,
    authority: Address,
    args: LinkModuleToRepoArgs,
    now: i64,
) -> ModuleRepoLink {
    match before {
        None => ModuleRepoLink {
            module: module_address,
            repo: repo_address,
            linked_by: authority,
            is_primary: args.is_primary,
            notes: args.notes,
            created_at: now,
            updated_at: now,
            schema_version: CURRENT_SCHEMA_VERSION,
        },
        Some(l) => ModuleRepoLink {
            linked_by: authority,
            is_primary: args.is_primary,
            notes: args.notes,
            updated_at: now,
            ..l
        },
    }
}

/// Create or refresh the one link between the module at `module_address`
/// and the repository at `repo_address`; `link` is the record stored at
/// that pair's address, if any. One `ModuleLinkedToRepo` notification is
/// due. On error nothing changes.
pub fn handle(
    lifecycle: &Lifecycle,
    config: &Config,
    repo: &Repo,
    module: &Module,
    link: &mut Option<ModuleRepoLink>,
    repo_address: Address,
    module_address: Address,
    authority: Address,
    args: LinkModuleToRepoArgs,
    now: i64,
) -> (r: Result<Vec<Event>, Unit09Error>)
    ensures
        r matches Err(e) ==> link_error(*lifecycle, *config, *repo, *module, authority, args) == Some(
            e,
        ) && *final(link) == *old(link),
        r is Ok ==> link_error(*lifecycle, *config, *repo, *module, authority, args) is None,
        r matches Ok(events) ==> {
            &&& *final(link) == Some(
                linked(*old(link), module_address, repo_address, authority, args, now),
            )
            &&& events@.len() == 1
            &&& events@[0] matches Event::ModuleLinkedToRepo(ev) && ev.module == module_address
                && ev.repo == repo_address && ev.linked_by == authority && ev.is_primary
                == args.is_primary && ev.updated_at == now
        },
{
    assert_gate(lifecycle, config)?;
    repo.assert_active()?;
    if !module.authority.same(&authority) && !repo.authority.same(&authority) {
        return Err(Unit09Error::InvalidAuthority);
    }
    assert_max_len(args.notes.as_str(), MAX_NOTES_LEN)?;
    let LinkModuleToRepoArgs { is_primary, notes } = args;
    match link {
        Some(existing) => {
            existing.refresh(authority, is_primary, notes, now);
        },
        None => {
            *link = Some(
                ModuleRepoLink::new(module_address, repo_address, authority, is_primary, notes, now),
            );
        },
    }
    let events = vec![
        Event::ModuleLinkedToRepo(
            ModuleLinkedToRepo {
                module: module_address,
                repo: repo_address,
                linked_by: authority,
                is_primary,
                updated_at: now,
            },
        ),
    ];
    Ok(events)
}

} // verus!
