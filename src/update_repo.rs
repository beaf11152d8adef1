//! Owner updates of a repository.
use vstd::prelude::*;

use crate::address::Address;
use crate::config::{assert_gate, gate_error, updated, Config, Lifecycle};
use crate::errors::Unit09Error;
use crate::events::{Event, RepoActivationChanged, RepoUpdated};
use crate::repo::{repo_update_error, Repo};
use crate::validators::first_error;

verus! {

/// The fields a repository's owner may replace; `None` keeps the value.
#[derive(Debug)]
pub struct UpdateRepoArgs {
    pub name: Option<String>,
    pub url: Option<String>,
    pub tags: Option<String>,
    pub is_active: Option<bool>,
    pub allow_observation: Option<bool>,
}

/// The error due to an update, in the order the checks run.
pub open spec fn update_repo_error(
    lifecycle: Lifecycle,
    config: Config,
    repo: Repo,
    authority: Address,
    args: UpdateRepoArgs,
) -> Option<Unit09Error> {
    first_error(
        gate_error(lifecycle, config),
        first_error(
            if repo.authority == authority {
                None
            } else {
                Some(Unit09Error::InvalidAuthority)
            },
            repo_update_error(args.name, args.url, args.tags),
        ),
    )
}

/// Apply an owner's update to the repository at `repo_address`. A
/// `RepoUpdated` notification is always due; a `RepoActivationChanged`
/// follows it exactly when the activity flag flipped. On error nothing
/// changes.
pub fn handle(
    lifecycle: &Lifecycle,
    config: &Config,
    repo: &mut Repo,
    repo_address: Address,
    authority: Address,
    args: UpdateRepoArgs,
    now: i64,
) -> (r: Result<Vec<Event>, Unit09Error>)
    ensures
        r matches Err(e) ==> update_repo_error(*lifecycle, *config, *old(repo), authority, args)
            == Some(e) && *final(repo) == *old(repo),
        r is Ok ==> update_repo_error(*lifecycle, *config, *old(repo), authority, args) is None,
        r matches Ok(events) ==> {
            let flipped = final(repo).is_active != old(repo).is_active;
            &&& *final(repo) == (Repo {
                name: updated(args.name, old(repo).name),
                url: updated(args.url, old(repo).url),
                tags: updated(args.tags, old(repo).tags),
                is_active: updated(args.is_active, old(repo).is_active),
                allow_observation: updated(args.allow_observation, old(repo).allow_observation),
                updated_at: now,
                ..*old(repo)
            })
            &&& old(repo).wf() ==> final(repo).wf()
            &&& events@.len() == if flipped { 2int } else { 1int }
            &&& events@[0] matches Event::RepoUpdated(ev) && ev.repo == repo_address && ev.url@
                == final(repo).url@
            &&& flipped ==> (events@[1] matches Event::RepoActivationChanged(ev) && ev.repo
                == repo_address && ev.is_active == final(repo).is_active && ev.updated_at == now)
        },
{
    assert_gate(lifecycle, config)?;
    repo.assert_authority(&authority)?;
    let previous_is_active = repo.is_active;
    let UpdateRepoArgs { name, url, tags, is_active, allow_observation } = args;
    repo.apply_update(name, url, tags, is_active, allow_observation, now)?;
    let mut events: Vec<Event> = Vec::new();
    events.push(Event::RepoUpdated(RepoUpdated { repo: repo_address, url: repo.url.clone() }));
    if repo.is_active != previous_is_active {
        events.push(
            Event::RepoActivationChanged(
                RepoActivationChanged {
                    repo: repo_address,
                    is_active: repo.is_active,
                    updated_at: repo.updated_at,
                },
            ),
        );
    }
    Ok(events)
}

} // verus!
