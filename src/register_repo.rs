//! Registration of a repository.
use vstd::prelude::*;

use crate::address::Address;
use crate::config::{assert_gate, gate_error, Config, Lifecycle};
use crate::constants::CURRENT_SCHEMA_VERSION;
use crate::errors::Unit09Error;
use crate::events::{Event, RepoRegistered};
use crate::metrics::Metrics;
use crate::repo::{repo_fields_error, Repo};
use crate::validators::first_error;

verus! {

/// What a caller submits to register a repository.
#[derive(Debug)]
pub struct RegisterRepoArgs {
    pub repo_key: Address,
    pub name: String,
    pub url: String,
    pub tags: String,
    pub allow_observation: bool,
}

/// The error due to a registration, in the order the checks run.
pub open spec fn register_repo_error(
    lifecycle: Lifecycle,
    config: Config,
    metrics: Metrics,
    args: RegisterRepoArgs,
) -> Option<Unit09Error> {
    first_error(
        gate_error(lifecycle, config),
        first_error(
            repo_fields_error(args.name@, args.url@, args.tags@),
            if metrics.total_repos == u64::MAX {
                Some(Unit09Error::CounterOverflow)
            } else {
                None
            },
        ),
    )
}

/// Register a repository owned by `authority` at `repo_address`: the new
/// record is returned, the repository counter goes up by one, and one
/// `RepoRegistered` notification is due. On error nothing changes.
pub fn handle(
    lifecycle: &Lifecycle,
    config: &Config,
    metrics: &mut Metrics,
    repo_address: Address,
    authority: Address,
    args: RegisterRepoArgs,
    now: i64,
) -> (r: Result<(Repo, Vec<Event>), Unit09Error>)
    ensures
        r matches Err(e) ==> register_repo_error(*lifecycle, *config, *old(metrics), args) == Some(e)
            && *final(metrics) == *old(metrics),
        r is Ok ==> register_repo_error(*lifecycle, *config, *old(metrics), args) is None,
        r matches Ok((repo, events)) ==> {
            &&& repo == (Repo {
                repo_key: args.repo_key,
                authority,
                name: args.name,
                url: args.url,
                tags: args.tags,
                is_active: true,
                allow_observation: args.allow_observation,
                module_count: 0,
                created_at: now,
                updated_at: now,
                schema_version: CURRENT_SCHEMA_VERSION,
            })
            &&& repo.wf()
            &&& *final(metrics) == (Metrics {
                total_repos: (old(metrics).total_repos + 1) as u64,
                updated_at: now,
                ..*old(metrics)
            })
            &&& events@.len() == 1
            &&& events@[0] matches Event::RepoRegistered(ev) && ev.repo == repo_address && ev.owner
                == authority && ev.url@ == args.url@
        },
{
    assert_gate(lifecycle, config)?;
    let RegisterRepoArgs { repo_key, name, url, tags, allow_observation } = args;
    let url_copy = url.clone();
    let repo = Repo::new(repo_key, authority, name, url, tags, allow_observation, now)?;
    metrics.increment_repos()?;
    metrics.updated_at = now;
    let events = vec![
        Event::RepoRegistered(RepoRegistered { repo: repo_address, owner: authority, url: url_copy }),
    ];
    Ok((repo, events))
}

} // verus!
