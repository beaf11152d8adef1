//! Creation of a fork.
use vstd::prelude::*;

use crate::address::Address;
use crate::config::{assert_gate, gate_error, Config, Lifecycle};
use crate::constants::CURRENT_SCHEMA_VERSION;
use crate::errors::Unit09Error;
use crate::events::{Event, ForkCreated};
use crate::fork::{fork_fields_error, Fork};
use crate::metrics::Metrics;
use crate::validators::first_error;

verus! {

/// What a caller submits to create a fork.
#[derive(Debug)]
pub struct CreateForkArgs {
    pub fork_key: Address,
    pub parent: Address,
    pub label: String,
    pub metadata_uri: String,
}

/// The error due to a fork creation, in the order the checks run.
pub open spec fn create_fork_error(
    lifecycle: Lifecycle,
    config: Config,
    metrics: Metrics,
    args: CreateForkArgs,
) -> Option<Unit09Error> {
    first_error(
        gate_error(lifecycle, config),
        first_error(
            fork_fields_error(args.label@, args.metadata_uri@),
            if metrics.total_forks == u64::MAX {
                Some(Unit09Error::CounterOverflow)
            } else {
                None
            },
        ),
    )
}

/// Create an active fork owned by `owner` at `fork_address`: the record is
/// returned, the fork counter goes up by one, and one `ForkCreated`
/// notification is due. On error nothing changes.
pub fn handle(
    lifecycle: &Lifecycle,
    config: &Config,
    metrics: &mut Metrics,
    fork_address: Address,
    owner: Address,
    args: CreateForkArgs,
    now: i64,
) -> (r: Result<(Fork, Vec<Event>), Unit09Error>)
    ensures
        r matches Err(e) ==> create_fork_error(*lifecycle, *config, *old(metrics), args) == Some(e)
            && *final(metrics) == *old(metrics),
        r is Ok ==> create_fork_error(*lifecycle, *config, *old(metrics), args) is None,
        r matches Ok((fork, events)) ==> {
            &&& fork == (Fork {
                fork_key: args.fork_key,
                parent: args.parent,
                owner,
                label: args.label,
                metadata_uri: args.metadata_uri,
                is_active: true,
                created_at: now,
                updated_at: now,
                schema_version: CURRENT_SCHEMA_VERSION,
            })
            &&& *final(metrics) == (Metrics {
                total_forks: (old(metrics).total_forks + 1) as u64,
                updated_at: now,
                ..*old(metrics)
            })
            &&& events@.len() == 1
            &&& events@[0] matches Event::ForkCreated(ev) && ev.fork == fork_address && ev.parent
                == args.parent && ev.owner == owner && ev.label@ == args.label@
        },
{
    assert_gate(lifecycle, config)?;
    let CreateForkArgs { fork_key, parent, label, metadata_uri } = args;
    let label_copy = label.clone();
    let fork = Fork::new(fork_key, parent, owner, label, metadata_uri, now)?;
    metrics.increment_forks()?;
    metrics.updated_at = now;
    let events = vec![
        Event::ForkCreated(ForkCreated { fork: fork_address, parent, owner, label: label_copy }),
    ];
    Ok((fork, events))
}

} // verus!
