//! Owner updates of a fork.
use vstd::prelude::*;

use crate::address::Address;
use crate::config::{assert_gate, gate_error, updated, Config, Lifecycle};
use crate::constants::MAX_METADATA_URI_LEN;
use crate::errors::Unit09Error;
use crate::events::{Event, ForkStateUpdated};
use crate::fork::Fork;
use crate::validators::{first_error, opt_uri_error};

verus! {

/// The fields a fork's owner may replace; `None` keeps the value.
#[derive(Debug)]
pub struct UpdateForkStateArgs {
    pub is_active: Option<bool>,
    pub metadata_uri: Option<String>,
}

/// The error due to a fork update, in the order the checks run.
pub open spec fn update_fork_error(
    lifecycle: Lifecycle,
    config: Config,
    fork: Fork,
    owner: Address,
    args: UpdateForkStateArgs,
) -> Option<Unit09Error> {
    first_error(
        gate_error(lifecycle, config),
        first_error(
            if fork.owner == owner { None } else { Some(Unit09Error::InvalidAuthority) },
            opt_uri_error(args.metadata_uri, MAX_METADATA_URI_LEN as nat),
        ),
    )
}

/// Apply the owner's update to the fork at `fork_address`. A
/// `ForkStateUpdated` notification is due exactly when the activity flag
/// flipped. On error nothing changes.
pub fn handle(
    lifecycle: &Lifecycle,
    config: &Config,
    fork: &mut Fork,
    fork_address: Address,
    owner: Address,
    args: UpdateForkStateArgs,
    now: i64,
) -> (r: Result<Vec<Event>, Unit09Error>)
    ensures
        r matches Err(e) ==> update_fork_error(*lifecycle, *config, *old(fork), owner, args) == Some(
            e,
        ) && *final(fork) == *old(fork),
        r is Ok ==> update_fork_error(*lifecycle, *config, *old(fork), owner, args) is None,
        r matches Ok(events) ==> {
            let flipped = final(fork).is_active != old(fork).is_active;
            &&& *final(fork) == (Fork {
                is_active: updated(args.is_active, old(fork).is_active),
                metadata_uri: updated(args.metadata_uri, old(fork).metadata_uri),
                updated_at: now,
                ..*old(fork)
            })
            &&& events@.len() == if flipped { 1int } else { 0int }
            &&& flipped ==> (events@[0] matches Event::ForkStateUpdated(ev) && ev.fork
                == fork_address && ev.active == final(fork).is_active)
        },
{
    assert_gate(lifecycle, config)?;
    fork.assert_owner(&owner)?;
    let previous_is_active = fork.is_active;
    fork.apply_update(args.is_active, args.metadata_uri, now)?;
    let mut events: Vec<Event> = Vec::new();
    if fork.is_active != previous_is_active {
        events.push(
            Event::ForkStateUpdated(ForkStateUpdated { fork: fork_address, active: fork.is_active }),
        );
    }
    Ok(events)
}

} // verus!
