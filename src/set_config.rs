//! Admin updates of the configuration.
use vstd::prelude::*;

use crate::address::Address;
use crate::config::{config_after_update, config_update_error, Config};
use crate::errors::Unit09Error;
use crate::events::{ConfigUpdated, Event};

verus! {

/// The settings the admin may replace; `None` keeps the value.
#[derive(Debug)]
pub struct SetConfigArgs {
    pub fee_bps: Option<u16>,
    pub max_modules_per_repo: Option<u32>,
    pub is_active: Option<bool>,
    pub policy_ref: Option<[u8; 32]>,
}

/// Apply the admin's update to the configuration. One `ConfigUpdated`
/// notification is due. On error nothing changes; in particular a fee above
/// 10000 basis points is never committed.
pub fn handle(config: &mut Config, admin: Address, args: SetConfigArgs, now: i64) -> (r: Result<
    Vec<Event>,
    Unit09Error,
>)
    ensures
        r matches Err(e) ==> config_update_error(
            *old(config),
            admin,
            args.fee_bps,
            args.max_modules_per_repo,
        ) == Some(e) && *final(config) == *old(config),
        r is Ok ==> config_update_error(*old(config), admin, args.fee_bps, args.max_modules_per_repo)
            is None,
        r matches Ok(events) ==> {
            &&& *final(config) == config_after_update(
                *old(config),
                args.fee_bps,
                args.max_modules_per_repo,
                args.is_active,
                args.policy_ref,
                now,
            )
            &&& events@.len() == 1
            &&& events@[0] matches Event::ConfigUpdated(ev) && ev.admin == final(config).admin
                && ev.fee_bps == final(config).fee_bps && ev.max_modules_per_repo == final(config).max_modules_per_repo
        },
        old(config).wf() ==> final(config).wf(),
{
    config.apply_update(
        &admin,
        args.fee_bps,
        args.max_modules_per_repo,
        args.is_active,
        args.policy_ref,
        now,
    )?;
    let events = vec![
        Event::ConfigUpdated(
            ConfigUpdated {
                admin: config.admin,
                fee_bps: config.fee_bps,
                max_modules_per_repo: config.max_modules_per_repo,
            },
        ),
    ];
    Ok(events)
}

} // verus!
