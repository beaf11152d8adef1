//! Bootstrap of a deployment: its configuration, write switch and counters.
use vstd::prelude::*;

use crate::address::Address;
use crate::config::{Config, Lifecycle};
use crate::constants::CURRENT_SCHEMA_VERSION;
use crate::errors::Unit09Error;
use crate::events::{ConfigUpdated, Event};
use crate::metrics::Metrics;

verus! {

/// The limits a deployment starts with.
#[derive(Clone, Copy, Debug)]
pub struct InitializeArgs {
    pub fee_bps: u16,
    pub max_modules_per_repo: u32,
}

/// Create the three singletons of a deployment administered by `admin`:
/// an active configuration, a write switch that allows writes, and counters
/// at zero. One `ConfigUpdated` notification is due.
pub fn handle(admin: Address, args: InitializeArgs, now: i64) -> (r: Result<
    (Config, Lifecycle, Metrics, Vec<Event>),
    Unit09Error,
>)
    ensures
        r is Err <==> args.fee_bps > 10000 || args.max_modules_per_repo == 0,
        r matches Err(e) ==> e == (if args.fee_bps > 10000 {
            Unit09Error::InvalidFeeBps
        } else {
            Unit09Error::ValueOutOfRange
        }),
        r matches Ok((config, lifecycle, metrics, events)) ==> {
            &&& config.wf()
            &&& config.admin == admin
            &&& config.fee_bps == args.fee_bps
            &&& config.max_modules_per_repo == args.max_modules_per_repo
            &&& config.is_active
            &&& config.created_at == now
            &&& lifecycle.writes_allowed
            &&& metrics == (Metrics {
                total_repos: 0,
                total_modules: 0,
                total_forks: 0,
                total_observations: 0,
                total_lines_of_code: 0,
                total_files_processed: 0,
                last_observation_at: 0,
                created_at: now,
                updated_at: now,
                schema_version: CURRENT_SCHEMA_VERSION,
            })
            &&& events@.len() == 1
            &&& events@[0] matches Event::ConfigUpdated(ev) && ev.admin == admin && ev.fee_bps
                == args.fee_bps && ev.max_modules_per_repo == args.max_modules_per_repo
        },
{
    let config = Config::new(admin, args.fee_bps, args.max_modules_per_repo, now)?;
    let lifecycle = Lifecycle::new(now);
    let metrics = Metrics::init(now);
    let events = vec![
        Event::ConfigUpdated(
            ConfigUpdated {
                admin,
                fee_bps: args.fee_bps,
                max_modules_per_repo: args.max_modules_per_repo,
            },
        ),
    ];
    Ok((config, lifecycle, metrics, events))
}

} // verus!
