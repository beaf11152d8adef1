//! Reconciliation of the counters by a trusted flow.
use vstd::prelude::*;

use crate::config::{assert_gate, gate_error, updated, Config, Lifecycle};
use crate::errors::Unit09Error;
use crate::events::{Event, MetricsUpdated};
use crate::metrics::Metrics;

verus! {

/// Absolute values for any subset of the counters; `None` keeps the value.
#[derive(Clone, Copy, Debug)]
pub struct RecordMetricsArgs {
    pub total_repos: Option<u64>,
    pub total_modules: Option<u64>,
    pub total_forks: Option<u64>,
    pub total_observations: Option<u64>,
    pub total_lines_of_code: Option<u64>,
    pub total_files_processed: Option<u64>,
}

/// Overwrite the given counters. One `MetricsUpdated` notification is due.
/// Only the global guards can refuse; then nothing changes.
pub fn handle(
    lifecycle: &Lifecycle,
    config: &Config,
    metrics: &mut Metrics,
    args: RecordMetricsArgs,
    now: i64,
) -> (r: Result<Vec<Event>, Unit09Error>)
    ensures
        r matches Err(e) ==> gate_error(*lifecycle, *config) == Some(e) && *final(metrics) == *old(metrics),
        r is Ok ==> gate_error(*lifecycle, *config) is None,
        r matches Ok(events) ==> {
            &&& *final(metrics) == (Metrics {
                total_repos: updated(args.total_repos, old(metrics).total_repos),
                total_modules: updated(args.total_modules, old(metrics).total_modules),
                total_forks: updated(args.total_forks, old(metrics).total_forks),
                total_observations: updated(args.total_observations, old(metrics).total_observations),
                total_lines_of_code: updated(
                    args.total_lines_of_code,
                    old(metrics).total_lines_of_code,
                ),
                total_files_processed: updated(
                    args.total_files_processed,
                    old(metrics).total_files_processed,
                ),
                updated_at: now,
                ..*old(metrics)
            })
            &&& events@.len() == 1
            &&& events@[0] matches Event::MetricsUpdated(ev) && ev.total_repos
                == final(metrics).total_repos && ev.total_modules == final(metrics).total_modules
                && ev.total_forks == final(metrics).total_forks && ev.total_observations == final(metrics).total_observations
        },
{
    assert_gate(lifecycle, config)?;
    metrics.adjust_aggregate(
        args.total_repos,
        args.total_modules,
        args.total_forks,
        args.total_observations,
        args.total_lines_of_code,
        args.total_files_processed,
        now,
    );
    let events = vec![
        Event::MetricsUpdated(
            MetricsUpdated {
                total_repos: metrics.total_repos,
                total_modules: metrics.total_modules,
                total_forks: metrics.total_forks,
                total_observations: metrics.total_observations,
            },
        ),
    ];
    Ok(events)
}

} // verus!
