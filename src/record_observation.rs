//! Aggregation of one observation run over a repository.
use vstd::prelude::*;

use crate::address::Address;
use crate::config::{assert_gate, gate_error, Config, Lifecycle};
use crate::errors::Unit09Error;
use crate::events::{Event, ObservationRecorded};
use crate::metrics::{observation_error, Metrics};
use crate::validators::first_error;

verus! {

/// What a worker reports after scanning a repository.
#[derive(Clone, Copy, Debug)]
pub struct RecordObservationArgs {
    pub lines_of_code: u64,
    pub files_processed: u32,
}

/// Add one observation of the repository at `repo_address` to the
/// counters. One `ObservationRecorded` notification is due. On error
/// nothing changes.
pub fn handle(
    lifecycle: &Lifecycle,
    config: &Config,
    metrics: &mut Metrics,
    repo_address: Address,
    args: RecordObservationArgs,
    now: i64,
) -> (r: Result<Vec<Event>, Unit09Error>)
    ensures
        r matches Err(e) ==> first_error(
            gate_error(*lifecycle, *config),
            observation_error(*old(metrics), args.lines_of_code, args.files_processed),
        ) == Some(e) && *final(metrics) == *old(metrics),
        r is Ok ==> first_error(
            gate_error(*lifecycle, *config),
            observation_error(*old(metrics), args.lines_of_code, args.files_processed),
        ) is None,
        r matches Ok(events) ==> {
            &&& *final(metrics) == (Metrics {
                total_observations: (old(metrics).total_observations + 1) as u64,
                total_lines_of_code: (old(metrics).total_lines_of_code + args.lines_of_code) as u64,
                total_files_processed: (old(metrics).total_files_processed + args.files_processed) as u64,
                last_observation_at: now,
                updated_at: now,
                ..*old(metrics)
            })
            &&& events@.len() == 1
            &&& events@[0] matches Event::ObservationRecorded(ev) && ev.repo == repo_address
                && ev.lines_of_code == args.lines_of_code && ev.files_processed
                == args.files_processed && ev.observed_at == now
        },
{
    assert_gate(lifecycle, config)?;
    metrics.record_observation(args.lines_of_code, args.files_processed, now)?;
    metrics.updated_at = now;
    let events = vec![
        Event::ObservationRecorded(
            ObservationRecorded {
                repo: repo_address,
                lines_of_code: args.lines_of_code,
                files_processed: args.files_processed,
                observed_at: now,
            },
        ),
    ];
    Ok(events)
}

} // verus!
