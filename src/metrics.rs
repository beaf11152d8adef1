//! Deployment-wide aggregate counters.
//!
//! Every counter moves by checked arithmetic: an update that would wrap fails
//! with `CounterOverflow` and leaves all counters as they were.
use vstd::prelude::*;

use crate::config::updated;
use crate::constants::{CURRENT_SCHEMA_VERSION, MAX_FILES_PER_OBSERVATION, MAX_LOC_PER_OBSERVATION};
use crate::errors::Unit09Error;

verus! {

/// Global aggregate metrics of one deployment.
#[derive(Clone, Copy, Debug)]
pub struct Metrics {
    pub total_repos: u64,
    pub total_modules: u64,
    pub total_forks: u64,
    pub total_observations: u64,
    pub total_lines_of_code: u64,
    pub total_files_processed: u64,
    pub last_observation_at: i64,
    pub created_at: i64,
    pub updated_at: i64,
    pub schema_version: u8,
}

/// Snapshot of the counters for readers outside the registry.
#[derive(Clone, Copy, Debug)]
pub struct MetricsSummary {
    pub total_repos: u64,
    pub total_modules: u64,
    pub total_forks: u64,
    pub total_observations: u64,
    pub total_lines_of_code: u64,
    pub total_files_processed: u64,
    pub last_observation_at: i64,
}

/// The error due to an observation, before any counter is written.
pub open spec fn observation_error(m: Metrics, lines_of_code: u64, files_processed: u32) -> Option<
    Unit09Error,
> {
    if lines_of_code > MAX_LOC_PER_OBSERVATION || files_processed > MAX_FILES_PER_OBSERVATION {
        Some(Unit09Error::ObservationDataTooLarge)
    } else if m.total_observations == u64::MAX || m.total_lines_of_code + lines_of_code
        > u64::MAX || m.total_files_processed + files_processed > u64::MAX {
        Some(Unit09Error::CounterOverflow)
    } else {
        None
    }
}

impl Metrics {
    /// Metrics with every counter at zero.
    pub fn init(now: i64) -> (r: Metrics)
        ensures
            r == (Metrics {
                total_repos: 0,
                total_modules: 0,
                total_forks: 0,
                total_observations: 0,
                total_lines_of_code: 0,
                total_files_processed: 0,
                last_observation_at: 0,
                created_at: now,
                updated_at: now,
                schema_version: CURRENT_SCHEMA_VERSION,
            }),
    {
        Metrics {
            total_repos: 0,
            total_modules: 0,
            total_forks: 0,
            total_observations: 0,
            total_lines_of_code: 0,
            total_files_processed: 0,
            last_observation_at: 0,
            created_at: now,
            updated_at: now,
            schema_version: CURRENT_SCHEMA_VERSION,
        }
    }

    /// Add one to the repository counter.
    pub fn increment_repos(&mut self) -> (r: Result<(), Unit09Error>)
        ensures
            r is Ok <==> old(self).total_repos < u64::MAX,
            r matches Err(e) ==> e == Unit09Error::CounterOverflow && *final(self) == *old(self),
            r is Ok ==> *final(self) == (Metrics {
                total_repos: (old(self).total_repos + 1) as u64,
                ..*old(self)
            }),
    {
        match self.total_repos.checked_add(1) {
            Some(v) => {
                self.total_repos = v;
                Ok(())
            },
            None => Err(Unit09Error::CounterOverflow),
        }
    }

    /// Take one from the repository counter.
    pub fn decrement_repos(&mut self) -> (r: Result<(), Unit09Error>)
        ensures
            r is Ok <==> old(self).total_repos > 0,
            r matches Err(e) ==> e == Unit09Error::CounterOverflow && *final(self) == *old(self),
            r is Ok ==> *final(self) == (Metrics {
                total_repos: (old(self).total_repos - 1) as u64,
                ..*old(self)
            }),
    {
        match self.total_repos.checked_sub(1) {
            Some(v) => {
                self.total_repos = v;
                Ok(())
            },
            None => Err(Unit09Error::CounterOverflow),
        }
    }

    /// Add one to the module counter.
    pub fn increment_modules(&mut self) -> (r: Result<(), Unit09Error>)
        ensures
            r is Ok <==> old(self).total_modules < u64::MAX,
            r matches Err(e) ==> e == Unit09Error::CounterOverflow && *final(self) == *old(self),
            r is Ok ==> *final(self) == (Metrics {
                total_modules: (old(self).total_modules + 1) as u64,
                ..*old(self)
            }),
    {
        match self.total_modules.checked_add(1) {
            Some(v) => {
                self.total_modules = v;
                Ok(())
            },
            None => Err(Unit09Error::CounterOverflow),
        }
    }

    /// Take one from the module counter.
    pub fn decrement_modules(&mut self) -> (r: Result<(), Unit09Error>)
        ensures
            r is Ok <==> old(self).total_modules > 0,
            r matches Err(e) ==> e == Unit09Error::CounterOverflow && *final(self) == *old(self),
            r is Ok ==> *final(self) == (Metrics {
                total_modules: (old(self).total_modules - 1) as u64,
                ..*old(self)
            }),
    {
        match self.total_modules.checked_sub(1) {
            Some(v) => {
                self.total_modules = v;
                Ok(())
            },
            None => Err(Unit09Error::CounterOverflow),
        }
    }

    /// Add one to the fork counter.
    pub fn increment_forks(&mut self) -> (r: Result<(), Unit09Error>)
        ensures
            r is Ok <==> old(self).total_forks < u64::MAX,
            r matches Err(e) ==> e == Unit09Error::CounterOverflow && *final(self) == *old(self),
            r is Ok ==> *final(self) == (Metrics {
                total_forks: (old(self).total_forks + 1) as u64,
                ..*old(self)
            }),
    {
        match self.total_forks.checked_add(1) {
            Some(v) => {
                self.total_forks = v;
                Ok(())
            },
            None => Err(Unit09Error::CounterOverflow),
        }
    }

    /// Take one from the fork counter.
    pub fn decrement_forks(&mut self) -> (r: Result<(), Unit09Error>)
        ensures
            r is Ok <==> old(self).total_forks > 0,
            r matches Err(e) ==> e == Unit09Error::CounterOverflow && *final(self) == *old(self),
            r is Ok ==> *final(self) == (Metrics {
                total_forks: (old(self).total_forks - 1) as u64,
                ..*old(self)
            }),
    {
        match self.total_forks.checked_sub(1) {
            Some(v) => {
                self.total_forks = v;
                Ok(())
            },
            None => Err(Unit09Error::CounterOverflow),
        }
    }

    /// Count one observation and add what it processed to the totals.
    pub fn record_observation(&mut self, lines_of_code: u64, files_processed: u32, now: i64) -> (r:
        Result<(), Unit09Error>)
        ensures
            r matches Err(e) ==> observation_error(*old(self), lines_of_code, files_processed)
                == Some(e) && *final(self) == *old(self),
            r is Ok ==> observation_error(*old(self), lines_of_code, files_processed) is None
                && *final(self) == (Metrics {
                total_observations: (old(self).total_observations + 1) as u64,
                total_lines_of_code: (old(self).total_lines_of_code + lines_of_code) as u64,
                total_files_processed: (old(self).total_files_processed + files_processed) as u64,
                last_observation_at: now,
                ..*old(self)
            }),
    {
        if lines_of_code > MAX_LOC_PER_OBSERVATION {
            return Err(Unit09Error::ObservationDataTooLarge);
        }
        if files_processed > MAX_FILES_PER_OBSERVATION {
            return Err(Unit09Error::ObservationDataTooLarge);
        }
        let observations = match self.total_observations.checked_add(1) {
            Some(v) => v,
            None => return Err(Unit09Error::CounterOverflow),
        };
        let lines = match self.total_lines_of_code.checked_add(lines_of_code) {
            Some(v) => v,
            None => return Err(Unit09Error::CounterOverflow),
        };
        let files = match self.total_files_processed.checked_add(files_processed as u64) {
            Some(v) => v,
            None => return Err(Unit09Error::CounterOverflow),
        };
        self.total_observations = observations;
        self.total_lines_of_code = lines;
        self.total_files_processed = files;
        self.last_observation_at = now;
        Ok(())
    }

    /// Overwrite any subset of the counters with absolute values, for
    /// reconciliation by a trusted flow; this bypasses monotonicity.
    pub fn adjust_aggregate(
        &mut self,
        new_total_repos: Option<u64>,
        new_total_modules: Option<u64>,
        new_total_forks: Option<u64>,
        new_total_observations: Option<u64>,
        new_total_lines_of_code: Option<u64>,
        new_total_files_processed: Option<u64>,
        now: i64,
    )
        ensures
            *final(self) == (Metrics {
                total_repos: updated(new_total_repos, old(self).total_repos),
                total_modules: updated(new_total_modules, old(self).total_modules),
                total_forks: updated(new_total_forks, old(self).total_forks),
                total_observations: updated(new_total_observations, old(self).total_observations),
                total_lines_of_code: updated(new_total_lines_of_code, old(self).total_lines_of_code),
                total_files_processed: updated(
                    new_total_files_processed,
                    old(self).total_files_processed,
                ),
                updated_at: now,
                ..*old(self)
            }),
    {
        if let Some(v) = new_total_repos {
            self.total_repos = v;
        }
        if let Some(v) = new_total_modules {
            self.total_modules = v;
        }
        if let Some(v) = new_total_forks {
            self.total_forks = v;
        }
        if let Some(v) = new_total_observations {
            self.total_observations = v;
        }
        if let Some(v) = new_total_lines_of_code {
            self.total_lines_of_code = v;
        }
        if let Some(v) = new_total_files_processed {
            self.total_files_processed = v;
        }
        self.updated_at = now;
    }

    /// The counters, without the bookkeeping fields.
    pub fn summary(&self) -> (r: MetricsSummary)
        ensures
            r == (MetricsSummary {
                total_repos: self.total_repos,
                total_modules: self.total_modules,
                total_forks: self.total_forks,
                total_observations: self.total_observations,
                total_lines_of_code: self.total_lines_of_code,
                total_files_processed: self.total_files_processed,
                last_observation_at: self.last_observation_at,
            }),
    {
        MetricsSummary {
            total_repos: self.total_repos,
            total_modules: self.total_modules,
            total_forks: self.total_forks,
            total_observations: self.total_observations,
            total_lines_of_code: self.total_lines_of_code,
            total_files_processed: self.total_files_processed,
            last_observation_at: self.last_observation_at,
        }
    }
}

} // verus!
