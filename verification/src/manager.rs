//! The maintenance of a store: when its two sweeps run.

use vstd::prelude::*;
use crate::datalith::Datalith;

verus! {

/// The time between two sweeps of the expired files, in seconds.
pub const EXPIRED_SWEEP_PERIOD_SECS: u64 = 60;

/// The longest time that the sweep of the expired files waits for one
/// delete, in milliseconds.
pub const EXPIRED_SWEEP_TIMEOUT_MS: u64 = 3000;

/// The schedule of the sweep of the blob directory, as a cron expression of
/// six fields: at the full hour, every four hours.
pub const UNTRACKED_SWEEP_SCHEDULE: &'static str = "0 0 */4 * * *";

/// A sweep.
#[derive(Clone, Copy, Debug, PartialEq, Eq, Structural)]
pub enum Sweep {
    /// The sweep of the files that have expired.
    ExpiredFiles,
    /// The sweep of the entries of the blob directory that belong to no live
    /// file.
    UntrackedFiles,
}

/// When a job runs.
#[derive(Clone, Copy, Debug, PartialEq, Eq, Structural)]
pub enum Schedule {
    /// Again and again, a number of seconds apart.
    Every { seconds: u64 },
    /// At the local times that `UNTRACKED_SWEEP_SCHEDULE` names.
    Cron,
}

/// A job of the maintenance: a sweep and when it runs.
#[derive(Clone, Copy, Debug, PartialEq, Eq, Structural)]
pub struct Job {
    pub sweep: Sweep,
    pub schedule: Schedule,
}

/// The number of files that a sweep has removed, as it is told: none, one,
/// or several.
#[derive(Clone, Copy, Debug, PartialEq, Eq, Structural)]
pub enum SweepReport {
    Nothing,
    One,
    Several(usize),
}

/// A store with its maintenance.
#[derive(Debug)]
pub struct DatalithManager {
    datalith: Datalith,
}

impl DatalithManager {
    /// The store under maintenance.
    pub closed spec fn store(&self) -> Datalith {
        self.datalith
    }

    /// The jobs of the maintenance: the sweep of the expired files every
    /// minute, and the sweep of the blob directory on its schedule.
    pub open spec fn jobs_spec() -> Seq<Job> {
        seq![
            Job {
                sweep: Sweep::ExpiredFiles,
                schedule: Schedule::Every { seconds: EXPIRED_SWEEP_PERIOD_SECS },
            },
            Job { sweep: Sweep::UntrackedFiles, schedule: Schedule::Cron },
        ]
    }

    /// Puts a store under maintenance.
    pub fn new(datalith: Datalith) -> (manager: DatalithManager)
        ensures
            manager.store() == datalith,
    {
        DatalithManager { datalith }
    }

    /// The jobs of the maintenance of any store.
    pub fn schedule() -> (jobs: Vec<Job>)
        ensures
            jobs@ == DatalithManager::jobs_spec(),
    {
        let mut jobs: Vec<Job> = Vec::new();
        jobs.push(
            Job {
                sweep: Sweep::ExpiredFiles,
                schedule: Schedule::Every { seconds: EXPIRED_SWEEP_PERIOD_SECS },
            },
        );
        jobs.push(Job { sweep: Sweep::UntrackedFiles, schedule: Schedule::Cron });
        proof {
            assert(jobs@ =~= DatalithManager::jobs_spec());
        }
        jobs
    }

    /// The jobs of the maintenance.
    pub fn jobs(&self) -> (jobs: Vec<Job>)
        ensures
            jobs@ == DatalithManager::jobs_spec(),
    {
        DatalithManager::schedule()
    }

    /// The store under maintenance.
    pub fn datalith(&self) -> (r: &Datalith)
        ensures
            *r == self.store(),
    {
        &self.datalith
    }

    /// The store under maintenance, to change its settings.
    pub fn datalith_mut(&mut self) -> (r: &mut Datalith)
        ensures
            *r == old(self).store(),
            final(self).store() == *final(r),
    {
        &mut self.datalith
    }

    /// Ends the maintenance and gives the store back, to be closed.
    pub fn close(self) -> (r: Datalith)
        ensures
            r == self.store(),
    {
        self.datalith
    }

    /// How the number of files that a sweep has removed is told.
    pub fn report(count: usize) -> (r: SweepReport)
        ensures
            r == match count {
                0 => SweepReport::Nothing,
                1 => SweepReport::One,
                _ => SweepReport::Several(count),
            },
    {
        if count == 0 {
            SweepReport::Nothing
        } else if count == 1 {
            SweepReport::One
        } else {
            SweepReport::Several(count)
        }
    }
}

} // verus!
