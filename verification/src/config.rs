//! Global configuration for the scheduler: how often a cycle runs, where
//! job definition files live, and how many jobs may run at once.

use vstd::prelude::*;

verus! {

/// The scheduling interval in seconds. It also bounds each job's runtime:
/// a job's deadline equals the interval, so an abandoned job can no longer
/// be in flight when the next cycle would re-admit the same name.
#[derive(Clone, Copy, Debug)]
pub struct Interval(pub u64);

impl Interval {
    /// The interval in seconds.
    pub fn seconds(&self) -> (s: u64)
        ensures
            s == self.0,
    {
        self.0
    }
}

impl Default for Interval {
    /// The default scheduling interval of 40 seconds.
    fn default() -> (r: Self)
        ensures
            r.0 == 40,
    {
        Interval(40)
    }
}

impl From<Interval> for u64 {
    fn from(val: Interval) -> (r: u64)
        ensures
            r == val.0,
    {
        val.0
    }
}

impl vstd::std_specs::convert::FromSpecImpl<Interval> for u64 {
    open spec fn obeys_from_spec() -> bool {
        true
    }

    open spec fn from_spec(val: Interval) -> u64 {
        val.0
    }
}

/// The directory scanned for job definition files when the configuration
/// does not name one.
pub fn default_repos() -> (r: String)
    ensures
        r@ == "repos"@,
{
    String::from_str("repos")
}

/// The concurrency bound used when the configuration does not name one.
pub fn default_task_count() -> (r: usize)
    ensures
        r == 4,
{
    4
}

/// Global settings for one run of the scheduler, loaded once at startup.
#[derive(Debug)]
pub struct Config {
    /// Seconds between cycle starts; also each job's deadline.
    pub update_interval: Interval,
    /// Directory scanned for job definition files.
    pub repos: String,
    /// Upper bound on concurrently running jobs.
    pub task_count: usize,
}

impl Config {
    /// True when the settings can drive the scheduler: at least one job
    /// may run at a time, and the interval is positive so the timer ticks.
    pub open spec fn valid(self) -> bool {
        self.task_count >= 1 && self.update_interval.0 >= 1
    }

    /// Builds a configuration, falling back to the defaults for any field
    /// an invalid value was given for: a zero task count or a zero
    /// interval cannot drive the scheduler.
    pub fn new(update_interval: u64, repos: String, task_count: usize) -> (r: Self)
        ensures
            r.valid(),
            r.update_interval.0 == if update_interval >= 1 {
                update_interval
            } else {
                40
            },
            r.repos@ == repos@,
            r.task_count == if task_count >= 1 {
                task_count
            } else {
                4
            },
    {
        let interval = if update_interval >= 1 {
            Interval(update_interval)
        } else {
            Interval::default()
        };
        let count = if task_count >= 1 {
            task_count
        } else {
            default_task_count()
        };
        Config { update_interval: interval, repos, task_count: count }
    }

    /// The deadline, in seconds, granted to each job of a cycle. It equals
    /// the scheduling interval, never exceeding it: a timed-out job is
    /// abandoned before the next cycle could re-admit its name, so no two
    /// synchronizations of one workspace ever overlap.
    pub fn job_deadline(&self) -> (d: u64)
        ensures
            d == self.update_interval.0,
    {
        self.update_interval.0
    }
}

impl Default for Config {
    /// The defaults used when no configuration file is readable: a 40
    /// second interval, the conventional jobs directory, four tasks.
    fn default() -> (r: Self)
        ensures
            r.update_interval.0 == 40,
            r.repos@ == "repos"@,
            r.task_count == 4,
            r.valid(),
    {
        Config {
            update_interval: Interval::default(),
            repos: default_repos(),
            task_count: default_task_count(),
        }
    }
}

} // verus!
