//! Keeps a set of mirror repositories synchronized: each configured job
//! clones or updates a local mirror workspace from its source location and
//! force-pushes the result to its target location, on a recurring schedule,
//! under a concurrency bound with per-job timeouts and isolated failures.

mod config;
mod discover;
mod gitops;
mod protocol;
mod repo;
mod sched;

pub use config::Config;
pub use config::Interval;
pub use config::default_repos;
pub use config::default_task_count;
pub use discover::collect_valid;
pub use discover::has_name;
pub use discover::is_job_file;
pub use discover::lemma_unique_names_distinct;
pub use discover::lemma_unique_names_same_names;
pub use discover::unique_by_name;
pub use discover::unique_names;
pub use discover::loaded_jobs;
pub use discover::name_views;
pub use discover::select_job_files;
pub use discover::spec_is_job_file;
pub use protocol::clone_effect;
pub use protocol::lemma_clone_creates_mirror;
pub use protocol::lemma_sync_idempotent;
pub use protocol::lemma_update_converges;
pub use protocol::sync_effect;
pub use protocol::update_effect;
pub use repo::Error;
pub use repo::RepositoryDetails;
pub use repo::lemma_workspace_ownership;
pub use sched::Cycle;
pub use sched::CycleView;
pub use sched::JobEvent;
pub use sched::Outcome;
pub use sched::Status;
pub use sched::classify;
pub use sched::lemma_bounded_concurrency;
pub use sched::lemma_fault_isolation;
pub use sched::lemma_no_overlapping_execution;
pub use sched::lemma_outcome_accounting;
pub use sched::lemma_timeout_releases_slot;
pub use sched::runnable_jobs;
pub use sched::without_busy;
