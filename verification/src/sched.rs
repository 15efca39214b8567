//! The bounded scheduler's decisions for one cycle. The cycle owns the
//! discovered jobs, admits them into execution under a strict concurrency
//! bound, and records one terminal outcome per admitted job. Waiting,
//! spawning and timing live with the caller that drives the cycle; every
//! decision — whom to admit, when, and what a finished job's outcome is —
//! is made here.

use crate::discover::contains_name;
use crate::discover::name_views;
use crate::repo::Error;
use crate::repo::RepositoryDetails;
use vstd::prelude::*;

verus! {

/// The terminal result of one job in one cycle.
#[derive(Debug)]
pub enum Status {
    /// The mirror was brought up to date and propagated to the target.
    Synced,
    /// Some synchronization step failed; the cause names the job.
    SyncFailed(Error),
    /// The job exceeded its deadline and was abandoned.
    TimedOut,
}

/// One job's terminal result: produced exactly once per job per cycle,
/// consumed only for logging.
#[derive(Debug)]
pub struct Outcome {
    pub name: String,
    pub status: Status,
}

/// What the caller driving a job observed when the job reached its end.
#[derive(Debug)]
pub enum JobEvent {
    /// The synchronizer returned within the deadline.
    Finished(Result<(), Error>),
    /// The deadline elapsed before the synchronizer returned.
    DeadlineElapsed,
    /// The execution substrate lost the job before it could report.
    ExecutionLost,
}

/// Turns what the driver observed into the job's recorded outcome: a
/// result within the deadline is `Synced` or `SyncFailed` as it says, an
/// elapsed deadline is `TimedOut` and nothing else is, and a lost
/// execution context is treated as a failure of that job alone.
pub fn classify(name: String, event: JobEvent) -> (o: Outcome)
    ensures
        o.name@ == name@,
        (o.status is TimedOut) <==> (event is DeadlineElapsed),
        event matches JobEvent::Finished(res) ==> ((o.status is Synced) <==> res is Ok),
        event matches JobEvent::Finished(res) ==> (res matches Err(e) ==> o.status
            == Status::SyncFailed(e)),
        event is ExecutionLost ==> (o.status matches Status::SyncFailed(f) && f.name@ == name@
            && f.cause@ == "the job's execution context was lost"@),
{
    match event {
        JobEvent::Finished(Ok(_)) => Outcome { name, status: Status::Synced },
        JobEvent::Finished(Err(e)) => Outcome { name, status: Status::SyncFailed(e) },
        JobEvent::DeadlineElapsed => Outcome { name, status: Status::TimedOut },
        JobEvent::ExecutionLost => {
            let cause = String::from_str("the job's execution context was lost");
            let failure = Error { name: String::from_str(name.as_str()), cause };
            Outcome { name, status: Status::SyncFailed(failure) }
        },
    }
}

/// Of the discovered jobs, those whose name is not in `busy`, in order.
pub open spec fn without_busy(
    jobs: Seq<RepositoryDetails>,
    busy: Seq<Seq<char>>,
) -> Seq<RepositoryDetails>
    decreases jobs.len(),
{
    if jobs.len() == 0 {
        Seq::empty()
    } else {
        let rest = without_busy(jobs.drop_last(), busy);
        if busy.contains(jobs.last().name@) {
            rest
        } else {
            rest.push(jobs.last())
        }
    }
}

/// Timeout enforcement alone does not guarantee that an abandoned job's
/// underlying work has stopped, so a new cycle must not start a job whose
/// workspace may still be written by a timed-out run from an earlier
/// cycle. This filter drops every discovered job whose name is still
/// busy; a skipped job is naturally retried by a later cycle, once its
/// termination is confirmed.
pub fn runnable_jobs(jobs: Vec<RepositoryDetails>, busy: &Vec<String>) -> (r: Vec<
    RepositoryDetails,
>)
    ensures
        r@ == without_busy(jobs@, name_views(busy@)),
{
    let ghost orig = jobs@;
    let mut rest = jobs;
    let mut r: Vec<RepositoryDetails> = Vec::new();
    let mut k: usize = 0;
    let total = rest.len();
    proof {
        assert(orig.len() == total);
        assert(orig.take(0) =~= Seq::<RepositoryDetails>::empty());
        assert(rest@ =~= orig.skip(0));
    }
    while rest.len() > 0
        invariant
            k <= orig.len(),
            orig.len() <= usize::MAX,
            k + rest@.len() == orig.len(),
            rest@ == orig.skip(k as int),
            r@ == without_busy(orig.take(k as int), name_views(busy@)),
        decreases rest@.len(),
    {
        let job = rest.remove(0);
        proof {
            assert(job == orig[k as int]);
            assert(rest@ =~= orig.skip(k as int + 1));
        }
        if !contains_name(busy, &job.name) {
            r.push(job);
        }
        proof {
            let step = orig.take(k as int + 1);
            assert(step.last() == orig[k as int]);
            assert(step.drop_last() =~= orig.take(k as int));
            assert(r@ == without_busy(step, name_views(busy@)));
        }
        k = k + 1;
    }
    proof {
        assert(orig.take(k as int) =~= orig);
    }
    r
}

/// No overlapping executions of one workspace: a name still busy from an
/// earlier cycle never stands among the jobs a new cycle may run, so the
/// workspace of an abandoned job is not touched again before its
/// termination is confirmed.
pub proof fn lemma_no_overlapping_execution(
    jobs: Seq<RepositoryDetails>,
    busy: Seq<Seq<char>>,
    j: int,
)
    requires
        0 <= j < without_busy(jobs, busy).len(),
    ensures
        !busy.contains(without_busy(jobs, busy)[j].name@),
    decreases jobs.len(),
{
    let rest = without_busy(jobs.drop_last(), busy);
    if busy.contains(jobs.last().name@) {
        lemma_no_overlapping_execution(jobs.drop_last(), busy, j);
    } else {
        if j < rest.len() {
            lemma_no_overlapping_execution(jobs.drop_last(), busy, j);
        }
    }
}

/// The mathematical state of one cycle: the jobs not yet admitted, how
/// many are in flight, the concurrency bound, and the outcomes recorded
/// so far.
#[verifier::ext_equal]
pub ghost struct CycleView {
    pub pending: Seq<RepositoryDetails>,
    pub in_flight: nat,
    pub bound: nat,
    pub outcomes: Seq<Outcome>,
}

impl CycleView {
    /// The cycle invariant: the bound is positive, and at no point are
    /// more jobs in flight than the bound admits.
    pub open spec fn wf(self) -> bool {
        1 <= self.bound && self.in_flight <= self.bound
    }

    /// A job may be admitted exactly when a slot is free and a job is
    /// still pending.
    pub open spec fn can_admit(self) -> bool {
        self.in_flight < self.bound && self.pending.len() > 0
    }

    /// The job the next admission hands out.
    pub open spec fn admitted_job(self) -> RepositoryDetails {
        self.pending.last()
    }

    /// The state after admitting one job into a free slot.
    pub open spec fn after_admit(self) -> CycleView {
        CycleView {
            pending: self.pending.drop_last(),
            in_flight: self.in_flight + 1,
            bound: self.bound,
            outcomes: self.outcomes,
        }
    }

    /// The state after one in-flight job reached a terminal outcome:
    /// the slot frees and exactly that outcome is recorded, whatever its
    /// status.
    pub open spec fn after_complete(self, o: Outcome) -> CycleView {
        CycleView {
            pending: self.pending,
            in_flight: (self.in_flight - 1) as nat,
            bound: self.bound,
            outcomes: self.outcomes.push(o),
        }
    }

    /// A cycle is over when nothing is pending and nothing is in flight.
    pub open spec fn done(self) -> bool {
        self.pending.len() == 0 && self.in_flight == 0
    }

    /// Every job the cycle was given is pending, in flight, or recorded.
    pub open spec fn total(self) -> nat {
        self.pending.len() + self.in_flight + self.outcomes.len()
    }
}

/// One cycle's scheduling state, owned by the loop that drives it and
/// passed through each step — never ambient global state.
pub struct Cycle {
    pending: Vec<RepositoryDetails>,
    in_flight: usize,
    bound: usize,
    outcomes: Vec<Outcome>,
}

impl View for Cycle {
    type V = CycleView;

    closed spec fn view(&self) -> CycleView {
        CycleView {
            pending: self.pending@,
            in_flight: self.in_flight as nat,
            bound: self.bound as nat,
            outcomes: self.outcomes@,
        }
    }
}

impl Cycle {
    /// Starts a cycle over the discovered jobs with a positive
    /// concurrency bound. No job is in flight and no outcome recorded.
    pub fn new(jobs: Vec<RepositoryDetails>, bound: usize) -> (c: Cycle)
        requires
            bound >= 1,
        ensures
            c@.wf(),
            c@.pending == jobs@,
            c@.in_flight == 0,
            c@.bound == bound as nat,
            c@.outcomes == Seq::<Outcome>::empty(),
    {
        let c = Cycle { pending: jobs, in_flight: 0, bound, outcomes: Vec::new() };
        proof {
            assert(c@.outcomes =~= Seq::<Outcome>::empty());
        }
        c
    }

    /// Whether a job may be admitted now: a slot is free under the bound
    /// and a job is still pending.
    pub fn can_admit(&self) -> (b: bool)
        ensures
            b == self@.can_admit(),
    {
        self.in_flight < self.bound && self.pending.len() > 0
    }

    /// Admits the next pending job into a free slot and hands it out for
    /// execution. The count of in-flight jobs rises by one and stays
    /// within the bound; nothing else changes.
    pub fn start_next(&mut self) -> (job: RepositoryDetails)
        requires
            old(self)@.wf(),
            old(self)@.can_admit(),
        ensures
            final(self)@ == old(self)@.after_admit(),
            final(self)@.wf(),
            job == old(self)@.admitted_job(),
            final(self)@.total() == old(self)@.total(),
    {
        let job = self.pending.pop().unwrap();
        self.in_flight = self.in_flight + 1;
        proof {
            assert(self@.pending =~= old(self)@.pending.drop_last());
            assert(self@ =~= old(self)@.after_admit());
        }
        job
    }

    /// Records the terminal outcome of one in-flight job, whatever its
    /// status: the slot frees, exactly this outcome is appended, and no
    /// other job's state is touched.
    pub fn complete(&mut self, outcome: Outcome)
        requires
            old(self)@.wf(),
            old(self)@.in_flight >= 1,
        ensures
            final(self)@ == old(self)@.after_complete(outcome),
            final(self)@.wf(),
            final(self)@.total() == old(self)@.total(),
    {
        self.in_flight = self.in_flight - 1;
        self.outcomes.push(outcome);
        proof {
            assert(self@ =~= old(self)@.after_complete(outcome));
        }
    }

    /// How many admitted jobs have not reached an outcome yet, so a
    /// driver can test `complete`'s precondition rather than rely on
    /// its own join accounting.
    pub fn in_flight(&self) -> (n: usize)
        ensures
            n == self@.in_flight,
    {
        self.in_flight
    }

    /// Whether the cycle is over: nothing pending, nothing in flight.
    pub fn done(&self) -> (b: bool)
        ensures
            b == self@.done(),
    {
        self.pending.len() == 0 && self.in_flight == 0
    }

    /// The outcomes recorded so far, for logging at the end of a cycle.
    pub fn outcomes(&self) -> (o: &Vec<Outcome>)
        ensures
            o@ == self@.outcomes,
    {
        &self.outcomes
    }
}

/// Bounded concurrency: in every reachable cycle state at most `bound`
/// jobs are in flight, and neither admitting (allowed only when a slot
/// is free) nor completing a job can break that bound.
pub proof fn lemma_bounded_concurrency(v: CycleView, o: Outcome)
    requires
        v.wf(),
    ensures
        v.in_flight <= v.bound,
        v.can_admit() ==> v.after_admit().wf(),
        v.in_flight >= 1 ==> v.after_complete(o).wf(),
{
}

/// Exactly-once reporting: admission and completion both preserve the
/// cycle's job accounting, completion appends exactly the outcome it was
/// given, and in a finished cycle the recorded outcomes are exactly as
/// many as the jobs the cycle was given.
pub proof fn lemma_outcome_accounting(v: CycleView, o: Outcome)
    requires
        v.wf(),
    ensures
        v.can_admit() ==> v.after_admit().total() == v.total(),
        v.in_flight >= 1 ==> v.after_complete(o).total() == v.total(),
        v.after_complete(o).outcomes == v.outcomes.push(o),
        v.done() ==> v.outcomes.len() == v.total(),
{
}

/// Fault isolation: completing job A with any outcome — a failure or a
/// timeout as much as a success — records exactly A's outcome and frees
/// one slot; completing B afterwards records B's outcome unchanged after
/// A's, whatever A's status was, and the pending jobs are untouched.
pub proof fn lemma_fault_isolation(v: CycleView, a: Outcome, b: Outcome)
    requires
        v.wf(),
        v.in_flight >= 2,
    ensures
        v.after_complete(a).after_complete(b).outcomes == v.outcomes.push(a).push(b),
        v.after_complete(a).after_complete(b).pending == v.pending,
        v.after_complete(a).after_complete(b).wf(),
{
}

/// Timeout enforcement, on the scheduler's side: a job abandoned at its
/// deadline completes like any other, so when every slot was full and
/// jobs are still pending, recording the timeout immediately lets the
/// next job in — a stuck job cannot stall the cycle.
pub proof fn lemma_timeout_releases_slot(v: CycleView, o: Outcome)
    requires
        v.wf(),
        v.in_flight == v.bound,
        v.pending.len() > 0,
    ensures
        v.after_complete(o).can_admit(),
{
}

} // verus!
