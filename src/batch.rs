use vstd::prelude::*;

use crate::outcome::{BatchError, BatchStatus, Outcome};

verus! {

/// Where one job of a batch stands.
#[derive(Debug)]
pub enum Slot {
    /// Not yet handed a permit.
    Pending,
    /// Holding a permit; its transfer is in flight.
    Running,
    /// Finished, with its outcome; its permit is back in the pool.
    Done(Outcome),
}

/// Number of jobs that hold a permit.
pub open spec fn running_count(s: Seq<Slot>) -> nat
    decreases s.len(),
{
    if s.len() == 0 {
        0
    } else {
        running_count(s.drop_last()) + if s.last() is Running {
            1nat
        } else {
            0nat
        }
    }
}

/// The concurrency bound a caller-supplied value stands for: values below one are clamped to one.
pub open spec fn effective_bound(max_concurrent: i32) -> nat {
    if max_concurrent < 1 {
        1
    } else {
        max_concurrent as nat
    }
}

/// Where a batch call stands: jobs still waiting for a permit, all started and some in flight,
/// or finished with a status.
#[derive(Clone, Copy, Debug, PartialEq, Eq, Structural)]
pub enum Phase {
    Dispatching,
    Awaiting,
    Completed(BatchStatus),
}

/// The abstract state of a batch.
pub struct BatchModel {
    /// The concurrency bound `K`.
    pub bound: nat,
    /// One slot per job, indexed by the job's id.
    pub slots: Seq<Slot>,
    /// Jobs are handed permits in id order; this many have been.
    pub dispatched: nat,
    /// Set when the batch was refused or aborted before dispatch.
    pub error: Option<BatchError>,
    /// The jobs a progress event was owed for so far.
    pub notified: Set<nat>,
}

impl BatchModel {
    pub open spec fn running(self) -> nat {
        running_count(self.slots)
    }

    /// A permit is free and a job is waiting for one.
    pub open spec fn can_dispatch(self) -> bool {
        &&& self.error is None
        &&& self.running() < self.bound
        &&& self.dispatched < self.slots.len()
    }

    pub open spec fn all_done(self) -> bool {
        forall|i: int| 0 <= i < self.slots.len() ==> #[trigger] self.slots[i] is Done
    }

    pub open spec fn complete(self) -> bool {
        self.error is Some || self.all_done()
    }

    pub open spec fn all_succeeded(self) -> bool {
        forall|i: int|
            0 <= i < self.slots.len() ==> #[trigger] self.slots[i] == Slot::Done(Outcome::Succeeded)
    }

    pub open spec fn phase(self) -> Phase {
        if self.complete() {
            Phase::Completed(self.status())
        } else if self.dispatched < self.slots.len() {
            Phase::Dispatching
        } else {
            Phase::Awaiting
        }
    }

    /// The jobs that finished with `Succeeded`.
    pub open spec fn succeeded_jobs(self) -> Set<nat> {
        Set::new(|i: nat| i < self.slots.len() && self.slots[i as int] == Slot::Done(Outcome::Succeeded))
    }

    /// `Success` iff the batch was not refused and every job reported `Succeeded`.
    pub open spec fn status(self) -> BatchStatus {
        if self.error is None && self.all_succeeded() {
            BatchStatus::Success
        } else {
            BatchStatus::Failure
        }
    }
}

/// The orchestrator's state for one batch call: a permit pool of `K` permits and one slot per job.
///
/// The caller drives it: `next_job` hands out a permit and the id of the job to start,
/// `finish` records a job's outcome and returns its permit, and `status` gives the aggregate
/// once `is_complete` holds. Every job runs to completion whatever its siblings do.
pub struct Batch {
    bound: usize,
    slots: Vec<Slot>,
    dispatched: usize,
    running: usize,
    error: Option<BatchError>,
    notified: Ghost<Set<nat>>,
}

impl View for Batch {
    type V = BatchModel;

    closed spec fn view(&self) -> BatchModel {
        BatchModel {
            bound: self.bound as nat,
            slots: self.slots@,
            dispatched: self.dispatched as nat,
            error: self.error,
            notified: self.notified@,
        }
    }
}

proof fn lemma_running_count_update(s: Seq<Slot>, i: int, x: Slot)
    requires
        0 <= i < s.len(),
    ensures
        running_count(s.update(i, x)) + (if s[i] is Running {
            1int
        } else {
            0int
        }) == running_count(s) + (if x is Running {
            1int
        } else {
            0int
        }),
    decreases s.len(),
{
    let t = s.update(i, x);
    if i == s.len() - 1 {
        assert(t.drop_last() =~= s.drop_last());
    } else {
        assert(t.drop_last() =~= s.drop_last().update(i, x));
        lemma_running_count_update(s.drop_last(), i, x);
    }
}

proof fn lemma_running_count_zero(s: Seq<Slot>)
    ensures
        running_count(s) == 0 <==> forall|i: int| 0 <= i < s.len() ==> !(#[trigger] s[i] is Running),
    decreases s.len(),
{
    if s.len() > 0 {
        lemma_running_count_zero(s.drop_last());
        if running_count(s) == 0 {
            assert forall|i: int| 0 <= i < s.len() implies !(#[trigger] s[i] is Running) by {
                if i < s.len() - 1 {
                    assert(s[i] == s.drop_last()[i]);
                }
            }
        } else {
            if !(s.last() is Running) {
                let j = choose|j: int| 0 <= j < s.drop_last().len() && #[trigger] s.drop_last()[j] is Running;
                assert(s[j] is Running);
            }
        }
    }
}

proof fn lemma_running_count_pending(s: Seq<Slot>)
    requires
        forall|i: int| 0 <= i < s.len() ==> #[trigger] s[i] is Pending,
    ensures
        running_count(s) == 0,
{
    lemma_running_count_zero(s);
}

impl Batch {
    pub closed spec fn wf(&self) -> bool {
        &&& self.bound >= 1
        &&& self.dispatched <= self.slots@.len()
        &&& self.running == running_count(self.slots@)
        &&& self.running <= self.bound
        &&& forall|i: int| 0 <= i < self.dispatched ==> !(#[trigger] self.slots@[i] is Pending)
        &&& forall|i: int|
            self.dispatched <= i < self.slots@.len() ==> #[trigger] self.slots@[i] is Pending
        &&& self.error is Some ==> self.dispatched == 0
        &&& self.notified@ == self@.succeeded_jobs()
    }

    /// A batch of `job_count` jobs, none started, with `max_concurrent` permits
    /// (clamped to at least one).
    pub fn new(job_count: usize, max_concurrent: i32) -> (r: Batch)
        ensures
            r.wf(),
            r@.bound == effective_bound(max_concurrent),
            r@.slots =~= Seq::new(job_count as nat, |i: int| Slot::Pending),
            r@.dispatched == 0,
            r@.error is None,
            r@.running() == 0,
            r@.notified == Set::<nat>::empty(),
    {
        let bound: usize = if max_concurrent < 1 {
            1
        } else {
            max_concurrent as usize
        };
        let mut slots: Vec<Slot> = Vec::new();
        let mut i: usize = 0;
        while i < job_count
            invariant
                i <= job_count,
                slots@ =~= Seq::new(i as nat, |j: int| Slot::Pending),
            decreases job_count - i,
        {
            slots.push(Slot::Pending);
            i = i + 1;
        }
        proof {
            lemma_running_count_pending(slots@);
        }
        let ghost none = Set::<nat>::empty();
        let b = Batch { bound, slots, dispatched: 0, running: 0, error: None, notified: Ghost(none) };
        assert(b.notified@ =~= b@.succeeded_jobs());
        b
    }

    /// A batch refused before dispatch (its input was malformed): complete, with no jobs.
    pub fn rejected(error: BatchError) -> (r: Batch)
        ensures
            r.wf(),
            r@.bound == 1,
            r@.slots.len() == 0,
            r@.dispatched == 0,
            r@.error == Some(error),
            r@.notified == Set::<nat>::empty(),
    {
        let ghost none = Set::<nat>::empty();
        let b = Batch {
            bound: 1,
            slots: Vec::new(),
            dispatched: 0,
            running: 0,
            error: Some(error),
            notified: Ghost(none),
        };
        assert(b.notified@ =~= b@.succeeded_jobs());
        b
    }

    /// Ends the batch before any job was started (the remote client could not be built).
    pub fn abort(&mut self, error: BatchError)
        requires
            old(self).wf(),
            old(self)@.dispatched == 0,
        ensures
            final(self).wf(),
            final(self)@ == (BatchModel { error: Some(error), ..old(self)@ }),
    {
        self.error = Some(error);
    }

    /// Hands out a permit: the id of the next job to start, if a permit is free and a job waits.
    pub fn next_job(&mut self) -> (r: Option<usize>)
        requires
            old(self).wf(),
        ensures
            final(self).wf(),
            r is Some <==> old(self)@.can_dispatch(),
            r matches Some(id) ==> {
                &&& id == old(self)@.dispatched
                &&& final(self)@ == (BatchModel {
                    slots: old(self)@.slots.update(id as int, Slot::Running),
                    dispatched: (id + 1) as nat,
                    ..old(self)@
                })
                &&& final(self)@.running() == old(self)@.running() + 1
            },
            r is None ==> final(self)@ == old(self)@,
    {
        if self.error.is_some() || self.running >= self.bound || self.dispatched >= self.slots.len() {
            return None;
        }
        let id = self.dispatched;
        proof {
            lemma_running_count_update(self.slots@, id as int, Slot::Running);
        }
        self.slots.set(id, Slot::Running);
        self.dispatched = id + 1;
        self.running = self.running + 1;
        assert(self.notified@ =~= self@.succeeded_jobs());
        Some(id)
    }

    /// Whether job `id` holds a permit.
    pub fn is_running(&self, id: usize) -> (r: bool)
        ensures
            r == (id < self@.slots.len() && self@.slots[id as int] is Running),
    {
        id < self.slots.len() && match self.slots[id] {
            Slot::Running => true,
            _ => false,
        }
    }

    /// Records the outcome of a running job and returns its permit. The result says whether a
    /// progress event is owed: exactly when the job succeeded.
    pub fn finish(&mut self, id: usize, outcome: Outcome) -> (emit: bool)
        requires
            old(self).wf(),
            id < old(self)@.slots.len(),
            old(self)@.slots[id as int] is Running,
        ensures
            final(self).wf(),
            final(self)@ == (BatchModel {
                slots: old(self)@.slots.update(id as int, Slot::Done(outcome)),
                notified: if outcome is Succeeded {
                    old(self)@.notified.insert(id as nat)
                } else {
                    old(self)@.notified
                },
                ..old(self)@
            }),
            final(self)@.running() == old(self)@.running() - 1,
            emit == (outcome is Succeeded),
            !old(self)@.notified.contains(id as nat),
    {
        let emit = outcome.is_succeeded();
        proof {
            lemma_running_count_update(self.slots@, id as int, Slot::Done(outcome));
        }
        assert(!self@.succeeded_jobs().contains(id as nat));
        self.slots.set(id, Slot::Done(outcome));
        self.running = self.running - 1;
        if emit {
            self.notified = Ghost(self.notified@.insert(id as nat));
        }
        assert(self.notified@ =~= self@.succeeded_jobs());
        emit
    }

    /// Number of jobs in the batch.
    pub fn job_count(&self) -> (r: usize)
        ensures
            r == self@.slots.len(),
    {
        self.slots.len()
    }

    /// Number of jobs holding a permit.
    pub fn in_flight(&self) -> (r: usize)
        requires
            self.wf(),
        ensures
            r == self@.running(),
    {
        self.running
    }

    /// The recorded outcome of job `id`, once it has finished.
    pub fn outcome(&self, id: usize) -> (r: Option<Outcome>)
        ensures
            r matches Some(o) ==> id < self@.slots.len() && self@.slots[id as int] == Slot::Done(o),
            r is None ==> id >= self@.slots.len() || !(self@.slots[id as int] is Done),
    {
        if id >= self.slots.len() {
            return None;
        }
        match &self.slots[id] {
            Slot::Done(o) => Some(o.duplicate()),
            _ => None,
        }
    }

    /// The batch's phase.
    pub fn phase(&self) -> (r: Phase)
        requires
            self.wf(),
        ensures
            r == self@.phase(),
    {
        if self.is_complete() {
            Phase::Completed(self.status())
        } else if self.dispatched < self.slots.len() {
            Phase::Dispatching
        } else {
            Phase::Awaiting
        }
    }

    /// Whether the batch has finished: refused or aborted, or every job done.
    pub fn is_complete(&self) -> (r: bool)
        requires
            self.wf(),
        ensures
            r == self@.complete(),
    {
        proof {
            lemma_running_count_zero(self.slots@);
        }
        if self.error.is_some() {
            return true;
        }
        let r = self.dispatched == self.slots.len() && self.running == 0;
        proof {
            if r {
                assert forall|i: int| 0 <= i < self.slots@.len() implies #[trigger] self.slots@[i] is Done by {
                    assert(!(self.slots@[i] is Pending));
                    assert(!(self.slots@[i] is Running));
                }
            } else if self@.all_done() {
                if self.dispatched < self.slots.len() {
                    assert(self.slots@[self.dispatched as int] is Pending);
                }
                assert forall|i: int| 0 <= i < self.slots@.len() implies !(#[trigger] self.slots@[i] is Running) by {
                    assert(self.slots@[i] is Done);
                }
            }
        }
        r
    }

    /// The aggregate status of a finished batch.
    pub fn status(&self) -> (r: BatchStatus)
        requires
            self.wf(),
            self@.complete(),
        ensures
            r == self@.status(),
    {
        if self.error.is_some() {
            return BatchStatus::Failure;
        }
        let mut i: usize = 0;
        while i < self.slots.len()
            invariant
                i <= self.slots@.len(),
                forall|j: int| 0 <= j < i ==> #[trigger] self.slots@[j] == Slot::Done(Outcome::Succeeded),
            decreases self.slots@.len() - i,
        {
            match &self.slots[i] {
                Slot::Done(Outcome::Succeeded) => {},
                _ => {
                    return BatchStatus::Failure;
                },
            }
            i = i + 1;
        }
        BatchStatus::Success
    }
}

/// The number of jobs holding a permit never exceeds the batch's concurrency bound.
pub proof fn lemma_in_flight_within_bound(b: &Batch)
    requires
        b.wf(),
    ensures
        b@.running() <= b@.bound,
{
}

/// A batch with no jobs is complete as soon as it is made, with status `Success`; it hands out
/// no permit and has no job to finish, so no progress event is owed.
pub proof fn lemma_empty_batch_succeeds(b: &Batch)
    requires
        b.wf(),
        b@.slots.len() == 0,
        b@.error is None,
    ensures
        b@.complete(),
        b@.status() == BatchStatus::Success,
        !b@.can_dispatch(),
        b@.running() == 0,
        b@.notified =~= Set::<nat>::empty(),
{
}

/// One job that ended in anything but `Succeeded` makes the whole batch fail, whatever the
/// other jobs did.
pub proof fn lemma_failed_job_fails_batch(m: BatchModel, id: int)
    requires
        0 <= id < m.slots.len(),
        m.slots[id] matches Slot::Done(o) && !(o is Succeeded),
    ensures
        m.status() == BatchStatus::Failure,
{
    assert(m.slots[id] != Slot::Done(Outcome::Succeeded));
}

/// Finishing one job changes that job's slot alone: the outcomes of the other jobs, and whether
/// they are still pending or running, stay as they were.
pub proof fn lemma_finish_leaves_siblings(m: BatchModel, id: int, outcome: Outcome, j: int)
    requires
        0 <= id < m.slots.len(),
        0 <= j < m.slots.len(),
        j != id,
    ensures
        m.slots.update(id, Slot::Done(outcome))[j] == m.slots[j],
{
}

/// Progress events are owed for exactly the jobs that finished with `Succeeded`, in every state
/// a batch can reach: never for a job that ended otherwise, nor for one still pending or running.
pub proof fn lemma_events_match_successes(b: &Batch, id: nat)
    requires
        b.wf(),
    ensures
        b@.notified.contains(id) <==> (id < b@.slots.len() && b@.slots[id as int] == Slot::Done(
            Outcome::Succeeded,
        )),
{
}

/// A download whose content did not match its expected digest gets no progress event and makes
/// the batch fail; a sibling that succeeded keeps its event and its outcome.
pub proof fn lemma_mismatch_fails_batch(b: &Batch, id: nat, sibling: nat)
    requires
        b.wf(),
        id < b@.slots.len(),
        b@.slots[id as int] matches Slot::Done(o) && o is IntegrityMismatch,
    ensures
        b@.status() == BatchStatus::Failure,
        !b@.notified.contains(id),
        sibling < b@.slots.len() && b@.slots[sibling as int] == Slot::Done(Outcome::Succeeded)
            ==> b@.notified.contains(sibling),
{
    lemma_failed_job_fails_batch(b@, id as int);
    assert(!b@.succeeded_jobs().contains(id));
}

/// A job that ended in a local I/O failure or a transfer failure (an upload whose source is
/// missing, say) gets no progress event and makes the batch fail.
pub proof fn lemma_failed_transfer_fails_batch(b: &Batch, id: nat)
    requires
        b.wf(),
        id < b@.slots.len(),
        b@.slots[id as int] matches Slot::Done(o) && (o is IOFailed || o is TransferFailed),
    ensures
        b@.status() == BatchStatus::Failure,
        !b@.notified.contains(id),
{
    lemma_failed_job_fails_batch(b@, id as int);
    assert(!b@.succeeded_jobs().contains(id));
}

/// A finished job no longer holds a permit, so it cannot be finished again: each job gives at
/// most one progress event.
pub proof fn lemma_finished_job_not_running(m: BatchModel, id: int, outcome: Outcome)
    requires
        0 <= id < m.slots.len(),
    ensures
        !(m.slots.update(id, Slot::Done(outcome))[id] is Running),
{
}

} // verus!
