//! The bounded worker pool, modelled as a state machine.
//!
//! The pool owns a fixed set of workers and the producer side of an
//! unbounded FIFO job queue. Jobs are identified by tickets (`u64`); the
//! closures they stand for live outside the verified core. Every transition
//! of the real pool — submitting a job, a worker claiming the next job,
//! a worker finishing a job, closing the producer side, joining a stopped
//! worker — is a method here with an exact contract, and the runtime drives
//! these methods under one lock so that claiming is mutually exclusive while
//! execution is not.

use vstd::prelude::*;

verus! {

/// Errors returned by pool-level operations.
#[derive(Clone, Copy, Debug, PartialEq, Eq, Structural)]
pub enum PoolError {
    /// The requested pool size was zero: no pool is created.
    ConfigurationError,
    /// A job was submitted after shutdown had begun.
    QueueClosedError,
}

/// The lifecycle of one worker.
#[derive(Clone, Copy, Debug, PartialEq, Eq, Structural)]
pub enum WorkerPhase {
    /// Blocked on the queue, ready to claim the next job.
    Waiting,
    /// Running the job it claimed, named by the job's ticket.
    Executing(u64),
    /// Has observed the queue closed and empty; runs no further job.
    Stopped,
}

/// One worker: an ordinal identity fixed at construction, and a phase.
#[derive(Clone, Copy, Debug, PartialEq, Eq, Structural)]
pub struct Worker {
    pub id: usize,
    pub phase: WorkerPhase,
}

/// What a worker's exclusive claim on the queue's consumer side yields.
#[derive(Clone, Copy, Debug, PartialEq, Eq, Structural)]
pub enum ClaimOutcome {
    /// The job with this ticket was handed to the claiming worker.
    Execute(u64),
    /// The queue is closed and drained: the worker stops for good.
    Stop,
    /// The queue is open but empty: the worker keeps waiting.
    Wait,
}

/// The pool: a fixed collection of workers, the FIFO queue of pending job
/// tickets, the record of tickets handed out for execution, and the state
/// of the producer side.
pub struct ThreadPool {
    /// The workers, indexed by their ordinal id.
    pub workers: Vec<Worker>,
    /// Whether the producer side is still open for submissions.
    pub accepting: bool,
    /// Tickets submitted and not yet claimed, oldest first.
    pub queue: Vec<u64>,
    /// Tickets handed to a worker for execution, in claim order. A claimed
    /// job always runs to completion: there is no cancellation.
    pub executed: Vec<u64>,
    /// How many workers have been joined during shutdown; workers are
    /// joined in ascending id order, so these are ids `0 .. joined`.
    pub joined: usize,
    /// Every ticket ever accepted by `execute`, in submission order.
    pub submitted: Ghost<Seq<u64>>,
}

impl ThreadPool {
    /// Well-formedness: the invariant that construction establishes and
    /// every transition preserves.
    pub open spec fn wf(self) -> bool {
        // the pool size is positive and never changes
        &&& self.workers@.len() >= 1
        // each worker carries its own index as its immutable identity
        &&& forall|i: int|
            0 <= i < self.workers@.len() ==> (#[trigger] self.workers@[i]).id == i
        // workers are joined in ascending id order, and only stopped ones
        &&& self.joined <= self.workers@.len()
        &&& forall|i: int| 0 <= i < self.joined ==> (#[trigger] self.workers@[i]).phase is Stopped
        // conservation: tickets handed out, then tickets still pending,
        // is exactly the submission sequence — nothing lost, nothing
        // duplicated, FIFO order kept
        &&& self.executed@ + self.queue@ == self.submitted@
        // a worker stops only once the producer side is closed and the
        // queue is drained; the queue never refills after that
        &&& (exists|i: int|
            0 <= i < self.workers@.len() && (#[trigger] self.workers@[i]).phase is Stopped)
            ==> (!self.accepting && self.queue@.len() == 0)
    }

    /// A worker may claim the queue's consumer side exactly when it exists
    /// and is in its waiting phase.
    pub open spec fn can_claim(self, w: int) -> bool {
        &&& 0 <= w < self.workers@.len()
        &&& self.workers@[w].phase is Waiting
    }

    /// Creates a pool of `size` workers, each waiting on an empty, open
    /// queue. A size of zero is a configuration error and creates nothing.
    pub fn new(size: usize) -> (r: Result<ThreadPool, PoolError>)
        ensures
            size == 0 ==> r == Result::<ThreadPool, PoolError>::Err(PoolError::ConfigurationError),
            size >= 1 ==> (r matches Ok(p) && {
                &&& p.wf()
                &&& p.workers@.len() == size
                &&& forall|i: int|
                    0 <= i < size ==> (#[trigger] p.workers@[i]).phase is Waiting
                &&& p.accepting
                &&& p.queue@ =~= Seq::<u64>::empty()
                &&& p.executed@ =~= Seq::<u64>::empty()
                &&& p.submitted@ =~= Seq::<u64>::empty()
                &&& p.joined == 0
            }),
    {
        if size == 0 {
            return Err(PoolError::ConfigurationError);
        }
        let mut workers: Vec<Worker> = Vec::new();
        let mut id: usize = 0;
        while id < size
            invariant
                id <= size,
                workers@.len() == id,
                forall|i: int| 0 <= i < id ==> (#[trigger] workers@[i]).id == i,
                forall|i: int| 0 <= i < id ==> (#[trigger] workers@[i]).phase is Waiting,
            decreases size - id,
        {
            workers.push(Worker { id, phase: WorkerPhase::Waiting });
            id = id + 1;
        }
        let pool = ThreadPool {
            workers,
            accepting: true,
            queue: Vec::new(),
            executed: Vec::new(),
            joined: 0,
            submitted: Ghost(Seq::empty()),
        };
        Ok(pool)
    }

    /// Submits one job to the shared queue. Never blocks: the queue is
    /// unbounded. Accepted and appended in FIFO position while the
    /// producer side is open; rejected with `QueueClosedError`, with no
    /// side effect at all, once shutdown has begun.
    pub fn execute(&mut self, job: u64) -> (r: Result<(), PoolError>)
        requires
            old(self).wf(),
        ensures
            final(self).wf(),
            old(self).accepting ==> {
                &&& r == Result::<(), PoolError>::Ok(())
                &&& final(self).queue@ == old(self).queue@.push(job)
                &&& final(self).submitted@ == old(self).submitted@.push(job)
                &&& final(self).executed@ == old(self).executed@
                &&& final(self).workers@ == old(self).workers@
                &&& final(self).accepting
                &&& final(self).joined == old(self).joined
            },
            !old(self).accepting ==> {
                &&& r == Result::<(), PoolError>::Err(PoolError::QueueClosedError)
                &&& *final(self) == *old(self)
            },
    {
        if !self.accepting {
            return Err(PoolError::QueueClosedError);
        }
        self.queue.push(job);
        proof {
            self.submitted@ = self.submitted@.push(job);
        }
        assert(self.executed@ + self.queue@ =~= self.submitted@);
        Ok(())
    }

    /// One worker's exclusive claim on the queue's consumer side. The
    /// claim hands out the oldest pending job, or tells the worker to stop
    /// (closed and drained) or to keep waiting (open and empty). The claim
    /// touches no other worker: exclusivity covers only this operation,
    /// never the execution that follows it.
    pub fn claim(&mut self, w: usize) -> (r: ClaimOutcome)
        requires
            old(self).wf(),
            old(self).can_claim(w as int),
        ensures
            final(self).wf(),
            final(self).accepting == old(self).accepting,
            final(self).submitted@ == old(self).submitted@,
            final(self).joined == old(self).joined,
            old(self).queue@.len() > 0 ==> {
                &&& r == ClaimOutcome::Execute(old(self).queue@[0])
                &&& final(self).queue@ == old(self).queue@.drop_first()
                &&& final(self).executed@ == old(self).executed@.push(old(self).queue@[0])
                &&& final(self).workers@ == old(self).workers@.update(
                    w as int,
                    (Worker { id: w, phase: WorkerPhase::Executing(old(self).queue@[0]) }),
                )
            },
            old(self).queue@.len() == 0 && !old(self).accepting ==> {
                &&& r == ClaimOutcome::Stop
                &&& final(self).queue@ == old(self).queue@
                &&& final(self).executed@ == old(self).executed@
                &&& final(self).workers@ == old(self).workers@.update(
                    w as int,
                    (Worker { id: w, phase: WorkerPhase::Stopped }),
                )
            },
            old(self).queue@.len() == 0 && old(self).accepting ==> {
                &&& r == ClaimOutcome::Wait
                &&& *final(self) == *old(self)
            },
    {
        if self.queue.len() > 0 {
            let job = self.queue.remove(0);
            self.executed.push(job);
            self.workers[w] = Worker { id: w, phase: WorkerPhase::Executing(job) };
            assert(self.executed@ + self.queue@ =~= self.submitted@);
            ClaimOutcome::Execute(job)
        } else if !self.accepting {
            self.workers[w] = Worker { id: w, phase: WorkerPhase::Stopped };
            ClaimOutcome::Stop
        } else {
            ClaimOutcome::Wait
        }
    }

    /// A worker finished running its claimed job. Whether the job
    /// succeeded or failed, the failure is contained at the worker
    /// boundary: the worker returns to waiting and the pool's capacity is
    /// unchanged — a bad job never costs a worker.
    pub fn complete(&mut self, w: usize, succeeded: bool)
        requires
            old(self).wf(),
            w < old(self).workers@.len(),
            old(self).workers@[w as int].phase is Executing,
        ensures
            final(self).wf(),
            final(self).workers@ == old(self).workers@.update(
                w as int,
                (Worker { id: w, phase: WorkerPhase::Waiting }),
            ),
            final(self).accepting == old(self).accepting,
            final(self).queue@ == old(self).queue@,
            final(self).executed@ == old(self).executed@,
            final(self).submitted@ == old(self).submitted@,
            final(self).joined == old(self).joined,
    {
        self.workers[w] = Worker { id: w, phase: WorkerPhase::Waiting };
    }

    /// Closes the producer side: no further submission is accepted, while
    /// every job already queued stays to be claimed and run. Idempotent:
    /// a second call changes nothing.
    pub fn begin_shutdown(&mut self)
        requires
            old(self).wf(),
        ensures
            final(self).wf(),
            !final(self).accepting,
            final(self).workers@ == old(self).workers@,
            final(self).queue@ == old(self).queue@,
            final(self).executed@ == old(self).executed@,
            final(self).submitted@ == old(self).submitted@,
            final(self).joined == old(self).joined,
    {
        self.accepting = false;
    }

    /// Joins the next worker, in ascending id order. The caller may join a
    /// worker only once shutdown has begun and that worker has stopped —
    /// the runtime blocks on the worker's thread handle until then.
    /// Returns the joined worker's id.
    pub fn join_next(&mut self) -> (r: usize)
        requires
            old(self).wf(),
            !old(self).accepting,
            old(self).joined < old(self).workers@.len(),
            old(self).workers@[old(self).joined as int].phase is Stopped,
        ensures
            final(self).wf(),
            r == old(self).joined,
            final(self).joined == old(self).joined + 1,
            final(self).workers@ == old(self).workers@,
            final(self).accepting == old(self).accepting,
            final(self).queue@ == old(self).queue@,
            final(self).executed@ == old(self).executed@,
            final(self).submitted@ == old(self).submitted@,
    {
        let id = self.joined;
        let size = self.workers.len();
        assert(id < size);
        self.joined = id + 1;
        id
    }

    /// The number of workers, fixed at construction.
    pub fn size(&self) -> (r: usize)
        ensures
            r == self.workers@.len(),
    {
        self.workers.len()
    }

    /// Whether the producer side still accepts submissions.
    pub fn is_accepting(&self) -> (r: bool)
        ensures
            r == self.accepting,
    {
        self.accepting
    }

    /// How many submitted jobs are still pending in the queue.
    pub fn queue_len(&self) -> (r: usize)
        ensures
            r == self.queue@.len(),
    {
        self.queue.len()
    }

    /// How many jobs have been handed to a worker so far.
    pub fn executed_len(&self) -> (r: usize)
        ensures
            r == self.executed@.len(),
    {
        self.executed.len()
    }

    /// The ticket of the `i`-th job handed out, in claim order.
    pub fn executed_job(&self, i: usize) -> (r: u64)
        requires
            i < self.executed@.len(),
        ensures
            r == self.executed@[i as int],
    {
        self.executed[i]
    }

    /// The phase of worker `w`.
    pub fn worker_phase(&self, w: usize) -> (r: WorkerPhase)
        requires
            w < self.workers@.len(),
        ensures
            r == self.workers@[w as int].phase,
    {
        self.workers[w].phase
    }

    /// How many workers have been joined during shutdown.
    pub fn joined_count(&self) -> (r: usize)
        ensures
            r == self.joined,
    {
        self.joined
    }
}

/// Law (true parallel execution, not queue-lock serialization): for any
/// positive number of jobs, a fresh pool with one worker per job reaches —
/// by submitting every job and letting each worker claim once — a single
/// state in which every worker is mid-execution of its own distinct job
/// and no job has completed. The exclusive claim never serializes the
/// workers behind one another. Returns that saturated pool.
pub fn saturate_fresh_pool(jobs: &Vec<u64>) -> (p: ThreadPool)
    requires
        jobs@.len() >= 1,
    ensures
        p.wf(),
        p.workers@.len() == jobs@.len(),
        forall|i: int|
            0 <= i < jobs@.len() ==> (#[trigger] p.workers@[i]).phase == WorkerPhase::Executing(
                jobs@[i],
            ),
        p.executed@ == jobs@,
        p.queue@.len() == 0,
        p.submitted@ == jobs@,
{
    let n = jobs.len();
    let mut p = ThreadPool::new(n).unwrap();
    assert(p.queue@ =~= jobs@.subrange(0, 0));
    assert(p.submitted@ =~= jobs@.subrange(0, 0));
    let mut k: usize = 0;
    while k < n
        invariant
            p.wf(),
            n == jobs@.len(),
            k <= n,
            p.workers@.len() == n,
            forall|i: int| 0 <= i < n ==> (#[trigger] p.workers@[i]).phase is Waiting,
            p.accepting,
            p.queue@ == jobs@.subrange(0, k as int),
            p.executed@.len() == 0,
            p.submitted@ == jobs@.subrange(0, k as int),
        decreases n - k,
    {
        let _accepted = p.execute(jobs[k]);
        assert(p.queue@ =~= jobs@.subrange(0, k as int + 1));
        assert(p.submitted@ =~= jobs@.subrange(0, k as int + 1));
        k = k + 1;
    }
    assert(p.queue@ =~= jobs@);
    assert(p.submitted@ =~= jobs@);
    let mut w: usize = 0;
    while w < n
        invariant
            p.wf(),
            n == jobs@.len(),
            w <= n,
            p.workers@.len() == n,
            p.accepting,
            forall|i: int|
                0 <= i < w ==> (#[trigger] p.workers@[i]).phase == WorkerPhase::Executing(
                    jobs@[i],
                ),
            forall|i: int| w <= i < n ==> (#[trigger] p.workers@[i]).phase is Waiting,
            p.queue@ == jobs@.subrange(w as int, n as int),
            p.executed@ == jobs@.subrange(0, w as int),
            p.submitted@ == jobs@,
        decreases n - w,
    {
        let c = p.claim(w);
        assert(c == ClaimOutcome::Execute(jobs@[w as int]));
        assert(p.queue@ =~= jobs@.subrange(w as int + 1, n as int));
        assert(p.executed@ =~= jobs@.subrange(0, w as int + 1));
        w = w + 1;
    }
    assert(p.executed@ =~= jobs@);
    p
}

/// Law (conservation): in every reachable pool state, the tickets handed
/// out for execution followed by the tickets still pending are exactly the
/// tickets submitted, in submission order — no job is ever lost or
/// duplicated.
pub proof fn lemma_no_loss_no_duplication(p: ThreadPool)
    requires
        p.wf(),
    ensures
        p.executed@ + p.queue@ == p.submitted@,
{
}

/// Law (drain guarantee): once every worker has stopped, the producer side
/// is closed and every job ever submitted has been handed out for
/// execution, each exactly once, in submission order.
pub proof fn lemma_all_stopped_drains(p: ThreadPool)
    requires
        p.wf(),
        forall|i: int|
            0 <= i < p.workers@.len() ==> (#[trigger] p.workers@[i]).phase is Stopped,
    ensures
        !p.accepting,
        p.executed@ == p.submitted@,
{
    assert(p.workers@[0].phase is Stopped);
    assert(p.queue@.len() == 0);
    assert(p.executed@ + p.queue@ =~= p.executed@);
}

/// Law (shutdown returns only after the drain): when every worker has been
/// joined — which is what a completed shutdown means — every submitted job
/// has been handed out for execution, each exactly once, in submission
/// order.
pub proof fn lemma_shutdown_complete_drains(p: ThreadPool)
    requires
        p.wf(),
        p.joined == p.workers@.len(),
    ensures
        !p.accepting,
        p.executed@ == p.submitted@,
{
    assert(forall|i: int|
        0 <= i < p.workers@.len() ==> (#[trigger] p.workers@[i]).phase is Stopped);
    lemma_all_stopped_drains(p);
}

/// Law (exclusivity covers only the claim): `claim` and `complete` change
/// the worker sequence only by an update at the acting worker's own index
/// (their contracts say so); this law records that any such update leaves
/// every other worker exactly as it was — waiting workers can still
/// claim, and executing workers go on executing, so all workers can be
/// mid-execution at once and a claim never serializes the pool.
pub proof fn lemma_claim_touches_only_the_claimant(
    ws: Seq<Worker>,
    w: int,
    v: int,
    phase: WorkerPhase,
)
    requires
        0 <= w < ws.len(),
        0 <= v < ws.len(),
        v != w,
    ensures
        ws.update(w, (Worker { id: w as usize, phase }))[v] == ws[v],
{
}

/// Law (one worker serializes): in a pool of size one whose single worker
/// is mid-execution, no claim is possible — a second job cannot start
/// until the first completes and releases the worker.
pub proof fn lemma_busy_single_worker_blocks_claims(p: ThreadPool)
    requires
        p.wf(),
        p.workers@.len() == 1,
        p.workers@[0].phase is Executing,
    ensures
        forall|w: int| !p.can_claim(w),
{
}

} // verus!
