//! The dispatcher of a fixed-size worker pool.
//!
//! `ThreadPool` holds the pool's shared state: its workers and the work queue
//! between submitters and workers. Every decision of the pool is a method
//! here: accepting a job, handing the next message to a worker that asks for
//! one, and starting shutdown. The threads, the blocking and the job bodies
//! belong to the caller, which holds the pool behind a lock and calls these
//! methods under it, so each method is one atomic step.
use vstd::prelude::*;

verus! {

/// What travels on the work queue: a job, named by its id, or the signal that
/// tells exactly one worker to stop.
#[derive(Clone, Copy, Debug, PartialEq, Eq, Structural)]
pub enum Message {
    NewJob(u64),
    Terminate,
}

/// A worker runs until it receives a `Terminate`, and never again after it.
#[derive(Clone, Copy, Debug, PartialEq, Eq, Structural)]
pub enum WorkerState {
    Running,
    Stopped,
}

/// A worker of the pool, known by its index.
#[derive(Clone, Copy, Debug)]
pub struct Worker {
    pub id: usize,
    pub state: WorkerState,
}

impl Worker {
    pub fn new(id: usize) -> (w: Worker)
        ensures
            w.id == id,
            w.state == WorkerState::Running,
    {
        Worker { id, state: WorkerState::Running }
    }
}

/// Why the pool refused a job.
#[derive(Clone, Copy, Debug, PartialEq, Eq, Structural)]
pub enum PoolError {
    /// Shutdown has begun: the pool takes no more work.
    ShutDown,
}

/// The abstract state of a pool.
pub struct PoolView {
    /// The state of each worker, by id.
    pub workers: Seq<WorkerState>,
    /// The work queue, oldest message first.
    pub queue: Seq<Message>,
    /// How many jobs were accepted; jobs get the ids `0..submitted` in order.
    pub submitted: nat,
    /// Whether shutdown has begun.
    pub shutting_down: bool,
    /// The ids of the jobs handed to workers, in the order they left the queue.
    pub dispatched: Seq<u64>,
}

/// The ids that the first `n` accepted jobs receive.
pub open spec fn ids_upto(n: nat) -> Seq<u64> {
    Seq::new(n, |i: int| i as u64)
}

/// How many workers are still running.
pub open spec fn running_count(s: Seq<WorkerState>) -> nat
    decreases s.len(),
{
    if s.len() == 0 {
        0
    } else {
        running_count(s.drop_last()) + if s.last() == WorkerState::Running {
            1nat
        } else {
            0nat
        }
    }
}

/// The state after a job is accepted.
pub open spec fn submit_step(v: PoolView) -> PoolView {
    PoolView {
        queue: v.queue.push(Message::NewJob(v.submitted as u64)),
        submitted: v.submitted + 1,
        ..v
    }
}

/// The state after worker `w` takes the message at the head of a non-empty
/// queue: a job is recorded as dispatched, a `Terminate` stops the worker.
pub open spec fn receive_step(v: PoolView, w: int) -> PoolView {
    match v.queue[0] {
        Message::NewJob(id) => PoolView {
            queue: v.queue.drop_first(),
            dispatched: v.dispatched.push(id),
            ..v
        },
        Message::Terminate => PoolView {
            queue: v.queue.drop_first(),
            workers: v.workers.update(w, WorkerState::Stopped),
            ..v
        },
    }
}

/// The state after shutdown begins: one `Terminate` per worker is queued
/// behind whatever is already waiting.
pub open spec fn shutdown_step(v: PoolView) -> PoolView {
    PoolView {
        queue: v.queue + Seq::new(v.workers.len(), |i: int| Message::Terminate),
        shutting_down: true,
        ..v
    }
}

/// The dispatcher's state: the workers and the work queue. Since no job is
/// accepted once shutdown begins, the queue is always some jobs followed by
/// some `Terminate` messages, and is held that way.
pub struct ThreadPool {
    workers: Vec<Worker>,
    /// Ids of the queued jobs, oldest first.
    jobs: Vec<u64>,
    /// The `Terminate` messages queued behind the jobs.
    terminates: usize,
    /// Workers that have stopped.
    stopped: usize,
    submitted: u64,
    shutting_down: bool,
    dispatched: Ghost<Seq<u64>>,
}

impl View for ThreadPool {
    type V = PoolView;

    closed spec fn view(&self) -> PoolView {
        PoolView {
            workers: self.workers@.map_values(|w: Worker| w.state),
            queue: self.jobs@.map_values(|j: u64| Message::NewJob(j)) + Seq::new(
                self.terminates as nat,
                |i: int| Message::Terminate,
            ),
            submitted: self.submitted as nat,
            shutting_down: self.shutting_down,
            dispatched: self.dispatched@,
        }
    }
}

proof fn lemma_running_count_bound(s: Seq<WorkerState>)
    ensures
        running_count(s) <= s.len(),
    decreases s.len(),
{
    if s.len() > 0 {
        lemma_running_count_bound(s.drop_last());
    }
}

proof fn lemma_running_count_all(n: nat)
    ensures
        running_count(Seq::new(n, |i: int| WorkerState::Running)) == n,
    decreases n,
{
    if n > 0 {
        let s = Seq::new(n, |i: int| WorkerState::Running);
        assert(s.drop_last() =~= Seq::new((n - 1) as nat, |i: int| WorkerState::Running));
        lemma_running_count_all((n - 1) as nat);
    }
}

proof fn lemma_running_count_full(s: Seq<WorkerState>)
    requires
        forall|i: int| 0 <= i < s.len() ==> s[i] == WorkerState::Running,
    ensures
        running_count(s) == s.len(),
{
    assert(s =~= Seq::new(s.len(), |i: int| WorkerState::Running));
    lemma_running_count_all(s.len());
}

proof fn lemma_running_count_stop(s: Seq<WorkerState>, w: int)
    requires
        0 <= w < s.len(),
        s[w] == WorkerState::Running,
    ensures
        running_count(s.update(w, WorkerState::Stopped)) + 1 == running_count(s),
    decreases s.len(),
{
    let t = s.update(w, WorkerState::Stopped);
    if w == s.len() - 1 {
        assert(t.drop_last() =~= s.drop_last());
    } else {
        assert(t.drop_last() =~= s.drop_last().update(w, WorkerState::Stopped));
        lemma_running_count_stop(s.drop_last(), w);
    }
}

proof fn lemma_running_count_stop_bound(s: Seq<WorkerState>, w: int)
    requires
        0 <= w < s.len(),
        s[w] != WorkerState::Running,
    ensures
        running_count(s) < s.len(),
    decreases s.len(),
{
    lemma_running_count_bound(s.drop_last());
    if w < s.len() - 1 {
        lemma_running_count_stop_bound(s.drop_last(), w);
    }
}

impl ThreadPool {
    /// The pool's own invariant.
    pub closed spec fn wf(&self) -> bool {
        let states = self@.workers;
        &&& self.workers@.len() > 0
        &&& forall|i: int| 0 <= i < self.workers@.len() ==> (#[trigger] self.workers@[i]).id == i
        &&& self.dispatched@ + self.jobs@ =~= ids_upto(self.submitted as nat)
        &&& self.stopped + running_count(states) == states.len()
        &&& !self.shutting_down ==> self.terminates == 0 && self.stopped == 0
        &&& self.shutting_down ==> self.terminates == running_count(states)
        &&& self.stopped > 0 ==> self.jobs@.len() == 0
    }

    /// A pool of `size` running workers with ids `0..size` and an empty queue.
    pub fn new(size: usize) -> (pool: ThreadPool)
        requires
            size > 0,
        ensures
            pool.wf(),
            pool@.workers == Seq::new(size as nat, |i: int| WorkerState::Running),
            running_count(pool@.workers) == size,
            pool@.queue.len() == 0,
            pool@.submitted == 0,
            !pool@.shutting_down,
            pool@.dispatched.len() == 0,
    {
        let mut workers: Vec<Worker> = Vec::with_capacity(size);
        let mut id: usize = 0;
        while id < size
            invariant
                id <= size,
                workers@.len() == id,
                forall|i: int| 0 <= i < id ==> (#[trigger] workers@[i]).id == i
                    && workers@[i].state == WorkerState::Running,
            decreases size - id,
        {
            workers.push(Worker::new(id));
            id = id + 1;
        }
        let pool = ThreadPool {
            workers,
            jobs: Vec::new(),
            terminates: 0,
            stopped: 0,
            submitted: 0,
            shutting_down: false,
            dispatched: Ghost(Seq::empty()),
        };
        proof {
            assert(pool@.workers =~= Seq::new(size as nat, |i: int| WorkerState::Running));
            lemma_running_count_all(size as nat);
            assert(pool.dispatched@ + pool.jobs@ =~= ids_upto(0));
            assert(pool@.queue =~= Seq::empty());
        }
        pool
    }

    /// Accepts a job: it is queued as `NewJob(id)` with the next id, which is
    /// returned. Once shutdown has begun the pool refuses, and nothing changes.
    pub fn execute(&mut self) -> (r: Result<u64, PoolError>)
        requires
            old(self).wf(),
            old(self)@.submitted < u64::MAX,
        ensures
            final(self).wf(),
            old(self)@.shutting_down ==> r == Err::<u64, PoolError>(PoolError::ShutDown)
                && final(self)@ == old(self)@,
            !old(self)@.shutting_down ==> r == Ok::<u64, PoolError>(old(self)@.submitted as u64)
                && final(self)@ == submit_step(old(self)@),
    {
        if self.shutting_down {
            return Err(PoolError::ShutDown);
        }
        let id = self.submitted;
        self.jobs.push(id);
        self.submitted = id + 1;
        proof {
            assert(ids_upto(self.submitted as nat) =~= ids_upto(id as nat).push(id));
            assert(self.dispatched@ + self.jobs@ =~= ids_upto(self.submitted as nat));
            assert(self@.queue =~= old(self)@.queue.push(Message::NewJob(id)));
        }
        Ok(id)
    }

    /// Worker `worker` asks for its next message. On an empty queue there is
    /// none and nothing changes; otherwise the worker takes the message at
    /// the head, and a `Terminate` stops it.
    pub fn next_message(&mut self, worker: usize) -> (r: Option<Message>)
        requires
            old(self).wf(),
            worker < old(self)@.workers.len(),
            old(self)@.workers[worker as int] == WorkerState::Running,
        ensures
            final(self).wf(),
            old(self)@.queue.len() == 0 ==> r == None::<Message> && final(self)@ == old(self)@,
            old(self)@.queue.len() > 0 ==> r == Some(old(self)@.queue[0]) && final(self)@
                == receive_step(old(self)@, worker as int),
    {
        let ghost pre = self@;
        if self.jobs.len() > 0 {
            let id = self.jobs.remove(0);
            proof {
                self.dispatched@ = self.dispatched@.push(id);
                assert(self.dispatched@ + self.jobs@ =~= old(self).dispatched@ + old(self).jobs@);
                assert(pre.queue[0] == Message::NewJob(id));
                assert(self@.queue =~= pre.queue.drop_first());
                assert(self@.workers =~= pre.workers);
            }
            Some(Message::NewJob(id))
        } else if self.terminates > 0 {
            let n = self.workers.len();
            proof {
                lemma_running_count_bound(pre.workers);
                lemma_running_count_stop(pre.workers, worker as int);
                assert(pre.queue[0] == Message::Terminate);
                assert(self.stopped + 1 <= n);
            }
            self.terminates = self.terminates - 1;
            self.stopped = self.stopped + 1;
            let mut w = self.workers[worker];
            w.state = WorkerState::Stopped;
            self.workers.set(worker, w);
            proof {
                assert(self@.queue =~= pre.queue.drop_first());
                assert(self@.workers =~= pre.workers.update(worker as int, WorkerState::Stopped));
                assert(self.workers@[worker as int].id == worker);
            }
            Some(Message::Terminate)
        } else {
            proof {
                assert(pre.queue.len() == 0);
            }
            None
        }
    }

    /// Begins shutdown: one `Terminate` per worker is queued behind the jobs
    /// already waiting, and no job is accepted after. Returns the ids of the
    /// workers in the order in which to wait for them, worker 0 first. A second
    /// call changes nothing and returns no ids.
    pub fn shutdown(&mut self) -> (order: Vec<usize>)
        requires
            old(self).wf(),
        ensures
            final(self).wf(),
            old(self)@.shutting_down ==> final(self)@ == old(self)@ && order@.len() == 0,
            !old(self)@.shutting_down ==> final(self)@ == shutdown_step(old(self)@) && order@
                == Seq::new(old(self)@.workers.len(), |i: int| i as usize),
    {
        let mut order: Vec<usize> = Vec::new();
        if self.shutting_down {
            return order;
        }
        let n = self.workers.len();
        let mut i: usize = 0;
        while i < n
            invariant
                i <= n,
                n == self.workers@.len(),
                order@ == Seq::new(i as nat, |k: int| k as usize),
            decreases n - i,
        {
            order.push(i);
            i = i + 1;
            proof {
                assert(order@ =~= Seq::new(i as nat, |k: int| k as usize));
            }
        }
        self.terminates = n;
        self.shutting_down = true;
        proof {
            assert forall|k: int| 0 <= k < n implies self@.workers[k] == WorkerState::Running by {
                if self@.workers[k] != WorkerState::Running {
                    lemma_running_count_bound(self@.workers);
                    lemma_running_count_stop_bound(self@.workers, k);
                }
            }
            lemma_running_count_full(self@.workers);
            assert(self@.queue =~= old(self)@.queue + Seq::new(n as nat, |k: int| Message::Terminate));
        }
        order
    }

    pub fn worker_count(&self) -> (r: usize)
        requires
            self.wf(),
        ensures
            r == self@.workers.len(),
    {
        self.workers.len()
    }

    /// Whether worker `worker` is still running.
    pub fn is_running(&self, worker: usize) -> (r: bool)
        requires
            self.wf(),
            worker < self@.workers.len(),
        ensures
            r == (self@.workers[worker as int] == WorkerState::Running),
    {
        match self.workers[worker].state {
            WorkerState::Running => true,
            WorkerState::Stopped => false,
        }
    }

    /// How many messages wait in the queue.
    pub fn pending(&self) -> (r: usize)
        requires
            self.wf(),
            self@.queue.len() <= usize::MAX,
        ensures
            r == self@.queue.len(),
    {
        self.jobs.len() + self.terminates
    }

    /// How many jobs were accepted so far.
    pub fn submitted_count(&self) -> (r: u64)
        ensures
            r == self@.submitted,
    {
        self.submitted
    }

    pub fn is_shutting_down(&self) -> (r: bool)
        ensures
            r == self@.shutting_down,
    {
        self.shutting_down
    }

    /// Whether shutdown has completed: every worker has stopped.
    pub fn is_finished(&self) -> (r: bool)
        requires
            self.wf(),
        ensures
            r == (running_count(self@.workers) == 0),
    {
        self.stopped == self.workers.len()
    }

    /// Jobs leave the queue before any `Terminate` does: in the queue no job
    /// stands behind a `Terminate`, and once a worker has stopped no job waits.
    pub proof fn lemma_jobs_leave_before_terminate(&self)
        requires
            self.wf(),
        ensures
            forall|i: int, j: int|
                0 <= i < j < self@.queue.len() && self@.queue[i] == Message::Terminate
                    ==> self@.queue[j] == Message::Terminate,
            running_count(self@.workers) < self@.workers.len() ==> forall|i: int|
                0 <= i < self@.queue.len() ==> self@.queue[i] == Message::Terminate,
    {
        let k = self.jobs@.len();
        assert forall|i: int| 0 <= i < self@.queue.len() implies (self@.queue[i]
            == Message::Terminate) == (i >= k) by {
            if i < k {
                assert(self@.queue[i] == Message::NewJob(self.jobs@[i]));
            }
        }
    }

    /// Once shutdown has begun the queue holds the jobs accepted before it,
    /// followed by exactly one `Terminate` for each worker still running: no
    /// message joins it after, and each message a worker takes removes one.
    /// The queue is empty exactly when every worker has stopped.
    pub proof fn lemma_shutdown_bounded(&self)
        requires
            self.wf(),
            self@.shutting_down,
        ensures
            running_count(self@.workers) <= self@.queue.len(),
            forall|i: int|
                0 <= i < self@.queue.len() ==> ((self@.queue[i] == Message::Terminate) == (i
                    >= self@.queue.len() - running_count(self@.workers))),
            (running_count(self@.workers) == 0) == (self@.queue.len() == 0),
    {
        let k = self.jobs@.len();
        lemma_running_count_bound(self@.workers);
        assert forall|i: int| 0 <= i < self@.queue.len() implies (self@.queue[i]
            == Message::Terminate) == (i >= k) by {
            if i < k {
                assert(self@.queue[i] == Message::NewJob(self.jobs@[i]));
            }
        }
    }

    /// When every worker has stopped, every accepted job has been handed to
    /// exactly one worker: the queue is empty, and the jobs dispatched are the
    /// ids `0..submitted`, each once, none lost and none twice, whatever the
    /// order in which submissions, receives and shutdown came.
    pub proof fn lemma_every_job_dispatched_once(&self)
        requires
            self.wf(),
            running_count(self@.workers) == 0,
        ensures
            self@.queue.len() == 0,
            self@.dispatched == ids_upto(self@.submitted),
            self@.dispatched.len() == self@.submitted,
            self@.dispatched.no_duplicates(),
            forall|id: u64| id < self@.submitted ==> self@.dispatched.contains(id),
    {
        assert(self.jobs@ =~= Seq::<u64>::empty());
        assert(self.dispatched@ =~= self.dispatched@ + self.jobs@);
        assert forall|id: u64| id < self@.submitted implies self@.dispatched.contains(id) by {
            assert(self@.dispatched[id as int] == id);
        }
    }
}

} // verus!
