//! Scheduling rules of the bounded worker pool.
//!
//! The pool decides; its caller owns the threads. Each operation takes the
//! event that happened (a task arrived, a worker finished, an idle timer
//! fired) and answers with the action to perform. Tasks and workers are
//! named by numbers. Times are nanoseconds on the caller's monotonic clock.
//!
//! Queue policy: when every worker is busy and the pool is at its limit, a
//! task waits in an unbounded first-in first-out queue. Nothing is rejected.

use std::collections::VecDeque;
use std::time::Duration;
use vstd::prelude::*;

verus! {

/// Idle time after which a worker leaves the pool when none is configured:
/// six seconds.
pub const DEFAULT_KEEP_ALIVE_NANOS: u128 = 6_000_000_000;

/// Workers allowed per unit of detected parallelism when no limit is
/// configured.
pub const WORKERS_PER_CPU: usize = 10;

/// A worker that waits for work, and the time at which it began to wait.
#[derive(Clone, Copy, Debug, PartialEq, Eq, Structural)]
pub struct IdleWorker {
    pub worker: u64,
    pub since: u128,
}

/// A worker and the task that occupies it.
#[derive(Clone, Copy, Debug, PartialEq, Eq, Structural)]
pub struct BusyWorker {
    pub worker: u64,
    pub task: u64,
}

/// What to do with a submitted task.
#[derive(Clone, Copy, Debug, PartialEq, Eq, Structural)]
pub enum Dispatch {
    /// Hand the task to this waiting worker.
    Resume { worker: u64 },
    /// Start a new worker thread under this number and give it the task.
    Start { worker: u64 },
    /// Every worker is busy and the pool is full: the task waits its turn.
    Queued,
}

/// What a worker does after it has finished a task.
#[derive(Clone, Copy, Debug, PartialEq, Eq, Structural)]
pub enum Next {
    /// Run the oldest waiting task, named here.
    Run { task: u64 },
    /// Nothing waits: go idle and arm the keep-alive timer.
    Park,
    /// The pool knows no busy worker of that number; nothing changed.
    Unknown,
}

/// The pool as a mathematical value.
pub struct PoolModel {
    pub max_workers: nat,
    pub keep_alive: nat,
    /// Waiting workers; the one that went idle last stands last.
    pub idle: Seq<IdleWorker>,
    pub busy: Seq<BusyWorker>,
    /// Waiting tasks, oldest first.
    pub queue: Seq<u64>,
    /// How many workers were ever started; the next new worker's number.
    pub spawned: nat,
}

impl PoolModel {
    pub open spec fn fresh(max_workers: nat, keep_alive: nat) -> PoolModel {
        PoolModel {
            max_workers,
            keep_alive,
            idle: Seq::empty(),
            busy: Seq::empty(),
            queue: Seq::empty(),
            spawned: 0,
        }
    }

    /// The pool's invariant: never more workers than the limit, tasks wait
    /// only while every permitted worker is busy, and no worker number is
    /// held twice.
    pub open spec fn wf(self) -> bool {
        &&& self.idle.len() + self.busy.len() <= self.max_workers
        &&& self.queue.len() > 0 ==> self.idle.len() == 0 && self.busy.len() == self.max_workers
        &&& forall|i: int| 0 <= i < self.idle.len() ==> (#[trigger] self.idle[i]).worker < self.spawned
        &&& forall|i: int| 0 <= i < self.busy.len() ==> (#[trigger] self.busy[i]).worker < self.spawned
        &&& forall|i: int, j: int|
            0 <= i < j < self.idle.len() ==> (#[trigger] self.idle[i]).worker != (
            #[trigger] self.idle[j]).worker
        &&& forall|i: int, j: int|
            0 <= i < j < self.busy.len() ==> (#[trigger] self.busy[i]).worker != (
            #[trigger] self.busy[j]).worker
        &&& forall|i: int, j: int|
            0 <= i < self.idle.len() && 0 <= j < self.busy.len() ==> (
            #[trigger] self.idle[i]).worker != (#[trigger] self.busy[j]).worker
    }

    /// Number of live workers, idle and busy.
    pub open spec fn workers(self) -> nat {
        self.idle.len() + self.busy.len()
    }

    /// The tasks that are running, in the order of `busy`.
    pub open spec fn running(self) -> Seq<u64> {
        Seq::new(self.busy.len(), |i: int| self.busy[i].task)
    }

    /// How many more tasks can start at once before one has to wait.
    pub open spec fn free_slots(self) -> nat {
        if self.busy.len() <= self.max_workers {
            (self.max_workers - self.busy.len()) as nat
        } else {
            0
        }
    }

    /// Of `n` tasks submitted in a row, how many start at once.
    pub open spec fn admitted(self, n: nat) -> int {
        if self.free_slots() <= n {
            self.free_slots() as int
        } else {
            n as int
        }
    }

    /// The action that a submitted task calls for.
    pub open spec fn dispatch(self, task: u64) -> Dispatch {
        if self.idle.len() > 0 {
            Dispatch::Resume { worker: self.idle.last().worker }
        } else if self.busy.len() < self.max_workers {
            Dispatch::Start { worker: self.spawned as u64 }
        } else {
            Dispatch::Queued
        }
    }

    /// The pool after a task was submitted.
    pub open spec fn submit(self, task: u64) -> PoolModel {
        if self.idle.len() > 0 {
            PoolModel {
                idle: self.idle.drop_last(),
                busy: self.busy.push(BusyWorker { worker: self.idle.last().worker, task }),
                ..self
            }
        } else if self.busy.len() < self.max_workers {
            PoolModel {
                busy: self.busy.push(BusyWorker { worker: self.spawned as u64, task }),
                spawned: self.spawned + 1,
                ..self
            }
        } else {
            PoolModel { queue: self.queue.push(task), ..self }
        }
    }

    /// The pool after a run of tasks was submitted, first to last.
    pub open spec fn submit_all(self, tasks: Seq<u64>) -> PoolModel
        decreases tasks.len(),
    {
        if tasks.len() == 0 {
            self
        } else {
            self.submit_all(tasks.drop_last()).submit(tasks.last())
        }
    }

    pub open spec fn is_busy(self, worker: u64) -> bool {
        exists|i: int| 0 <= i < self.busy.len() && (#[trigger] self.busy[i]).worker == worker
    }

    pub open spec fn busy_slot(self, worker: u64) -> int {
        choose|i: int| 0 <= i < self.busy.len() && (#[trigger] self.busy[i]).worker == worker
    }

    pub open spec fn is_idle(self, worker: u64) -> bool {
        exists|i: int| 0 <= i < self.idle.len() && (#[trigger] self.idle[i]).worker == worker
    }

    pub open spec fn idle_slot(self, worker: u64) -> int {
        choose|i: int| 0 <= i < self.idle.len() && (#[trigger] self.idle[i]).worker == worker
    }

    /// What a worker that has finished its task is told.
    pub open spec fn outcome(self, worker: u64) -> Next {
        if !self.is_busy(worker) {
            Next::Unknown
        } else if self.queue.len() > 0 {
            Next::Run { task: self.queue[0] }
        } else {
            Next::Park
        }
    }

    /// The pool after a worker has finished its task at time `now`.
    pub open spec fn finish(self, worker: u64, now: u128) -> PoolModel {
        if !self.is_busy(worker) {
            self
        } else if self.queue.len() > 0 {
            PoolModel {
                busy: self.busy.update(
                    self.busy_slot(worker),
                    BusyWorker { worker, task: self.queue[0] },
                ),
                queue: self.queue.drop_first(),
                ..self
            }
        } else {
            PoolModel {
                busy: self.busy.remove(self.busy_slot(worker)),
                idle: self.idle.push(IdleWorker { worker, since: now }),
                ..self
            }
        }
    }

    /// Whether a worker is idle and has been so for the keep-alive time.
    pub open spec fn lapsed(self, worker: u64, now: u128) -> bool {
        self.is_idle(worker) && self.idle[self.idle_slot(worker)].since + self.keep_alive <= now
    }

    /// The numbers of the idle workers, in the order of `idle`.
    pub open spec fn idle_workers(self) -> Seq<u64> {
        Seq::new(self.idle.len(), |i: int| self.idle[i].worker)
    }

    /// The pool after the idle timers of the given workers were examined at
    /// time `now`, first to last.
    pub open spec fn retire_each(self, workers: Seq<u64>, now: u128) -> PoolModel
        decreases workers.len(),
    {
        if workers.len() == 0 {
            self
        } else {
            self.retire_each(workers.drop_last(), now).retire(workers.last(), now)
        }
    }

    /// The pool after a worker's idle timer was examined at time `now`.
    pub open spec fn retire(self, worker: u64, now: u128) -> PoolModel {
        if self.lapsed(worker, now) {
            PoolModel { idle: self.idle.remove(self.idle_slot(worker)), ..self }
        } else {
            self
        }
    }
}

/// The nanoseconds that a `Duration` spans.
pub uninterp spec fn duration_nanos(d: Duration) -> nat;

/// `Duration::as_nanos`: the whole span in nanoseconds, which depends on the
/// duration alone.
#[verifier::external_body]
fn span_nanos(d: Duration) -> (n: u128)
    ensures
        n == duration_nanos(d),
{
    d.as_nanos()
}

/// The worker limit in force: the configured one, or ten workers for each
/// unit of detected parallelism, capped at what a `usize` holds.
pub open spec fn resolved_max_workers(max_workers: Option<usize>, parallelism: usize) -> nat {
    match max_workers {
        Some(n) => n as nat,
        None => if parallelism * WORKERS_PER_CPU <= usize::MAX {
            (parallelism * WORKERS_PER_CPU) as nat
        } else {
            usize::MAX as nat
        },
    }
}

/// The keep-alive time in force, in nanoseconds: the configured one, or six
/// seconds.
pub open spec fn resolved_keep_alive(keep_alive: Option<Duration>) -> nat {
    match keep_alive {
        Some(d) => duration_nanos(d),
        None => DEFAULT_KEEP_ALIVE_NANOS as nat,
    }
}

/// The bounded worker pool's bookkeeping.
pub struct WorkerPool {
    max_workers: usize,
    keep_alive: u128,
    idle: Vec<IdleWorker>,
    busy: Vec<BusyWorker>,
    queue: VecDeque<u64>,
    spawned: u64,
}

impl View for WorkerPool {
    type V = PoolModel;

    closed spec fn view(&self) -> PoolModel {
        PoolModel {
            max_workers: self.max_workers as nat,
            keep_alive: self.keep_alive as nat,
            idle: self.idle@,
            busy: self.busy@,
            queue: self.queue@,
            spawned: self.spawned as nat,
        }
    }
}

impl WorkerPool {
    pub open spec fn wf(&self) -> bool {
        &&& self@.wf()
        &&& self@.max_workers <= usize::MAX
        &&& self@.keep_alive <= u128::MAX
        &&& self@.spawned <= u64::MAX
    }

    /// An empty pool. `parallelism` is the detected number of processors,
    /// used only where `max_workers` is not given.
    pub fn new(max_workers: Option<usize>, keep_alive: Option<Duration>, parallelism: usize) -> (pool:
        WorkerPool)
        ensures
            pool.wf(),
            pool@ == PoolModel::fresh(
                resolved_max_workers(max_workers, parallelism),
                resolved_keep_alive(keep_alive),
            ),
    {
        let limit: usize = match max_workers {
            Some(n) => n,
            None => if parallelism <= usize::MAX / WORKERS_PER_CPU {
                parallelism * WORKERS_PER_CPU
            } else {
                usize::MAX
            },
        };
        let patience: u128 = match keep_alive {
            Some(d) => span_nanos(d),
            None => DEFAULT_KEEP_ALIVE_NANOS,
        };
        let pool = WorkerPool {
            max_workers: limit,
            keep_alive: patience,
            idle: Vec::new(),
            busy: Vec::new(),
            queue: VecDeque::new(),
            spawned: 0,
        };
        assert(pool@.idle =~= Seq::empty());
        assert(pool@.busy =~= Seq::empty());
        assert(pool@.queue =~= Seq::empty());
        pool
    }

    pub fn max_workers(&self) -> (n: usize)
        ensures
            n == self@.max_workers,
    {
        self.max_workers
    }

    /// The keep-alive time in nanoseconds.
    pub fn keep_alive_nanos(&self) -> (n: u128)
        ensures
            n == self@.keep_alive,
    {
        self.keep_alive
    }

    /// Number of live workers, idle and busy.
    pub fn worker_count(&self) -> (n: usize)
        requires
            self.wf(),
        ensures
            n == self@.workers(),
            n <= self@.max_workers,
    {
        self.idle.len() + self.busy.len()
    }

    pub fn busy_count(&self) -> (n: usize)
        ensures
            n == self@.busy.len(),
    {
        self.busy.len()
    }

    pub fn idle_count(&self) -> (n: usize)
        ensures
            n == self@.idle.len(),
    {
        self.idle.len()
    }

    /// Number of tasks that wait for a worker.
    pub fn queued_count(&self) -> (n: usize)
        ensures
            n == self@.queue.len(),
    {
        self.queue.len()
    }

    /// Whether another worker number can still be given out.
    pub fn can_spawn(&self) -> (b: bool)
        ensures
            b == (self@.spawned < u64::MAX),
    {
        self.spawned < u64::MAX
    }

    fn find_busy(&self, worker: u64) -> (r: Option<usize>)
        ensures
            match r {
                Some(i) => i < self.busy@.len() && self.busy@[i as int].worker == worker,
                None => !self@.is_busy(worker),
            },
    {
        let mut i: usize = 0;
        while i < self.busy.len()
            invariant
                i <= self.busy@.len(),
                forall|j: int| 0 <= j < i ==> (#[trigger] self.busy@[j]).worker != worker,
            decreases self.busy@.len() - i,
        {
            if self.busy[i].worker == worker {
                return Some(i);
            }
            i = i + 1;
        }
        None
    }

    fn find_idle(&self, worker: u64) -> (r: Option<usize>)
        ensures
            match r {
                Some(i) => i < self.idle@.len() && self.idle@[i as int].worker == worker,
                None => !self@.is_idle(worker),
            },
    {
        let mut i: usize = 0;
        while i < self.idle.len()
            invariant
                i <= self.idle@.len(),
                forall|j: int| 0 <= j < i ==> (#[trigger] self.idle@[j]).worker != worker,
            decreases self.idle@.len() - i,
        {
            if self.idle[i].worker == worker {
                return Some(i);
            }
            i = i + 1;
        }
        None
    }

    /// Submits one task. An idle worker takes it at once, the one that went
    /// idle last; failing that a new worker is started while the pool is
    /// under its limit; failing that the task joins the end of the queue.
    /// The caller is never made to wait.
    pub fn spawn(&mut self, task: u64) -> (action: Dispatch)
        requires
            old(self).wf(),
            old(self)@.spawned < u64::MAX,
        ensures
            final(self).wf(),
            final(self)@ == old(self)@.submit(task),
            action == old(self)@.dispatch(task),
    {
        proof {
            lemma_submit_keeps_wf(self@, task);
        }
        if self.idle.len() > 0 {
            let last = self.idle.pop().unwrap();
            self.busy.push(BusyWorker { worker: last.worker, task });
            assert(self@.idle =~= old(self)@.idle.drop_last());
            Dispatch::Resume { worker: last.worker }
        } else if self.busy.len() < self.max_workers {
            let worker: u64 = self.spawned;
            self.spawned = self.spawned + 1;
            self.busy.push(BusyWorker { worker, task });
            Dispatch::Start { worker }
        } else {
            self.queue.push_back(task);
            Dispatch::Queued
        }
    }

    /// Reports that `worker` is done with its task at time `now`, whether the
    /// task ended or failed. The worker takes the oldest waiting task if
    /// there is one, and goes idle from `now` otherwise.
    pub fn complete(&mut self, worker: u64, now: u128) -> (next: Next)
        requires
            old(self).wf(),
        ensures
            final(self).wf(),
            final(self)@ == old(self)@.finish(worker, now),
            next == old(self)@.outcome(worker),
    {
        proof {
            lemma_finish_keeps_wf(self@, worker, now);
        }
        match self.find_busy(worker) {
            None => Next::Unknown,
            Some(i) => {
                assert(self@.busy_slot(worker) == i);
                match self.queue.pop_front() {
                    Some(task) => {
                        self.busy.set(i, BusyWorker { worker, task });
                        assert(self@.queue =~= old(self)@.queue.drop_first());
                        Next::Run { task }
                    },
                    None => {
                        self.busy.remove(i);
                        self.idle.push(IdleWorker { worker, since: now });
                        Next::Park
                    },
                }
            },
        }
    }

    /// Examines the idle timer of `worker` at time `now`. Returns `true`, and
    /// removes the worker from the pool, exactly when it is idle and has been
    /// so for at least the keep-alive time; its thread then ends.
    pub fn expire(&mut self, worker: u64, now: u128) -> (retired: bool)
        requires
            old(self).wf(),
        ensures
            final(self).wf(),
            retired == old(self)@.lapsed(worker, now),
            final(self)@ == old(self)@.retire(worker, now),
    {
        proof {
            lemma_retire_keeps_wf(self@, worker, now);
        }
        match self.find_idle(worker) {
            None => false,
            Some(i) => {
                assert(self@.idle_slot(worker) == i);
                let since: u128 = self.idle[i].since;
                if now >= since && now - since >= self.keep_alive {
                    self.idle.remove(i);
                    true
                } else {
                    false
                }
            },
        }
    }
}

/// Submitting a task keeps the pool's invariant.
pub proof fn lemma_submit_keeps_wf(pool: PoolModel, task: u64)
    requires
        pool.wf(),
        pool.spawned < u64::MAX,
    ensures
        pool.submit(task).wf(),
{
    let after = pool.submit(task);
    if pool.idle.len() > 0 {
        let n = pool.busy.len() as int;
        assert forall|i: int, j: int| 0 <= i < j < after.busy.len() implies (
        #[trigger] after.busy[i]).worker != (#[trigger] after.busy[j]).worker by {
            if j == n {
                assert(after.busy[j].worker == pool.idle[pool.idle.len() - 1].worker);
                assert(after.busy[i] == pool.busy[i]);
            } else {
                assert(after.busy[i] == pool.busy[i]);
                assert(after.busy[j] == pool.busy[j]);
            }
        }
        assert forall|i: int, j: int|
            0 <= i < after.idle.len() && 0 <= j < after.busy.len() implies (
        #[trigger] after.idle[i]).worker != (#[trigger] after.busy[j]).worker by {
            assert(after.idle[i] == pool.idle[i]);
            if j == n {
                assert(after.busy[j].worker == pool.idle[pool.idle.len() - 1].worker);
            } else {
                assert(after.busy[j] == pool.busy[j]);
            }
        }
        assert forall|i: int| 0 <= i < after.busy.len() implies (
        #[trigger] after.busy[i]).worker < after.spawned by {
            if i == n {
                assert(after.busy[i].worker == pool.idle[pool.idle.len() - 1].worker);
            } else {
                assert(after.busy[i] == pool.busy[i]);
            }
        }
        assert forall|i: int| 0 <= i < after.idle.len() implies (
        #[trigger] after.idle[i]).worker < after.spawned by {
            assert(after.idle[i] == pool.idle[i]);
        }
        assert forall|i: int, j: int| 0 <= i < j < after.idle.len() implies (
        #[trigger] after.idle[i]).worker != (#[trigger] after.idle[j]).worker by {
            assert(after.idle[i] == pool.idle[i]);
            assert(after.idle[j] == pool.idle[j]);
        }
    } else if pool.busy.len() < pool.max_workers {
        let n = pool.busy.len() as int;
        assert forall|i: int, j: int| 0 <= i < j < after.busy.len() implies (
        #[trigger] after.busy[i]).worker != (#[trigger] after.busy[j]).worker by {
            assert(after.busy[i] == pool.busy[i]);
            if j != n {
                assert(after.busy[j] == pool.busy[j]);
            }
        }
        assert forall|i: int| 0 <= i < after.busy.len() implies (
        #[trigger] after.busy[i]).worker < after.spawned by {
            if i != n {
                assert(after.busy[i] == pool.busy[i]);
            }
        }
    } else {
    }
}

/// A finished task keeps the pool's invariant.
pub proof fn lemma_finish_keeps_wf(pool: PoolModel, worker: u64, now: u128)
    requires
        pool.wf(),
    ensures
        pool.finish(worker, now).wf(),
{
    let after = pool.finish(worker, now);
    if pool.is_busy(worker) {
        let s = pool.busy_slot(worker);
        if pool.queue.len() > 0 {
            assert forall|i: int| 0 <= i < after.busy.len() implies (
            #[trigger] after.busy[i]).worker == pool.busy[i].worker by {}
        } else {
            assert forall|i: int| 0 <= i < after.busy.len() implies #[trigger] after.busy[i]
                == pool.busy[if i < s { i } else { i + 1 }] by {}
            let m = pool.idle.len() as int;
            assert forall|i: int| 0 <= i < after.idle.len() implies #[trigger] after.idle[i] == (
            if i < m {
                pool.idle[i]
            } else {
                IdleWorker { worker, since: now }
            }) by {}
            assert forall|i: int, j: int| 0 <= i < j < after.busy.len() implies (
            #[trigger] after.busy[i]).worker != (#[trigger] after.busy[j]).worker by {
                let a = if i < s { i } else { i + 1 };
                let b = if j < s { j } else { j + 1 };
                assert(after.busy[i] == pool.busy[a]);
                assert(after.busy[j] == pool.busy[b]);
            }
            assert forall|i: int, j: int|
                0 <= i < after.idle.len() && 0 <= j < after.busy.len() implies (
            #[trigger] after.idle[i]).worker != (#[trigger] after.busy[j]).worker by {
                let b = if j < s { j } else { j + 1 };
                assert(after.busy[j] == pool.busy[b]);
                if i < m {
                    assert(after.idle[i] == pool.idle[i]);
                } else {
                    assert(pool.busy[s].worker == worker);
                    if b < s {
                        assert(pool.busy[b].worker != pool.busy[s].worker);
                    } else {
                        assert(pool.busy[s].worker != pool.busy[b].worker);
                    }
                }
            }
            assert forall|i: int, j: int| 0 <= i < j < after.idle.len() implies (
            #[trigger] after.idle[i]).worker != (#[trigger] after.idle[j]).worker by {
                assert(after.idle[i] == pool.idle[i]);
                if j < m {
                    assert(after.idle[j] == pool.idle[j]);
                } else {
                    assert(pool.idle[i].worker != pool.busy[s].worker);
                }
            }
            assert forall|i: int| 0 <= i < after.idle.len() implies (
            #[trigger] after.idle[i]).worker < after.spawned by {
                if i < m {
                    assert(after.idle[i] == pool.idle[i]);
                } else {
                    assert(pool.busy[s].worker < pool.spawned);
                }
            }
            assert forall|i: int| 0 <= i < after.busy.len() implies (
            #[trigger] after.busy[i]).worker < after.spawned by {
                let a = if i < s { i } else { i + 1 };
                assert(after.busy[i] == pool.busy[a]);
            }
        }
    }
}

/// Retiring an idle worker keeps the pool's invariant.
pub proof fn lemma_retire_keeps_wf(pool: PoolModel, worker: u64, now: u128)
    requires
        pool.wf(),
    ensures
        pool.retire(worker, now).wf(),
{
    let after = pool.retire(worker, now);
    if pool.lapsed(worker, now) {
        let s = pool.idle_slot(worker);
        assert forall|i: int| 0 <= i < after.idle.len() implies #[trigger] after.idle[i]
            == pool.idle[if i < s { i } else { i + 1 }] by {}
        assert forall|i: int, j: int| 0 <= i < j < after.idle.len() implies (
        #[trigger] after.idle[i]).worker != (#[trigger] after.idle[j]).worker by {
            let a = if i < s { i } else { i + 1 };
            let b = if j < s { j } else { j + 1 };
            assert(after.idle[i] == pool.idle[a]);
            assert(after.idle[j] == pool.idle[b]);
        }
        assert forall|i: int, j: int|
            0 <= i < after.idle.len() && 0 <= j < after.busy.len() implies (
        #[trigger] after.idle[i]).worker != (#[trigger] after.busy[j]).worker by {
            let a = if i < s { i } else { i + 1 };
            assert(after.idle[i] == pool.idle[a]);
        }
        assert forall|i: int| 0 <= i < after.idle.len() implies (
        #[trigger] after.idle[i]).worker < after.spawned by {
            let a = if i < s { i } else { i + 1 };
            assert(after.idle[i] == pool.idle[a]);
        }
    }
}

/// A run of submitted tasks fills the free slots in order and queues the
/// rest in order, behind what was already waiting.
pub proof fn lemma_submit_all(pool: PoolModel, tasks: Seq<u64>)
    requires
        pool.wf(),
        pool.spawned + tasks.len() <= u64::MAX,
    ensures
        pool.submit_all(tasks).wf(),
        pool.submit_all(tasks).max_workers == pool.max_workers,
        pool.submit_all(tasks).keep_alive == pool.keep_alive,
        pool.submit_all(tasks).spawned <= pool.spawned + tasks.len(),
        pool.submit_all(tasks).running() == pool.running() + tasks.take(
            pool.admitted(tasks.len()),
        ),
        pool.submit_all(tasks).queue == pool.queue + tasks.skip(pool.admitted(tasks.len())),
    decreases tasks.len(),
{
    if tasks.len() == 0 {
        assert(pool.running() + tasks.take(0) =~= pool.running());
        assert(pool.queue + tasks.skip(0) =~= pool.queue);
    } else {
        let init = tasks.drop_last();
        let last = tasks.last();
        lemma_submit_all(pool, init);
        let mid = pool.submit_all(init);
        lemma_submit_keeps_wf(mid, last);
        let after = mid.submit(last);
        let k0 = pool.admitted(init.len());
        let k = pool.admitted(tasks.len());
        assert(mid.running().len() == mid.busy.len());
        assert(pool.running().len() == pool.busy.len());
        assert(init.take(k0).len() == k0);
        assert(mid.busy.len() == pool.busy.len() + k0);
        if mid.idle.len() > 0 || mid.busy.len() < mid.max_workers {
            assert(k0 == init.len());
            assert(k == tasks.len());
            assert(after.running() =~= mid.running().push(last));
            assert(init.take(k0) =~= init);
            assert(tasks.take(k) =~= init.push(last));
            assert(after.running() =~= pool.running() + tasks.take(k));
            assert(tasks.skip(k) =~= Seq::<u64>::empty());
            assert(init.skip(k0) =~= Seq::<u64>::empty());
            assert(after.queue =~= pool.queue + tasks.skip(k));
        } else {
            assert(k0 == pool.free_slots());
            assert(k == k0);
            assert(after.running() =~= mid.running());
            assert(init.take(k0) =~= tasks.take(k));
            assert(init.skip(k0).push(last) =~= tasks.skip(k));
            assert(after.queue =~= pool.queue + tasks.skip(k));
        }
    }
}

/// A burst that fits into the free slots is served without waiting: every
/// task of it starts at once, in the order submitted, and none is queued.
pub proof fn law_burst_within_capacity_runs_at_once(pool: PoolModel, tasks: Seq<u64>)
    requires
        pool.wf(),
        pool.spawned + tasks.len() <= u64::MAX,
        tasks.len() <= pool.free_slots(),
    ensures
        pool.submit_all(tasks).wf(),
        pool.submit_all(tasks).running() == pool.running() + tasks,
        pool.submit_all(tasks).queue == pool.queue,
        forall|k: int|
            0 <= k < tasks.len() ==> pool.submit_all(tasks.take(k)).dispatch(#[trigger] tasks[k])
                != Dispatch::Queued,
{
    lemma_submit_all(pool, tasks);
    assert(tasks.take(tasks.len() as int) =~= tasks);
    assert(pool.queue + tasks.skip(tasks.len() as int) =~= pool.queue);
    assert forall|k: int| 0 <= k < tasks.len() implies pool.submit_all(tasks.take(k)).dispatch(
        #[trigger] tasks[k],
    ) != Dispatch::Queued by {
        let head = tasks.take(k);
        lemma_submit_all(pool, head);
        let mid = pool.submit_all(head);
        assert(mid.running().len() == mid.busy.len());
        assert(pool.running().len() == pool.busy.len());
        assert(head.take(pool.admitted(head.len())).len() == pool.admitted(head.len()));
    }
}

/// A burst larger than the free slots occupies every permitted worker; the
/// tasks beyond the free slots wait, in the order submitted, behind what was
/// already waiting. None is lost.
pub proof fn law_excess_waits_in_order(pool: PoolModel, tasks: Seq<u64>)
    requires
        pool.wf(),
        pool.spawned + tasks.len() <= u64::MAX,
        tasks.len() > pool.free_slots(),
    ensures
        pool.submit_all(tasks).wf(),
        pool.submit_all(tasks).busy.len() == pool.max_workers,
        pool.submit_all(tasks).idle.len() == 0,
        pool.submit_all(tasks).running() == pool.running() + tasks.take(pool.free_slots() as int),
        pool.submit_all(tasks).queue == pool.queue + tasks.skip(pool.free_slots() as int),
{
    lemma_submit_all(pool, tasks);
    let after = pool.submit_all(tasks);
    assert(after.running().len() == after.busy.len());
    assert(pool.running().len() == pool.busy.len());
    assert(tasks.take(pool.free_slots() as int).len() == pool.free_slots());
}

/// A submitted task is kept: it either runs, as the newest running task, or
/// waits, as the newest waiting task.
pub proof fn law_submitted_task_is_kept(pool: PoolModel, task: u64)
    requires
        pool.wf(),
    ensures
        pool.dispatch(task) == Dispatch::Queued ==> pool.submit(task).queue == pool.queue.push(task)
            && pool.submit(task).running() == pool.running(),
        pool.dispatch(task) != Dispatch::Queued ==> pool.submit(task).queue == pool.queue
            && pool.submit(task).running() == pool.running().push(task),
        pool.dispatch(task) == Dispatch::Queued <==> pool.idle.len() == 0 && pool.busy.len()
            == pool.max_workers,
{
    let after = pool.submit(task);
    if pool.dispatch(task) == Dispatch::Queued {
        assert(after.running() =~= pool.running());
    } else {
        assert(after.running() =~= pool.running().push(task));
    }
}

/// A waiting task runs only once a worker has become free, and the oldest
/// waiting task is the one that runs: the worker that reports its task
/// finished takes the head of the queue, and the rest keep their order.
pub proof fn law_oldest_waiting_runs_next(pool: PoolModel, worker: u64, now: u128)
    requires
        pool.wf(),
        pool.is_busy(worker),
        pool.queue.len() > 0,
    ensures
        pool.outcome(worker) == (Next::Run { task: pool.queue[0] }),
        pool.finish(worker, now).wf(),
        pool.finish(worker, now).queue == pool.queue.drop_first(),
        pool.finish(worker, now).running() == pool.running().update(
            pool.busy_slot(worker),
            pool.queue[0],
        ),
        pool.finish(worker, now).busy.len() == pool.max_workers,
{
    lemma_finish_keeps_wf(pool, worker, now);
    assert(pool.finish(worker, now).running() =~= pool.running().update(
        pool.busy_slot(worker),
        pool.queue[0],
    ));
}

/// An idle worker whose keep-alive time has passed leaves the pool: the pool
/// is one worker smaller, and that worker is gone from it.
pub proof fn law_idle_worker_retires(pool: PoolModel, worker: u64, now: u128)
    requires
        pool.wf(),
        pool.lapsed(worker, now),
    ensures
        pool.retire(worker, now).wf(),
        pool.retire(worker, now).workers() + 1 == pool.workers(),
        !pool.retire(worker, now).is_idle(worker),
        !pool.retire(worker, now).is_busy(worker),
{
    lemma_retire_keeps_wf(pool, worker, now);
    let after = pool.retire(worker, now);
    let s = pool.idle_slot(worker);
    assert forall|i: int| 0 <= i < after.idle.len() implies (#[trigger] after.idle[i]).worker
        != worker by {
        let a = if i < s { i } else { i + 1 };
        assert(after.idle[i] == pool.idle[a]);
        if a < s {
            assert(pool.idle[a].worker != pool.idle[s].worker);
        } else {
            assert(pool.idle[s].worker != pool.idle[a].worker);
        }
    }
    assert forall|j: int| 0 <= j < after.busy.len() implies (#[trigger] after.busy[j]).worker
        != worker by {
        assert(pool.idle[s].worker != pool.busy[j].worker);
    }
}

/// A worker whose keep-alive time has not passed, or that is busy, stays.
pub proof fn law_worker_within_keep_alive_stays(pool: PoolModel, worker: u64, now: u128)
    requires
        pool.wf(),
        !pool.lapsed(worker, now),
    ensures
        pool.retire(worker, now) == pool,
{
}

/// New load makes an emptied pool grow again, and whatever is submitted the
/// pool never holds more workers than its limit.
pub proof fn law_growth_is_bounded(pool: PoolModel, tasks: Seq<u64>)
    requires
        pool.wf(),
        pool.spawned + tasks.len() <= u64::MAX,
    ensures
        pool.submit_all(tasks).workers() <= pool.max_workers,
        pool.submit_all(tasks).busy.len() == pool.busy.len() + pool.admitted(tasks.len()),
        pool.workers() == 0 && pool.max_workers > 0 && tasks.len() > 0 ==> pool.submit_all(
            tasks,
        ).workers() > 0,
{
    lemma_submit_all(pool, tasks);
    let after = pool.submit_all(tasks);
    assert(after.running().len() == after.busy.len());
    assert(pool.running().len() == pool.busy.len());
    assert(tasks.take(pool.admitted(tasks.len())).len() == pool.admitted(tasks.len()));
}

/// Once the first `k` idle workers have had their lapsed timers examined,
/// exactly the others are left.
proof fn lemma_retire_prefix(pool: PoolModel, now: u128, k: int)
    requires
        pool.wf(),
        0 <= k <= pool.idle.len(),
        forall|i: int|
            0 <= i < pool.idle.len() ==> (#[trigger] pool.idle[i]).since + pool.keep_alive <= now,
    ensures
        pool.retire_each(pool.idle_workers().take(k), now) == (PoolModel {
            idle: pool.idle.skip(k),
            ..pool
        }),
    decreases k,
{
    let workers = pool.idle_workers().take(k);
    if k == 0 {
        assert(pool.idle.skip(0) =~= pool.idle);
    } else {
        lemma_retire_prefix(pool, now, k - 1);
        assert(workers.drop_last() =~= pool.idle_workers().take(k - 1));
        let mid = pool.retire_each(workers.drop_last(), now);
        let worker = workers.last();
        assert(mid.idle =~= pool.idle.skip(k - 1));
        assert(mid.idle[0] == pool.idle[k - 1]);
        assert(mid.idle[0].worker == worker);
        assert(mid.is_idle(worker));
        let slot = mid.idle_slot(worker);
        assert(mid.idle[slot] == pool.idle[k - 1 + slot]);
        if slot > 0 {
            assert(pool.idle[k - 1].worker != pool.idle[k - 1 + slot].worker);
        }
        assert(slot == 0);
        assert(mid.lapsed(worker, now));
        assert(mid.idle.remove(0) =~= pool.idle.skip(k));
    }
}

/// Under sustained idleness the pool returns to zero: when no worker is busy
/// and every idle worker's keep-alive time has passed, examining their timers
/// leaves a pool without workers. Whatever is busy stays.
pub proof fn law_idle_pool_drains(pool: PoolModel, now: u128)
    requires
        pool.wf(),
        forall|i: int|
            0 <= i < pool.idle.len() ==> (#[trigger] pool.idle[i]).since + pool.keep_alive <= now,
    ensures
        pool.retire_each(pool.idle_workers(), now).idle.len() == 0,
        pool.retire_each(pool.idle_workers(), now).busy == pool.busy,
        pool.retire_each(pool.idle_workers(), now).workers() == pool.busy.len(),
        pool.busy.len() == 0 ==> pool.retire_each(pool.idle_workers(), now).workers() == 0,
{
    lemma_retire_prefix(pool, now, pool.idle.len() as int);
    assert(pool.idle_workers().take(pool.idle.len() as int) =~= pool.idle_workers());
}

} // verus!
