//! The worker pool: a FIFO job queue, a fixed set of workers, and the shutdown
//! protocol that stops each worker with a sentinel of its own.
//!
//! The pool decides; the caller acts. `execute` and `join` put messages on the
//! queue, `dispatch` hands the message at the front to the worker that asks for
//! it and says what that worker does next. Running a job and waiting for a
//! thread are the caller's part.

use std::collections::VecDeque;
use vstd::prelude::*;

verus! {

/// One unit of deferred work, named by the ticket its submitter gave it.
#[derive(Clone, Copy, Debug, PartialEq, Eq, Structural)]
pub struct Job {
    pub ticket: u64,
}

/// What travels on the job queue and on a connection's termination channel.
#[derive(Clone, Copy, Debug, PartialEq, Eq, Structural)]
pub enum Message {
    NewJob(Job),
    Terminate,
}

/// What a worker does after asking the pool for work.
#[derive(Clone, Copy, Debug, PartialEq, Eq, Structural)]
pub enum WorkerAction {
    /// Run this job, then ask again.
    Run(Job),
    /// Leave the loop for good.
    Stop,
    /// Nothing is queued: block until something is, then ask again.
    Wait,
}

/// One worker of a pool.
#[derive(Clone, Copy, Debug, PartialEq, Eq, Structural)]
pub struct Worker {
    /// Position of the worker in its pool.
    pub id: usize,
    /// The pool still holds the handle of the worker's thread: nobody has
    /// waited for it yet.
    pub attached: bool,
    /// The worker has not met a termination sentinel yet.
    pub running: bool,
    /// The job that the worker was handed last and has not come back from.
    pub current: Option<Job>,
}

impl Worker {
    /// What a message makes a worker do.
    pub open spec fn reaction(msg: Message) -> WorkerAction {
        match msg {
            Message::NewJob(job) => WorkerAction::Run(job),
            Message::Terminate => WorkerAction::Stop,
        }
    }

    /// The worker after it has taken `msg` off the queue: at work on the job
    /// that it was handed, or out of its loop.
    pub open spec fn after(self, msg: Message) -> Worker {
        match msg {
            Message::NewJob(job) => Worker { current: Some(job), ..self },
            Message::Terminate => Worker { running: false, current: None, ..self },
        }
    }

    /// The worker with its last job behind it.
    pub open spec fn idle(self) -> Worker {
        Worker { current: None, ..self }
    }

    /// A worker that has just been started.
    pub fn new(id: usize) -> (w: Worker)
        ensures
            w == (Worker { id, attached: true, running: true, current: None }),
    {
        Worker { id, attached: true, running: true, current: None }
    }

    /// One turn of the worker's loop. The worker comes here when the job it
    /// was handed before is done. A job is run; a sentinel ends the loop and
    /// is neither passed on nor put back.
    pub fn handle(&mut self, msg: Message) -> (action: WorkerAction)
        ensures
            action == Worker::reaction(msg),
            *final(self) == old(self).after(msg),
    {
        match msg {
            Message::NewJob(job) => {
                self.current = Some(job);
                WorkerAction::Run(job)
            },
            Message::Terminate => {
                self.running = false;
                self.current = None;
                WorkerAction::Stop
            },
        }
    }
}

/// `n` termination sentinels.
pub open spec fn terminates(n: nat) -> Seq<Message> {
    Seq::new(n, |i: int| Message::Terminate)
}

/// The jobs that a stretch of the queue holds, in queue order.
pub open spec fn jobs_of(queue: Seq<Message>) -> Seq<Job>
    decreases queue.len(),
{
    if queue.len() == 0 {
        Seq::empty()
    } else {
        match queue[0] {
            Message::NewJob(job) => seq![job] + jobs_of(queue.drop_first()),
            Message::Terminate => jobs_of(queue.drop_first()),
        }
    }
}

/// How many termination sentinels a stretch of the queue holds.
pub open spec fn terminate_count(queue: Seq<Message>) -> nat
    decreases queue.len(),
{
    if queue.len() == 0 {
        0
    } else {
        terminate_count(queue.drop_first()) + if queue[0] == Message::Terminate {
            1nat
        } else {
            0nat
        }
    }
}

/// How many of `workers` are still in their loop.
pub open spec fn running_count(workers: Seq<Worker>) -> nat
    decreases workers.len(),
{
    if workers.len() == 0 {
        0
    } else {
        running_count(workers.drop_last()) + if workers.last().running {
            1nat
        } else {
            0nat
        }
    }
}

/// The ids of the workers whose thread nobody has waited for, in pool order.
pub open spec fn attached_ids(workers: Seq<Worker>) -> Seq<usize>
    decreases workers.len(),
{
    if workers.len() == 0 {
        Seq::empty()
    } else if workers.last().attached {
        attached_ids(workers.drop_last()).push(workers.last().id)
    } else {
        attached_ids(workers.drop_last())
    }
}

/// `workers` with every thread handle given up.
pub open spec fn detached(workers: Seq<Worker>) -> Seq<Worker> {
    Seq::new(workers.len(), |i: int| Worker { attached: false, ..workers[i] })
}

/// The state of a pool: what is queued and how each worker stands.
pub struct PoolView {
    pub queue: Seq<Message>,
    pub workers: Seq<Worker>,
}

impl PoolView {
    /// A pool has at least one worker, worker `i` has id `i`, and a worker
    /// that has left its loop is not at work on any job.
    pub open spec fn wf(self) -> bool {
        &&& self.workers.len() > 0
        &&& forall|i: int| 0 <= i < self.workers.len() ==> (#[trigger] self.workers[i]).id == i
        &&& forall|i: int|
            0 <= i < self.workers.len() && !(#[trigger] self.workers[i]).running
                ==> self.workers[i].current.is_none()
    }

    /// No worker is at work on a job.
    pub open spec fn quiet(self) -> bool {
        forall|i: int| 0 <= i < self.workers.len() ==> (#[trigger] self.workers[i]).current.is_none()
    }

    /// A pool of `size` workers that has seen no message yet.
    pub open spec fn fresh(size: nat) -> PoolView {
        PoolView {
            queue: Seq::empty(),
            workers: Seq::new(
                size,
                |i: int| Worker { id: i as usize, attached: true, running: true, current: None },
            ),
        }
    }

    /// The pool after `job` was submitted.
    pub open spec fn after_execute(self, job: Job) -> PoolView {
        PoolView { queue: self.queue.push(Message::NewJob(job)), ..self }
    }

    /// The pool after each of `jobs` was submitted, first to last.
    pub open spec fn after_execute_all(self, jobs: Seq<Job>) -> PoolView
        decreases jobs.len(),
    {
        if jobs.len() == 0 {
            self
        } else {
            self.after_execute_all(jobs.drop_last()).after_execute(jobs.last())
        }
    }

    /// The threads that `join` tells its caller to wait for, in waiting order.
    pub open spec fn wait_list(self) -> Seq<usize> {
        attached_ids(self.workers)
    }

    /// The pool after `join`: one sentinel per worker is queued behind what
    /// was pending, and every thread handle has been given up.
    pub open spec fn after_join(self) -> PoolView {
        PoolView {
            queue: self.queue + terminates(self.workers.len()),
            workers: detached(self.workers),
        }
    }

    /// Worker `w` exists and is still in its loop.
    pub open spec fn can_dispatch(self, w: int) -> bool {
        0 <= w < self.workers.len() && self.workers[w].running
    }

    /// What worker `w` is told when it asks for work.
    pub open spec fn action_for(self, w: int) -> WorkerAction {
        if !self.can_dispatch(w) {
            WorkerAction::Stop
        } else if self.queue.len() == 0 {
            WorkerAction::Wait
        } else {
            Worker::reaction(self.queue[0])
        }
    }

    /// The job that worker `w` reports done by asking for work again.
    pub open spec fn finished_by(self, w: int) -> Option<Job> {
        if self.can_dispatch(w) {
            self.workers[w].current
        } else {
            None
        }
    }

    /// The pool after worker `w` asked for work: the job that `w` was at is
    /// done, the front of the queue is gone, and `w` is at work on it or, if
    /// it was a sentinel, has stopped.
    pub open spec fn after_dispatch(self, w: int) -> PoolView {
        if !self.can_dispatch(w) {
            self
        } else if self.queue.len() == 0 {
            PoolView { workers: self.workers.update(w, self.workers[w].idle()), ..self }
        } else {
            PoolView {
                queue: self.queue.drop_first(),
                workers: self.workers.update(w, self.workers[w].after(self.queue[0])),
            }
        }
    }

    /// The pool after the workers named in `schedule` asked for work one after
    /// the other.
    pub open spec fn run(self, schedule: Seq<int>) -> PoolView
        decreases schedule.len(),
    {
        if schedule.len() == 0 {
            self
        } else {
            self.after_dispatch(schedule[0]).run(schedule.drop_first())
        }
    }

    /// The jobs handed out while `schedule` ran, in the order they were handed out.
    pub open spec fn run_log(self, schedule: Seq<int>) -> Seq<Job>
        decreases schedule.len(),
    {
        if schedule.len() == 0 {
            Seq::empty()
        } else {
            let rest = self.after_dispatch(schedule[0]).run_log(schedule.drop_first());
            match self.action_for(schedule[0]) {
                WorkerAction::Run(job) => seq![job] + rest,
                _ => rest,
            }
        }
    }

    /// Every request in `schedule` comes from a worker that is in its loop at
    /// the time it asks.
    pub open spec fn productive(self, schedule: Seq<int>) -> bool
        decreases schedule.len(),
    {
        schedule.len() > 0 ==> self.can_dispatch(schedule[0]) && self.after_dispatch(
            schedule[0],
        ).productive(schedule.drop_first())
    }

    /// The pool takes jobs: every worker is in its loop and no sentinel is queued.
    pub open spec fn accepting(self) -> bool {
        &&& forall|i: int| 0 <= i < self.workers.len() ==> (#[trigger] self.workers[i]).running
        &&& forall|i: int| 0 <= i < self.queue.len() ==> #[trigger] self.queue[i] != Message::Terminate
    }

    /// The pool is shutting down in good order: the queue ends in exactly one
    /// sentinel per worker still in its loop, only jobs stand before them, and
    /// nothing is queued once the last worker has stopped.
    pub open spec fn draining(self) -> bool {
        let k = running_count(self.workers);
        let n = self.queue.len();
        &&& k <= n
        &&& k == 0 ==> n == 0
        &&& forall|i: int|
            0 <= i < n ==> ((#[trigger] self.queue[i] == Message::Terminate) <==> i >= n - k)
    }
}

/// A fixed set of workers fed from one FIFO queue.
pub struct ThreadPool {
    workers: Vec<Worker>,
    queue: VecDeque<Message>,
}

impl View for ThreadPool {
    type V = PoolView;

    closed spec fn view(&self) -> PoolView {
        PoolView { queue: self.queue@, workers: self.workers@ }
    }
}

impl ThreadPool {
    /// A pool of `size` workers, all in their loop, with an empty queue. A
    /// pool without workers would take jobs and never run them, so `size`
    /// must be positive.
    pub fn new(size: usize) -> (pool: ThreadPool)
        requires
            size > 0,
        ensures
            pool@ == PoolView::fresh(size as nat),
            pool@.wf(),
    {
        let mut workers: Vec<Worker> = Vec::new();
        let mut id: usize = 0;
        while id < size
            invariant
                id <= size,
                workers@ == PoolView::fresh(id as nat).workers,
            decreases size - id,
        {
            workers.push(Worker::new(id));
            id = id + 1;
            assert(workers@ =~= PoolView::fresh(id as nat).workers);
        }
        ThreadPool { workers, queue: VecDeque::new() }
    }

    /// Queues `job` behind everything submitted before it. Some worker that
    /// asks for work will be handed it; nothing comes back to the submitter.
    pub fn execute(&mut self, job: Job)
        ensures
            final(self)@ == old(self)@.after_execute(job),
            old(self)@.wf() ==> final(self)@.wf(),
    {
        self.queue.push_back(Message::NewJob(job));
    }

    /// Starts the shutdown: queues one sentinel per worker and gives up every
    /// thread handle. Returns the ids of the threads to wait for, in the order
    /// to wait for them.
    pub fn join(&mut self) -> (waits: Vec<usize>)
        ensures
            final(self)@ == old(self)@.after_join(),
            old(self)@.wf() ==> final(self)@.wf(),
            waits@ == old(self)@.wait_list(),
    {
        let ghost before = self@;
        let size: usize = self.workers.len();
        let mut sent: usize = 0;
        while sent < size
            invariant
                sent <= size,
                size == before.workers.len(),
                self.workers@ == before.workers,
                self.queue@ == before.queue + terminates(sent as nat),
            decreases size - sent,
        {
            self.queue.push_back(Message::Terminate);
            sent = sent + 1;
            assert(self.queue@ =~= before.queue + terminates(sent as nat));
        }
        let mut waits: Vec<usize> = Vec::new();
        let mut next: usize = 0;
        while next < size
            invariant
                next <= size,
                size == before.workers.len(),
                self.workers@.len() == size,
                self.queue@ == before.queue + terminates(size as nat),
                forall|i: int| 0 <= i < next ==> self.workers@[i] == detached(before.workers)[i],
                forall|i: int| next <= i < size ==> self.workers@[i] == before.workers[i],
                waits@ == attached_ids(before.workers.take(next as int)),
            decreases size - next,
        {
            let worker: Worker = self.workers[next];
            proof {
                assert(before.workers.take(next + 1).drop_last() =~= before.workers.take(
                    next as int,
                ));
            }
            if worker.attached {
                waits.push(worker.id);
            }
            self.workers.set(next, Worker { attached: false, ..worker });
            next = next + 1;
        }
        proof {
            assert(before.workers.take(size as int) =~= before.workers);
            assert(self.workers@ =~= detached(before.workers));
        }
        waits
    }

    /// The shutdown that runs when a pool is given up: `join`, unless every
    /// thread has been waited for already.
    pub fn discard(&mut self) -> (waits: Vec<usize>)
        ensures
            final(self)@ == if old(self)@.wait_list().len() > 0 {
                old(self)@.after_join()
            } else {
                old(self)@
            },
            old(self)@.wf() ==> final(self)@.wf(),
            waits@ == old(self)@.wait_list(),
    {
        if self.has_attached() {
            self.join()
        } else {
            Vec::new()
        }
    }

    /// Whether the pool still holds the handle of any thread.
    pub fn has_attached(&self) -> (any: bool)
        ensures
            any == (self@.wait_list().len() > 0),
    {
        let mut next: usize = 0;
        while next < self.workers.len()
            invariant
                next <= self.workers@.len(),
                attached_ids(self.workers@.take(next as int)).len() == 0,
            decreases self.workers@.len() - next,
        {
            proof {
                assert(self.workers@.take(next + 1).drop_last() =~= self.workers@.take(
                    next as int,
                ));
            }
            if self.workers[next].attached {
                proof {
                    lemma_attached_ids_grow(self.workers@, next + 1);
                }
                return true;
            }
            next = next + 1;
        }
        proof {
            assert(self.workers@.take(next as int) =~= self.workers@);
        }
        false
    }

    /// How many workers the pool has.
    pub fn size(&self) -> (n: usize)
        ensures
            n == self@.workers.len(),
    {
        self.workers.len()
    }

    /// How many messages are queued.
    pub fn pending(&self) -> (n: usize)
        ensures
            n == self@.queue.len(),
    {
        self.queue.len()
    }

    /// How worker `id` stands, or `None` where the pool has no such worker.
    pub fn worker(&self, id: usize) -> (w: Option<Worker>)
        ensures
            w == if id < self@.workers.len() {
                Some(self@.workers[id as int])
            } else {
                None
            },
    {
        if id < self.workers.len() {
            Some(self.workers[id])
        } else {
            None
        }
    }

    /// How many workers are still in their loop.
    pub fn running(&self) -> (n: usize)
        ensures
            n == running_count(self@.workers),
    {
        let mut n: usize = 0;
        let mut next: usize = 0;
        while next < self.workers.len()
            invariant
                next <= self.workers@.len(),
                n <= next,
                n == running_count(self.workers@.take(next as int)),
            decreases self.workers@.len() - next,
        {
            proof {
                assert(self.workers@.take(next + 1).drop_last() =~= self.workers@.take(
                    next as int,
                ));
            }
            if self.workers[next].running {
                n = n + 1;
            }
            next = next + 1;
        }
        proof {
            assert(self.workers@.take(next as int) =~= self.workers@);
        }
        n
    }

    /// Worker `worker` asks for work, which says that the job it was handed
    /// before is done. The message at the front of the queue, if there is
    /// one, is taken off and decides: a job is handed out, a sentinel stops
    /// the worker. With nothing queued the worker is told to wait, and a
    /// worker that has stopped, or that the pool does not have, is told to
    /// stop and takes nothing.
    pub fn dispatch(&mut self, worker: usize) -> (action: WorkerAction)
        ensures
            action == old(self)@.action_for(worker as int),
            final(self)@ == old(self)@.after_dispatch(worker as int),
            old(self)@.wf() ==> final(self)@.wf(),
    {
        if worker >= self.workers.len() {
            return WorkerAction::Stop;
        }
        let mut state: Worker = self.workers[worker];
        if !state.running {
            return WorkerAction::Stop;
        }
        match self.queue.pop_front() {
            None => {
                state.current = None;
                self.workers.set(worker, state);
                WorkerAction::Wait
            },
            Some(msg) => {
                let action = state.handle(msg);
                self.workers.set(worker, state);
                proof {
                    assert(self.queue@ =~= old(self)@.queue.drop_first());
                }
                action
            },
        }
    }
}

/// The ids listed for a longer stretch of workers are at least as many.
pub proof fn lemma_attached_ids_grow(workers: Seq<Worker>, upto: int)
    requires
        0 <= upto <= workers.len(),
    ensures
        attached_ids(workers.take(upto)).len() <= attached_ids(workers).len(),
    decreases workers.len() - upto,
{
    if upto < workers.len() {
        assert(workers.take(upto + 1).drop_last() =~= workers.take(upto));
        lemma_attached_ids_grow(workers, upto + 1);
    } else {
        assert(workers.take(upto) =~= workers);
    }
}

} // verus!
