//! What holds of every run of a worker pool, whichever worker asks for work
//! when: no job is lost or handed out twice, jobs leave in the order they came,
//! and a shutdown neither stalls nor ends before the queue is empty.

use crate::threadpool::{
    attached_ids, detached, jobs_of, running_count, terminate_count, terminates, Job, Message,
    PoolView, Worker, WorkerAction,
};
use vstd::prelude::*;

verus! {

/// At most every worker is in its loop. All are exactly when the count equals
/// the pool's size, and none is exactly when the count is zero.
pub proof fn lemma_running_count_bounds(workers: Seq<Worker>)
    ensures
        running_count(workers) <= workers.len(),
        running_count(workers) == workers.len() <==> (forall|i: int|
            0 <= i < workers.len() ==> (#[trigger] workers[i]).running),
        running_count(workers) == 0 <==> (forall|i: int|
            0 <= i < workers.len() ==> !(#[trigger] workers[i]).running),
    decreases workers.len(),
{
    if workers.len() > 0 {
        let front = workers.drop_last();
        lemma_running_count_bounds(front);
        assert(forall|i: int| 0 <= i < front.len() ==> front[i] == workers[i]);
        if running_count(workers) == workers.len() {
            assert forall|i: int| 0 <= i < workers.len() implies (#[trigger] workers[i]).running by {
                if i < front.len() {
                    assert(front[i].running);
                }
            }
        }
        if running_count(workers) == 0 {
            assert forall|i: int| 0 <= i < workers.len() implies !(#[trigger] workers[i]).running by {
                if i < front.len() {
                    assert(!front[i].running);
                }
            }
        }
    }
}

/// Replacing one worker changes the count by what that worker contributes.
pub proof fn lemma_running_count_update(workers: Seq<Worker>, w: int, replacement: Worker)
    requires
        0 <= w < workers.len(),
    ensures
        running_count(workers.update(w, replacement)) + (if workers[w].running {
            1nat
        } else {
            0nat
        }) == running_count(workers) + (if replacement.running {
            1nat
        } else {
            0nat
        }),
    decreases workers.len(),
{
    let updated = workers.update(w, replacement);
    if w == workers.len() - 1 {
        assert(updated.drop_last() =~= workers.drop_last());
    } else {
        lemma_running_count_update(workers.drop_last(), w, replacement);
        assert(updated.drop_last() =~= workers.drop_last().update(w, replacement));
    }
}

/// Giving up the thread handles stops nobody.
pub proof fn lemma_detached_keeps_running(workers: Seq<Worker>)
    ensures
        running_count(detached(workers)) == running_count(workers),
    decreases workers.len(),
{
    if workers.len() > 0 {
        lemma_detached_keeps_running(workers.drop_last());
        assert(detached(workers).drop_last() =~= detached(workers.drop_last()));
    }
}

/// Where the pool holds every thread's handle, `join` has its caller wait
/// for every worker, in the order of their ids.
pub proof fn lemma_join_waits_in_id_order(p: PoolView)
    requires
        p.wf(),
        forall|i: int| 0 <= i < p.workers.len() ==> (#[trigger] p.workers[i]).attached,
    ensures
        p.wait_list() == Seq::new(p.workers.len(), |i: int| i as usize),
{
    lemma_attached_ids_of_prefix(p.workers, p.workers.len() as int);
    assert(p.workers.take(p.workers.len() as int) =~= p.workers);
}

/// The ids listed for the first `upto` workers, where all of them are
/// attached and numbered by their place.
pub proof fn lemma_attached_ids_of_prefix(workers: Seq<Worker>, upto: int)
    requires
        0 <= upto <= workers.len(),
        forall|i: int| 0 <= i < workers.len() ==> (#[trigger] workers[i]).attached,
        forall|i: int| 0 <= i < workers.len() ==> (#[trigger] workers[i]).id == i,
    ensures
        attached_ids(workers.take(upto)) == Seq::new(upto as nat, |i: int| i as usize),
    decreases upto,
{
    if upto > 0 {
        lemma_attached_ids_of_prefix(workers, upto - 1);
        assert(workers.take(upto).drop_last() =~= workers.take(upto - 1));
        assert(workers.take(upto).last() == workers[upto - 1]);
        assert(attached_ids(workers.take(upto)) =~= Seq::new(upto as nat, |i: int| i as usize));
    } else {
        assert(attached_ids(workers.take(upto)) =~= Seq::new(upto as nat, |i: int| i as usize));
    }
}

/// A pool that has been joined holds no thread's handle: a second `join`, or
/// giving the pool up, has its caller wait for nobody.
pub proof fn lemma_joined_pool_waits_for_nobody(p: PoolView)
    ensures
        p.after_join().wait_list() == Seq::<usize>::empty(),
{
    lemma_detached_has_no_ids(p.workers);
}

/// Workers whose handles were given up are not waited for.
pub proof fn lemma_detached_has_no_ids(workers: Seq<Worker>)
    ensures
        attached_ids(detached(workers)) == Seq::<usize>::empty(),
    decreases workers.len(),
{
    if workers.len() > 0 {
        lemma_detached_has_no_ids(workers.drop_last());
        assert(detached(workers).drop_last() =~= detached(workers.drop_last()));
    }
}

/// The jobs of two stretches of queue laid end to end are the jobs of the
/// first followed by the jobs of the second.
pub proof fn lemma_jobs_of_concat(a: Seq<Message>, b: Seq<Message>)
    ensures
        jobs_of(a + b) == jobs_of(a) + jobs_of(b),
    decreases a.len(),
{
    if a.len() == 0 {
        assert(a + b =~= b);
        assert(jobs_of(a) + jobs_of(b) =~= jobs_of(b));
    } else {
        lemma_jobs_of_concat(a.drop_first(), b);
        assert((a + b).drop_first() =~= a.drop_first() + b);
        match a[0] {
            Message::NewJob(job) => {
                assert(jobs_of(a + b) =~= jobs_of(a) + jobs_of(b));
            },
            Message::Terminate => {},
        }
    }
}

/// Sentinels carry no job.
pub proof fn lemma_jobs_of_terminates(n: nat)
    ensures
        jobs_of(terminates(n)) == Seq::<Job>::empty(),
    decreases n,
{
    if n > 0 {
        lemma_jobs_of_terminates((n - 1) as nat);
        assert(terminates(n).drop_first() =~= terminates((n - 1) as nat));
    }
}

/// A queue that holds one job holds that job.
pub proof fn lemma_jobs_of_single(job: Job)
    ensures
        jobs_of(seq![Message::NewJob(job)]) == seq![job],
{
    let q = seq![Message::NewJob(job)];
    assert(q.drop_first() =~= Seq::<Message>::empty());
    assert(jobs_of(q.drop_first()) == Seq::<Job>::empty());
    assert(seq![job] + Seq::<Job>::empty() =~= seq![job]);
}

/// Submitting a job keeps the pool well formed and accepting, and adds the
/// job behind the ones that were pending.
pub proof fn lemma_execute_keeps_accepting(p: PoolView, job: Job)
    requires
        p.wf(),
        p.accepting(),
    ensures
        p.after_execute(job).wf(),
        p.after_execute(job).accepting(),
        jobs_of(p.after_execute(job).queue) == jobs_of(p.queue).push(job),
{
    lemma_jobs_of_concat(p.queue, seq![Message::NewJob(job)]);
    lemma_jobs_of_single(job);
    assert(p.queue.push(Message::NewJob(job)) =~= p.queue + seq![Message::NewJob(job)]);
    assert(jobs_of(p.queue) + seq![job] =~= jobs_of(p.queue).push(job));
}

/// A fresh pool that was handed `jobs` is well formed and accepting, and its
/// queue holds exactly `jobs`, in the order they were submitted.
pub proof fn lemma_submitted_jobs_are_queued(size: nat, jobs: Seq<Job>)
    requires
        size > 0,
        size <= usize::MAX,
    ensures
        PoolView::fresh(size).after_execute_all(jobs).wf(),
        PoolView::fresh(size).after_execute_all(jobs).accepting(),
        jobs_of(PoolView::fresh(size).after_execute_all(jobs).queue) == jobs,
        PoolView::fresh(size).after_execute_all(jobs).workers == PoolView::fresh(size).workers,
    decreases jobs.len(),
{
    if jobs.len() == 0 {
        assert(jobs =~= Seq::<Job>::empty());
    } else {
        lemma_submitted_jobs_are_queued(size, jobs.drop_last());
        lemma_execute_keeps_accepting(
            PoolView::fresh(size).after_execute_all(jobs.drop_last()),
            jobs.last(),
        );
        assert(jobs.drop_last().push(jobs.last()) =~= jobs);
    }
}

/// Handing out work keeps a pool well formed.
pub proof fn lemma_dispatch_keeps_wf(p: PoolView, w: int)
    requires
        p.wf(),
    ensures
        p.after_dispatch(w).wf(),
{
}

/// While no sentinel is queued, handing out work stops nobody: the pool
/// stays accepting.
pub proof fn lemma_dispatch_keeps_accepting(p: PoolView, w: int)
    requires
        p.accepting(),
    ensures
        p.after_dispatch(w).accepting(),
{
    let q = p.after_dispatch(w);
    if p.can_dispatch(w) && p.queue.len() > 0 {
        assert(p.queue[0] != Message::Terminate);
        assert forall|i: int| 0 <= i < q.queue.len() implies #[trigger] q.queue[i]
            != Message::Terminate by {
            assert(q.queue[i] == p.queue[i + 1]);
        }
    }
}

/// `join` on an accepting pool starts an orderly shutdown: the jobs that were
/// pending stand first, followed by one sentinel for each worker.
pub proof fn lemma_join_starts_draining(p: PoolView)
    requires
        p.wf(),
        p.accepting(),
    ensures
        p.after_join().wf(),
        p.after_join().draining(),
        jobs_of(p.after_join().queue) == jobs_of(p.queue),
{
    let q = p.after_join();
    lemma_running_count_bounds(p.workers);
    lemma_detached_keeps_running(p.workers);
    lemma_jobs_of_concat(p.queue, terminates(p.workers.len()));
    lemma_jobs_of_terminates(p.workers.len());
    assert(jobs_of(p.queue) + Seq::<Job>::empty() =~= jobs_of(p.queue));
    assert(running_count(q.workers) == p.workers.len());
    assert forall|i: int| 0 <= i < q.queue.len() implies ((#[trigger] q.queue[i]
        == Message::Terminate) <==> i >= q.queue.len() - running_count(q.workers)) by {
        if i < p.queue.len() {
            assert(q.queue[i] == p.queue[i]);
        }
    }
}

/// An orderly shutdown never stalls: as long as a worker is in its loop,
/// something is queued for it.
pub proof fn lemma_draining_never_waits(p: PoolView, w: int)
    requires
        p.draining(),
        p.can_dispatch(w),
    ensures
        p.queue.len() > 0,
        p.action_for(w) != WorkerAction::Wait,
{
    lemma_running_count_bounds(p.workers);
}

/// Handing out work keeps a shutdown orderly. A request from a worker in its
/// loop takes exactly one message off the queue.
pub proof fn lemma_dispatch_keeps_draining(p: PoolView, w: int)
    requires
        p.draining(),
    ensures
        p.after_dispatch(w).draining(),
        p.can_dispatch(w) ==> p.after_dispatch(w).queue.len() + 1 == p.queue.len(),
{
    let q = p.after_dispatch(w);
    if p.can_dispatch(w) {
        lemma_draining_never_waits(p, w);
        lemma_running_count_update(p.workers, w, p.workers[w].after(p.queue[0]));
        assert forall|i: int| 0 <= i < q.queue.len() implies ((#[trigger] q.queue[i]
            == Message::Terminate) <==> i >= q.queue.len() - running_count(q.workers)) by {
            assert(q.queue[i] == p.queue[i + 1]);
        }
    }
}

/// Once the last worker of an orderly shutdown has stopped, the queue is empty.
pub proof fn lemma_drained_when_all_stopped(p: PoolView)
    requires
        p.draining(),
        running_count(p.workers) == 0,
    ensures
        p.queue.len() == 0,
{
}

/// Whatever the schedule, the jobs handed out so far followed by the jobs
/// still queued are the jobs that were queued at the start: nothing is lost,
/// nothing is handed out twice, and the order of submission is the order of
/// dispatch.
pub proof fn lemma_run_conserves_jobs(p: PoolView, schedule: Seq<int>)
    ensures
        p.run_log(schedule) + jobs_of(p.run(schedule).queue) == jobs_of(p.queue),
    decreases schedule.len(),
{
    if schedule.len() == 0 {
        assert(Seq::<Job>::empty() + jobs_of(p.queue) =~= jobs_of(p.queue));
    } else {
        let w = schedule[0];
        let next = p.after_dispatch(w);
        let rest = schedule.drop_first();
        lemma_run_conserves_jobs(next, rest);
        match p.action_for(w) {
            WorkerAction::Run(job) => {
                assert(p.queue[0] == Message::NewJob(job));
                assert((seq![job] + next.run_log(rest)) + jobs_of(next.run(rest).queue) =~= seq![
                    job,
                ] + (next.run_log(rest) + jobs_of(next.run(rest).queue)));
            },
            _ => {},
        }
    }
}

/// A run keeps a pool well formed, and keeps a shutdown orderly.
pub proof fn lemma_run_keeps_draining(p: PoolView, schedule: Seq<int>)
    requires
        p.wf(),
        p.draining(),
    ensures
        p.run(schedule).wf(),
        p.run(schedule).draining(),
    decreases schedule.len(),
{
    if schedule.len() > 0 {
        lemma_dispatch_keeps_wf(p, schedule[0]);
        lemma_dispatch_keeps_draining(p, schedule[0]);
        lemma_run_keeps_draining(p.after_dispatch(schedule[0]), schedule.drop_first());
    }
}

/// In an orderly shutdown every request from a worker in its loop takes one
/// message, so such requests cannot outnumber the messages queued, and when
/// there have been as many requests as messages every worker has stopped.
pub proof fn lemma_shutdown_is_bounded(p: PoolView, schedule: Seq<int>)
    requires
        p.draining(),
        p.productive(schedule),
    ensures
        schedule.len() <= p.queue.len(),
        p.run(schedule).queue.len() == p.queue.len() - schedule.len(),
        schedule.len() == p.queue.len() ==> running_count(p.run(schedule).workers) == 0,
    decreases schedule.len(),
{
    if schedule.len() > 0 {
        lemma_dispatch_keeps_draining(p, schedule[0]);
        lemma_shutdown_is_bounded(p.after_dispatch(schedule[0]), schedule.drop_first());
    }
}

/// A pool that is joined right after it was made shuts down: the queue holds
/// one sentinel per worker and nothing else, and once each request of a
/// worker in its loop has been served, as many as there are workers, no
/// worker is left in its loop and the queue is empty.
pub proof fn theorem_idle_pool_shuts_down(size: nat, schedule: Seq<int>)
    requires
        0 < size <= usize::MAX,
        PoolView::fresh(size).after_join().productive(schedule),
        schedule.len() == size,
    ensures
        PoolView::fresh(size).after_join().queue == terminates(size),
        running_count(PoolView::fresh(size).after_join().run(schedule).workers) == 0,
        PoolView::fresh(size).after_join().run(schedule).queue.len() == 0,
        PoolView::fresh(size).after_join().run_log(schedule) == Seq::<Job>::empty(),
{
    let start = PoolView::fresh(size);
    let joined = start.after_join();
    lemma_submitted_jobs_are_queued(size, Seq::empty());
    lemma_join_starts_draining(start);
    assert(joined.queue =~= terminates(size));
    lemma_shutdown_is_bounded(joined, schedule);
    lemma_run_conserves_jobs(joined, schedule);
    lemma_jobs_of_terminates(size);
    assert(joined.run_log(schedule) =~= Seq::<Job>::empty());
}

/// Every job submitted to a pool before `join` is handed to a worker exactly
/// once, whichever worker asks when. At any moment the jobs handed out so far
/// and the jobs still queued make up the jobs submitted, in order. The
/// workers cannot all have stopped, which is what the caller of `join` waits
/// for, before every job has been handed out and finished and the queue is
/// empty. And the shutdown takes no more requests from workers in their loop
/// than there are jobs and workers.
pub proof fn theorem_every_job_runs_once(size: nat, jobs: Seq<Job>, schedule: Seq<int>)
    requires
        0 < size <= usize::MAX,
    ensures
        ({
            let joined = PoolView::fresh(size).after_execute_all(jobs).after_join();
            let end = joined.run(schedule);
            &&& joined.run_log(schedule) + jobs_of(end.queue) == jobs
            &&& running_count(end.workers) == 0 ==> joined.run_log(schedule) == jobs && end.quiet()
                && end.queue.len() == 0
            &&& joined.productive(schedule) ==> schedule.len() <= jobs.len() + size
            &&& joined.productive(schedule) && schedule.len() == jobs.len() + size
                ==> running_count(end.workers) == 0
        }),
{
    let accepted = PoolView::fresh(size).after_execute_all(jobs);
    let joined = accepted.after_join();
    let end = joined.run(schedule);
    lemma_submitted_jobs_are_queued(size, jobs);
    lemma_join_starts_draining(accepted);
    lemma_run_conserves_jobs(joined, schedule);
    lemma_run_keeps_draining(joined, schedule);
    lemma_queue_length_is_job_count(accepted.queue);
    if running_count(end.workers) == 0 {
        theorem_stopped_pool_is_quiet(end);
        assert(jobs_of(end.queue) =~= Seq::<Job>::empty());
        assert(joined.run_log(schedule) + Seq::<Job>::empty() =~= joined.run_log(schedule));
    }
    if joined.productive(schedule) {
        lemma_shutdown_is_bounded(joined, schedule);
    }
}

/// Each sentinel stops one worker and each worker is stopped by one sentinel:
/// over any run, as many workers leave their loop as sentinels leave the
/// queue. So with fewer sentinels than workers some worker never stops, and
/// of more sentinels than workers the surplus stays queued.
pub proof fn theorem_one_sentinel_per_worker(p: PoolView, schedule: Seq<int>)
    ensures
        running_count(p.run(schedule).workers) + terminate_count(p.queue) == running_count(
            p.workers,
        ) + terminate_count(p.run(schedule).queue),
        running_count(p.run(schedule).workers) <= running_count(p.workers),
        terminate_count(p.run(schedule).queue) <= terminate_count(p.queue),
    decreases schedule.len(),
{
    if schedule.len() > 0 {
        let w = schedule[0];
        let next = p.after_dispatch(w);
        theorem_one_sentinel_per_worker(next, schedule.drop_first());
        if p.can_dispatch(w) {
            if p.queue.len() == 0 {
                lemma_running_count_update(p.workers, w, p.workers[w].idle());
            } else {
                lemma_running_count_update(p.workers, w, p.workers[w].after(p.queue[0]));
            }
        }
    }
}

/// A worker that has left its loop has no job in hand. So once every worker
/// has stopped, every job that was handed out has been finished.
pub proof fn theorem_stopped_pool_is_quiet(p: PoolView)
    requires
        p.wf(),
        running_count(p.workers) == 0,
    ensures
        p.quiet(),
{
    lemma_running_count_bounds(p.workers);
}

/// A worker is at work on the job it was handed until it asks again, and
/// asking again is how it reports the job done: the job a worker is handed
/// is the job it reports at its next request, whatever the other workers do
/// in between.
pub proof fn theorem_handed_job_is_reported(p: PoolView, w: int, others: Seq<int>, job: Job)
    requires
        p.action_for(w) == WorkerAction::Run(job),
        forall|i: int| 0 <= i < others.len() ==> others[i] != w,
    ensures
        p.after_dispatch(w).run(others).finished_by(w) == Some(job),
{
    lemma_others_leave_worker_alone(p.after_dispatch(w), w, others);
}

/// Requests of other workers change nothing about worker `w`.
pub proof fn lemma_others_leave_worker_alone(p: PoolView, w: int, others: Seq<int>)
    requires
        0 <= w < p.workers.len(),
        forall|i: int| 0 <= i < others.len() ==> others[i] != w,
    ensures
        p.run(others).workers.len() == p.workers.len(),
        p.run(others).workers[w] == p.workers[w],
    decreases others.len(),
{
    if others.len() > 0 {
        assert(others[0] != w);
        let rest = others.drop_first();
        assert forall|i: int| 0 <= i < rest.len() implies rest[i] != w by {
            assert(rest[i] == others[i + 1]);
        }
        lemma_others_leave_worker_alone(p.after_dispatch(others[0]), w, rest);
    }
}

/// A queue without sentinels holds as many jobs as it holds messages.
pub proof fn lemma_queue_length_is_job_count(queue: Seq<Message>)
    requires
        forall|i: int| 0 <= i < queue.len() ==> #[trigger] queue[i] != Message::Terminate,
    ensures
        jobs_of(queue).len() == queue.len(),
    decreases queue.len(),
{
    if queue.len() > 0 {
        assert(queue[0] != Message::Terminate);
        assert forall|i: int| 0 <= i < queue.drop_first().len() implies #[trigger] queue.drop_first()[i]
            != Message::Terminate by {
            assert(queue.drop_first()[i] == queue[i + 1]);
        }
        lemma_queue_length_is_job_count(queue.drop_first());
    }
}

} // verus!
