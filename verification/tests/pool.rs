use loopback_pool::threadpool::{Job, Message, ThreadPool, Worker, WorkerAction};

fn job(ticket: u64) -> Job {
    Job { ticket }
}

#[test]
fn new_pool_has_numbered_running_workers() {
    let pool = ThreadPool::new(4);
    assert_eq!(pool.size(), 4);
    assert_eq!(pool.pending(), 0);
    assert_eq!(pool.running(), 4);
    for id in 0..4 {
        assert_eq!(pool.worker(id), Some(Worker { id, attached: true, running: true, current: None }));
    }
    assert_eq!(pool.worker(4), None);
}

#[test]
fn worker_runs_jobs_and_stops_on_sentinel() {
    let mut w = Worker::new(3);
    assert_eq!(w.handle(Message::NewJob(job(9))), WorkerAction::Run(job(9)));
    assert!(w.running);
    assert_eq!(w.current, Some(job(9)));
    assert_eq!(w.handle(Message::Terminate), WorkerAction::Stop);
    assert_eq!(w, Worker { id: 3, attached: true, running: false, current: None });
}

#[test]
fn idle_worker_is_told_to_wait() {
    let mut pool = ThreadPool::new(2);
    assert_eq!(pool.dispatch(0), WorkerAction::Wait);
    assert_eq!(pool.dispatch(1), WorkerAction::Wait);
    assert_eq!(pool.running(), 2);
    assert_eq!(pool.pending(), 0);
}

#[test]
fn jobs_leave_in_submission_order() {
    let mut pool = ThreadPool::new(3);
    pool.execute(job(10));
    pool.execute(job(11));
    pool.execute(job(12));
    assert_eq!(pool.pending(), 3);
    assert_eq!(pool.dispatch(2), WorkerAction::Run(job(10)));
    assert_eq!(pool.dispatch(0), WorkerAction::Run(job(11)));
    assert_eq!(pool.dispatch(2), WorkerAction::Run(job(12)));
    assert_eq!(pool.dispatch(1), WorkerAction::Wait);
    assert_eq!(pool.running(), 3);
}

#[test]
fn unknown_worker_takes_nothing() {
    let mut pool = ThreadPool::new(1);
    pool.execute(job(1));
    assert_eq!(pool.dispatch(1), WorkerAction::Stop);
    assert_eq!(pool.dispatch(7), WorkerAction::Stop);
    assert_eq!(pool.pending(), 1);
    assert_eq!(pool.dispatch(0), WorkerAction::Run(job(1)));
}

#[test]
fn join_right_after_new_stops_every_worker() {
    for size in 1..=8usize {
        let mut pool = ThreadPool::new(size);
        let waits = pool.join();
        assert_eq!(waits, (0..size).collect::<Vec<usize>>());
        assert_eq!(pool.pending(), size);
        for id in 0..size {
            assert_eq!(pool.dispatch(id), WorkerAction::Stop);
        }
        assert_eq!(pool.running(), 0);
        assert_eq!(pool.pending(), 0);
        for id in 0..size {
            assert_eq!(pool.worker(id), Some(Worker { id, attached: false, running: false, current: None }));
        }
    }
}

#[test]
fn two_workers_five_jobs_then_join() {
    let mut pool = ThreadPool::new(2);
    for ticket in 0..5 {
        pool.execute(job(ticket));
    }
    let waits = pool.join();
    assert_eq!(waits, vec![0, 1]);
    assert_eq!(pool.pending(), 7);

    let mut ran: Vec<u64> = Vec::new();
    let mut turns = 0;
    let mut turn = 0usize;
    while pool.running() > 0 {
        let id = turn % 2;
        turn += 1;
        match pool.dispatch(id) {
            WorkerAction::Run(j) => {
                ran.push(j.ticket);
                turns += 1;
            }
            WorkerAction::Stop => {
                if pool.worker(id).unwrap().running {
                    panic!("a stopped worker must not be running");
                }
            }
            WorkerAction::Wait => panic!("a shutdown must not stall"),
        }
        assert!(turn < 32);
    }
    assert_eq!(turns, 5);
    assert_eq!(ran, vec![0, 1, 2, 3, 4]);
    assert_eq!(pool.pending(), 0);
    assert_eq!(pool.running(), 0);
}

#[test]
fn one_worker_can_drain_all_jobs_before_the_others_stop() {
    let mut pool = ThreadPool::new(3);
    pool.execute(job(1));
    pool.execute(job(2));
    pool.join();
    assert_eq!(pool.dispatch(1), WorkerAction::Run(job(1)));
    assert_eq!(pool.dispatch(1), WorkerAction::Run(job(2)));
    assert_eq!(pool.dispatch(1), WorkerAction::Stop);
    assert_eq!(pool.dispatch(1), WorkerAction::Stop);
    assert_eq!(pool.pending(), 2);
    assert_eq!(pool.running(), 2);
    assert_eq!(pool.dispatch(0), WorkerAction::Stop);
    assert_eq!(pool.dispatch(2), WorkerAction::Stop);
    assert_eq!(pool.pending(), 0);
    assert_eq!(pool.running(), 0);
}

#[test]
fn second_join_waits_for_nobody_and_leaves_surplus_sentinels() {
    let mut pool = ThreadPool::new(2);
    assert_eq!(pool.join(), vec![0, 1]);
    assert_eq!(pool.dispatch(0), WorkerAction::Stop);
    assert_eq!(pool.dispatch(1), WorkerAction::Stop);
    assert_eq!(pool.join(), Vec::<usize>::new());
    assert_eq!(pool.pending(), 2);
    assert_eq!(pool.dispatch(0), WorkerAction::Stop);
    assert_eq!(pool.pending(), 2);
}

#[test]
fn job_submitted_after_join_stays_queued() {
    let mut pool = ThreadPool::new(1);
    pool.join();
    pool.execute(job(5));
    assert_eq!(pool.dispatch(0), WorkerAction::Stop);
    assert_eq!(pool.running(), 0);
    assert_eq!(pool.pending(), 1);
    assert_eq!(pool.dispatch(0), WorkerAction::Stop);
    assert_eq!(pool.pending(), 1);
}

#[test]
fn discard_joins_a_pool_that_was_not_joined() {
    let mut pool = ThreadPool::new(3);
    pool.execute(job(1));
    assert!(pool.has_attached());
    assert_eq!(pool.discard(), vec![0, 1, 2]);
    assert!(!pool.has_attached());
    assert_eq!(pool.pending(), 4);
}

#[test]
fn discard_after_join_does_nothing() {
    let mut pool = ThreadPool::new(3);
    assert_eq!(pool.join(), vec![0, 1, 2]);
    assert_eq!(pool.pending(), 3);
    assert_eq!(pool.discard(), Vec::<usize>::new());
    assert_eq!(pool.pending(), 3);
    assert_eq!(pool.running(), 3);
}

#[test]
fn worker_holds_its_job_until_it_asks_again() {
    let mut pool = ThreadPool::new(2);
    pool.execute(job(7));
    pool.execute(job(8));
    assert_eq!(pool.dispatch(0), WorkerAction::Run(job(7)));
    assert_eq!(pool.dispatch(1), WorkerAction::Run(job(8)));
    assert_eq!(pool.worker(0).unwrap().current, Some(job(7)));
    assert_eq!(pool.worker(1).unwrap().current, Some(job(8)));
    assert_eq!(pool.dispatch(1), WorkerAction::Wait);
    assert_eq!(pool.worker(0).unwrap().current, Some(job(7)));
    assert_eq!(pool.worker(1).unwrap().current, None);
    pool.join();
    assert_eq!(pool.dispatch(0), WorkerAction::Stop);
    assert_eq!(pool.worker(0).unwrap().current, None);
}

#[test]
fn a_stopped_worker_takes_no_second_sentinel() {
    let mut pool = ThreadPool::new(2);
    pool.join();
    assert_eq!(pool.dispatch(0), WorkerAction::Stop);
    assert_eq!(pool.dispatch(0), WorkerAction::Stop);
    assert_eq!(pool.pending(), 1);
    assert_eq!(pool.running(), 1);
    assert_eq!(pool.dispatch(1), WorkerAction::Stop);
    assert_eq!(pool.pending(), 0);
    assert_eq!(pool.running(), 0);
    assert_eq!(pool.dispatch(1), WorkerAction::Stop);
}
