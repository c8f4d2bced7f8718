use loopback_pool::registry::TerminationRegistry;
use loopback_pool::shutdown::{
    accept_connection, on_interrupt, on_interrupt_pool_busy, on_quit, EXIT_INTERRUPTED, EXIT_QUIT,
};
use loopback_pool::threadpool::{Job, Message, ThreadPool, WorkerAction};

#[test]
fn new_registry_is_empty() {
    let mut registry = TerminationRegistry::new();
    assert_eq!(registry.len(), 0);
    assert_eq!(registry.poll(0), None);
    assert!(!registry.is_listening(0));
    assert_eq!(registry.pending(0), 0);
    assert_eq!(registry.broadcast(), 0);
}

#[test]
fn connections_are_numbered_in_order() {
    let mut registry = TerminationRegistry::new();
    assert_eq!(registry.register(), 0);
    assert_eq!(registry.register(), 1);
    assert_eq!(registry.register(), 2);
    assert_eq!(registry.len(), 3);
    assert!(registry.is_listening(2));
    assert_eq!(registry.poll(1), None);
}

#[test]
fn shutdown_reaches_two_connections_once_and_not_a_later_one() {
    let mut registry = TerminationRegistry::new();
    let first = registry.register();
    let second = registry.register();
    assert_eq!(registry.broadcast(), 2);
    let third = registry.register();

    assert_eq!(registry.pending(first), 1);
    assert_eq!(registry.pending(second), 1);
    assert_eq!(registry.pending(third), 0);

    assert_eq!(registry.poll(first), Some(Message::Terminate));
    assert_eq!(registry.poll(first), None);
    assert_eq!(registry.poll(second), Some(Message::Terminate));
    assert_eq!(registry.poll(second), None);
    assert_eq!(registry.poll(third), None);
    assert!(registry.is_listening(third));
}

#[test]
fn closed_connection_is_passed_over() {
    let mut registry = TerminationRegistry::new();
    let a = registry.register();
    let b = registry.register();
    registry.close(a);
    assert_eq!(registry.len(), 2);
    assert!(!registry.is_listening(a));
    assert_eq!(registry.broadcast(), 1);
    assert_eq!(registry.pending(a), 0);
    assert_eq!(registry.poll(a), None);
    assert_eq!(registry.poll(b), Some(Message::Terminate));
}

#[test]
fn closing_drops_what_was_waiting() {
    let mut registry = TerminationRegistry::new();
    let a = registry.register();
    registry.broadcast();
    registry.broadcast();
    assert_eq!(registry.pending(a), 2);
    registry.close(a);
    assert_eq!(registry.pending(a), 0);
    registry.close(9);
    assert_eq!(registry.len(), 1);
}

#[test]
fn accepting_registers_and_queues_the_job() {
    let mut registry = TerminationRegistry::new();
    let mut pool = ThreadPool::new(4);
    assert_eq!(accept_connection(&mut registry, &mut pool, Job { ticket: 40 }), 0);
    assert_eq!(accept_connection(&mut registry, &mut pool, Job { ticket: 41 }), 1);
    assert_eq!(registry.len(), 2);
    assert_eq!(pool.pending(), 2);
    assert_eq!(pool.dispatch(3), WorkerAction::Run(Job { ticket: 40 }));
}

#[test]
fn interrupt_tells_connections_and_joins_the_pool() {
    let mut registry = TerminationRegistry::new();
    let mut pool = ThreadPool::new(4);
    let a = accept_connection(&mut registry, &mut pool, Job { ticket: 1 });
    let b = accept_connection(&mut registry, &mut pool, Job { ticket: 2 });
    let plan = on_interrupt(&mut registry, &mut pool);
    assert_eq!(plan.notified, 2);
    assert_eq!(plan.waits, vec![0, 1, 2, 3]);
    assert_eq!(plan.exit_code, 0);
    assert_eq!(plan.exit_code, EXIT_INTERRUPTED);
    assert_eq!(registry.poll(a), Some(Message::Terminate));
    assert_eq!(registry.poll(b), Some(Message::Terminate));
    assert_eq!(pool.pending(), 6);
}

#[test]
fn interrupt_with_busy_pool_waits_for_nobody() {
    let mut registry = TerminationRegistry::new();
    let a = registry.register();
    let plan = on_interrupt_pool_busy(&mut registry);
    assert_eq!(plan.notified, 1);
    assert!(plan.waits.is_empty());
    assert_eq!(plan.exit_code, 0);
    assert_eq!(registry.poll(a), Some(Message::Terminate));
}

#[test]
fn quit_joins_the_pool_and_exits_with_one() {
    let mut pool = ThreadPool::new(2);
    let plan = on_quit(&mut pool);
    assert_eq!(plan.notified, 0);
    assert_eq!(plan.waits, vec![0, 1]);
    assert_eq!(plan.exit_code, 1);
    assert_eq!(plan.exit_code, EXIT_QUIT);
    assert_eq!(pool.pending(), 2);
}
