//! The shutdown coordinator: what an interrupt, or the user's wish to quit,
//! does to the connections and to the pool, and with which status the process
//! then ends.

use crate::registry::{listening_count, TerminationRegistry};
use crate::threadpool::{Job, ThreadPool};
use vstd::prelude::*;

verus! {

/// Exit status after a shutdown that an interrupt set off.
pub const EXIT_INTERRUPTED: i32 = 0;

/// Exit status after the user asked to quit.
pub const EXIT_QUIT: i32 = 1;

/// What is left to do once the coordinator has spoken.
#[derive(Debug)]
pub struct ShutdownPlan {
    /// How many connections were sent a termination message.
    pub notified: usize,
    /// The worker threads to wait for, in waiting order.
    pub waits: Vec<usize>,
    /// The status to end the process with once the waiting is over.
    pub exit_code: i32,
}

/// A connection was accepted: it gets a mailbox in the registry, and the job
/// that will serve it is queued. Returns the number under which the
/// connection finds its mailbox.
pub fn accept_connection(
    registry: &mut TerminationRegistry,
    pool: &mut ThreadPool,
    job: Job,
) -> (conn: usize)
    ensures
        conn == old(registry)@.entries.len(),
        final(registry)@ == old(registry)@.after_register(),
        final(pool)@ == old(pool)@.after_execute(job),
{
    let conn = registry.register();
    pool.execute(job);
    conn
}

/// An interrupt arrived and the pool could be locked: every connection that
/// listens is sent a termination message, then the pool is joined. The
/// process ends with [`EXIT_INTERRUPTED`] once the threads named in the plan
/// have finished.
pub fn on_interrupt(registry: &mut TerminationRegistry, pool: &mut ThreadPool) -> (plan:
    ShutdownPlan)
    ensures
        final(registry)@ == old(registry)@.after_broadcast(),
        final(pool)@ == old(pool)@.after_join(),
        plan.notified == listening_count(old(registry)@.entries),
        plan.waits@ == old(pool)@.wait_list(),
        plan.exit_code == EXIT_INTERRUPTED,
{
    let notified = registry.broadcast();
    let waits = pool.join();
    ShutdownPlan { notified, waits, exit_code: EXIT_INTERRUPTED }
}

/// An interrupt arrived while somebody else held the pool: every connection
/// that listens is sent a termination message, and the process ends with
/// [`EXIT_INTERRUPTED`] without waiting for anybody, since waiting for the
/// pool could block the coordinator for good.
pub fn on_interrupt_pool_busy(registry: &mut TerminationRegistry) -> (plan: ShutdownPlan)
    ensures
        final(registry)@ == old(registry)@.after_broadcast(),
        plan.notified == listening_count(old(registry)@.entries),
        plan.waits@ == Seq::<usize>::empty(),
        plan.exit_code == EXIT_INTERRUPTED,
{
    let notified = registry.broadcast();
    ShutdownPlan { notified, waits: Vec::new(), exit_code: EXIT_INTERRUPTED }
}

/// The user asked to quit: the pool is joined, no connection is told, and the
/// process ends with [`EXIT_QUIT`] once the threads named in the plan have
/// finished.
pub fn on_quit(pool: &mut ThreadPool) -> (plan: ShutdownPlan)
    ensures
        final(pool)@ == old(pool)@.after_join(),
        plan.notified == 0,
        plan.waits@ == old(pool)@.wait_list(),
        plan.exit_code == EXIT_QUIT,
{
    let waits = pool.join();
    ShutdownPlan { notified: 0, waits, exit_code: EXIT_QUIT }
}

} // verus!
