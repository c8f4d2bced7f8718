//! The termination registry: one mailbox per connection, through which a
//! shutdown reaches every connection that is being served.
//!
//! A mailbox is appended when a connection is accepted and is never removed.
//! When the connection's handler leaves its loop the mailbox is closed, and
//! from then on whatever is sent to it is dropped.

use crate::threadpool::Message;
use std::collections::VecDeque;
use vstd::prelude::*;

verus! {

/// The state of one mailbox: what is waiting in it, and whether its
/// connection still listens.
pub struct MailboxView {
    pub inbox: Seq<Message>,
    pub listening: bool,
}

/// The termination channel of one connection.
struct Mailbox {
    inbox: VecDeque<Message>,
    listening: bool,
}

impl View for Mailbox {
    type V = MailboxView;

    closed spec fn view(&self) -> MailboxView {
        MailboxView { inbox: self.inbox@, listening: self.listening }
    }
}

impl MailboxView {
    /// The mailbox of a connection that has just been accepted.
    pub open spec fn fresh() -> MailboxView {
        MailboxView { inbox: Seq::empty(), listening: true }
    }

    /// The mailbox after `msg` was sent to it: queued behind what was
    /// waiting, or dropped where nobody listens.
    pub open spec fn after_send(self, msg: Message) -> MailboxView {
        if self.listening {
            MailboxView { inbox: self.inbox.push(msg), listening: true }
        } else {
            self
        }
    }

    /// What a check of the mailbox finds.
    pub open spec fn front(self) -> Option<Message> {
        if self.inbox.len() > 0 {
            Some(self.inbox[0])
        } else {
            None
        }
    }

    /// The mailbox after it was checked.
    pub open spec fn after_poll(self) -> MailboxView {
        if self.inbox.len() > 0 {
            MailboxView { inbox: self.inbox.drop_first(), listening: self.listening }
        } else {
            self
        }
    }

    /// The mailbox after its connection stopped listening.
    pub open spec fn silenced() -> MailboxView {
        MailboxView { inbox: Seq::empty(), listening: false }
    }
}

/// How many of `entries` still listen.
pub open spec fn listening_count(entries: Seq<MailboxView>) -> nat
    decreases entries.len(),
{
    if entries.len() == 0 {
        0
    } else {
        listening_count(entries.drop_last()) + if entries.last().listening {
            1nat
        } else {
            0nat
        }
    }
}

/// The state of a registry: the mailboxes in the order their connections
/// were accepted.
pub struct RegistryView {
    pub entries: Seq<MailboxView>,
}

impl RegistryView {
    /// The registry after one more connection was accepted.
    pub open spec fn after_register(self) -> RegistryView {
        RegistryView { entries: self.entries.push(MailboxView::fresh()) }
    }

    /// The registry after a termination message was sent to every mailbox.
    pub open spec fn after_broadcast(self) -> RegistryView {
        RegistryView {
            entries: Seq::new(
                self.entries.len(),
                |i: int| self.entries[i].after_send(Message::Terminate),
            ),
        }
    }

    /// What connection `conn` finds when it checks its mailbox.
    pub open spec fn polled(self, conn: int) -> Option<Message> {
        if 0 <= conn < self.entries.len() {
            self.entries[conn].front()
        } else {
            None
        }
    }

    /// The registry after connection `conn` checked its mailbox.
    pub open spec fn after_poll(self, conn: int) -> RegistryView {
        if 0 <= conn < self.entries.len() {
            RegistryView { entries: self.entries.update(conn, self.entries[conn].after_poll()) }
        } else {
            self
        }
    }

    /// The registry after connection `conn` stopped listening.
    pub open spec fn after_close(self, conn: int) -> RegistryView {
        if 0 <= conn < self.entries.len() {
            RegistryView { entries: self.entries.update(conn, MailboxView::silenced()) }
        } else {
            self
        }
    }
}

/// The mailboxes of all connections accepted so far.
pub struct TerminationRegistry {
    entries: Vec<Mailbox>,
}

impl View for TerminationRegistry {
    type V = RegistryView;

    closed spec fn view(&self) -> RegistryView {
        RegistryView { entries: Seq::new(self.entries@.len(), |i: int| self.entries@[i]@) }
    }
}

impl TerminationRegistry {
    /// A registry without connections.
    pub fn new() -> (registry: TerminationRegistry)
        ensures
            registry@.entries == Seq::<MailboxView>::empty(),
    {
        let registry = TerminationRegistry { entries: Vec::new() };
        assert(registry@.entries =~= Seq::<MailboxView>::empty());
        registry
    }

    /// How many connections have been accepted so far.
    pub fn len(&self) -> (n: usize)
        ensures
            n == self@.entries.len(),
    {
        self.entries.len()
    }

    /// Appends the mailbox of a connection that has just been accepted and
    /// returns the number under which the connection finds it.
    pub fn register(&mut self) -> (conn: usize)
        ensures
            conn == old(self)@.entries.len(),
            final(self)@ == old(self)@.after_register(),
    {
        let conn = self.entries.len();
        self.entries.push(Mailbox { inbox: VecDeque::new(), listening: true });
        assert(self@.entries =~= old(self)@.after_register().entries);
        conn
    }

    /// Sends a termination message to every connection and returns how many
    /// mailboxes took it. A connection that no longer listens is passed over:
    /// that is not an error.
    pub fn broadcast(&mut self) -> (delivered: usize)
        ensures
            final(self)@ == old(self)@.after_broadcast(),
            delivered == listening_count(old(self)@.entries),
    {
        let ghost before = self@;
        let size: usize = self.entries.len();
        let mut delivered: usize = 0;
        let mut next: usize = 0;
        while next < size
            invariant
                next <= size,
                size == before.entries.len(),
                self.entries@.len() == size,
                delivered == listening_count(before.entries.take(next as int)),
                delivered <= next,
                forall|i: int|
                    0 <= i < next ==> self.entries@[i]@ == before.entries[i].after_send(
                        Message::Terminate,
                    ),
                forall|i: int| next <= i < size ==> self.entries@[i]@ == before.entries[i],
            decreases size - next,
        {
            proof {
                assert(before.entries.take(next + 1).drop_last() =~= before.entries.take(
                    next as int,
                ));
            }
            if self.entries[next].listening {
                self.entries[next].inbox.push_back(Message::Terminate);
                delivered = delivered + 1;
            }
            next = next + 1;
        }
        proof {
            assert(before.entries.take(size as int) =~= before.entries);
            assert(self@.entries =~= before.after_broadcast().entries);
        }
        delivered
    }

    /// Connection `conn` checks its mailbox without blocking: the message
    /// that has waited longest is taken out, if there is one. A number that
    /// no connection has finds nothing.
    pub fn poll(&mut self, conn: usize) -> (msg: Option<Message>)
        ensures
            msg == old(self)@.polled(conn as int),
            final(self)@ == old(self)@.after_poll(conn as int),
    {
        if conn >= self.entries.len() {
            return None;
        }
        let msg = self.entries[conn].inbox.pop_front();
        proof {
            assert(self@.entries =~= old(self)@.after_poll(conn as int).entries);
        }
        msg
    }

    /// Connection `conn` stops listening: what waited in its mailbox is
    /// dropped, and so is whatever is sent to it from now on. The mailbox
    /// keeps its place.
    pub fn close(&mut self, conn: usize)
        ensures
            final(self)@ == old(self)@.after_close(conn as int),
    {
        if conn < self.entries.len() {
            self.entries[conn].inbox.clear();
            self.entries[conn].listening = false;
            proof {
                assert(self@.entries =~= old(self)@.after_close(conn as int).entries);
            }
        }
    }

    /// Whether connection `conn` still listens.
    pub fn is_listening(&self, conn: usize) -> (listening: bool)
        ensures
            listening == (conn < self@.entries.len() && self@.entries[conn as int].listening),
    {
        conn < self.entries.len() && self.entries[conn].listening
    }

    /// How many messages wait for connection `conn`.
    pub fn pending(&self, conn: usize) -> (n: usize)
        ensures
            n == if conn < self@.entries.len() {
                self@.entries[conn as int].inbox.len()
            } else {
                0
            },
    {
        if conn < self.entries.len() {
            self.entries[conn].inbox.len()
        } else {
            0
        }
    }
}

/// A shutdown reaches every connection that listens exactly once: each such
/// mailbox gets one termination message behind what was waiting in it, and
/// the others are left alone.
pub proof fn theorem_broadcast_reaches_each_once(r: RegistryView, conn: int)
    requires
        0 <= conn < r.entries.len(),
    ensures
        r.after_broadcast().entries.len() == r.entries.len(),
        r.entries[conn].listening ==> r.after_broadcast().entries[conn].inbox == r.entries[conn].inbox.push(
            Message::Terminate,
        ),
        !r.entries[conn].listening ==> r.after_broadcast().entries[conn] == r.entries[conn],
        r.after_broadcast().entries[conn].listening == r.entries[conn].listening,
{
}

/// A connection that has heard nothing yet finds the termination message at
/// its first check after a shutdown, and nothing at its second.
pub proof fn theorem_one_terminate_per_connection(r: RegistryView, conn: int)
    requires
        0 <= conn < r.entries.len(),
        r.entries[conn] == MailboxView::fresh(),
    ensures
        r.after_broadcast().polled(conn) == Some(Message::Terminate),
        r.after_broadcast().after_poll(conn).polled(conn) == None::<Message>,
{
    let sent = r.after_broadcast();
    assert(sent.entries[conn].inbox =~= seq![Message::Terminate]);
    assert(sent.after_poll(conn).entries[conn].inbox =~= Seq::<Message>::empty());
}

/// A connection accepted after a shutdown was sent has not heard of it: its
/// mailbox is empty, and the mailboxes that were there are as the shutdown
/// left them.
pub proof fn theorem_late_connection_is_unaffected(r: RegistryView)
    ensures
        r.after_broadcast().after_register().entries.len() == r.entries.len() + 1,
        r.after_broadcast().after_register().polled(r.entries.len() as int) == None::<Message>,
        r.after_broadcast().after_register().entries.last() == MailboxView::fresh(),
        forall|i: int|
            0 <= i < r.entries.len() ==> r.after_broadcast().after_register().entries[i]
                == r.after_broadcast().entries[i],
{
}

/// Checking or closing one mailbox leaves every other mailbox as it was, and
/// nothing ever removes a mailbox.
pub proof fn theorem_mailboxes_are_separate(r: RegistryView, conn: int, other: int)
    requires
        0 <= other < r.entries.len(),
        other != conn,
    ensures
        r.after_poll(conn).entries.len() == r.entries.len(),
        r.after_close(conn).entries.len() == r.entries.len(),
        r.after_poll(conn).entries[other] == r.entries[other],
        r.after_close(conn).entries[other] == r.entries[other],
{
}

} // verus!
