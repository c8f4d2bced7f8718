//! The loop that serves one connection, turned inside out: the handler is told
//! what happened and answers with what to do next.
//!
//! One turn of the loop checks for a termination message, reads from the
//! stream with a bounded timeout, reacts to what was read, and, where the
//! handler owns an outbound source, sends at most one pending message. The
//! caller owns the stream and the channels; it performs each [`Action`] and
//! reports the matching [`Event`].

use crate::packet::MsgPacket;
use crate::threadpool::Message;
use vstd::prelude::*;

verus! {

/// Longest a read from the stream may block, in milliseconds.
pub const READ_TIMEOUT_MS: u64 = 100;

/// How long the handler rests after a read that brought nothing, in milliseconds.
pub const IDLE_PAUSE_MS: u64 = 10;

/// Size of the buffer that one read fills, in bytes.
pub const READ_BUFFER_SIZE: usize = 1024;

/// What a handler does with the text it received.
#[derive(Clone, Copy, Debug, PartialEq, Eq, Structural)]
pub enum Role {
    /// Writes every text back to the peer that sent it.
    Echo,
    /// Shows every text to the user, and sends what the user queued.
    Outbound,
}

/// Where in a turn of its loop a handler stands: what it is waiting to hear.
#[derive(Clone, Copy, Debug, PartialEq, Eq, Structural)]
pub enum Phase {
    /// Whether a termination message is pending.
    Polling,
    /// What the timed read brought.
    Reading,
    /// The end of the rest after an empty read.
    Idling,
    /// Whether the echo was written.
    Replying,
    /// That the text has been shown.
    Printing,
    /// Whether an outbound message is pending.
    Draining,
    /// Whether the outbound message was written.
    Sending,
    /// Nothing: the loop is over.
    Closed,
}

/// What the caller reports to the handler.
#[derive(Debug)]
pub enum Event {
    /// The termination channel was checked without blocking; this was in it.
    Polled(Option<Message>),
    /// The read returned `bytes` (none on a timeout or a failed read), and
    /// `packet` is what they decode to as a structured chat packet, if they do.
    Received { bytes: Vec<u8>, packet: Option<MsgPacket> },
    /// The read found that the peer has closed the stream.
    PeerClosed,
    /// The rest is over.
    Slept,
    /// The text was written and flushed (`true`), or either failed (`false`).
    Written(bool),
    /// The text has been shown.
    Printed,
    /// The outbound source was checked without blocking; this message, already
    /// serialised, was pending.
    Outbound(Option<Vec<u8>>),
}

/// What the handler tells the caller to do.
#[derive(Debug, PartialEq, Eq)]
pub enum Action {
    /// Check the termination channel without blocking; report `Polled`.
    Poll,
    /// Read up to `capacity` bytes, blocking for at most `timeout_ms`; report `Received`.
    Read { timeout_ms: u64, capacity: usize },
    /// Rest for so many milliseconds; report `Slept`.
    Sleep(u64),
    /// Write the text back to the peer and flush; report `Written`.
    Reply(String),
    /// Show the text to the user; report `Printed`.
    Print(String),
    /// Check the outbound source without blocking; report `Outbound`.
    TakeOutbound,
    /// Write the bytes to the peer and flush; report `Written`.
    Send(Vec<u8>),
    /// Shut the stream down in both directions and leave the loop.
    Shutdown,
    /// Leave the loop.
    Stop,
}

/// An [`Action`] with its text and bytes as sequences.
pub enum ActionView {
    Poll,
    Read { timeout_ms: u64, capacity: usize },
    Sleep(u64),
    Reply(Seq<char>),
    Print(Seq<char>),
    TakeOutbound,
    Send(Seq<u8>),
    Shutdown,
    Stop,
}

impl View for Action {
    type V = ActionView;

    open spec fn view(&self) -> ActionView {
        match *self {
            Action::Poll => ActionView::Poll,
            Action::Read { timeout_ms, capacity } => ActionView::Read { timeout_ms, capacity },
            Action::Sleep(ms) => ActionView::Sleep(ms),
            Action::Reply(text) => ActionView::Reply(text@),
            Action::Print(text) => ActionView::Print(text@),
            Action::TakeOutbound => ActionView::TakeOutbound,
            Action::Send(bytes) => ActionView::Send(bytes@),
            Action::Shutdown => ActionView::Shutdown,
            Action::Stop => ActionView::Stop,
        }
    }
}

/// The text that `String::from_utf8_lossy` makes of `bytes`.
pub uninterp spec fn utf8_lossy(bytes: Seq<u8>) -> Seq<char>;

/// Reads `bytes` as text through `String::from_utf8_lossy` of the standard
/// library. Nothing is proved of it; it is taken on trust that the call
/// depends on the bytes alone and that it decodes well-formed UTF-8 as it
/// stands. What it puts in place of ill-formed bytes is not stated.
#[verifier::external_body]
fn lossy_text(bytes: &[u8]) -> (text: String)
    ensures
        text@ == utf8_lossy(bytes@),
        vstd::utf8::valid_utf8(bytes@) ==> text@ == vstd::utf8::decode_utf8(bytes@),
{
    String::from_utf8_lossy(bytes).into_owned()
}

/// The message that received bytes stand for: the payload of the packet they
/// decode to, or else the bytes read as plain text.
pub open spec fn inbound_text(bytes: Seq<u8>, packet: Option<MsgPacket>) -> Seq<char> {
    match packet {
        Some(p) => p.data@,
        None => utf8_lossy(bytes),
    }
}

/// The phase and the action that follow the receipt of `text`.
pub open spec fn delivery(role: Role, text: Seq<char>) -> (Phase, ActionView) {
    match role {
        Role::Echo => (Phase::Replying, ActionView::Reply(text)),
        Role::Outbound => (Phase::Printing, ActionView::Print(text)),
    }
}

/// How long an action may keep the caller, in milliseconds. Writing and
/// showing are not counted: they do not wait for anything.
pub open spec fn wait_of(action: ActionView) -> nat {
    match action {
        ActionView::Read { timeout_ms, capacity } => timeout_ms as nat,
        ActionView::Sleep(ms) => ms as nat,
        _ => 0,
    }
}

/// The message that received bytes stand for.
pub fn read_text(bytes: &[u8], packet: Option<MsgPacket>) -> (text: String)
    ensures
        text@ == inbound_text(bytes@, packet),
        packet.is_none() && vstd::utf8::valid_utf8(bytes@) ==> text@ == vstd::utf8::decode_utf8(
            bytes@,
        ),
{
    match packet {
        Some(p) => p.data,
        None => lossy_text(bytes),
    }
}

/// What a handler in role `role` does with a text it received: an echoing
/// handler writes it back, the other shows it.
pub fn deliver(role: Role, text: String) -> (action: Action)
    ensures
        action@ == delivery(role, text@).1,
{
    match role {
        Role::Echo => Action::Reply(text),
        Role::Outbound => Action::Print(text),
    }
}

/// The state of one connection's loop.
#[derive(Clone, Copy, Debug, PartialEq, Eq, Structural)]
pub struct ConnectionHandler {
    pub role: Role,
    pub phase: Phase,
}

impl ConnectionHandler {
    /// What the handler answers to `event`, and the phase it is in afterwards.
    ///
    /// A termination message ends the loop with a shutdown of the stream;
    /// any other outcome of the check leads to a read. An empty read is
    /// followed by a short rest, a text by its delivery, and a stream that
    /// the peer has closed ends the loop. An echo that could
    /// not be written ends the loop; an outbound message that could not be
    /// written is dropped and the loop goes on. An event that the handler
    /// was not waiting for ends the loop with a shutdown, and a closed
    /// handler answers everything with `Stop`.
    pub open spec fn transition(self, event: Event) -> (Phase, ActionView) {
        match (self.phase, event) {
            (Phase::Closed, _) => (Phase::Closed, ActionView::Stop),
            (Phase::Polling, Event::Polled(Some(Message::Terminate))) => (
                Phase::Closed,
                ActionView::Shutdown,
            ),
            (Phase::Polling, Event::Polled(_)) => (
                Phase::Reading,
                ActionView::Read { timeout_ms: READ_TIMEOUT_MS, capacity: READ_BUFFER_SIZE },
            ),
            (Phase::Reading, Event::Received { bytes, packet }) => if bytes@.len() == 0 {
                (Phase::Idling, ActionView::Sleep(IDLE_PAUSE_MS))
            } else {
                delivery(self.role, inbound_text(bytes@, packet))
            },
            (Phase::Reading, Event::PeerClosed) => (Phase::Closed, ActionView::Stop),
            (Phase::Idling, Event::Slept) => match self.role {
                Role::Echo => (Phase::Polling, ActionView::Poll),
                Role::Outbound => (Phase::Draining, ActionView::TakeOutbound),
            },
            (Phase::Replying, Event::Written(true)) => (Phase::Polling, ActionView::Poll),
            (Phase::Replying, Event::Written(false)) => (Phase::Closed, ActionView::Stop),
            (Phase::Printing, Event::Printed) => (Phase::Draining, ActionView::TakeOutbound),
            (Phase::Draining, Event::Outbound(Some(bytes))) => (
                Phase::Sending,
                ActionView::Send(bytes@),
            ),
            (Phase::Draining, Event::Outbound(None)) => (Phase::Polling, ActionView::Poll),
            (Phase::Sending, Event::Written(_)) => (Phase::Polling, ActionView::Poll),
            _ => (Phase::Closed, ActionView::Shutdown),
        }
    }

    /// What the handler answers to `event`.
    pub open spec fn reaction(self, event: Event) -> ActionView {
        self.transition(event).1
    }

    /// The handler after `event`.
    pub open spec fn after(self, event: Event) -> ConnectionHandler {
        ConnectionHandler { role: self.role, phase: self.transition(event).0 }
    }

    /// The most that a handler can still be kept waiting, from the answer to
    /// the event it is waiting for until it next checks for termination or
    /// leaves the loop, in milliseconds.
    pub open spec fn latency(self) -> nat {
        match self.phase {
            Phase::Polling => (READ_TIMEOUT_MS + IDLE_PAUSE_MS) as nat,
            Phase::Reading => IDLE_PAUSE_MS as nat,
            _ => 0,
        }
    }

    /// How many more events a handler can be told before it next checks for
    /// termination or leaves the loop.
    pub open spec fn distance(self) -> nat {
        match (self.phase, self.role) {
            (Phase::Polling, _) => 0,
            (Phase::Closed, _) => 0,
            (Phase::Reading, Role::Echo) => 2,
            (Phase::Reading, Role::Outbound) => 4,
            (Phase::Idling, Role::Echo) => 1,
            (Phase::Idling, Role::Outbound) => 3,
            (Phase::Replying, _) => 1,
            (Phase::Printing, _) => 3,
            (Phase::Draining, _) => 2,
            (Phase::Sending, _) => 1,
        }
    }

    /// The handler stands at the check for termination, or has left the loop.
    pub open spec fn at_rest(self) -> bool {
        self.phase == Phase::Polling || self.phase == Phase::Closed
    }

    /// How many of `events` it takes until the handler next stands at the
    /// check for termination or has left the loop: all of them, where they
    /// do not get it there.
    pub open spec fn turn_length(self, events: Seq<Event>) -> nat
        decreases events.len(),
    {
        if events.len() == 0 {
            0
        } else if self.after(events[0]).at_rest() {
            1
        } else {
            1 + self.after(events[0]).turn_length(events.drop_first())
        }
    }

    /// `events` get the handler to its next check for termination, or out of
    /// the loop.
    pub open spec fn turn_ends(self, events: Seq<Event>) -> bool
        decreases events.len(),
    {
        events.len() > 0 && (self.after(events[0]).at_rest() || self.after(events[0]).turn_ends(
            events.drop_first(),
        ))
    }

    /// How long the answers to `events` keep the caller until the handler
    /// next stands at the check for termination or has left the loop, in
    /// milliseconds.
    pub open spec fn turn_wait(self, events: Seq<Event>) -> nat
        decreases events.len(),
    {
        if events.len() == 0 {
            0
        } else if self.after(events[0]).at_rest() {
            wait_of(self.reaction(events[0]))
        } else {
            wait_of(self.reaction(events[0])) + self.after(events[0]).turn_wait(
                events.drop_first(),
            )
        }
    }

    /// A handler at the top of its loop.
    pub fn new(role: Role) -> (handler: ConnectionHandler)
        ensures
            handler == (ConnectionHandler { role, phase: Phase::Polling }),
    {
        ConnectionHandler { role, phase: Phase::Polling }
    }

    /// What a handler that has just been made does first: it checks for
    /// termination.
    pub fn start(&self) -> (action: Action)
        ensures
            action@ == ActionView::Poll,
    {
        Action::Poll
    }

    /// Whether the loop is over.
    pub fn is_closed(&self) -> (closed: bool)
        ensures
            closed == (self.phase == Phase::Closed),
    {
        match self.phase {
            Phase::Closed => true,
            _ => false,
        }
    }

    /// Tells the handler what happened and returns what to do next. Bytes
    /// that came without a packet and are well-formed UTF-8 are delivered as
    /// the text they encode.
    pub fn step(&mut self, event: Event) -> (action: Action)
        ensures
            action@ == old(self).reaction(event),
            *final(self) == old(self).after(event),
            old(self).phase == Phase::Reading ==> match event {
                Event::Received { bytes, packet: None } => bytes@.len() > 0
                    && vstd::utf8::valid_utf8(bytes@) ==> action@ == delivery(
                    old(self).role,
                    vstd::utf8::decode_utf8(bytes@),
                ).1,
                _ => true,
            },
    {
        let role = self.role;
        match self.phase {
            Phase::Closed => Action::Stop,
            Phase::Polling => match event {
                Event::Polled(Some(Message::Terminate)) => self.close(Action::Shutdown),
                Event::Polled(_) => {
                    self.phase = Phase::Reading;
                    Action::Read { timeout_ms: READ_TIMEOUT_MS, capacity: READ_BUFFER_SIZE }
                },
                _ => self.close(Action::Shutdown),
            },
            Phase::Reading => match event {
                Event::Received { bytes, packet } => {
                    if bytes.len() == 0 {
                        self.phase = Phase::Idling;
                        Action::Sleep(IDLE_PAUSE_MS)
                    } else {
                        let text = read_text(bytes.as_slice(), packet);
                        self.phase = match role {
                            Role::Echo => Phase::Replying,
                            Role::Outbound => Phase::Printing,
                        };
                        deliver(role, text)
                    }
                },
                Event::PeerClosed => self.close(Action::Stop),
                _ => self.close(Action::Shutdown),
            },
            Phase::Idling => match event {
                Event::Slept => match role {
                    Role::Echo => {
                        self.phase = Phase::Polling;
                        Action::Poll
                    },
                    Role::Outbound => {
                        self.phase = Phase::Draining;
                        Action::TakeOutbound
                    },
                },
                _ => self.close(Action::Shutdown),
            },
            Phase::Replying => match event {
                Event::Written(true) => {
                    self.phase = Phase::Polling;
                    Action::Poll
                },
                Event::Written(false) => self.close(Action::Stop),
                _ => self.close(Action::Shutdown),
            },
            Phase::Printing => match event {
                Event::Printed => {
                    self.phase = Phase::Draining;
                    Action::TakeOutbound
                },
                _ => self.close(Action::Shutdown),
            },
            Phase::Draining => match event {
                Event::Outbound(Some(bytes)) => {
                    self.phase = Phase::Sending;
                    Action::Send(bytes)
                },
                Event::Outbound(None) => {
                    self.phase = Phase::Polling;
                    Action::Poll
                },
                _ => self.close(Action::Shutdown),
            },
            Phase::Sending => match event {
                Event::Written(_) => {
                    self.phase = Phase::Polling;
                    Action::Poll
                },
                _ => self.close(Action::Shutdown),
            },
        }
    }

    /// Ends the loop and passes `last` on as the handler's last word.
    fn close(&mut self, last: Action) -> (action: Action)
        ensures
            action == last,
            *final(self) == (ConnectionHandler { role: old(self).role, phase: Phase::Closed }),
    {
        self.phase = Phase::Closed;
        last
    }
}

/// A termination message ends the loop at the next check, whatever the
/// handler's role: the stream is shut down in both directions and the handler
/// is closed for good.
pub proof fn theorem_terminate_closes(handler: ConnectionHandler, later: Event)
    requires
        handler.phase == Phase::Polling,
    ensures
        handler.reaction(Event::Polled(Some(Message::Terminate))) == ActionView::Shutdown,
        handler.after(Event::Polled(Some(Message::Terminate))).phase == Phase::Closed,
        handler.after(Event::Polled(Some(Message::Terminate))).after(later).phase == Phase::Closed,
        handler.after(Event::Polled(Some(Message::Terminate))).reaction(later) == ActionView::Stop,
{
}

/// Any message but a termination message, and no message at all, lets the
/// loop go on to its read.
pub proof fn theorem_other_messages_pass(handler: ConnectionHandler, polled: Option<Message>)
    requires
        handler.phase == Phase::Polling,
        polled != Some(Message::Terminate),
    ensures
        handler.after(Event::Polled(polled)).phase == Phase::Reading,
        handler.reaction(Event::Polled(polled)) == (ActionView::Read {
            timeout_ms: READ_TIMEOUT_MS,
            capacity: READ_BUFFER_SIZE,
        }),
{
}

/// The handler comes back to its check for termination: every event takes a
/// handler that is in the middle of a turn closer to the check, or ends the
/// loop, and the answer never keeps the caller longer than the handler's
/// latency allows.
pub proof fn lemma_step_is_bounded(handler: ConnectionHandler, event: Event)
    ensures
        handler.distance() <= 4,
        handler.latency() <= READ_TIMEOUT_MS + IDLE_PAUSE_MS,
        handler.phase != Phase::Polling && handler.phase != Phase::Closed ==> handler.after(
            event,
        ).distance() < handler.distance(),
        handler.after(event).at_rest() ==> wait_of(handler.reaction(event)) <= handler.latency(),
        !handler.after(event).at_rest() ==> wait_of(handler.reaction(event)) + handler.after(
            event,
        ).latency() <= handler.latency(),
{
}

/// A termination message is seen in time. However the turn goes that starts
/// with a check for termination, the handler stands at its next check, or
/// has left the loop, after five events at most, and all that it asked for in
/// between keeps the caller for the read timeout and the idle rest at most:
/// 110 milliseconds, which is within one and a half read timeouts.
pub proof fn theorem_termination_is_seen_in_time(handler: ConnectionHandler, events: Seq<Event>)
    requires
        handler.phase == Phase::Polling,
    ensures
        handler.turn_length(events) <= 5,
        events.len() >= 5 ==> handler.turn_ends(events),
        handler.turn_wait(events) <= READ_TIMEOUT_MS + IDLE_PAUSE_MS,
        READ_TIMEOUT_MS + IDLE_PAUSE_MS == 110,
        2 * (READ_TIMEOUT_MS + IDLE_PAUSE_MS) <= 3 * READ_TIMEOUT_MS,
{
    if events.len() > 0 {
        lemma_step_is_bounded(handler, events[0]);
        lemma_turn_is_bounded(handler.after(events[0]), events.drop_first());
    }
}

/// What is left of a turn is bounded by the handler's distance and latency.
pub proof fn lemma_turn_is_bounded(handler: ConnectionHandler, events: Seq<Event>)
    ensures
        !handler.at_rest() ==> handler.turn_length(events) <= handler.distance(),
        !handler.at_rest() ==> handler.turn_wait(events) <= handler.latency(),
        !handler.at_rest() && events.len() >= handler.distance() ==> handler.turn_ends(events),
    decreases events.len(),
{
    if events.len() > 0 && !handler.at_rest() {
        lemma_step_is_bounded(handler, events[0]);
        lemma_turn_is_bounded(handler.after(events[0]), events.drop_first());
    }
}

/// A turn in which nothing arrives takes an echoing handler from one check
/// for termination to the next in three events, and keeps the caller for the
/// read timeout and the idle rest.
pub proof fn theorem_idle_turn(
    polled: Option<Message>,
    bytes: Vec<u8>,
    packet: Option<MsgPacket>,
)
    requires
        polled != Some(Message::Terminate),
        bytes@.len() == 0,
    ensures
        ({
            let top = ConnectionHandler { role: Role::Echo, phase: Phase::Polling };
            let nothing = Event::Received { bytes, packet };
            let reading = top.after(Event::Polled(polled));
            let idling = reading.after(nothing);
            &&& idling.after(Event::Slept) == top
            &&& wait_of(top.reaction(Event::Polled(polled))) + wait_of(reading.reaction(nothing))
                + wait_of(idling.reaction(Event::Slept)) == READ_TIMEOUT_MS + IDLE_PAUSE_MS
        }),
{
}

/// Received bytes that decode to a packet stand for the packet's payload;
/// bytes that do not are read as text. Either way a handler that was reading
/// goes on to deliver the text, and the loop is not over.
pub proof fn theorem_payload_or_text(
    handler: ConnectionHandler,
    bytes: Vec<u8>,
    packet: Option<MsgPacket>,
)
    requires
        handler.phase == Phase::Reading,
        bytes@.len() > 0,
    ensures
        handler.transition(Event::Received { bytes, packet }) == delivery(
            handler.role,
            inbound_text(bytes@, packet),
        ),
        packet.is_some() ==> inbound_text(bytes@, packet) == packet.unwrap().data@,
        packet.is_none() ==> inbound_text(bytes@, packet) == utf8_lossy(bytes@),
        handler.after(Event::Received { bytes, packet }).phase != Phase::Closed,
{
}

} // verus!
