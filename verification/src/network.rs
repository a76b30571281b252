//! The network half of the benchmark: the echo server's decisions, the
//! ping-pong client's bookkeeping, and the packets they exchange.

use vstd::prelude::*;
use crate::PACKET_SIZE;

verus! {

/// A packet of `PACKET_SIZE` bytes, each `fill`.
pub fn packet(fill: u8) -> (p: Vec<u8>)
    ensures
        p@.len() == PACKET_SIZE,
        forall|i: int| 0 <= i < p@.len() ==> p@[i] == fill,
{
    let mut p: Vec<u8> = Vec::new();
    let mut k: usize = 0;
    while k < PACKET_SIZE
        invariant
            k <= PACKET_SIZE,
            p@.len() == k,
            forall|i: int| 0 <= i < p@.len() ==> p@[i] == fill,
        decreases PACKET_SIZE - k,
    {
        p.push(fill);
        k = k + 1;
    }
    p
}

/// Where the echo server stands.
#[derive(Clone, Copy, Debug, PartialEq, Eq, Structural)]
pub enum EchoState {
    /// Waiting for a client to connect.
    Accepting,
    /// Reading the next packet of the connected client.
    Reading,
    /// Sending back the packet just read.
    Writing,
    /// Shut down.
    Stopped,
}

/// What the echo server does next.
#[derive(Clone, Copy, Debug, PartialEq, Eq, Structural)]
pub enum EchoAction {
    /// Accept a connection.
    Accept,
    /// Read exactly one packet from the connection.
    ReadPacket,
    /// Write the packet just read back to the connection.
    WritePacket,
    /// Shut the server down.
    Stop,
}

/// What happened to the echo server's last action.
#[derive(Clone, Copy, Debug, PartialEq, Eq, Structural)]
pub enum EchoEvent {
    /// The server has started.
    Started,
    /// A client connected.
    Accepted,
    /// A packet read finished; `ok` is false when the read failed (the
    /// client closed the connection or an error occurred).
    PacketRead { ok: bool },
    /// The packet was written back.
    PacketWritten,
}

/// The echo server's transition: from `state` on `event`, the next state
/// and the action to perform. A connection is served packet by packet, each
/// packet read being written back, until a read fails; the server then
/// shuts down. An event that does not fit the state leaves the server where
/// it is and repeats the state's action.
pub open spec fn echo_transition(state: EchoState, event: EchoEvent) -> (EchoState, EchoAction) {
    match (state, event) {
        (EchoState::Accepting, EchoEvent::Started) => (EchoState::Accepting, EchoAction::Accept),
        (EchoState::Accepting, EchoEvent::Accepted) => (EchoState::Reading, EchoAction::ReadPacket),
        (EchoState::Reading, EchoEvent::PacketRead { ok }) => if ok {
            (EchoState::Writing, EchoAction::WritePacket)
        } else {
            (EchoState::Stopped, EchoAction::Stop)
        },
        (EchoState::Writing, EchoEvent::PacketWritten) => (
            EchoState::Reading,
            EchoAction::ReadPacket,
        ),
        _ => (state, state_action(state)),
    }
}

/// The action that belongs to a state.
pub open spec fn state_action(state: EchoState) -> EchoAction {
    match state {
        EchoState::Accepting => EchoAction::Accept,
        EchoState::Reading => EchoAction::ReadPacket,
        EchoState::Writing => EchoAction::WritePacket,
        EchoState::Stopped => EchoAction::Stop,
    }
}

/// One step of the echo server.
pub fn echo_step(state: EchoState, event: EchoEvent) -> (next: (EchoState, EchoAction))
    ensures
        next == echo_transition(state, event),
        next.1 == state_action(next.0),
{
    match (state, event) {
        (EchoState::Accepting, EchoEvent::Started) => (EchoState::Accepting, EchoAction::Accept),
        (EchoState::Accepting, EchoEvent::Accepted) => (EchoState::Reading, EchoAction::ReadPacket),
        (EchoState::Reading, EchoEvent::PacketRead { ok }) => if ok {
            (EchoState::Writing, EchoAction::WritePacket)
        } else {
            (EchoState::Stopped, EchoAction::Stop)
        },
        (EchoState::Writing, EchoEvent::PacketWritten) => (
            EchoState::Reading,
            EchoAction::ReadPacket,
        ),
        _ => {
            let action = match state {
                EchoState::Accepting => EchoAction::Accept,
                EchoState::Reading => EchoAction::ReadPacket,
                EchoState::Writing => EchoAction::WritePacket,
                EchoState::Stopped => EchoAction::Stop,
            };
            (state, action)
        },
    }
}

/// The abstract state of a ping-pong client.
pub struct PingPongView {
    pub num_requests: nat,
    pub latencies: Seq<u64>,
}

/// A ping-pong client: it sends `num_requests` packets one at a time, each
/// answered before the next is sent, and records each round-trip time.
pub struct PingPong {
    num_requests: usize,
    latencies: Vec<u64>,
}

impl View for PingPong {
    type V = PingPongView;

    closed spec fn view(&self) -> PingPongView {
        PingPongView { num_requests: self.num_requests as nat, latencies: self.latencies@ }
    }
}

impl PingPong {
    /// The client has recorded at most `num_requests` round trips.
    pub closed spec fn inv(&self) -> bool {
        self.latencies@.len() <= self.num_requests
    }

    /// A client that will send `num_requests` packets.
    pub fn new(num_requests: usize) -> (client: Self)
        ensures
            client.inv(),
            client@.num_requests == num_requests,
            client@.latencies == Seq::<u64>::empty(),
    {
        PingPong { num_requests, latencies: Vec::with_capacity(num_requests) }
    }

    /// Whether another packet is to be sent.
    pub fn has_next_request(&self) -> (more: bool)
        ensures
            more == (self@.latencies.len() < self@.num_requests),
    {
        self.latencies.len() < self.num_requests
    }

    /// The packet to send: `PACKET_SIZE` zero bytes.
    pub fn request(&self) -> (p: Vec<u8>)
        ensures
            p@.len() == PACKET_SIZE,
            forall|i: int| 0 <= i < p@.len() ==> p@[i] == 0,
    {
        packet(0)
    }

    /// Records the round-trip time of the packet just answered.
    pub fn record_round_trip(&mut self, elapsed: u64)
        requires
            old(self).inv(),
            old(self)@.latencies.len() < old(self)@.num_requests,
        ensures
            final(self).inv(),
            final(self)@.num_requests == old(self)@.num_requests,
            final(self)@.latencies == old(self)@.latencies.push(elapsed),
    {
        self.latencies.push(elapsed);
    }

    /// The recorded round-trip times, in the order the packets were sent,
    /// with the duration `total_time` of the whole exchange.
    pub fn finish(self, total_time: u64) -> (r: (Vec<u64>, u64))
        requires
            self.inv(),
            self@.latencies.len() == self@.num_requests,
        ensures
            r.0@ == self@.latencies,
            r.0@.len() == self@.num_requests,
            r.1 == total_time,
    {
        (self.latencies, total_time)
    }
}

/// The echo protocol: the server shuts down only after a failed read, every
/// packet read successfully is written back next, and a stopped server
/// stays stopped.
pub proof fn lemma_echo_protocol(state: EchoState, event: EchoEvent)
    ensures
        echo_transition(state, event).0 == EchoState::Stopped && state != EchoState::Stopped
            ==> event == (EchoEvent::PacketRead { ok: false }),
        state == EchoState::Reading && event == (EchoEvent::PacketRead { ok: true })
            ==> echo_transition(state, event) == (EchoState::Writing, EchoAction::WritePacket),
        state == EchoState::Stopped ==> echo_transition(state, event) == (
            EchoState::Stopped,
            EchoAction::Stop,
        ),
{
}

} // verus!
