//! The per-connection engine: what one UDP or ICMP flow does on each event.
//!
//! The engine owns no socket. Each method takes an event (a readiness report,
//! an inbound client packet, the outcome of a socket call) and returns the
//! next action for the caller to perform on the socket, the poll driver, the
//! client or the router.

use vstd::prelude::*;

use crate::bytes::append_range;
use crate::connection_id::{id_of, identifiable, ConnectionId};
use crate::datagram_buffer::{total_len, DatagramBuffer};
use crate::ipv4::{
    ihl_of, parse_layout, transport_header_len, transport_of, well_formed_packet, Transport, MAX_PACKET_LENGTH,
};
use crate::packetizer::{ip_template_of, response_packet, transport_template_of, Packetizer};
use crate::stream_buffer::StreamBuffer;

verus! {

/// Idle time after which a UDP connection expires, in seconds.
pub const UDP_IDLE_TIMEOUT_SECONDS: u64 = 120;

/// Idle time after which an ICMP connection expires, in seconds.
pub const ICMP_IDLE_TIMEOUT_SECONDS: u64 = 2;

/// Capacity of the UDP queue towards the network, in payload bytes.
pub const UDP_QUEUE_CAPACITY: usize = 4 * MAX_PACKET_LENGTH;

/// Capacity of the ICMP queue towards the network, in bytes.
pub const ICMP_QUEUE_CAPACITY: usize = MAX_PACKET_LENGTH;

/// Readiness interests registered with the poll driver.
#[derive(Debug, Clone, Copy, PartialEq, Eq, Structural)]
pub enum Interests {
    Readable,
    ReadableWritable,
}

/// The outcome of writing queued data to the host socket.
#[derive(Debug, Clone, Copy, PartialEq, Eq, Structural)]
pub enum WriteOutcome {
    /// The socket took this many bytes.
    Written(usize),
    /// The socket was not ready.
    WouldBlock,
    /// The socket reported any other error.
    Failed,
}

/// The outcome of reading one datagram from the host socket.
#[derive(Debug, Clone, PartialEq, Eq)]
pub enum ReadOutcome {
    /// The payload that was read.
    Received(Vec<u8>),
    /// The socket was not ready.
    WouldBlock,
    /// The socket reported any other error.
    Failed,
}

/// What the caller does next.
#[derive(Debug, Clone, PartialEq, Eq)]
pub enum Step {
    /// Nothing more in this tick.
    Done,
    /// Write `pending_output()` to the socket, then call `process_send`.
    Write,
    /// Read one datagram from the socket, then call `process_receive`.
    Read,
    /// Hand this packet to the client, then call `finish_tick`.
    Deliver(Vec<u8>),
    /// Register these interests with the poll driver; the tick is over.
    Reregister(Interests),
    /// Deregister the socket and remove the connection from the router; the
    /// tick is over.
    Teardown,
}

/// An inbound client packet was not queued: the connection is closed, the
/// packet is malformed or of another transport, or it does not fit.
#[derive(Debug, Clone, Copy, PartialEq, Eq, Structural)]
pub struct PacketDropped;

/// The abstract state of a connection.
pub struct ConnectionView {
    pub id: ConnectionId,
    pub transport: Transport,
    pub interests: Interests,
    pub closed: bool,
    /// Milliseconds on the caller's monotonic clock.
    pub idle_since: u64,
    /// Bytes queued towards the network (ICMP; empty for UDP).
    pub stream: Seq<u8>,
    /// Datagrams queued towards the network (UDP; empty for ICMP).
    pub datagrams: Seq<Seq<u8>>,
    pub ip_template: Seq<u8>,
    pub transport_template: Seq<u8>,
}

/// Whether nothing is queued towards the network.
pub open spec fn queue_empty(v: ConnectionView) -> bool {
    v.stream.len() == 0 && v.datagrams.len() == 0
}

/// The interests the queue calls for.
pub open spec fn desired_interests(v: ConnectionView) -> Interests {
    if queue_empty(v) {
        Interests::Readable
    } else {
        Interests::ReadableWritable
    }
}

/// The reregistration an interest update issues, if any.
pub open spec fn reregistration(v: ConnectionView) -> Option<Interests> {
    if !v.closed && v.interests != desired_interests(v) {
        Some(desired_interests(v))
    } else {
        None
    }
}

/// The state after an interest update.
pub open spec fn refreshed(v: ConnectionView) -> ConnectionView {
    if v.closed {
        v
    } else {
        ConnectionView { interests: desired_interests(v), ..v }
    }
}

/// Whether `r` is the step that ends a tick from state `v`.
pub open spec fn finish_step(v: ConnectionView, r: Step) -> bool {
    match reregistration(v) {
        Some(i) => r == Step::Reregister(i),
        None => r == Step::Done,
    }
}

/// The state once closed.
pub open spec fn closed_view(v: ConnectionView) -> ConnectionView {
    ConnectionView { closed: true, ..v }
}

/// The state once touched at `now`.
pub open spec fn touched(v: ConnectionView, now: u64) -> ConnectionView {
    ConnectionView { idle_since: now, ..v }
}

/// The payload of client packet `p`: what follows its IPv4 header and, for
/// UDP, its UDP header.
pub open spec fn payload_of(p: Seq<u8>) -> Seq<u8> {
    p.subrange((ihl_of(p) + transport_header_len(transport_of(p).unwrap())) as int, p.len() as int)
}

/// Whether client packet `p` is queued: the connection is open, `p` is a
/// well-formed packet of its transport, and it fits. An ICMP packet fits when
/// its whole encoded length fits in what is left of the byte queue; a UDP
/// payload fits when it fits in what is left of the datagram queue.
pub open spec fn accepts(v: ConnectionView, p: Seq<u8>) -> bool {
    &&& !v.closed
    &&& well_formed_packet(p)
    &&& transport_of(p) == Some(v.transport)
    &&& match v.transport {
        Transport::Icmp => v.stream.len() + p.len() <= ICMP_QUEUE_CAPACITY,
        Transport::Udp => total_len(v.datagrams) + payload_of(p).len() <= UDP_QUEUE_CAPACITY,
    }
}

/// The state with the payload of `p` queued.
pub open spec fn enqueued(v: ConnectionView, p: Seq<u8>) -> ConnectionView {
    match v.transport {
        Transport::Icmp => ConnectionView { stream: v.stream + payload_of(p), ..v },
        Transport::Udp => ConnectionView { datagrams: v.datagrams.push(payload_of(p)), ..v },
    }
}

/// The state after the socket took `n` bytes of the queue: for ICMP that
/// many bytes leave; for UDP the oldest datagram leaves whole.
pub open spec fn written(v: ConnectionView, n: nat) -> ConnectionView {
    match v.transport {
        Transport::Icmp => {
            let k = if n <= v.stream.len() { n } else { v.stream.len() };
            ConnectionView { stream: v.stream.subrange(k as int, v.stream.len() as int), ..v }
        },
        Transport::Udp => ConnectionView { datagrams: v.datagrams.drop_first(), ..v },
    }
}

/// Whether a read `payload` yields a packet for the client: it fits in an
/// IPv4 packet and, for ICMP, is not empty.
pub open spec fn deliverable(v: ConnectionView, payload: Seq<u8>) -> bool {
    &&& v.ip_template.len() + v.transport_template.len() + payload.len() <= 65535
    &&& (v.transport == Transport::Icmp ==> payload.len() > 0)
}

/// The idle timeout of `t`, in seconds.
pub open spec fn idle_timeout(t: Transport) -> nat {
    match t {
        Transport::Udp => UDP_IDLE_TIMEOUT_SECONDS as nat,
        Transport::Icmp => ICMP_IDLE_TIMEOUT_SECONDS as nat,
    }
}

/// Milliseconds from the last touch to `now` (zero if `now` is earlier).
pub open spec fn elapsed_ms(v: ConnectionView, now: u64) -> nat {
    if now >= v.idle_since {
        (now - v.idle_since) as nat
    } else {
        0
    }
}

/// After an interest update the state holds exactly the interests the
/// update handed to the poll driver, or, when it handed none, the interests
/// it held before: the cached interests always mirror the last registration.
pub proof fn lemma_interests_mirror_registration(v: ConnectionView)
    ensures
        refreshed(v).interests == match reregistration(v) {
            Some(i) => i,
            None => v.interests,
        },
{
}

/// A second interest update with no change in between issues no
/// reregistration and changes nothing.
pub proof fn lemma_update_interests_idempotent(v: ConnectionView)
    ensures
        reregistration(refreshed(v)) is None,
        refreshed(refreshed(v)) == refreshed(v),
{
}

/// A closed connection queues no packet, issues no reregistration and is
/// left as it is by an interest update.
pub proof fn lemma_closed_connection_is_inert(v: ConnectionView, p: Seq<u8>)
    requires
        v.closed,
    ensures
        !accepts(v, p),
        reregistration(v) is None,
        refreshed(v) == v,
{
}

/// A queued packet is present whole: its payload is the last datagram (UDP)
/// or the last bytes (ICMP) of the queue, after everything queued before.
pub proof fn lemma_enqueue_whole(v: ConnectionView, p: Seq<u8>)
    requires
        accepts(v, p),
    ensures
        v.transport == Transport::Udp ==> {
            &&& enqueued(v, p).datagrams.len() == v.datagrams.len() + 1
            &&& enqueued(v, p).datagrams.last() == payload_of(p)
            &&& enqueued(v, p).datagrams.drop_last() == v.datagrams
        },
        v.transport == Transport::Icmp ==> {
            &&& enqueued(v, p).stream.subrange(0, v.stream.len() as int) == v.stream
            &&& enqueued(v, p).stream.subrange(v.stream.len() as int, enqueued(v, p).stream.len() as int) == payload_of(p)
        },
{
    if v.transport == Transport::Udp {
        assert(enqueued(v, p).datagrams.drop_last() =~= v.datagrams);
    } else {
        assert(enqueued(v, p).stream.subrange(0, v.stream.len() as int) =~= v.stream);
        assert(enqueued(v, p).stream.subrange(v.stream.len() as int, enqueued(v, p).stream.len() as int) =~= payload_of(p));
    }
}

/// A UDP payload larger than the whole datagram queue is never queued.
pub proof fn lemma_oversized_udp_payload_dropped(v: ConnectionView, p: Seq<u8>)
    requires
        v.transport == Transport::Udp,
        well_formed_packet(p) ==> payload_of(p).len() > UDP_QUEUE_CAPACITY,
    ensures
        !accepts(v, p),
{
}

/// An ICMP packet whose encoded length exceeds what is left of the byte
/// queue is never queued.
pub proof fn lemma_icmp_packet_over_remaining_dropped(v: ConnectionView, p: Seq<u8>)
    requires
        v.transport == Transport::Icmp,
        p.len() > ICMP_QUEUE_CAPACITY - v.stream.len(),
    ensures
        !accepts(v, p),
{
}

/// Bytes queued towards the network.
pub enum Outbound {
    Stream(StreamBuffer),
    Datagrams(DatagramBuffer),
}

/// One relayed UDP or ICMP flow.
pub struct Connection {
    id: ConnectionId,
    interests: Interests,
    client_to_network: Outbound,
    network_to_client: Packetizer,
    closed: bool,
    idle_since: u64,
}

impl View for Connection {
    type V = ConnectionView;

    closed spec fn view(&self) -> ConnectionView {
        ConnectionView {
            id: self.id,
            transport: self.network_to_client.transport_spec(),
            interests: self.interests,
            closed: self.closed,
            idle_since: self.idle_since,
            stream: match &self.client_to_network {
                Outbound::Stream(b) => b@,
                Outbound::Datagrams(_) => Seq::empty(),
            },
            datagrams: match &self.client_to_network {
                Outbound::Stream(_) => Seq::empty(),
                Outbound::Datagrams(d) => d@,
            },
            ip_template: self.network_to_client.ip_template(),
            transport_template: self.network_to_client.transport_template(),
        }
    }
}

impl Connection {
    /// The queue matches the transport, holds its capacity, and the
    /// packetizer's templates are whole.
    pub closed spec fn wf(&self) -> bool {
        &&& self.network_to_client.wf()
        &&& match &self.client_to_network {
            Outbound::Stream(b) => {
                &&& self.network_to_client.transport_spec() == Transport::Icmp
                &&& b.wf()
                &&& b.cap() == ICMP_QUEUE_CAPACITY
            },
            Outbound::Datagrams(d) => {
                &&& self.network_to_client.transport_spec() == Transport::Udp
                &&& d.wf()
                &&& d.cap() == UDP_QUEUE_CAPACITY
            },
        }
    }

    /// A connection for the flow that client packet `first` opens, touched at
    /// `now`, interested in reading; `None` when the flow of `first` cannot be
    /// identified (see `identifiable`).
    pub fn create(first: &[u8], now: u64) -> (r: Option<Connection>)
        ensures
            r is Some <==> identifiable(first@),
            r matches Some(c) ==> {
                &&& c.wf()
                &&& c@.id == id_of(first@)
                &&& c@.transport == transport_of(first@).unwrap()
                &&& c@.interests == Interests::Readable
                &&& !c@.closed
                &&& c@.idle_since == now
                &&& queue_empty(c@)
                &&& c@.ip_template == ip_template_of(first@)
                &&& c@.transport_template == transport_template_of(first@)
            },
    {
        let id = match ConnectionId::from_packet(first) {
            Some(i) => i,
            None => return None,
        };
        let packetizer = match Packetizer::new(first) {
            Some(k) => k,
            None => return None,
        };
        let client_to_network = match packetizer.transport() {
            Transport::Udp => Outbound::Datagrams(DatagramBuffer::new(UDP_QUEUE_CAPACITY)),
            Transport::Icmp => Outbound::Stream(StreamBuffer::new(ICMP_QUEUE_CAPACITY)),
        };
        let c = Connection {
            id,
            interests: Interests::Readable,
            client_to_network,
            network_to_client: packetizer,
            closed: false,
            idle_since: now,
        };
        assert(queue_empty(c@));
        Some(c)
    }

    /// The identity of the flow.
    pub fn id(&self) -> (r: &ConnectionId)
        ensures
            *r == self@.id,
    {
        &self.id
    }

    /// The transport of the flow.
    pub fn transport(&self) -> (r: Transport)
        ensures
            r == self@.transport,
    {
        self.network_to_client.transport()
    }

    /// The interests last handed to the poll driver.
    pub fn interests(&self) -> (r: Interests)
        ensures
            r == self@.interests,
    {
        self.interests
    }

    /// When the connection last saw activity, in milliseconds.
    pub fn idle_since(&self) -> (r: u64)
        ensures
            r == self@.idle_since,
    {
        self.idle_since
    }

    /// Whether the connection is closed.
    pub fn is_closed(&self) -> (r: bool)
        ensures
            r == self@.closed,
    {
        self.closed
    }

    /// Whether nothing is queued towards the network.
    pub fn is_queue_empty(&self) -> (r: bool)
        ensures
            r == queue_empty(self@),
    {
        match &self.client_to_network {
            Outbound::Stream(b) => b.is_empty(),
            Outbound::Datagrams(d) => d.is_empty(),
        }
    }

    /// Whether more than the idle timeout of the transport has passed since
    /// the last touch, `now` being read on the same clock, in milliseconds.
    pub fn is_expired(&self, now: u64) -> (r: bool)
        ensures
            r == (elapsed_ms(self@, now) > idle_timeout(self@.transport) * 1000),
    {
        let elapsed: u64 = if now >= self.idle_since {
            now - self.idle_since
        } else {
            0
        };
        let timeout: u64 = match self.network_to_client.transport() {
            Transport::Udp => UDP_IDLE_TIMEOUT_SECONDS,
            Transport::Icmp => ICMP_IDLE_TIMEOUT_SECONDS,
        };
        elapsed > timeout * 1000
    }

    /// Records activity at `now`.
    pub fn touch(&mut self, now: u64)
        ensures
            final(self)@ == touched(old(self)@, now),
            final(self).wf() == old(self).wf(),
    {
        self.idle_since = now;
    }

    /// Marks the connection closed. Returns whether the socket must now be
    /// deregistered: only on the first close.
    pub fn close(&mut self) -> (r: bool)
        ensures
            r == !old(self)@.closed,
            final(self)@ == closed_view(old(self)@),
            final(self).wf() == old(self).wf(),
    {
        let was_open = !self.closed;
        self.closed = true;
        was_open
    }

    /// Brings the interests in line with the queue: readable, and writable
    /// too while something is queued. Returns the interests to register with
    /// the poll driver when they changed; a closed connection issues nothing.
    pub fn update_interests(&mut self) -> (r: Option<Interests>)
        ensures
            r == reregistration(old(self)@),
            final(self)@ == refreshed(old(self)@),
            final(self).wf() == old(self).wf(),
    {
        if self.closed {
            return None;
        }
        let empty = self.is_queue_empty();
        let desired = if empty {
            Interests::Readable
        } else {
            Interests::ReadableWritable
        };
        if self.interests != desired {
            self.interests = desired;
            Some(desired)
        } else {
            None
        }
    }

    /// What the socket is to take next: all queued bytes for ICMP, the
    /// oldest datagram for UDP.
    pub fn pending_output(&self) -> (r: &[u8])
        requires
            self.wf(),
        ensures
            r@ == match self@.transport {
                Transport::Icmp => self@.stream,
                Transport::Udp => if self@.datagrams.len() > 0 {
                    self@.datagrams[0]
                } else {
                    Seq::empty()
                },
            },
    {
        match &self.client_to_network {
            Outbound::Stream(b) => b.pending(),
            Outbound::Datagrams(d) => match d.front() {
                Some(f) => f,
                None => &[],
            },
        }
    }

    /// Queues the payload of client packet `packet` towards the network,
    /// whole or not at all (see `accepts`), and then updates the interests.
    /// Returns the interests to register with the poll driver if they
    /// changed, or `PacketDropped` when the packet was not queued.
    pub fn send_to_network(&mut self, packet: &[u8]) -> (r: Result<Option<Interests>, PacketDropped>)
        requires
            old(self).wf(),
        ensures
            final(self).wf(),
            r is Err <==> !accepts(old(self)@, packet@),
            r is Err ==> final(self)@ == old(self)@,
            r matches Ok(i) ==> {
                &&& final(self)@ == refreshed(enqueued(old(self)@, packet@))
                &&& i == reregistration(enqueued(old(self)@, packet@))
            },
    {
        if self.closed {
            return Err(PacketDropped);
        }
        let layout = match parse_layout(packet) {
            Some(l) => l,
            None => return Err(PacketDropped),
        };
        if layout.transport != self.transport() {
            return Err(PacketDropped);
        }
        let start = layout.ip_header_length + layout.transport_header_length;
        let mut payload: Vec<u8> = Vec::new();
        append_range(&mut payload, packet, start, packet.len());
        assert(payload@ == payload_of(packet@));
        let ghost before = self@;
        match &mut self.client_to_network {
            Outbound::Stream(b) => {
                if packet.len() > b.remaining() {
                    return Err(PacketDropped);
                }
                b.read_from(payload.as_slice());
            },
            Outbound::Datagrams(d) => {
                if d.read_from(payload.as_slice()).is_err() {
                    return Err(PacketDropped);
                }
            },
        }
        assert(self@ == enqueued(before, packet@));
        Ok(self.update_interests())
    }

    /// Starts a tick on a readiness report at `now`. A closed connection
    /// does nothing. Otherwise it is touched; a report that is neither
    /// readable nor writable (an error or hang-up) closes it; a writable
    /// report with something queued asks for a write; then a readable one
    /// asks for a read; else the tick ends with an interest update.
    pub fn process(&mut self, now: u64, readable: bool, writable: bool) -> (r: Step)
        requires
            old(self).wf(),
        ensures
            final(self).wf(),
            old(self)@.closed ==> final(self)@ == old(self)@ && r == Step::Done,
            !old(self)@.closed && !readable && !writable ==> {
                &&& final(self)@ == closed_view(touched(old(self)@, now))
                &&& r == Step::Teardown
            },
            !old(self)@.closed && writable && !queue_empty(old(self)@) ==> {
                &&& final(self)@ == touched(old(self)@, now)
                &&& r == Step::Write
            },
            !old(self)@.closed && readable && (!writable || queue_empty(old(self)@)) ==> {
                &&& final(self)@ == touched(old(self)@, now)
                &&& r == Step::Read
            },
            !old(self)@.closed && !readable && writable && queue_empty(old(self)@) ==> {
                &&& final(self)@ == refreshed(touched(old(self)@, now))
                &&& finish_step(touched(old(self)@, now), r)
            },
    {
        if self.closed {
            return Step::Done;
        }
        self.touch(now);
        if !readable && !writable {
            self.close();
            return Step::Teardown;
        }
        if writable && !self.is_queue_empty() {
            return Step::Write;
        }
        if readable {
            return Step::Read;
        }
        self.finish_tick()
    }

    /// Takes the outcome of writing `pending_output()`, as `process` asked.
    /// On success the bytes taken leave the queue and the tick goes on to a
    /// read if the report was readable, else ends with an interest update.
    /// When the socket was not ready the tick ends with nothing changed; any
    /// other error closes the connection.
    pub fn process_send(&mut self, outcome: WriteOutcome, readable: bool) -> (r: Step)
        requires
            old(self).wf(),
            !old(self)@.closed,
            !queue_empty(old(self)@),
        ensures
            final(self).wf(),
            outcome matches WriteOutcome::Written(n) ==> {
                let v = written(old(self)@, n as nat);
                if readable {
                    final(self)@ == v && r == Step::Read
                } else {
                    final(self)@ == refreshed(v) && finish_step(v, r)
                }
            },
            outcome is WouldBlock ==> final(self)@ == old(self)@ && r == Step::Done,
            outcome is Failed ==> final(self)@ == closed_view(old(self)@) && r == Step::Teardown,
    {
        match outcome {
            WriteOutcome::Written(n) => {
                let ghost before = self@;
                match &mut self.client_to_network {
                    Outbound::Stream(b) => {
                        let len = b.pending().len();
                        let k = if n <= len {
                            n
                        } else {
                            len
                        };
                        b.consume(k);
                    },
                    Outbound::Datagrams(d) => {
                        d.consume_front();
                    },
                }
                assert(self@ == written(before, n as nat));
                if readable {
                    Step::Read
                } else {
                    self.finish_tick()
                }
            },
            WriteOutcome::WouldBlock => Step::Done,
            WriteOutcome::Failed => {
                self.close();
                Step::Teardown
            },
        }
    }

    /// Takes the outcome of reading the socket, as `process` asked. A payload
    /// that makes a packet (see `deliverable`) is handed back as a response
    /// packet for the client; another ends the tick with an interest update.
    /// When the socket was not ready the tick ends with nothing changed; any
    /// other error closes the connection.
    pub fn process_receive(&mut self, outcome: ReadOutcome) -> (r: Step)
        requires
            old(self).wf(),
            !old(self)@.closed,
        ensures
            final(self).wf(),
            outcome matches ReadOutcome::Received(p) ==> {
                if deliverable(old(self)@, p@) {
                    &&& final(self)@ == old(self)@
                    &&& r matches Step::Deliver(k)
                    &&& k@ == response_packet(
                        old(self)@.transport,
                        old(self)@.ip_template,
                        old(self)@.transport_template,
                        p@,
                    )
                } else {
                    final(self)@ == refreshed(old(self)@) && finish_step(old(self)@, r)
                }
            },
            outcome is WouldBlock ==> final(self)@ == old(self)@ && r == Step::Done,
            outcome is Failed ==> final(self)@ == closed_view(old(self)@) && r == Step::Teardown,
    {
        match outcome {
            ReadOutcome::Received(payload) => {
                let icmp_empty = payload.len() == 0 && self.transport() == Transport::Icmp;
                if !icmp_empty {
                    if let Some(k) = self.network_to_client.packetize(payload.as_slice()) {
                        return Step::Deliver(k);
                    }
                }
                self.finish_tick()
            },
            ReadOutcome::WouldBlock => Step::Done,
            ReadOutcome::Failed => {
                self.close();
                Step::Teardown
            },
        }
    }

    /// Ends a tick with an interest update: asks for a reregistration when
    /// the interests changed.
    pub fn finish_tick(&mut self) -> (r: Step)
        requires
            old(self).wf(),
        ensures
            final(self).wf(),
            final(self)@ == refreshed(old(self)@),
            finish_step(old(self)@, r),
    {
        match self.update_interests() {
            Some(i) => Step::Reregister(i),
            None => Step::Done,
        }
    }
}

} // verus!
