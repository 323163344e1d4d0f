//! The pool of TCP control blocks that the network stack maps onto the
//! modem's sockets, each with its own receive and transmit queues.
use vstd::prelude::*;
use crate::ip::SocketAddr;

verus! {

/// The local handle of a socket: its index in the pool.
#[derive(Clone, Copy, Debug, PartialEq, Eq, Structural)]
pub struct SocketHandle(pub u8);

/// The number the modem gives a socket of its own (1 to 6).
#[derive(Clone, Copy, Debug, PartialEq, Eq, Structural)]
pub struct PeerHandle(pub u8);

/// How many sockets the modem has.
pub const MODEM_SOCKETS: usize = 6;

#[derive(Clone, Copy, Debug, PartialEq, Eq, Structural)]
pub enum TcpState {
    Closed,
    Listen,
    SynSent,
    SynReceived,
    Established,
    FinWait1,
    FinWait2,
    CloseWait,
    Closing,
    LastAck,
    TimeWait,
}

/// States in which queued bytes are still sent.
pub open spec fn may_send(s: TcpState) -> bool {
    s == TcpState::Established || s == TcpState::CloseWait || s == TcpState::LastAck
}

/// A queue of `cap` bytes at most after `data` is offered to it: as much of
/// `data` as fits is appended.
pub open spec fn enqueue(q: Seq<u8>, cap: nat, data: Seq<u8>) -> Seq<u8> {
    let room: int = cap - q.len();
    if room <= 0 {
        q
    } else if data.len() <= room {
        q + data
    } else {
        q + data.subrange(0, room)
    }
}

/// How many bytes a queue holding `q` takes of `data`.
pub open spec fn accepted(q: Seq<u8>, cap: nat, data: Seq<u8>) -> nat {
    (enqueue(q, cap, data).len() - q.len()) as nat
}

/// The bytes at the front of `q` that a read of up to `max` bytes takes.
pub open spec fn front(q: Seq<u8>, max: nat) -> Seq<u8> {
    if max < q.len() {
        q.subrange(0, max as int)
    } else {
        q
    }
}

/// What is left of `q` after such a read.
pub open spec fn after_front(q: Seq<u8>, max: nat) -> Seq<u8> {
    q.subrange(front(q, max).len() as int, q.len() as int)
}

pub struct TcpSocket {
    state: TcpState,
    /// The modem socket this one is mapped to, once the modem opened it.
    peer_handle: Option<PeerHandle>,
    /// Where the socket connects to.
    remote: Option<SocketAddr>,
    rx: Vec<u8>,
    rx_capacity: usize,
    tx: Vec<u8>,
    tx_capacity: usize,
}

/// Appends to `q` as much of `data` as keeps it within `cap` bytes.
fn enqueue_into(q: &mut Vec<u8>, cap: usize, data: &[u8]) -> (n: usize)
    requires
        old(q)@.len() <= cap,
    ensures
        final(q)@ == enqueue(old(q)@, cap as nat, data@),
        n == accepted(old(q)@, cap as nat, data@),
        final(q)@.len() <= cap,
{
    let ghost q0 = q@;
    let room = cap - q.len();
    let n = if data.len() < room {
        data.len()
    } else {
        room
    };
    let mut i: usize = 0;
    while i < n
        invariant
            n <= data@.len(),
            n <= cap - q0.len(),
            i <= n,
            q@ == q0 + data@.subrange(0, i as int),
        decreases n - i,
    {
        q.push(data[i]);
        proof {
            assert(q@ =~= q0 + data@.subrange(0, i + 1));
        }
        i = i + 1;
    }
    proof {
        if data@.len() <= cap - q0.len() {
            assert(data@.subrange(0, n as int) =~= data@);
        }
    }
    n
}

/// Takes up to `max` bytes from the front of `q`.
fn dequeue_from(q: &mut Vec<u8>, max: usize) -> (r: Vec<u8>)
    ensures
        r@ == front(old(q)@, max as nat),
        final(q)@ == after_front(old(q)@, max as nat),
        r@ + final(q)@ == old(q)@,
{
    let n = if max < q.len() {
        max
    } else {
        q.len()
    };
    let mut head: Vec<u8> = Vec::new();
    let mut rest: Vec<u8> = Vec::new();
    let mut i: usize = 0;
    while i < q.len()
        invariant
            n <= q@.len(),
            i <= q@.len(),
            i <= n ==> head@ == q@.subrange(0, i as int) && rest@.len() == 0,
            i > n ==> head@ == q@.subrange(0, n as int) && rest@ == q@.subrange(n as int, i as int),
        decreases q@.len() - i,
    {
        if i < n {
            head.push(q[i]);
            proof {
                assert(head@ =~= q@.subrange(0, i + 1));
            }
        } else {
            rest.push(q[i]);
            proof {
                assert(rest@ =~= q@.subrange(n as int, i + 1));
            }
        }
        i = i + 1;
    }
    proof {
        assert(head@ =~= front(q@, max as nat));
        assert(rest@ =~= after_front(q@, max as nat));
        assert(head@ + rest@ =~= q@);
    }
    *q = rest;
    head
}

impl TcpSocket {
    pub closed spec fn tcp_state(&self) -> TcpState {
        self.state
    }

    pub closed spec fn peer(&self) -> Option<PeerHandle> {
        self.peer_handle
    }

    pub closed spec fn endpoint(&self) -> Option<SocketAddr> {
        self.remote
    }

    pub fn state(&self) -> (r: TcpState)
        ensures
            r == self.tcp_state(),
    {
        self.state
    }

    pub fn peer_handle(&self) -> (r: Option<PeerHandle>)
        ensures
            r == self.peer(),
    {
        self.peer_handle
    }

    pub fn remote_endpoint(&self) -> (r: Option<SocketAddr>)
        ensures
            r == self.endpoint(),
    {
        self.remote
    }

    pub fn set_state(&mut self, state: TcpState)
        ensures
            final(self).tcp_state() == state,
            final(self).peer() == old(self).peer(),
            final(self).endpoint() == old(self).endpoint(),
            final(self).rx_view() == old(self).rx_view(),
            final(self).tx_view() == old(self).tx_view(),
            final(self).rx_cap() == old(self).rx_cap(),
            final(self).tx_cap() == old(self).tx_cap(),
    {
        self.state = state;
    }

    pub fn set_peer_handle(&mut self, peer: Option<PeerHandle>)
        ensures
            final(self).tcp_state() == old(self).tcp_state(),
            final(self).peer() == peer,
            final(self).endpoint() == old(self).endpoint(),
            final(self).rx_view() == old(self).rx_view(),
            final(self).tx_view() == old(self).tx_view(),
            final(self).rx_cap() == old(self).rx_cap(),
            final(self).tx_cap() == old(self).tx_cap(),
    {
        self.peer_handle = peer;
    }

    pub fn set_remote_endpoint(&mut self, remote: Option<SocketAddr>)
        ensures
            final(self).tcp_state() == old(self).tcp_state(),
            final(self).peer() == old(self).peer(),
            final(self).endpoint() == remote,
            final(self).rx_view() == old(self).rx_view(),
            final(self).tx_view() == old(self).tx_view(),
            final(self).rx_cap() == old(self).rx_cap(),
            final(self).tx_cap() == old(self).tx_cap(),
    {
        self.remote = remote;
    }

    pub closed spec fn rx_view(&self) -> Seq<u8> {
        self.rx@
    }

    pub closed spec fn tx_view(&self) -> Seq<u8> {
        self.tx@
    }

    pub closed spec fn rx_cap(&self) -> nat {
        self.rx_capacity as nat
    }

    pub closed spec fn tx_cap(&self) -> nat {
        self.tx_capacity as nat
    }

    /// Neither queue holds more than its size.
    pub open spec fn wf(&self) -> bool {
        self.rx_view().len() <= self.rx_cap() && self.tx_view().len() <= self.tx_cap()
    }

    /// A closed socket with empty queues of the given sizes.
    pub fn new(rx_capacity: usize, tx_capacity: usize) -> (r: TcpSocket)
        ensures
            r.wf(),
            r.tcp_state() == TcpState::Closed,
            r.peer() == None::<PeerHandle>,
            r.endpoint() == None::<SocketAddr>,
            r.rx_view() == Seq::<u8>::empty(),
            r.tx_view() == Seq::<u8>::empty(),
            r.rx_cap() == rx_capacity,
            r.tx_cap() == tx_capacity,
    {
        TcpSocket {
            state: TcpState::Closed,
            peer_handle: None,
            remote: None,
            rx: Vec::new(),
            rx_capacity,
            tx: Vec::new(),
            tx_capacity,
        }
    }

    /// Queues received bytes, as many as fit; gives how many were taken.
    pub fn rx_enqueue_slice(&mut self, data: &[u8]) -> (n: usize)
        requires
            old(self).wf(),
        ensures
            final(self).wf(),
            final(self).rx_view() == enqueue(old(self).rx_view(), old(self).rx_cap(), data@),
            n == accepted(old(self).rx_view(), old(self).rx_cap(), data@),
            final(self).tx_view() == old(self).tx_view(),
            final(self).rx_cap() == old(self).rx_cap(),
            final(self).tx_cap() == old(self).tx_cap(),
            final(self).tcp_state() == old(self).tcp_state(),
            final(self).peer() == old(self).peer(),
            final(self).endpoint() == old(self).endpoint(),
    {
        enqueue_into(&mut self.rx, self.rx_capacity, data)
    }

    /// Reads up to `max` received bytes, oldest first.
    pub fn rx_dequeue(&mut self, max: usize) -> (r: Vec<u8>)
        requires
            old(self).wf(),
        ensures
            final(self).wf(),
            r@ == front(old(self).rx_view(), max as nat),
            final(self).rx_view() == after_front(old(self).rx_view(), max as nat),
            final(self).tx_view() == old(self).tx_view(),
            final(self).rx_cap() == old(self).rx_cap(),
            final(self).tx_cap() == old(self).tx_cap(),
            final(self).tcp_state() == old(self).tcp_state(),
            final(self).peer() == old(self).peer(),
            final(self).endpoint() == old(self).endpoint(),
    {
        dequeue_from(&mut self.rx, max)
    }

    /// Queues bytes to send, as many as fit; gives how many were taken.
    pub fn tx_enqueue_slice(&mut self, data: &[u8]) -> (n: usize)
        requires
            old(self).wf(),
        ensures
            final(self).wf(),
            final(self).tx_view() == enqueue(old(self).tx_view(), old(self).tx_cap(), data@),
            n == accepted(old(self).tx_view(), old(self).tx_cap(), data@),
            final(self).rx_view() == old(self).rx_view(),
            final(self).rx_cap() == old(self).rx_cap(),
            final(self).tx_cap() == old(self).tx_cap(),
            final(self).tcp_state() == old(self).tcp_state(),
            final(self).peer() == old(self).peer(),
            final(self).endpoint() == old(self).endpoint(),
    {
        enqueue_into(&mut self.tx, self.tx_capacity, data)
    }

    /// Takes up to `max` queued bytes to send, oldest first.
    pub fn tx_dequeue(&mut self, max: usize) -> (r: Vec<u8>)
        requires
            old(self).wf(),
        ensures
            final(self).wf(),
            r@ == front(old(self).tx_view(), max as nat),
            final(self).tx_view() == after_front(old(self).tx_view(), max as nat),
            r@ + final(self).tx_view() == old(self).tx_view(),
            final(self).rx_view() == old(self).rx_view(),
            final(self).rx_cap() == old(self).rx_cap(),
            final(self).tx_cap() == old(self).tx_cap(),
            final(self).tcp_state() == old(self).tcp_state(),
            final(self).peer() == old(self).peer(),
            final(self).endpoint() == old(self).endpoint(),
    {
        dequeue_from(&mut self.tx, max)
    }

    pub fn rx_len(&self) -> (r: usize)
        ensures
            r == self.rx_view().len(),
    {
        self.rx.len()
    }

    pub fn tx_len(&self) -> (r: usize)
        ensures
            r == self.tx_view().len(),
    {
        self.tx.len()
    }
}

/// How many bytes the chunks `ws` hold together.
pub open spec fn total_len(ws: Seq<Seq<u8>>) -> nat
    decreases ws.len(),
{
    if ws.len() == 0 {
        0
    } else {
        total_len(ws.drop_last()) + ws.last().len()
    }
}

/// The chunks `ws` one after another.
pub open spec fn concat(ws: Seq<Seq<u8>>) -> Seq<u8>
    decreases ws.len(),
{
    if ws.len() == 0 {
        Seq::empty()
    } else {
        concat(ws.drop_last()) + ws.last()
    }
}

/// A queue of size `cap` holding `q` after each of `ws` is written to it.
pub open spec fn write_all(q: Seq<u8>, cap: nat, ws: Seq<Seq<u8>>) -> Seq<u8>
    decreases ws.len(),
{
    if ws.len() == 0 {
        q
    } else {
        enqueue(write_all(q, cap, ws.drop_last()), cap, ws.last())
    }
}

/// The chunks that reads of at most `sizes[0]`, `sizes[1]`, ... bytes take
/// from the queue `q`, and what is left in it.
pub open spec fn drain(q: Seq<u8>, sizes: Seq<nat>) -> (Seq<Seq<u8>>, Seq<u8>)
    decreases sizes.len(),
{
    if sizes.len() == 0 {
        (Seq::empty(), q)
    } else {
        let (cs, rest) = drain(q, sizes.drop_last());
        (cs.push(front(rest, sizes.last())), after_front(rest, sizes.last()))
    }
}

proof fn lemma_concat_len(ws: Seq<Seq<u8>>)
    ensures
        concat(ws).len() == total_len(ws),
    decreases ws.len(),
{
    if ws.len() > 0 {
        lemma_concat_len(ws.drop_last());
    }
}

proof fn lemma_write_all_fits(cap: nat, ws: Seq<Seq<u8>>)
    requires
        total_len(ws) <= cap,
    ensures
        write_all(Seq::empty(), cap, ws) == concat(ws),
    decreases ws.len(),
{
    if ws.len() > 0 {
        lemma_write_all_fits(cap, ws.drop_last());
        lemma_concat_len(ws.drop_last());
        let q = concat(ws.drop_last());
        if ws.last().len() == 0 {
            assert(q + ws.last() =~= q);
        }
    }
}

proof fn lemma_drain_keeps_order(q: Seq<u8>, sizes: Seq<nat>)
    ensures
        concat(drain(q, sizes).0) + drain(q, sizes).1 == q,
    decreases sizes.len(),
{
    if sizes.len() > 0 {
        lemma_drain_keeps_order(q, sizes.drop_last());
        let (cs, rest) = drain(q, sizes.drop_last());
        let f = front(rest, sizes.last());
        let a = after_front(rest, sizes.last());
        assert(cs.push(f).drop_last() =~= cs);
        assert(f + a =~= rest);
        assert(concat(cs.push(f)) + a =~= concat(cs) + rest);
    }
}

/// Bytes written to an empty transmit queue, no more than it holds, come out
/// of it in the order they were written: the chunks that any sequence of
/// reads takes, followed by what is left, are the writes one after another.
/// Once the queue is drained, the chunks alone are.
pub proof fn lemma_tx_round_trip(cap: nat, ws: Seq<Seq<u8>>, sizes: Seq<nat>)
    requires
        total_len(ws) <= cap,
    ensures
        concat(drain(write_all(Seq::empty(), cap, ws), sizes).0) + drain(
            write_all(Seq::empty(), cap, ws),
            sizes,
        ).1 == concat(ws),
        drain(write_all(Seq::empty(), cap, ws), sizes).1.len() == 0 ==> concat(
            drain(write_all(Seq::empty(), cap, ws), sizes).0,
        ) == concat(ws),
{
    lemma_write_all_fits(cap, ws);
    lemma_drain_keeps_order(write_all(Seq::empty(), cap, ws), sizes);
    let d = drain(write_all(Seq::empty(), cap, ws), sizes);
    if d.1.len() == 0 {
        assert(concat(d.0) + d.1 =~= concat(d.0));
    }
}

} // verus!
