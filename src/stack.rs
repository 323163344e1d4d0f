//! The network stack coupler: it maps the pool of TCP sockets onto the
//! modem's own sockets. Notifications from the modem change socket state
//! (`socket_rx`); `tx_event` picks the next thing to tell the modem, and
//! `socket_tx` records how that exchange went. The loop that waits for
//! notifications, ticks and wake-ups, and that talks to the modem, runs
//! outside and calls these.
use vstd::prelude::*;
use crate::dns::{
    answered, first_new, resolve_spec, take_new_spec, DnsError, DnsTable, Entry,
};
use crate::ip::{parsed_ip, SocketAddr};
use crate::socket::{
    front, after_front, may_send, PeerHandle, SocketHandle, TcpSocket, TcpState, MODEM_SOCKETS,
};
use crate::urc::{SendStatus, Urc};

verus! {

/// The most bytes handed to the modem in one write.
pub const MAX_EGRESS_SIZE: usize = 1024;

/// How many dropped sockets may wait to be closed on the modem.
pub const MAX_DROPPED: usize = 3;

/// What the stack asks of the modem next.
pub enum TxEvent {
    /// Ask which modem sockets can be opened, for this socket.
    CanBeOpened { socket_handle: SocketHandle },
    /// Open a modem socket for this socket, to this address.
    Connect { socket_handle: SocketHandle, socket_addr: SocketAddr },
    /// Write these bytes to a modem socket.
    Send { peer_handle: PeerHandle, data: Vec<u8> },
    /// Close a modem socket.
    Close { peer_handle: PeerHandle },
    /// Resolve a host name.
    Dns { hostname: Vec<u8> },
}

/// Why a socket operation was refused.
#[derive(Clone, Copy, Debug, PartialEq, Eq, Structural)]
pub enum SocketError {
    /// No socket has this handle.
    InvalidHandle,
    /// The socket is not in a state that allows the operation.
    InvalidState,
    /// No room is left to record the operation.
    BufferFull,
}

/// Slot `slot` holds the modem socket `id`.
pub open spec fn holds_peer(slot: Option<TcpSocket>, id: PeerHandle) -> bool {
    match slot {
        Some(s) => s.peer() == Some(id),
        None => false,
    }
}

/// What a slot at index `i` keeps true: its queues within their sizes, a
/// modem socket numbered `i + 1` if any, and one whenever data may still
/// flow or a close is owed.
pub open spec fn slot_ok(slot: Option<TcpSocket>, i: int) -> bool {
    match slot {
        None => true,
        Some(s) => {
            &&& s.wf()
            &&& (match s.peer() {
                Some(p) => p.0 == i + 1,
                None => true,
            })
            &&& (may_send(s.tcp_state()) || s.tcp_state() == TcpState::FinWait1) ==> s.peer() is Some
        },
    }
}

/// `b` is `a` with its state and modem socket set to these.
pub open spec fn same_but(a: TcpSocket, b: TcpSocket, state: TcpState, peer: Option<PeerHandle>) -> bool {
    &&& b.tcp_state() == state
    &&& b.peer() == peer
    &&& b.endpoint() == a.endpoint()
    &&& b.rx_view() == a.rx_view()
    &&& b.tx_view() == a.tx_view()
    &&& b.rx_cap() == a.rx_cap()
    &&& b.tx_cap() == a.tx_cap()
}

/// `new` is `old` with only slot `i` changed, to state `state` and modem
/// socket `peer`.
pub open spec fn slot_set(
    old: Seq<Option<TcpSocket>>,
    new: Seq<Option<TcpSocket>>,
    i: int,
    state: TcpState,
    peer: Option<PeerHandle>,
) -> bool {
    &&& new.len() == old.len()
    &&& 0 <= i < old.len()
    &&& forall|j: int| 0 <= j < old.len() && j != i ==> new[j] == old[j]
    &&& old[i] is Some
    &&& new[i] is Some
    &&& same_but(old[i]->Some_0, new[i]->Some_0, state, peer)
}

/// Slot `i` has something to tell the modem.
pub open spec fn ready(slot: Option<TcpSocket>, i: int) -> bool {
    match slot {
        None => false,
        Some(s) => {
            ||| (s.tcp_state() == TcpState::Closed && s.endpoint() is Some && i < MODEM_SOCKETS)
            ||| (may_send(s.tcp_state()) && s.peer() is Some && s.tx_view().len() > 0)
            ||| s.tcp_state() == TcpState::FinWait1
        },
    }
}

#[verifier::external_type_specification]
#[verifier::external_body]
#[verifier::reject_recursive_types(T)]
pub struct ExHeaplessVec<T, const N: usize>(heapless::Vec<T, N>);

/// The modem socket numbers that a dropped-socket queue holds, oldest first.
pub uninterp spec fn queued(q: heapless::Vec<u8, 3>) -> Seq<u8>;

/// Relies on `heapless::Vec::new`: an empty vector.
#[verifier::external_body]
fn queue_new() -> (r: heapless::Vec<u8, 3>)
    ensures
        queued(r) == Seq::<u8>::empty(),
{
    heapless::Vec::new()
}

/// Relies on `heapless::Vec::push`: below the capacity the item is appended;
/// at it the vector is left as it was and the item handed back.
#[verifier::external_body]
fn queue_push(q: &mut heapless::Vec<u8, 3>, item: u8) -> (ok: bool)
    ensures
        ok <==> queued(*old(q)).len() < 3,
        ok ==> queued(*final(q)) == queued(*old(q)).push(item),
        !ok ==> queued(*final(q)) == queued(*old(q)),
{
    q.push(item).is_ok()
}

/// Relies on `heapless::Vec::pop`: removes and gives the last item, if any.
#[verifier::external_body]
fn queue_pop(q: &mut heapless::Vec<u8, 3>) -> (r: Option<u8>)
    ensures
        queued(*old(q)).len() == 0 ==> r is None && queued(*final(q)) == queued(*old(q)),
        queued(*old(q)).len() > 0 ==> r == Some(queued(*old(q)).last()) && queued(*final(q))
            == queued(*old(q)).drop_last(),
{
    q.pop()
}

/// Relies on the length of the slice that `heapless::Vec` dereferences to:
/// the number of items.
#[verifier::external_body]
fn queue_len(q: &heapless::Vec<u8, 3>) -> (r: usize)
    ensures
        r == queued(*q).len(),
{
    q.len()
}

pub open spec fn peer_of(b: u8) -> PeerHandle {
    PeerHandle(b)
}

pub struct SocketStack {
    sockets: Vec<Option<TcpSocket>>,
    dns_table: DnsTable,
    dropped_sockets: heapless::Vec<u8, 3>,
    can_socket_be_opened: Vec<Option<bool>>,
    last_tx_socket: usize,
}

impl SocketStack {
    pub closed spec fn slots(&self) -> Seq<Option<TcpSocket>> {
        self.sockets@
    }

    pub closed spec fn dns(&self) -> Seq<Entry> {
        self.dns_table.entries()
    }

    /// Modem sockets of dropped sockets, still to be closed.
    pub closed spec fn dropped(&self) -> Seq<PeerHandle> {
        queued(self.dropped_sockets).map_values(|b: u8| peer_of(b))
    }

    /// For each modem socket, whether it was missing from the modem's last
    /// list of sockets that can be opened: `Some(false)` known free,
    /// `Some(true)` known taken, `None` not known.
    pub closed spec fn can_open(&self) -> Seq<Option<bool>> {
        self.can_socket_be_opened@
    }

    pub closed spec fn last_tx(&self) -> nat {
        self.last_tx_socket as nat
    }

    pub open spec fn wf(&self) -> bool {
        &&& 0 < self.slots().len() <= 255
        &&& self.last_tx() < self.slots().len()
        &&& self.can_open().len() == MODEM_SOCKETS
        &&& self.dropped().len() <= MAX_DROPPED
        &&& self.dns_wf()
        &&& forall|i: int| 0 <= i < self.slots().len() ==> #[trigger] slot_ok(self.slots()[i], i)
    }

    pub closed spec fn dns_wf(&self) -> bool {
        self.dns_table.wf()
    }

    /// A stack with `n` empty socket slots.
    pub fn new(n: usize) -> (r: SocketStack)
        requires
            0 < n <= 255,
        ensures
            r.wf(),
            r.slots().len() == n,
            forall|i: int| 0 <= i < n ==> r.slots()[i] is None,
            r.dns() == Seq::<Entry>::empty(),
            r.dropped() == Seq::<PeerHandle>::empty(),
            forall|i: int| 0 <= i < MODEM_SOCKETS ==> r.can_open()[i] is None,
    {
        let mut sockets: Vec<Option<TcpSocket>> = Vec::new();
        let mut i: usize = 0;
        while i < n
            invariant
                i <= n,
                sockets@.len() == i,
                forall|j: int| 0 <= j < i ==> sockets@[j] is None,
            decreases n - i,
        {
            sockets.push(None);
            i = i + 1;
        }
        let mut can: Vec<Option<bool>> = Vec::new();
        let mut k: usize = 0;
        while k < MODEM_SOCKETS
            invariant
                k <= MODEM_SOCKETS,
                can@.len() == k,
                forall|j: int| 0 <= j < k ==> can@[j] is None,
            decreases MODEM_SOCKETS - k,
        {
            can.push(None);
            k = k + 1;
        }
        SocketStack {
            sockets,
            dns_table: DnsTable::new(),
            dropped_sockets: queue_new(),
            can_socket_be_opened: can,
            last_tx_socket: 0,
        }
    }

    /// Puts a new closed socket with queues of the given sizes in the first
    /// free slot, and gives its handle; `None` when every slot is taken.
    pub fn add_socket(&mut self, rx_capacity: usize, tx_capacity: usize) -> (r: Option<SocketHandle>)
        requires
            old(self).wf(),
        ensures
            final(self).wf(),
            final(self).dns() == old(self).dns(),
            final(self).dropped() == old(self).dropped(),
            final(self).can_open() == old(self).can_open(),
            final(self).slots().len() == old(self).slots().len(),
            r is None <==> forall|i: int| 0 <= i < old(self).slots().len() ==> old(self).slots()[i] is Some,
            r is None ==> final(self).slots() == old(self).slots(),
            r matches Some(h) ==> {
                &&& old(self).slots()[h.0 as int] is None
                &&& forall|j: int| 0 <= j < h.0 ==> old(self).slots()[j] is Some
                &&& forall|j: int| 0 <= j < old(self).slots().len() && j != h.0 ==> final(self).slots()[j] == old(self).slots()[j]
                &&& final(self).slots()[h.0 as int] matches Some(s)
                &&& s.tcp_state() == TcpState::Closed
                &&& s.peer() is None
                &&& s.endpoint() is None
                &&& s.rx_view().len() == 0
                &&& s.tx_view().len() == 0
                &&& s.rx_cap() == rx_capacity
                &&& s.tx_cap() == tx_capacity
            },
    {
        let mut i: usize = 0;
        while i < self.sockets.len()
            invariant
                i <= self.sockets@.len(),
                self.wf(),
                *self == *old(self),
                forall|j: int| 0 <= j < i ==> self.sockets@[j] is Some,
            decreases self.sockets@.len() - i,
        {
            if self.sockets[i].is_none() {
                let ghost s0 = self.sockets@;
                self.sockets.set(i, Some(TcpSocket::new(rx_capacity, tx_capacity)));
                proof {
                    assert forall|j: int| 0 <= j < self.slots().len() implies #[trigger] slot_ok(
                        self.slots()[j],
                        j,
                    ) by {
                        if j != i {
                            assert(self.slots()[j] == s0[j]);
                        }
                    }
                }
                return Some(SocketHandle(i as u8));
            }
            i = i + 1;
        }
        None
    }

    /// The socket behind `h`, if the slot is taken.
    pub fn socket(&self, h: SocketHandle) -> (r: Option<&TcpSocket>)
        ensures
            (h.0 as int) < self.slots().len() && self.slots()[h.0 as int] is Some ==> r == Some(
                &self.slots()[h.0 as int]->Some_0,
            ),
            !((h.0 as int) < self.slots().len() && self.slots()[h.0 as int] is Some) ==> r is None,
    {
        if (h.0 as usize) < self.sockets.len() {
            match &self.sockets[h.0 as usize] {
                Some(s) => Some(s),
                None => None,
            }
        } else {
            None
        }
    }

    /// Sets the state and modem socket of the socket in slot `i`.
    fn set_slot(&mut self, i: usize, state: TcpState, peer: Option<PeerHandle>)
        requires
            old(self).wf(),
            i < old(self).slots().len(),
            old(self).slots()[i as int] is Some,
            match peer {
                Some(p) => p.0 == i + 1,
                None => true,
            },
            (may_send(state) || state == TcpState::FinWait1) ==> peer is Some,
        ensures
            final(self).wf(),
            slot_set(old(self).slots(), final(self).slots(), i as int, state, peer),
            final(self).dns() == old(self).dns(),
            final(self).dropped() == old(self).dropped(),
            final(self).can_open() == old(self).can_open(),
            final(self).last_tx() == old(self).last_tx(),
    {
        let ghost s0 = self.sockets@;
        proof {
            assert(slot_ok(s0[i as int], i as int));
        }
        let slot = self.sockets.remove(i);
        match slot {
            Some(mut t) => {
                t.set_state(state);
                t.set_peer_handle(peer);
                self.sockets.insert(i, Some(t));
            },
            None => {
                self.sockets.insert(i, None);
            },
        }
        proof {
            assert(slot_ok(self.sockets@[i as int], i as int));
            lemma_slot_replaced(s0, self.sockets@, i as int, self.sockets@[i as int]);
        }
    }

    /// The slot holding modem socket `id`, if one does.
    fn slot_of_peer(&self, id: PeerHandle) -> (r: Option<usize>)
        requires
            self.wf(),
        ensures
            r matches Some(i) ==> i < self.slots().len() && holds_peer(self.slots()[i as int], id)
                && id.0 == i + 1,
            r is None ==> forall|j: int| 0 <= j < self.slots().len() ==> !holds_peer(self.slots()[j], id),
    {
        if id.0 == 0 || id.0 as usize > self.sockets.len() {
            proof {
                assert forall|j: int| 0 <= j < self.slots().len() implies !holds_peer(self.slots()[j], id) by {
                    assert(slot_ok(self.slots()[j], j));
                }
            }
            return None;
        }
        let i = (id.0 - 1) as usize;
        let found = match &self.sockets[i] {
            Some(s) => match s.peer_handle() {
                Some(p) => p.0 == id.0,
                None => false,
            },
            None => false,
        };
        if found {
            Some(i)
        } else {
            proof {
                assert forall|j: int| 0 <= j < self.slots().len() implies !holds_peer(self.slots()[j], id) by {
                    assert(slot_ok(self.slots()[j], j));
                }
            }
            None
        }
    }

    /// Applies a notification from the modem to the sockets.
    pub fn socket_rx(&mut self, event: &Urc)
        requires
            old(self).wf(),
        ensures
            final(self).wf(),
            final(self).dns() == old(self).dns(),
            final(self).dropped() == old(self).dropped(),
            final(self).last_tx() == old(self).last_tx(),
            match event {
                Urc::SocketClosed(sc) => {
                    &&& final(self).can_open() == old(self).can_open()
                    &&& (exists|i: int| 0 <= i < old(self).slots().len() && holds_peer(old(self).slots()[i], sc.id))
                        ==> (exists|i: int| slot_set(old(self).slots(), final(self).slots(), i, TcpState::TimeWait, None) && holds_peer(old(self).slots()[i], sc.id))
                    &&& (forall|i: int| 0 <= i < old(self).slots().len() ==> !holds_peer(old(self).slots()[i], sc.id))
                        ==> final(self).slots() == old(self).slots()
                },
                Urc::SocketOpened(so) => {
                    &&& final(self).can_open() == old(self).can_open()
                    &&& (1 <= so.id.0 <= old(self).slots().len() && so.id.0 <= MODEM_SOCKETS && old(self).slots()[so.id.0 - 1] is Some)
                        ==> slot_set(old(self).slots(), final(self).slots(), so.id.0 - 1, TcpState::Established, Some(so.id))
                    &&& !(1 <= so.id.0 <= old(self).slots().len() && so.id.0 <= MODEM_SOCKETS && old(self).slots()[so.id.0 - 1] is Some)
                        ==> final(self).slots() == old(self).slots()
                },
                Urc::CanSocketOpen(cso) => {
                    &&& final(self).slots() == old(self).slots()
                    &&& forall|i: int| 0 <= i < MODEM_SOCKETS ==> final(self).can_open()[i] == Some(
                        !cso.id_list@.contains(PeerHandle((i + 1) as u8)))
                },
                Urc::SocketDataSentOver(sdso) => {
                    &&& final(self).can_open() == old(self).can_open()
                    &&& (sdso.status == SendStatus::Success && exists|i: int| 0 <= i < old(self).slots().len() && holds_peer(old(self).slots()[i], sdso.id))
                        ==> (exists|i: int| slot_set(old(self).slots(), final(self).slots(), i, TcpState::Established, Some(sdso.id)) && holds_peer(old(self).slots()[i], sdso.id))
                    &&& !(sdso.status == SendStatus::Success && exists|i: int| 0 <= i < old(self).slots().len() && holds_peer(old(self).slots()[i], sdso.id))
                        ==> final(self).slots() == old(self).slots()
                },
                Urc::SocketReadData(sda) => {
                    &&& final(self).can_open() == old(self).can_open()
                    &&& final(self).slots().len() == old(self).slots().len()
                    &&& forall|i: int| 0 <= i < old(self).slots().len() && !holds_peer(old(self).slots()[i], sda.id)
                        ==> final(self).slots()[i] == old(self).slots()[i]
                    &&& forall|i: int| 0 <= i < old(self).slots().len() && holds_peer(old(self).slots()[i], sda.id)
                        ==> (final(self).slots()[i] matches Some(t) && {
                            let s = old(self).slots()[i]->Some_0;
                            &&& t.rx_view() == crate::socket::enqueue(s.rx_view(), s.rx_cap(), crate::urc::payload(sda.data))
                            &&& t.tx_view() == s.tx_view()
                            &&& t.rx_cap() == s.rx_cap()
                            &&& t.tx_cap() == s.tx_cap()
                            &&& t.tcp_state() == s.tcp_state()
                            &&& t.peer() == s.peer()
                            &&& t.endpoint() == s.endpoint()
                        })
                },
                _ => final(self).slots() == old(self).slots() && final(self).can_open() == old(self).can_open(),
            },
    {
        match event {
            Urc::SocketClosed(sc) => {
                match self.slot_of_peer(sc.id) {
                    Some(i) => self.set_slot(i, TcpState::TimeWait, None),
                    None => {},
                }
            },
            Urc::SocketOpened(so) => {
                let id = so.id.0;
                if 1 <= id && (id as usize) <= self.sockets.len() && (id as usize) <= MODEM_SOCKETS {
                    let i = (id - 1) as usize;
                    if self.sockets[i].is_some() {
                        self.set_slot(i, TcpState::Established, Some(so.id));
                    }
                }
            },
            Urc::CanSocketOpen(cso) => {
                let mut i: usize = 0;
                while i < MODEM_SOCKETS
                    invariant
                        i <= MODEM_SOCKETS,
                        self.wf(),
                        self.slots() == old(self).slots(),
                        self.dns() == old(self).dns(),
                        self.dropped() == old(self).dropped(),
                        self.last_tx() == old(self).last_tx(),
                        forall|j: int| 0 <= j < i ==> self.can_open()[j] == Some(
                            !cso.id_list@.contains(PeerHandle((j + 1) as u8))),
                    decreases MODEM_SOCKETS - i,
                {
                    let listed = contains_peer(&cso.id_list, PeerHandle((i + 1) as u8));
                    self.can_socket_be_opened.set(i, Some(!listed));
                    i = i + 1;
                }
            },
            Urc::SocketDataSentOver(sdso) => {
                if sdso.status == SendStatus::Success {
                    match self.slot_of_peer(sdso.id) {
                        Some(i) => self.set_slot(i, TcpState::Established, Some(sdso.id)),
                        None => {},
                    }
                }
            },
            Urc::SocketReadData(sda) => {
                match self.slot_of_peer(sda.id) {
                    Some(i) => {
                        let ghost s0 = self.sockets@;
                        proof {
                            assert(slot_ok(s0[i as int], i as int));
                        }
                        let slot = self.sockets.remove(i);
                        match slot {
                            Some(mut t) => {
                                t.rx_enqueue_slice(crate::urc::payload_bytes(&sda.data));
                                self.sockets.insert(i, Some(t));
                            },
                            None => {
                                self.sockets.insert(i, None);
                            },
                        }
                        proof {
                            assert(slot_ok(self.sockets@[i as int], i as int));
                            lemma_slot_replaced(s0, self.sockets@, i as int, self.sockets@[i as int]);
                            assert forall|j: int| 0 <= j < s0.len() && holds_peer(s0[j], sda.id) implies j == i by {
                                assert(slot_ok(s0[j], j));
                                assert(slot_ok(s0[i as int], i as int));
                            }
                        }
                    },
                    None => {},
                }
            },
            _ => {},
        }
    }

    /// Clears what is known of which modem sockets can be opened.
    fn forget_can_open(&mut self)
        requires
            old(self).wf(),
        ensures
            final(self).wf(),
            final(self).slots() == old(self).slots(),
            final(self).dns() == old(self).dns(),
            final(self).dropped() == old(self).dropped(),
            final(self).last_tx() == old(self).last_tx(),
            final(self).can_open().len() == MODEM_SOCKETS,
            forall|k: int| 0 <= k < MODEM_SOCKETS ==> final(self).can_open()[k] is None,
    {
        let mut k: usize = 0;
        while k < MODEM_SOCKETS
            invariant
                k <= MODEM_SOCKETS,
                self.wf(),
                self.slots() == old(self).slots(),
                self.dns() == old(self).dns(),
                self.dropped() == old(self).dropped(),
                self.last_tx() == old(self).last_tx(),
                forall|j: int| 0 <= j < k ==> self.can_open()[j] is None,
            decreases MODEM_SOCKETS - k,
        {
            self.can_socket_be_opened.set(k, None);
            k = k + 1;
        }
    }

    /// What slot `i` has to tell the modem, if anything.
    fn examine(&mut self, i: usize) -> (r: Option<TxEvent>)
        requires
            old(self).wf(),
            i < old(self).slots().len(),
        ensures
            final(self).wf(),
            final(self).dns() == old(self).dns(),
            final(self).dropped() == old(self).dropped(),
            final(self).last_tx() == old(self).last_tx(),
            r is None <==> !ready(old(self).slots()[i as int], i as int),
            r is None ==> final(self).slots() == old(self).slots() && final(self).can_open() == old(
                self,
            ).can_open(),
            r is Some ==> picked(old(self).slots(), old(self).can_open(), final(self).slots(), final(self).can_open(), r, i as int),
    {
        let ghost s0 = self.sockets@;
        proof {
            assert(slot_ok(s0[i as int], i as int));
        }
        let (state, remote, peer, pending) = match &self.sockets[i] {
            None => {
                return None;
            },
            Some(t) => (t.state(), t.remote_endpoint(), t.peer_handle(), t.tx_len()),
        };
        if state == TcpState::Closed {
            match remote {
                Some(addr) => {
                    if i < MODEM_SOCKETS {
                        match self.can_socket_be_opened[i] {
                            None => Some(TxEvent::CanBeOpened { socket_handle: SocketHandle(i as u8) }),
                            Some(false) => Some(
                                TxEvent::Connect { socket_handle: SocketHandle(i as u8), socket_addr: addr },
                            ),
                            Some(true) => {
                                self.forget_can_open();
                                Some(
                                    TxEvent::Connect {
                                        socket_handle: SocketHandle(i as u8),
                                        socket_addr: addr,
                                    },
                                )
                            },
                        }
                    } else {
                        None
                    }
                },
                None => None,
            }
        } else if state == TcpState::Established || state == TcpState::CloseWait || state
            == TcpState::LastAck {
            match peer {
                Some(p) => {
                    if pending > 0 {
                        let slot = self.sockets.remove(i);
                        match slot {
                            Some(mut t) => {
                                let data = t.tx_dequeue(MAX_EGRESS_SIZE);
                                self.sockets.insert(i, Some(t));
                                proof {
                                    assert(slot_ok(self.sockets@[i as int], i as int));
                                    lemma_slot_replaced(s0, self.sockets@, i as int, self.sockets@[i as int]);
                                    assert(sent_from(s0, self.sockets@, i as int, p, data@));
                                }
                                Some(TxEvent::Send { peer_handle: p, data })
                            },
                            None => {
                                self.sockets.insert(i, None);
                                proof {
                                    assert(false);
                                }
                                None
                            },
                        }
                    } else {
                        None
                    }
                },
                None => None,
            }
        } else if state == TcpState::FinWait1 {
            match peer {
                Some(p) => Some(TxEvent::Close { peer_handle: p }),
                None => None,
            }
        } else {
            None
        }
    }

    /// Picks what to tell the modem next: a host name not yet asked about
    /// first, then the close of a dropped socket, then, taking the sockets in
    /// turn from the one after the last turn, the first that has something
    /// to say. `None` when nothing is owed.
    pub fn tx_event(&mut self) -> (r: Option<TxEvent>)
        requires
            old(self).wf(),
        ensures
            final(self).wf(),
            tx_event_post(old(self).slots(), old(self).dns(), old(self).dropped(), old(self).can_open(),
                final(self).slots(), final(self).dns(), final(self).dropped(), final(self).can_open(), r,
                (old(self).last_tx() + 1) % old(self).slots().len()),
            first_new(old(self).dns()) >= old(self).dns().len() && old(self).dropped().len() == 0
                ==> final(self).last_tx() == (old(self).last_tx() + 1) % old(self).slots().len(),
    {
        let ghost d0 = self.dns();
        let ghost s00 = self.slots();
        let ghost c00 = self.can_open();
        match self.dns_table.take_new() {
            Some(hostname) => {
                return Some(TxEvent::Dns { hostname });
            },
            None => {},
        }
        assert(first_new(d0) >= d0.len());
        assert(self.dns() == d0);
        if queue_len(&self.dropped_sockets) > 0 {
            let ghost q0 = queued(self.dropped_sockets);
            match queue_pop(&mut self.dropped_sockets) {
                Some(b) => {
                    proof {
                        assert(q0.drop_last().map_values(|b: u8| peer_of(b)) =~= q0.map_values(
                            |b: u8| peer_of(b),
                        ).drop_last());
                    }
                    return Some(TxEvent::Close { peer_handle: PeerHandle(b) });
                },
                None => {},
            }
        }
        let n = self.sockets.len();
        let start = (self.last_tx_socket + 1) % n;
        self.last_tx_socket = start;
        let ghost s0 = self.sockets@;
        let ghost c0 = self.can_socket_be_opened@;
        let mut i: usize = start;
        while i < n
            invariant
                start <= i <= n,
                n == self.slots().len(),
                self.wf(),
                self.slots() == s0,
                self.can_open() == c0,
                self.dns() == old(self).dns(),
                self.dropped() == old(self).dropped(),
                s0 == old(self).slots(),
                c0 == old(self).can_open(),
                first_new(old(self).dns()) >= old(self).dns().len(),
                old(self).dropped().len() == 0,
                self.last_tx() == start,
                start == (old(self).last_tx() + 1) % old(self).slots().len(),
                forall|j: int| start <= j < i ==> !ready(s0[j], j),
            decreases n - i,
        {
            let r = self.examine(i);
            if r.is_some() {
                assert(picked(s0, c0, self.slots(), self.can_open(), r, i as int) && in_turn(s0, start as nat, i as int));
                return r;
            }
            i = i + 1;
        }
        let mut i2: usize = 0;
        while i2 < start
            invariant
                i2 <= start < n,
                n == self.slots().len(),
                self.wf(),
                self.slots() == s0,
                self.can_open() == c0,
                self.dns() == old(self).dns(),
                self.dropped() == old(self).dropped(),
                s0 == old(self).slots(),
                c0 == old(self).can_open(),
                first_new(old(self).dns()) >= old(self).dns().len(),
                old(self).dropped().len() == 0,
                self.last_tx() == start,
                start == (old(self).last_tx() + 1) % old(self).slots().len(),
                forall|j: int| start <= j < n ==> !ready(s0[j], j),
                forall|j: int| 0 <= j < i2 ==> !ready(s0[j], j),
            decreases start - i2,
        {
            let r = self.examine(i2);
            if r.is_some() {
                assert(picked(s0, c0, self.slots(), self.can_open(), r, i2 as int) && in_turn(s0, start as nat, i2 as int));
                return r;
            }
            i2 = i2 + 1;
        }
        None
    }

    /// Records how the exchange for `ev` went: `Ok` with the modem's answer
    /// (the address text, for a host name), or `Err` where it failed.
    pub fn socket_tx(&mut self, ev: &TxEvent, outcome: &Result<Vec<u8>, ()>)
        requires
            old(self).wf(),
        ensures
            final(self).wf(),
            final(self).dropped() == old(self).dropped(),
            final(self).can_open() == old(self).can_open(),
            final(self).last_tx() == old(self).last_tx(),
            match ev {
                TxEvent::CanBeOpened { socket_handle } => {
                    &&& final(self).dns() == old(self).dns()
                    &&& (outcome is Ok && socket_handle.0 < old(self).slots().len() && old(self).slots()[socket_handle.0 as int] is Some)
                        ==> slot_set(old(self).slots(), final(self).slots(), socket_handle.0 as int, TcpState::SynSent, old(self).slots()[socket_handle.0 as int]->Some_0.peer())
                    &&& !(outcome is Ok && socket_handle.0 < old(self).slots().len() && old(self).slots()[socket_handle.0 as int] is Some)
                        ==> final(self).slots() == old(self).slots()
                },
                TxEvent::Connect { socket_handle, socket_addr } => {
                    &&& final(self).dns() == old(self).dns()
                    &&& (outcome is Ok && socket_handle.0 < old(self).slots().len() && socket_handle.0 < MODEM_SOCKETS && old(self).slots()[socket_handle.0 as int] is Some)
                        ==> slot_set(old(self).slots(), final(self).slots(), socket_handle.0 as int, TcpState::SynSent, Some(PeerHandle((socket_handle.0 + 1) as u8)))
                    &&& !(outcome is Ok && socket_handle.0 < old(self).slots().len() && socket_handle.0 < MODEM_SOCKETS && old(self).slots()[socket_handle.0 as int] is Some)
                        ==> final(self).slots() == old(self).slots()
                },
                TxEvent::Send { peer_handle, data } => {
                    &&& final(self).dns() == old(self).dns()
                    &&& (outcome is Ok && exists|i: int| 0 <= i < old(self).slots().len() && holds_peer(old(self).slots()[i], *peer_handle))
                        ==> (exists|i: int| slot_set(old(self).slots(), final(self).slots(), i, TcpState::SynSent, Some(*peer_handle)) && holds_peer(old(self).slots()[i], *peer_handle))
                    &&& !(outcome is Ok && exists|i: int| 0 <= i < old(self).slots().len() && holds_peer(old(self).slots()[i], *peer_handle))
                        ==> final(self).slots() == old(self).slots()
                },
                TxEvent::Close { peer_handle } => {
                    &&& final(self).dns() == old(self).dns()
                    &&& final(self).slots() == old(self).slots()
                },
                TxEvent::Dns { hostname } => {
                    &&& final(self).slots() == old(self).slots()
                    &&& match outcome {
                        Ok(text) => final(self).dns() == resolve_spec(old(self).dns(), hostname@, answered(parsed_ip(text@))),
                        Err(_) => final(self).dns() == resolve_spec(old(self).dns(), hostname@, crate::dns::DnsState::Error),
                    }
                },
            },
    {
        match ev {
            TxEvent::CanBeOpened { socket_handle } => {
                if outcome.is_ok() {
                    let i = socket_handle.0 as usize;
                    if i < self.sockets.len() {
                        let peer = match &self.sockets[i] {
                            Some(t) => Some(t.peer_handle()),
                            None => None,
                        };
                        match peer {
                            Some(p) => {
                                proof {
                                    assert(slot_ok(self.slots()[i as int], i as int));
                                }
                                self.set_slot(i, TcpState::SynSent, p);
                            },
                            None => {},
                        }
                    }
                }
            },
            TxEvent::Connect { socket_handle, socket_addr } => {
                let i = socket_handle.0 as usize;
                if outcome.is_ok() && i < self.sockets.len() && i < MODEM_SOCKETS && self.sockets[i].is_some() {
                    self.set_slot(i, TcpState::SynSent, Some(PeerHandle(socket_handle.0 + 1)));
                }
            },
            TxEvent::Send { peer_handle, data } => {
                if outcome.is_ok() {
                    match self.slot_of_peer(*peer_handle) {
                        Some(i) => self.set_slot(i, TcpState::SynSent, Some(*peer_handle)),
                        None => {},
                    }
                }
            },
            TxEvent::Close { peer_handle } => {},
            TxEvent::Dns { hostname } => {
                match outcome {
                    Ok(text) => self.dns_table.resolve_text(hostname.as_slice(), text.as_slice()),
                    Err(_) => self.dns_table.fail(hostname.as_slice()),
                }
            },
        }
    }

    /// Sets where the socket in slot `h` connects to; the stack then opens
    /// a modem socket for it. Only a closed socket, or one whose close is
    /// done, may connect.
    pub fn connect(&mut self, h: SocketHandle, addr: SocketAddr) -> (r: Result<(), SocketError>)
        requires
            old(self).wf(),
        ensures
            final(self).wf(),
            final(self).dns() == old(self).dns(),
            final(self).dropped() == old(self).dropped(),
            final(self).can_open() == old(self).can_open(),
            final(self).slots().len() == old(self).slots().len(),
            !(h.0 < old(self).slots().len() && old(self).slots()[h.0 as int] is Some) ==> r == Err::<(), SocketError>(SocketError::InvalidHandle),
            (h.0 < old(self).slots().len() && old(self).slots()[h.0 as int] matches Some(t)) ==> {
                let t = old(self).slots()[h.0 as int]->Some_0;
                if t.tcp_state() == TcpState::Closed || t.tcp_state() == TcpState::TimeWait {
                    &&& r is Ok
                    &&& forall|j: int| 0 <= j < old(self).slots().len() && j != h.0 ==> final(self).slots()[j] == old(self).slots()[j]
                    &&& final(self).slots()[h.0 as int] matches Some(u)
                    &&& u.tcp_state() == TcpState::Closed
                    &&& u.endpoint() == Some(addr)
                    &&& u.peer() == t.peer()
                    &&& u.rx_view() == t.rx_view()
                    &&& u.tx_view() == t.tx_view()
                    &&& u.rx_cap() == t.rx_cap()
                    &&& u.tx_cap() == t.tx_cap()
                } else {
                    r == Err::<(), SocketError>(SocketError::InvalidState) && final(self).slots() == old(self).slots()
                }
            },
            r is Err ==> final(self).slots() == old(self).slots(),
    {
        let i = h.0 as usize;
        if i >= self.sockets.len() || self.sockets[i].is_none() {
            return Err(SocketError::InvalidHandle);
        }
        let ghost s0 = self.sockets@;
        proof {
            assert(slot_ok(s0[i as int], i as int));
        }
        let slot = self.sockets.remove(i);
        match slot {
            Some(mut t) => {
                let st = t.state();
                if st == TcpState::Closed || st == TcpState::TimeWait {
                    t.set_state(TcpState::Closed);
                    t.set_remote_endpoint(Some(addr));
                    self.sockets.insert(i, Some(t));
                    proof {
                        assert(slot_ok(self.sockets@[i as int], i as int));
                        lemma_slot_replaced(s0, self.sockets@, i as int, self.sockets@[i as int]);
                    }
                    Ok(())
                } else {
                    self.sockets.insert(i, Some(t));
                    proof {
                        assert(self.sockets@ =~= s0);
                    }
                    Err(SocketError::InvalidState)
                }
            },
            None => {
                self.sockets.insert(i, None);
                proof {
                    assert(false);
                }
                Err(SocketError::InvalidHandle)
            },
        }
    }

    /// Queues bytes to send on the socket in slot `h`, as many as fit, and
    /// gives how many; zero means the queue is full for now. The socket must
    /// hold a modem socket that is not being closed.
    pub fn write(&mut self, h: SocketHandle, data: &[u8]) -> (r: Result<usize, SocketError>)
        requires
            old(self).wf(),
        ensures
            final(self).wf(),
            final(self).dns() == old(self).dns(),
            final(self).dropped() == old(self).dropped(),
            final(self).can_open() == old(self).can_open(),
            final(self).slots().len() == old(self).slots().len(),
            !(h.0 < old(self).slots().len() && old(self).slots()[h.0 as int] is Some) ==> r == Err::<usize, SocketError>(SocketError::InvalidHandle),
            (h.0 < old(self).slots().len() && old(self).slots()[h.0 as int] is Some) ==> {
                let t = old(self).slots()[h.0 as int]->Some_0;
                if t.peer() is Some && t.tcp_state() != TcpState::FinWait1 && t.tcp_state() != TcpState::TimeWait {
                    &&& r == Ok::<usize, SocketError>(crate::socket::accepted(t.tx_view(), t.tx_cap(), data@) as usize)
                    &&& forall|j: int| 0 <= j < old(self).slots().len() && j != h.0 ==> final(self).slots()[j] == old(self).slots()[j]
                    &&& final(self).slots()[h.0 as int] matches Some(u)
                    &&& u.tx_view() == crate::socket::enqueue(t.tx_view(), t.tx_cap(), data@)
                    &&& u.tcp_state() == t.tcp_state()
                    &&& u.peer() == t.peer()
                    &&& u.endpoint() == t.endpoint()
                    &&& u.rx_view() == t.rx_view()
                    &&& u.rx_cap() == t.rx_cap()
                    &&& u.tx_cap() == t.tx_cap()
                } else {
                    r == Err::<usize, SocketError>(SocketError::InvalidState) && final(self).slots() == old(self).slots()
                }
            },
            r is Err ==> final(self).slots() == old(self).slots(),
    {
        let i = h.0 as usize;
        if i >= self.sockets.len() || self.sockets[i].is_none() {
            return Err(SocketError::InvalidHandle);
        }
        let ghost s0 = self.sockets@;
        proof {
            assert(slot_ok(s0[i as int], i as int));
        }
        let slot = self.sockets.remove(i);
        match slot {
            Some(mut t) => {
                let st = t.state();
                if t.peer_handle().is_some() && st != TcpState::FinWait1 && st != TcpState::TimeWait {
                    let n = t.tx_enqueue_slice(data);
                    self.sockets.insert(i, Some(t));
                    proof {
                        assert(slot_ok(self.sockets@[i as int], i as int));
                        lemma_slot_replaced(s0, self.sockets@, i as int, self.sockets@[i as int]);
                    }
                    Ok(n)
                } else {
                    self.sockets.insert(i, Some(t));
                    proof {
                        assert(self.sockets@ =~= s0);
                    }
                    Err(SocketError::InvalidState)
                }
            },
            None => {
                self.sockets.insert(i, None);
                proof {
                    assert(false);
                }
                Err(SocketError::InvalidHandle)
            },
        }
    }

    /// Reads up to `max` received bytes from the socket in slot `h`; none
    /// where nothing has come.
    pub fn read(&mut self, h: SocketHandle, max: usize) -> (r: Result<Vec<u8>, SocketError>)
        requires
            old(self).wf(),
        ensures
            final(self).wf(),
            final(self).dns() == old(self).dns(),
            final(self).dropped() == old(self).dropped(),
            final(self).can_open() == old(self).can_open(),
            final(self).slots().len() == old(self).slots().len(),
            !(h.0 < old(self).slots().len() && old(self).slots()[h.0 as int] is Some) ==> (r matches Err(e) && e == SocketError::InvalidHandle),
            (h.0 < old(self).slots().len() && old(self).slots()[h.0 as int] is Some) ==> {
                let t = old(self).slots()[h.0 as int]->Some_0;
                &&& r matches Ok(v) && v@ == front(t.rx_view(), max as nat)
                &&& forall|j: int| 0 <= j < old(self).slots().len() && j != h.0 ==> final(self).slots()[j] == old(self).slots()[j]
                &&& final(self).slots()[h.0 as int] matches Some(u)
                &&& u.rx_view() == after_front(t.rx_view(), max as nat)
                &&& u.tcp_state() == t.tcp_state()
                &&& u.peer() == t.peer()
                &&& u.endpoint() == t.endpoint()
                &&& u.tx_view() == t.tx_view()
                &&& u.rx_cap() == t.rx_cap()
                &&& u.tx_cap() == t.tx_cap()
            },
            r is Err ==> final(self).slots() == old(self).slots(),
    {
        let i = h.0 as usize;
        if i >= self.sockets.len() || self.sockets[i].is_none() {
            return Err(SocketError::InvalidHandle);
        }
        let ghost s0 = self.sockets@;
        proof {
            assert(slot_ok(s0[i as int], i as int));
        }
        let slot = self.sockets.remove(i);
        match slot {
            Some(mut t) => {
                let v = t.rx_dequeue(max);
                self.sockets.insert(i, Some(t));
                proof {
                    assert(slot_ok(self.sockets@[i as int], i as int));
                    lemma_slot_replaced(s0, self.sockets@, i as int, self.sockets@[i as int]);
                }
                Ok(v)
            },
            None => {
                self.sockets.insert(i, None);
                proof {
                    assert(false);
                }
                Err(SocketError::InvalidHandle)
            },
        }
    }

    /// Starts closing the socket in slot `h`: one that holds a modem socket
    /// waits for that to be closed; one that does not is closed at once.
    pub fn close(&mut self, h: SocketHandle) -> (r: Result<(), SocketError>)
        requires
            old(self).wf(),
        ensures
            final(self).wf(),
            final(self).dns() == old(self).dns(),
            final(self).dropped() == old(self).dropped(),
            final(self).can_open() == old(self).can_open(),
            !(h.0 < old(self).slots().len() && old(self).slots()[h.0 as int] is Some) ==> r == Err::<(), SocketError>(SocketError::InvalidHandle)
                && final(self).slots() == old(self).slots(),
            (h.0 < old(self).slots().len() && old(self).slots()[h.0 as int] is Some) ==> {
                let t = old(self).slots()[h.0 as int]->Some_0;
                &&& r is Ok
                &&& t.peer() is Some ==> slot_set(old(self).slots(), final(self).slots(), h.0 as int, TcpState::FinWait1, t.peer())
                &&& t.peer() is None ==> slot_set(old(self).slots(), final(self).slots(), h.0 as int, TcpState::TimeWait, None)
            },
    {
        let i = h.0 as usize;
        if i >= self.sockets.len() {
            return Err(SocketError::InvalidHandle);
        }
        let peer = match &self.sockets[i] {
            Some(t) => Some(t.peer_handle()),
            None => None,
        };
        proof {
            assert(slot_ok(self.slots()[i as int], i as int));
        }
        match peer {
            None => Err(SocketError::InvalidHandle),
            Some(Some(p)) => {
                self.set_slot(i, TcpState::FinWait1, Some(p));
                Ok(())
            },
            Some(None) => {
                self.set_slot(i, TcpState::TimeWait, None);
                Ok(())
            },
        }
    }

    /// Releases the socket in slot `h`. A modem socket it held is queued to
    /// be closed, where the queue has room; the slot is then free.
    pub fn drop_socket(&mut self, h: SocketHandle) -> (r: Result<(), SocketError>)
        requires
            old(self).wf(),
        ensures
            final(self).wf(),
            final(self).dns() == old(self).dns(),
            final(self).can_open() == old(self).can_open(),
            drop_post(old(self).slots(), old(self).dropped(), h, r, final(self).slots(), final(self).dropped()),
    {
        let i = h.0 as usize;
        if i >= self.sockets.len() {
            return Err(SocketError::InvalidHandle);
        }
        let peer = match &self.sockets[i] {
            Some(t) => Some(t.peer_handle()),
            None => None,
        };
        let ghost s0 = self.sockets@;
        match peer {
            None => Err(SocketError::InvalidHandle),
            Some(Some(p)) => {
                let ghost q0 = queued(self.dropped_sockets);
                if queue_len(&self.dropped_sockets) < MAX_DROPPED {
                    queue_push(&mut self.dropped_sockets, p.0);
                    proof {
                        assert(q0.push(p.0).map_values(|b: u8| peer_of(b)) =~= q0.map_values(
                            |b: u8| peer_of(b),
                        ).push(p));
                    }
                    self.sockets.set(i, None);
                    proof {
                        assert(self.sockets@ =~= s0.update(i as int, None));
                        assert forall|j: int| 0 <= j < self.slots().len() implies #[trigger] slot_ok(
                            self.slots()[j],
                            j,
                        ) by {
                            if j != i {
                                assert(self.slots()[j] == s0[j]);
                                assert(slot_ok(s0[j], j));
                            }
                        }
                    }
                    Ok(())
                } else {
                    Err(SocketError::BufferFull)
                }
            },
            Some(None) => {
                self.sockets.set(i, None);
                proof {
                    assert(self.sockets@ =~= s0.update(i as int, None));
                    assert forall|j: int| 0 <= j < self.slots().len() implies #[trigger] slot_ok(
                        self.slots()[j],
                        j,
                    ) by {
                        if j != i {
                            assert(self.slots()[j] == s0[j]);
                            assert(slot_ok(s0[j], j));
                        }
                    }
                }
                Ok(())
            },
        }
    }

    /// Asks for `name` to be resolved; see `DnsTable::submit`.
    pub fn dns_submit(&mut self, name: &[u8]) -> (r: Result<(), DnsError>)
        requires
            old(self).wf(),
        ensures
            final(self).wf(),
            final(self).slots() == old(self).slots(),
            final(self).dropped() == old(self).dropped(),
            final(self).can_open() == old(self).can_open(),
            final(self).dns() == crate::dns::submit_spec(old(self).dns(), name@),
            r == crate::dns::submit_result(old(self).dns(), name@),
    {
        self.dns_table.submit(name)
    }

    /// Where the query for `name` stands, if there is one.
    pub fn dns_state(&self, name: &[u8]) -> (r: Option<crate::dns::DnsState>)
        ensures
            crate::dns::find(self.dns(), name@) < self.dns().len() ==> r == Some(
                self.dns()[crate::dns::find(self.dns(), name@) as int].1,
            ),
            crate::dns::find(self.dns(), name@) >= self.dns().len() ==> r is None,
    {
        self.dns_table.state_of(name)
    }

    /// One caller of `name` stops waiting; see `DnsTable::release`.
    pub fn dns_release(&mut self, name: &[u8])
        requires
            old(self).wf(),
        ensures
            final(self).wf(),
            final(self).slots() == old(self).slots(),
            final(self).dropped() == old(self).dropped(),
            final(self).can_open() == old(self).can_open(),
            final(self).dns() == crate::dns::release_spec(old(self).dns(), name@),
    {
        self.dns_table.release(name)
    }
}

/// Slot `i` sent `data`, the front of its transmit queue, on modem socket
/// `p`; nothing else changed.
pub open spec fn sent_from(
    old: Seq<Option<TcpSocket>>,
    new: Seq<Option<TcpSocket>>,
    i: int,
    p: PeerHandle,
    data: Seq<u8>,
) -> bool {
    &&& new.len() == old.len()
    &&& 0 <= i < old.len()
    &&& forall|j: int| 0 <= j < old.len() && j != i ==> new[j] == old[j]
    &&& old[i] matches Some(s)
    &&& new[i] matches Some(t)
    &&& may_send(s.tcp_state())
    &&& s.peer() == Some(p)
    &&& data.len() > 0
    &&& data == front(s.tx_view(), MAX_EGRESS_SIZE as nat)
    &&& t.tx_view() == after_front(s.tx_view(), MAX_EGRESS_SIZE as nat)
    &&& t.tcp_state() == s.tcp_state()
    &&& t.peer() == s.peer()
    &&& t.endpoint() == s.endpoint()
    &&& t.rx_view() == s.rx_view()
    &&& t.rx_cap() == s.rx_cap()
    &&& t.tx_cap() == s.tx_cap()
}

/// Slot `i` was picked and `r` is what it has to tell the modem, with the
/// slots and what is known of free modem sockets changed as that requires.
pub open spec fn picked(
    old: Seq<Option<TcpSocket>>,
    can: Seq<Option<bool>>,
    new: Seq<Option<TcpSocket>>,
    can2: Seq<Option<bool>>,
    r: Option<TxEvent>,
    i: int,
) -> bool {
    &&& 0 <= i < old.len()
    &&& ready(old[i], i)
    &&& match r {
        Some(TxEvent::CanBeOpened { socket_handle }) => {
            &&& socket_handle.0 == i
            &&& new == old
            &&& can2 == can
            &&& old[i]->Some_0.tcp_state() == TcpState::Closed
            &&& can[i] is None
        },
        Some(TxEvent::Connect { socket_handle, socket_addr }) => {
            &&& socket_handle.0 == i
            &&& new == old
            &&& old[i]->Some_0.tcp_state() == TcpState::Closed
            &&& old[i]->Some_0.endpoint() == Some(socket_addr)
            &&& can[i] is Some
            &&& can[i] == Some(false) ==> can2 == can
            &&& can[i] == Some(true) ==> can2.len() == can.len() && forall|k: int| 0 <= k < can.len() ==> can2[k] is None
        },
        Some(TxEvent::Send { peer_handle, data }) => {
            &&& can2 == can
            &&& sent_from(old, new, i, peer_handle, data@)
        },
        Some(TxEvent::Close { peer_handle }) => {
            &&& new == old
            &&& can2 == can
            &&& old[i]->Some_0.tcp_state() == TcpState::FinWait1
            &&& old[i]->Some_0.peer() == Some(peer_handle)
        },
        _ => false,
    }
}

/// What `tx_event` does, over the stack before (`s`, `d`, `q`, `c`: slots,
/// host-name queries, dropped sockets, free modem sockets) and after, where
/// the sockets' turn starts at slot `start`.
pub open spec fn tx_event_post(
    s: Seq<Option<TcpSocket>>,
    d: Seq<Entry>,
    q: Seq<PeerHandle>,
    c: Seq<Option<bool>>,
    s2: Seq<Option<TcpSocket>>,
    d2: Seq<Entry>,
    q2: Seq<PeerHandle>,
    c2: Seq<Option<bool>>,
    r: Option<TxEvent>,
    start: nat,
) -> bool {
    if first_new(d) < d.len() {
        &&& (r matches Some(TxEvent::Dns { hostname }) && hostname@ == d[first_new(d) as int].0)
        &&& d2 == take_new_spec(d)
        &&& s2 == s
        &&& q2 == q
        &&& c2 == c
    } else if q.len() > 0 {
        &&& r matches Some(TxEvent::Close { peer_handle }) && peer_handle == q.last()
        &&& q2 == q.drop_last()
        &&& d2 == d
        &&& s2 == s
        &&& c2 == c
    } else {
        &&& d2 == d
        &&& q2 == q
        &&& r is None ==> s2 == s && c2 == c && forall|i: int| 0 <= i < s.len() ==> !ready(s[i], i)
        &&& r is Some ==> exists|i: int| picked(s, c, s2, c2, r, i) && in_turn(s, start, i)
    }
}

/// Slot `i` comes first among the ready slots when they are taken in turn
/// from slot `start` on, wrapping round at the end.
pub open spec fn in_turn(s: Seq<Option<TcpSocket>>, start: nat, i: int) -> bool {
    if start <= i {
        forall|j: int| start <= j < i ==> !ready(s[j], j)
    } else {
        &&& forall|j: int| start <= j < s.len() ==> !ready(s[j], j)
        &&& forall|j: int| 0 <= j < i ==> !ready(s[j], j)
    }
}

/// What releasing slot `h` does, over the slots and dropped-socket queue
/// before (`s`, `q`) and after (`s2`, `q2`), with result `r`.
pub open spec fn drop_post(
    s: Seq<Option<TcpSocket>>,
    q: Seq<PeerHandle>,
    h: SocketHandle,
    r: Result<(), SocketError>,
    s2: Seq<Option<TcpSocket>>,
    q2: Seq<PeerHandle>,
) -> bool {
    if h.0 < s.len() && s[h.0 as int] is Some {
        match s[h.0 as int]->Some_0.peer() {
            Some(p) => if q.len() < MAX_DROPPED {
                r is Ok && q2 == q.push(p) && s2 == s.update(h.0 as int, None)
            } else {
                r == Err::<(), SocketError>(SocketError::BufferFull) && q2 == q && s2 == s
            },
            None => r is Ok && q2 == q && s2 == s.update(h.0 as int, None),
        }
    } else {
        r == Err::<(), SocketError>(SocketError::InvalidHandle) && q2 == q && s2 == s
    }
}

/// Dropping a socket whose modem socket was opened makes the next pick a
/// close of that modem socket, where no host name is waiting to be sent;
/// afterwards no socket holds it, so no second close of it follows.
pub proof fn lemma_drop_closes_once(
    s: Seq<Option<TcpSocket>>,
    d: Seq<Entry>,
    q: Seq<PeerHandle>,
    c: Seq<Option<bool>>,
    h: SocketHandle,
    r1: Result<(), SocketError>,
    s1: Seq<Option<TcpSocket>>,
    q1: Seq<PeerHandle>,
    s2: Seq<Option<TcpSocket>>,
    d2: Seq<Entry>,
    q2: Seq<PeerHandle>,
    c2: Seq<Option<bool>>,
    r2: Option<TxEvent>,
    start: nat,
)
    requires
        forall|i: int| 0 <= i < s.len() ==> #[trigger] slot_ok(s[i], i),
        h.0 < s.len(),
        s[h.0 as int] matches Some(t) && t.peer() is Some,
        first_new(d) >= d.len(),
        drop_post(s, q, h, r1, s1, q1),
        r1 is Ok,
        tx_event_post(s1, d, q1, c, s2, d2, q2, c2, r2, start),
    ensures
        r2 matches Some(TxEvent::Close { peer_handle }) && Some(peer_handle) == s[h.0 as int]->Some_0.peer(),
        q2 == q,
        forall|i: int| 0 <= i < s2.len() ==> !holds_peer(s2[i], s[h.0 as int]->Some_0.peer()->Some_0),
{
    let p = s[h.0 as int]->Some_0.peer()->Some_0;
    assert(q1.drop_last() =~= q);
    assert forall|i: int| 0 <= i < s2.len() implies !holds_peer(s2[i], p) by {
        assert(slot_ok(s[i], i));
        assert(slot_ok(s[h.0 as int], h.0 as int));
    }
}

/// Taking slot `i` out and putting `x` back in its place changes slot `i`
/// alone; where the other slots and `x` keep their invariant, all slots do.
proof fn lemma_slot_replaced(
    s0: Seq<Option<TcpSocket>>,
    s1: Seq<Option<TcpSocket>>,
    i: int,
    x: Option<TcpSocket>,
)
    requires
        0 <= i < s0.len(),
        s1 == s0.remove(i).insert(i, x),
    ensures
        s1.len() == s0.len(),
        s1[i] == x,
        forall|j: int| 0 <= j < s0.len() && j != i ==> s1[j] == s0[j],
        (forall|j: int| 0 <= j < s0.len() && j != i ==> #[trigger] slot_ok(s0[j], j)) && slot_ok(x, i)
            ==> forall|j: int| 0 <= j < s1.len() ==> #[trigger] slot_ok(s1[j], j),
{
    assert forall|j: int| 0 <= j < s0.len() && j != i implies s1[j] == s0[j] by {
        if j < i {
            assert(s1[j] == s0.remove(i)[j]);
        } else {
            assert(s1[j] == s0.remove(i)[j - 1]);
        }
    }
    if (forall|j: int| 0 <= j < s0.len() && j != i ==> #[trigger] slot_ok(s0[j], j)) && slot_ok(x, i) {
        assert forall|j: int| 0 <= j < s1.len() implies #[trigger] slot_ok(s1[j], j) by {
            if j != i {
                assert(s1[j] == s0[j]);
            }
        }
    }
}

/// Whether `list` holds `p`.
fn contains_peer(list: &Vec<PeerHandle>, p: PeerHandle) -> (r: bool)
    ensures
        r == list@.contains(p),
{
    let mut i: usize = 0;
    while i < list.len()
        invariant
            i <= list@.len(),
            forall|j: int| 0 <= j < i ==> list@[j] != p,
        decreases list@.len() - i,
    {
        if list[i] == p {
            return true;
        }
        i = i + 1;
    }
    false
}

/// At any time, no two sockets hold the same modem socket.
pub proof fn lemma_peer_handles_unique(st: &SocketStack, i: int, j: int)
    requires
        st.wf(),
        0 <= i < st.slots().len(),
        0 <= j < st.slots().len(),
        i != j,
        st.slots()[i] is Some,
        st.slots()[j] is Some,
        st.slots()[i]->Some_0.peer() is Some,
    ensures
        st.slots()[i]->Some_0.peer() != st.slots()[j]->Some_0.peer(),
{
    assert(slot_ok(st.slots()[i], i));
    assert(slot_ok(st.slots()[j], j));
}

} // verus!
