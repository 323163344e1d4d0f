//! The unsolicited notifications from the modem that the driver acts on.
use vstd::prelude::*;
use crate::ip::IpAddress;
use crate::socket::PeerHandle;

verus! {

/// The largest payload one read-data notification carries.
pub const DATA_PACKAGE_SIZE: usize = 2048;

/// Outcome of sending socket data, as the modem reports it.
#[derive(Clone, Copy, Debug, PartialEq, Eq, Structural)]
pub enum SendStatus {
    Success,
    Failure,
}

/// The state of the packet-data call.
#[derive(Clone, Copy, Debug, PartialEq, Eq, Structural)]
pub enum StatusConnection {
    Disconnect,
    Connected(IpAddress),
    Busy,
}

/// The bytes a payload vector holds.
pub uninterp spec fn payload(v: heapless::Vec<u8, 2048>) -> Seq<u8>;

/// Relies on `heapless::Vec::from_slice`: a copy of `b` where it fits the
/// capacity, an error (here `None`) where it does not.
#[verifier::external_body]
pub(crate) fn payload_from_slice(b: &[u8]) -> (r: Option<heapless::Vec<u8, 2048>>)
    ensures
        r is Some <==> b@.len() <= 2048,
        r matches Some(v) ==> payload(v) == b@,
{
    heapless::Vec::from_slice(b).ok()
}

/// Relies on `heapless::Vec::as_slice`: the items held, in order.
#[verifier::external_body]
pub(crate) fn payload_bytes(v: &heapless::Vec<u8, 2048>) -> (r: &[u8])
    ensures
        r@ == payload(*v),
{
    v.as_slice()
}

/// `+MIPRTCP`: bytes received on a socket.
pub struct SocketReadData {
    pub id: PeerHandle,
    pub length: usize,
    pub data: heapless::Vec<u8, 2048>,
}

/// `+MIPOPEN`: a socket was opened.
#[derive(Clone, Copy, Debug, PartialEq, Eq, Structural)]
pub struct SocketOpened {
    pub id: PeerHandle,
}

/// `+MIPOPEN?`: the sockets listed here are in use.
pub struct CanSocketOpen {
    pub id_list: Vec<PeerHandle>,
}

/// `+MIPCLOSE`: a socket was closed.
#[derive(Clone, Copy, Debug, PartialEq, Eq, Structural)]
pub struct SocketClosed {
    pub id: PeerHandle,
    pub num_or_type: Option<u16>,
    pub close_type: Option<u16>,
}

/// `+MIPSEND`: data handed to the modem was sent, or the socket is flowed off.
#[derive(Clone, Copy, Debug, PartialEq, Eq, Structural)]
pub struct SocketDataSentOver {
    pub id: PeerHandle,
    pub status: SendStatus,
    pub free_size: u16,
}

/// `+MIPPUSH`: data was pushed into the modem's stack.
#[derive(Clone, Copy, Debug, PartialEq, Eq, Structural)]
pub struct SocketDataIntoStack {
    pub id: PeerHandle,
    pub status: SendStatus,
    pub accumulated: Option<usize>,
}

/// `+MIPSTAT`: the protocol stack lost a link.
#[derive(Clone, Copy, Debug, PartialEq, Eq, Structural)]
pub struct BrokenLink {
    pub id: PeerHandle,
    pub n: u8,
    pub acknowledged: Option<usize>,
}

/// `+MIPCALL`: the packet-data call changed.
#[derive(Clone, Copy, Debug, PartialEq, Eq, Structural)]
pub struct DataConnectionActivated {
    pub sc: StatusConnection,
}

pub enum Urc {
    SocketDataSentOver(SocketDataSentOver),
    SocketClosed(SocketClosed),
    SocketOpened(SocketOpened),
    SocketDataIntoStack(SocketDataIntoStack),
    DataConnectionActivated(DataConnectionActivated),
    BrokenLink(BrokenLink),
    SocketReadData(SocketReadData),
    CanSocketOpen(CanSocketOpen),
}

/// The notifications that the line tokenizer delimits by their prefix.
#[derive(Clone, Copy, Debug, PartialEq, Eq, Structural)]
pub enum UrcInner {
    SocketDataSentOver(SocketDataSentOver),
    SocketClosed(SocketClosed),
    SocketOpened(SocketOpened),
    SocketDataIntoStack(SocketDataIntoStack),
    DataConnectionActivated(DataConnectionActivated),
    BrokenLink(BrokenLink),
}

impl Urc {
    /// The same notification as a `Urc`.
    pub fn from_inner(value: UrcInner) -> (r: Urc)
        ensures
            match value {
                UrcInner::SocketDataSentOver(x) => r == Urc::SocketDataSentOver(x),
                UrcInner::SocketClosed(x) => r == Urc::SocketClosed(x),
                UrcInner::SocketOpened(x) => r == Urc::SocketOpened(x),
                UrcInner::SocketDataIntoStack(x) => r == Urc::SocketDataIntoStack(x),
                UrcInner::DataConnectionActivated(x) => r == Urc::DataConnectionActivated(x),
                UrcInner::BrokenLink(x) => r == Urc::BrokenLink(x),
            },
    {
        match value {
            UrcInner::SocketDataSentOver(x) => Urc::SocketDataSentOver(x),
            UrcInner::SocketClosed(x) => Urc::SocketClosed(x),
            UrcInner::SocketOpened(x) => Urc::SocketOpened(x),
            UrcInner::SocketDataIntoStack(x) => Urc::SocketDataIntoStack(x),
            UrcInner::DataConnectionActivated(x) => Urc::DataConnectionActivated(x),
            UrcInner::BrokenLink(x) => Urc::BrokenLink(x),
        }
    }
}

/// The link state that a call status reports: up while connected, down once
/// disconnected, unknown while the call is busy.
pub open spec fn link_of(sc: StatusConnection) -> Option<crate::state::LinkState> {
    match sc {
        StatusConnection::Connected(_) => Some(crate::state::LinkState::Up),
        StatusConnection::Disconnect => Some(crate::state::LinkState::Down),
        StatusConnection::Busy => None,
    }
}

impl StatusConnection {
    pub fn link_state(&self) -> (r: Option<crate::state::LinkState>)
        ensures
            r == link_of(*self),
    {
        match self {
            StatusConnection::Connected(_) => Some(crate::state::LinkState::Up),
            StatusConnection::Disconnect => Some(crate::state::LinkState::Down),
            StatusConnection::Busy => None,
        }
    }
}

} // verus!
