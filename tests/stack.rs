use ublox_cellular::command::{ConnectSocket, SocketProtocol, WriteSocketData};
use ublox_cellular::dns::{DnsError, DnsState, DnsTable};
use ublox_cellular::ip::{IpAddress, SocketAddr};
use ublox_cellular::socket::{PeerHandle, SocketHandle, TcpSocket, TcpState};
use ublox_cellular::stack::{SocketError, SocketStack, TxEvent, MAX_EGRESS_SIZE};
use ublox_cellular::urc::{
    CanSocketOpen, SendStatus, SocketClosed, SocketDataSentOver, SocketOpened, SocketReadData, Urc,
};

fn addr() -> SocketAddr {
    SocketAddr { ip: IpAddress::V4(1, 2, 3, 4), port: 80 }
}

fn state(st: &SocketStack, h: SocketHandle) -> TcpState {
    st.socket(h).unwrap().state()
}

/// A stack with one socket in slot 0 that the modem opened as socket 1.
fn established() -> (SocketStack, SocketHandle) {
    let mut st = SocketStack::new(2);
    let h = st.add_socket(64, 64).unwrap();
    st.connect(h, addr()).unwrap();
    st.socket_rx(&Urc::CanSocketOpen(CanSocketOpen { id_list: vec![PeerHandle(1)] }));
    let ev = st.tx_event().unwrap();
    st.socket_tx(&ev, &Ok(Vec::new()));
    st.socket_rx(&Urc::SocketOpened(SocketOpened { id: PeerHandle(1) }));
    assert_eq!(state(&st, h), TcpState::Established);
    (st, h)
}

#[test]
fn connect_and_send() {
    let mut st = SocketStack::new(2);
    let h = st.add_socket(64, 64).unwrap();
    assert_eq!(h, SocketHandle(0));
    st.connect(h, addr()).unwrap();
    st.socket_rx(&Urc::CanSocketOpen(CanSocketOpen { id_list: vec![PeerHandle(1)] }));
    let ev = st.tx_event().unwrap();
    match &ev {
        TxEvent::Connect { socket_handle, socket_addr } => {
            assert_eq!(*socket_handle, SocketHandle(0));
            assert_eq!(*socket_addr, addr());
            let cmd = ConnectSocket::for_socket(*socket_handle, socket_addr);
            assert_eq!(cmd.id, PeerHandle(1));
            assert_eq!(cmd.remote_addr, b"1.2.3.4".to_vec());
            assert_eq!(cmd.remote_port, 80);
            assert_eq!(cmd.protocol, SocketProtocol::TCP);
        }
        _ => panic!("expected a connect"),
    }
    st.socket_tx(&ev, &Ok(Vec::new()));
    assert_eq!(state(&st, h), TcpState::SynSent);
    assert_eq!(st.socket(h).unwrap().peer_handle(), Some(PeerHandle(1)));
    st.socket_rx(&Urc::SocketOpened(SocketOpened { id: PeerHandle(1) }));
    assert_eq!(state(&st, h), TcpState::Established);

    assert_eq!(st.write(h, b"GET /\r\n"), Ok(7));
    let ev = st.tx_event().unwrap();
    match &ev {
        TxEvent::Send { peer_handle, data } => {
            assert_eq!(*peer_handle, PeerHandle(1));
            assert_eq!(data, &b"GET /\r\n".to_vec());
            assert_eq!(
                WriteSocketData::for_data(*peer_handle, data),
                Some(WriteSocketData { id: PeerHandle(1), length: 7 })
            );
        }
        _ => panic!("expected a send"),
    }
    st.socket_tx(&ev, &Ok(Vec::new()));
    assert_eq!(state(&st, h), TcpState::SynSent);
    st.socket_rx(&Urc::SocketDataSentOver(SocketDataSentOver {
        id: PeerHandle(1),
        status: SendStatus::Success,
        free_size: 100,
    }));
    assert_eq!(state(&st, h), TcpState::Established);
}

#[test]
fn unknown_free_sockets_are_probed_first() {
    let mut st = SocketStack::new(1);
    let h = st.add_socket(8, 8).unwrap();
    st.connect(h, addr()).unwrap();
    match st.tx_event() {
        Some(TxEvent::CanBeOpened { socket_handle }) => assert_eq!(socket_handle, h),
        _ => panic!("expected a probe"),
    }
    st.socket_tx(&TxEvent::CanBeOpened { socket_handle: h }, &Ok(Vec::new()));
    assert_eq!(state(&st, h), TcpState::SynSent);
}

#[test]
fn taken_modem_socket_forgets_what_is_known() {
    let mut st = SocketStack::new(1);
    let h = st.add_socket(8, 8).unwrap();
    st.connect(h, addr()).unwrap();
    st.socket_rx(&Urc::CanSocketOpen(CanSocketOpen { id_list: vec![PeerHandle(2)] }));
    assert!(matches!(st.tx_event(), Some(TxEvent::Connect { .. })));
    assert!(matches!(st.tx_event(), Some(TxEvent::CanBeOpened { .. })));
}

#[test]
fn failed_connect_leaves_socket_closed() {
    let mut st = SocketStack::new(1);
    let h = st.add_socket(8, 8).unwrap();
    st.connect(h, addr()).unwrap();
    st.socket_tx(&TxEvent::Connect { socket_handle: h, socket_addr: addr() }, &Err(()));
    assert_eq!(state(&st, h), TcpState::Closed);
    assert_eq!(st.socket(h).unwrap().peer_handle(), None);
}

#[test]
fn peer_initiated_close() {
    let (mut st, h) = established();
    st.socket_rx(&Urc::SocketClosed(SocketClosed { id: PeerHandle(1), num_or_type: None, close_type: None }));
    assert_eq!(st.read(h, 16).unwrap().len(), 0);
    assert_eq!(state(&st, h), TcpState::TimeWait);
    assert_eq!(st.socket(h).unwrap().peer_handle(), None);
}

#[test]
fn flow_off_leaves_state_and_retries() {
    let (mut st, h) = established();
    st.write(h, b"abc").unwrap();
    st.socket_rx(&Urc::SocketDataSentOver(SocketDataSentOver {
        id: PeerHandle(1),
        status: SendStatus::Failure,
        free_size: 0,
    }));
    assert_eq!(state(&st, h), TcpState::Established);
    assert!(matches!(st.tx_event(), Some(TxEvent::Send { .. })));
}

#[test]
fn received_bytes_are_queued_up_to_size() {
    let mut st = SocketStack::new(1);
    let h = st.add_socket(4, 4).unwrap();
    st.connect(h, addr()).unwrap();
    st.socket_tx(&TxEvent::Connect { socket_handle: h, socket_addr: addr() }, &Ok(Vec::new()));
    st.socket_rx(&Urc::SocketReadData(SocketReadData {
        id: PeerHandle(1),
        length: 6,
        data: heapless::Vec::from_slice(b"abcdef").unwrap(),
    }));
    assert_eq!(st.read(h, 2).unwrap(), b"ab".to_vec());
    assert_eq!(st.read(h, 10).unwrap(), b"cd".to_vec());
    assert_eq!(st.read(h, 10).unwrap(), Vec::<u8>::new());
    assert_eq!(st.read(SocketHandle(7), 1), Err(SocketError::InvalidHandle));
}

#[test]
fn written_bytes_come_out_in_order() {
    let (mut st, h) = established();
    assert_eq!(st.write(h, b"GET "), Ok(4));
    assert_eq!(st.write(h, b"/\r\n"), Ok(3));
    let mut sent = Vec::new();
    while let Some(ev) = st.tx_event() {
        match ev {
            TxEvent::Send { data, .. } => sent.extend_from_slice(&data),
            _ => panic!("expected a send"),
        }
    }
    assert_eq!(sent, b"GET /\r\n".to_vec());
}

#[test]
fn transmit_queue_takes_what_fits_and_sends_in_chunks() {
    let mut sock = TcpSocket::new(0, 2 * MAX_EGRESS_SIZE);
    let big = vec![7u8; 2 * MAX_EGRESS_SIZE + 5];
    assert_eq!(sock.tx_enqueue_slice(&big), 2 * MAX_EGRESS_SIZE);
    assert_eq!(sock.tx_dequeue(MAX_EGRESS_SIZE).len(), MAX_EGRESS_SIZE);
    assert_eq!(sock.tx_len(), MAX_EGRESS_SIZE);
    assert_eq!(sock.rx_enqueue_slice(b"x"), 0);
}

#[test]
fn peer_handles_stay_distinct() {
    let mut st = SocketStack::new(3);
    let a = st.add_socket(8, 8).unwrap();
    let b = st.add_socket(8, 8).unwrap();
    st.connect(a, addr()).unwrap();
    st.connect(b, addr()).unwrap();
    st.socket_tx(&TxEvent::Connect { socket_handle: a, socket_addr: addr() }, &Ok(Vec::new()));
    st.socket_tx(&TxEvent::Connect { socket_handle: b, socket_addr: addr() }, &Ok(Vec::new()));
    let pa = st.socket(a).unwrap().peer_handle();
    let pb = st.socket(b).unwrap().peer_handle();
    assert_eq!(pa, Some(PeerHandle(1)));
    assert_eq!(pb, Some(PeerHandle(2)));
}

#[test]
fn dropping_an_opened_socket_closes_it_once() {
    let (mut st, h) = established();
    st.drop_socket(h).unwrap();
    assert!(st.socket(h).is_none());
    match st.tx_event() {
        Some(TxEvent::Close { peer_handle }) => assert_eq!(peer_handle, PeerHandle(1)),
        _ => panic!("expected a close"),
    }
    assert!(st.tx_event().is_none());
}

#[test]
fn closing_a_socket_asks_the_modem() {
    let (mut st, h) = established();
    st.close(h).unwrap();
    assert_eq!(state(&st, h), TcpState::FinWait1);
    assert!(matches!(st.tx_event(), Some(TxEvent::Close { peer_handle: PeerHandle(1) })));
    let mut other = SocketStack::new(1);
    let g = other.add_socket(8, 8).unwrap();
    other.close(g).unwrap();
    assert_eq!(state(&other, g), TcpState::TimeWait);
}

#[test]
fn pool_is_bounded() {
    let mut st = SocketStack::new(1);
    assert!(st.add_socket(1, 1).is_some());
    assert!(st.add_socket(1, 1).is_none());
    assert_eq!(st.connect(SocketHandle(3), addr()), Err(SocketError::InvalidHandle));
}

#[test]
fn same_name_twice_is_one_query() {
    let mut st = SocketStack::new(1);
    st.dns_submit(b"example.com").unwrap();
    st.dns_submit(b"example.com").unwrap();
    let ev = st.tx_event().unwrap();
    match &ev {
        TxEvent::Dns { hostname } => assert_eq!(hostname, &b"example.com".to_vec()),
        _ => panic!("expected a lookup"),
    }
    assert!(st.tx_event().is_none());
    st.socket_tx(&ev, &Ok(b"93.184.216.34".to_vec()));
    assert_eq!(st.dns_state(b"example.com"), Some(DnsState::Resolved(IpAddress::V4(93, 184, 216, 34))));
    st.dns_release(b"example.com");
    assert_eq!(st.dns_state(b"example.com"), Some(DnsState::Resolved(IpAddress::V4(93, 184, 216, 34))));
    st.dns_release(b"example.com");
    assert_eq!(st.dns_state(b"example.com"), None);
}

#[test]
fn dns_table_full() {
    let mut t = DnsTable::new();
    assert_eq!(t.submit(b"a.example"), Ok(()));
    assert_eq!(t.submit(b"b.example"), Ok(()));
    assert_eq!(t.submit(b"c.example"), Ok(()));
    assert_eq!(t.submit(b"d.example"), Ok(()));
    assert_eq!(t.submit(b"e.example"), Err(DnsError::Full));
    assert_eq!(t.submit(b""), Err(DnsError::InvalidName));
    assert_eq!(t.submit(&[b'x'; 129]), Err(DnsError::InvalidName));
}

#[test]
fn dns_answers_are_read_as_addresses() {
    let mut t = DnsTable::new();
    t.submit(b"v6.example").unwrap();
    t.submit(b"bad.example").unwrap();
    t.submit(b"down.example").unwrap();
    assert_eq!(t.take_new(), Some(b"v6.example".to_vec()));
    assert_eq!(t.take_new(), Some(b"bad.example".to_vec()));
    assert_eq!(t.take_new(), Some(b"down.example".to_vec()));
    assert_eq!(t.take_new(), None);
    t.resolve_text(b"v6.example", b"::1");
    t.resolve_text(b"bad.example", b"not an address");
    t.fail(b"down.example");
    assert_eq!(t.state_of(b"v6.example"), Some(DnsState::Resolved(IpAddress::V6(0, 0, 0, 0, 0, 0, 0, 1))));
    assert_eq!(t.state_of(b"bad.example"), Some(DnsState::Error));
    assert_eq!(t.state_of(b"down.example"), Some(DnsState::Error));
}

#[test]
fn address_text_of_an_ipv6_socket() {
    let a = SocketAddr { ip: IpAddress::V6(0x2001, 0xdb8, 0, 0, 0, 0, 0, 1), port: 443 };
    let cmd = ConnectSocket::for_socket(SocketHandle(2), &a);
    assert_eq!(cmd.id, PeerHandle(3));
    assert_eq!(cmd.remote_addr, b"2001:db8::1".to_vec());
}

#[test]
fn sockets_take_turns() {
    let mut st = SocketStack::new(3);
    let a = st.add_socket(8, 8).unwrap();
    let b = st.add_socket(8, 8).unwrap();
    for h in [a, b] {
        st.connect(h, addr()).unwrap();
        st.socket_tx(&TxEvent::Connect { socket_handle: h, socket_addr: addr() }, &Ok(Vec::new()));
        st.socket_rx(&Urc::SocketOpened(SocketOpened { id: PeerHandle(h.0 + 1) }));
        st.write(h, b"x").unwrap();
    }
    let first = match st.tx_event() {
        Some(TxEvent::Send { peer_handle, .. }) => peer_handle,
        _ => panic!("expected a send"),
    };
    let second = match st.tx_event() {
        Some(TxEvent::Send { peer_handle, .. }) => peer_handle,
        _ => panic!("expected a send"),
    };
    assert_eq!(first, PeerHandle(2));
    assert_eq!(second, PeerHandle(1));
}

#[test]
fn connect_command_line() {
    let cmd = ConnectSocket::for_socket(SocketHandle(0), &addr());
    assert_eq!(cmd.encode(), b"AT+MIPOPEN=1,,\"1.2.3.4\",80,6\r\n".to_vec());
    let with_port = ConnectSocket {
        id: PeerHandle(6),
        port: Some(5000),
        remote_addr: b"10.0.0.1".to_vec(),
        remote_port: 65535,
        protocol: SocketProtocol::UDP,
    };
    assert_eq!(with_port.encode(), b"AT+MIPOPEN=6,5000,\"10.0.0.1\",65535,17\r\n".to_vec());
}
