use ublox_cellular::complete::{parse_can_socket_open, parse_ip_only, parse_ip_status, parse_read_data};
use ublox_cellular::ip::IpAddress;
use ublox_cellular::socket::PeerHandle;
use ublox_cellular::urc::{CanSocketOpen, DataConnectionActivated, StatusConnection, Urc};

#[test]
fn can_parse_can_socket_open() {
    let res = parse_can_socket_open(b"+MIPOPEN: 1,2,3,4,5,6").unwrap();

    if let Urc::CanSocketOpen(sco) = res {
        let CanSocketOpen { id_list } = sco;

        let mut v: Vec<PeerHandle> = Vec::new();
        v.push(PeerHandle(1));
        v.push(PeerHandle(2));
        v.push(PeerHandle(3));
        v.push(PeerHandle(4));
        v.push(PeerHandle(5));
        v.push(PeerHandle(6));

        assert_eq!(v, id_list);
    } else {
        panic!("expected a list of sockets");
    }
}

#[test]
fn complete_can_parse_ip_status_t1() {
    let res = parse_ip_status(b"+MIPCALL: 0\r\n").unwrap();

    if let Urc::DataConnectionActivated(dca) = res {
        let DataConnectionActivated { sc } = dca;

        assert_eq!(sc, StatusConnection::Disconnect);
    } else {
        panic!("expected a call status");
    }
}

#[test]
fn complete_can_parse_ip_status_t2() {
    let res = parse_ip_status(b"+MIPCALL: 1,10.10.10.10\r\n").unwrap();

    if let Urc::DataConnectionActivated(dca) = res {
        let DataConnectionActivated { sc } = dca;

        assert_eq!(sc, StatusConnection::Connected(IpAddress::V4(10, 10, 10, 10)));
    } else {
        panic!("expected a call status");
    }
}

#[test]
fn complete_can_parse_ip_status_t3() {
    let res = parse_ip_only(b"+MIPCALL: 10.10.10.10\r\n").unwrap();

    if let Urc::DataConnectionActivated(dca) = res {
        let DataConnectionActivated { sc } = dca;

        assert_eq!(sc, StatusConnection::Connected(IpAddress::V4(10, 10, 10, 10)));
    } else {
        panic!("expected a call status");
    }
}

#[test]
fn complete_read_data() {
    match parse_read_data(b"+MIPRTCP: 3,4,abcd") {
        Some(Urc::SocketReadData(x)) => {
            assert_eq!(x.id, PeerHandle(3));
            assert_eq!(x.length, 4);
            assert_eq!(x.data.as_slice(), b"abcd");
        }
        _ => panic!("expected socket data"),
    }
    assert!(parse_read_data(b"+MIPRTCP: 3,5,abcd").is_none());
    assert!(parse_read_data(b"+MIPRTCP: 300,1,a").is_none());
    let mut big = b"+MIPRTCP: 1,2049,".to_vec();
    big.extend_from_slice(&[0u8; 2049]);
    assert!(parse_read_data(&big).is_none());
    let mut fits = b"+MIPRTCP: 1,2048,".to_vec();
    fits.extend_from_slice(&[0u8; 2048]);
    assert!(matches!(parse_read_data(&fits), Some(Urc::SocketReadData(_))));
    assert!(matches!(Urc::parse(b"+MIPRTCP:1,0,"), Some(Urc::SocketReadData(_))));
}

#[test]
fn complete_call_status_edge_cases() {
    assert!(matches!(
        parse_ip_status(b"+MIPCALL:2\r\n"),
        Some(Urc::DataConnectionActivated(DataConnectionActivated { sc: StatusConnection::Busy }))
    ));
    assert!(parse_ip_status(b"+MIPCALL: 1\r\n").is_none());
    assert!(parse_ip_status(b"+MIPCALL: 0\r\nX").is_none());
    assert!(parse_ip_only(b"+MIPCALL: 10.10.10\r\n").is_none());
}

#[test]
fn lists_of_any_length() {
    match parse_can_socket_open(b"+MIPOPEN: 6") {
        Some(Urc::CanSocketOpen(x)) => assert_eq!(x.id_list, vec![PeerHandle(6)]),
        _ => panic!("expected a list of sockets"),
    }
    match parse_can_socket_open(b"+MIPOPEN:5,6") {
        Some(Urc::CanSocketOpen(x)) => assert_eq!(x.id_list, vec![PeerHandle(5), PeerHandle(6)]),
        _ => panic!("expected a list of sockets"),
    }
    assert!(parse_can_socket_open(b"+MIPOPEN: 1,1").is_none());
    assert!(parse_can_socket_open(b"+MIPOPEN: 1,").is_none());
    assert!(parse_can_socket_open(b"+MIPOPEN: 7").is_none());
    assert!(matches!(Urc::parse(b"+MIPOPEN: 1,2,3,4,5,6"), Some(Urc::CanSocketOpen(_))));
    assert!(Urc::parse(b"+MIPSEND: 1,0,100").is_none());
}
