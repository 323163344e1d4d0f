use ublox_cellular::frames::{parse_can_socket_open, parse_ip_only, parse_ip_status, parse_read_data};
use ublox_cellular::scan::FrameError;

#[test]
fn can_parse_read_data() {
    let (reminder, result) = parse_read_data(b"\r\n+MIPRTCP: 5,8,HTTP\r\n\r\nTAIL").unwrap();
    assert_eq!(b"TAIL".to_vec(), reminder);
    assert_eq!(b"+MIPRTCP: 5,8,HTTP\r\n\r\n".to_vec(), result.0);
    assert_eq!(24, result.1);
}

#[test]
fn can_parse_can_socket_open_t1() {
    let (_reminder, result) = parse_can_socket_open(b"\r\n+MIPOPEN: 6\r\n").unwrap();
    assert_eq!(b"+MIPOPEN: 6\r\n".to_vec(), result.0);
}

#[test]
fn can_parse_can_socket_open_t2() {
    let (_reminder, result) = parse_can_socket_open(b"\r\n+MIPOPEN: 5,6\r\n").unwrap();
    assert_eq!(b"+MIPOPEN: 5,6\r\n".to_vec(), result.0);
}

#[test]
fn can_parse_can_socket_open_t3() {
    let (_reminder, result) = parse_can_socket_open(b"\r\n+MIPOPEN: 1,2,3,4,5,6\r\n").unwrap();
    assert_eq!(b"+MIPOPEN: 1,2,3,4,5,6\r\n".to_vec(), result.0);
}

#[test]
fn can_parse_can_socket_open_t4() {
    let res = parse_can_socket_open(b"\r\n+MIPOPEN: 1,1\r\n");
    assert!(res.is_err());
}

#[test]
fn can_parse_can_socket_open_t5() {
    let res = parse_can_socket_open(b"\r\n+MIPOPEN: 1,0\r\n");
    assert!(res.is_err());
}

#[test]
fn streaming_can_parse_ip_status_t1() {
    let (_reminder, result) = parse_ip_status(b"\r\n+MIPCALL: 0\r\n").unwrap();
    assert_eq!(b"+MIPCALL: 0\r\n".to_vec(), result.0);
}

#[test]
fn streaming_can_parse_ip_status_t2() {
    let (_reminder, result) = parse_ip_status(b"\r\n+MIPCALL: 1,10.10.10.10\r\n").unwrap();
    assert_eq!(b"+MIPCALL: 1,10.10.10.10\r\n".to_vec(), result.0);
}

#[test]
fn streaming_can_parse_ip_status_t3() {
    let (_reminder, result) = parse_ip_only(b"\r\n+MIPCALL: 10.10.10.10\r\n").unwrap();
    assert_eq!(b"+MIPCALL: 10.10.10.10\r\n".to_vec(), result.0);
}

#[test]
fn read_data_needs_more_bytes() {
    assert_eq!(parse_read_data(b"\r\n+MIPRTCP: 5,8,HT"), Err(FrameError::Incomplete));
    assert_eq!(parse_read_data(b"\r\n+MIP"), Err(FrameError::Incomplete));
    assert_eq!(parse_read_data(b"\r\n+MIPRTCP: 5,8"), Err(FrameError::Incomplete));
    assert_eq!(parse_read_data(b""), Err(FrameError::Incomplete));
}

#[test]
fn read_data_rejects_other_frames() {
    assert_eq!(parse_read_data(b"\r\n+MIPOPEN: 1\r\n"), Err(FrameError::Invalid));
    assert_eq!(parse_read_data(b"\r\n+MIPRTCP: 256,1,x"), Err(FrameError::Invalid));
    assert_eq!(parse_read_data(b"\r\n+MIPRTCP: ,1,x"), Err(FrameError::Invalid));
}

#[test]
fn read_data_without_space_and_empty_payload() {
    let (rest, (frame, n)) = parse_read_data(b"\r\n+MIPRTCP:1,0,rest").unwrap();
    assert_eq!(b"rest".to_vec(), rest);
    assert_eq!(b"+MIPRTCP:1,0,".to_vec(), frame);
    assert_eq!(15, n);
}

#[test]
fn can_socket_open_keeps_what_follows() {
    let (rest, (_, n)) = parse_can_socket_open(b"\r\n+MIPOPEN: 2,4\r\nNEXT").unwrap();
    assert_eq!(b"NEXT".to_vec(), rest);
    assert_eq!(17, n);
    assert_eq!(parse_can_socket_open(b"\r\n+MIPOPEN: 2,4"), Err(FrameError::Incomplete));
    assert_eq!(parse_can_socket_open(b"\r\n+MIPOPEN: 7\r\n"), Err(FrameError::Invalid));
}

#[test]
fn ip_status_rejects_bad_status_and_octets() {
    assert_eq!(parse_ip_status(b"\r\n+MIPCALL: 3\r\n"), Err(FrameError::Invalid));
    assert_eq!(parse_ip_status(b"\r\n+MIPCALL: 1,300.1.1.1\r\n"), Err(FrameError::Invalid));
    assert_eq!(parse_ip_only(b"\r\n+MIPCALL: 10.10.10"), Err(FrameError::Incomplete));
    assert_eq!(parse_ip_only(b"\r\n+MIPCALL: 0\r\n"), Err(FrameError::Invalid));
}
