//! Parsers for whole notification lines, as the line tokenizer hands them
//! over (without the line break that precedes them), into `Urc` values.
use vstd::prelude::*;
use crate::frames::{
    call_tag, comma, copy_range, crlf, crlf_bytes, ip_quad, mip_tag, one_byte, open_tag,
    opt_address, read_data_tag, scan_ip_quad_at, scan_opt_address_at,
};
use crate::ip::{parse_ip_text, parsed_ip};
use crate::scan::{
    complete_number, complete_number_at, complete_opt_space, complete_opt_space_at, number_at,
    scan_digit_in, scan_digit_in_at, scan_tag, scan_tag_at, FrameError, Scan,
};
use crate::socket::PeerHandle;
use crate::urc::{
    payload, payload_from_slice, CanSocketOpen, DataConnectionActivated, SocketReadData, StatusConnection, Urc,
    DATA_PACKAGE_SIZE,
};

verus! {

/// For `+MIPRTCP:[ ]<id>,<len>,<len bytes>`: the socket number and where the
/// payload starts and ends.
pub open spec fn read_data_fields(s: Seq<u8>) -> Option<(nat, nat, nat)> {
    match scan_tag(s, 0, read_data_tag()) {
        Scan::Done(pos1) => match complete_opt_space(s, pos1) {
            Scan::Done(pos2) => match complete_number(s, pos2, 255) {
                Scan::Done(pos3) => match scan_tag(s, pos3, comma()) {
                    Scan::Done(pos4) => match complete_number(s, pos4, 65535) {
                        Scan::Done(pos5) => match scan_tag(s, pos5, comma()) {
                            Scan::Done(pos6) => if pos6 + number_at(s, pos4) <= s.len() {
                                Some((number_at(s, pos2), pos6, pos6 + number_at(s, pos4)))
                            } else {
                                None
                            },
                            _ => None,
                        },
                        _ => None,
                    },
                    _ => None,
                },
                _ => None,
            },
            _ => None,
        },
        _ => None,
    }
}

/// Parses a socket payload notification. A payload larger than one
/// notification may carry is refused.
pub fn parse_read_data(resp: &[u8]) -> (r: Option<Urc>)
    ensures
        match read_data_fields(resp@) {
            Some((id, a, b)) => if b - a <= DATA_PACKAGE_SIZE {
                r matches Some(Urc::SocketReadData(x)) && x.id == PeerHandle(id as u8) && payload(
                    x.data,
                ) == resp@.subrange(a as int, b as int) && x.length == b - a
            } else {
                r is None
            },
            None => r is None,
        },
{
    let tag = mip_tag(82u8, 84u8, 67u8, 80u8, 58u8);
    let cm = one_byte(44u8);
    let pos1 = match scan_tag_at(resp, 0, tag.as_slice()) {
        Ok(p) => p,
        Err(_) => return None,
    };
    let pos2 = complete_opt_space_at(resp, pos1);
    let (pos3, id) = match complete_number_at(resp, pos2, 255) {
        Some(x) => x,
        None => return None,
    };
    let pos4 = match scan_tag_at(resp, pos3, cm.as_slice()) {
        Ok(p) => p,
        Err(_) => return None,
    };
    let (pos5, len) = match complete_number_at(resp, pos4, 65535) {
        Some(x) => x,
        None => return None,
    };
    let pos6 = match scan_tag_at(resp, pos5, cm.as_slice()) {
        Ok(p) => p,
        Err(_) => return None,
    };
    if len as usize > resp.len() - pos6 {
        return None;
    }
    let bytes = copy_range(resp, pos6, pos6 + len as usize);
    match payload_from_slice(bytes.as_slice()) {
        Some(data) => Some(
            Urc::SocketReadData(SocketReadData { id: PeerHandle(id as u8), length: len as usize, data }),
        ),
        None => None,
    }
}

/// The socket numbers after the first in a `+MIPOPEN:` list, from place
/// `level` (2 to 6) on: each is a comma and a digit from `level` to 6, and
/// the list ends at the first place that does not hold one. Gives where the
/// list ends and the digits read.
pub open spec fn open_ids(s: Seq<u8>, pos: nat, level: nat) -> (nat, Seq<u8>)
    decreases 7 - level,
{
    if level >= 7 {
        (pos, Seq::empty())
    } else {
        match scan_tag(s, pos, comma()) {
            Scan::Done(p) => match scan_digit_in(s, p, (48 + level) as u8, 54u8) {
                Scan::Done(q) => {
                    let (e, ds) = open_ids(s, q, level + 1);
                    (e, seq![s[p as int]] + ds)
                },
                _ => (pos, Seq::empty()),
            },
            _ => (pos, Seq::empty()),
        }
    }
}

/// For `+MIPOPEN:[ ]<1-6>[,<2-6>[,<3-6>...]]`, taking the whole line: the
/// listed digits.
pub open spec fn can_open_digits(s: Seq<u8>) -> Option<Seq<u8>> {
    match scan_tag(s, 0, open_tag()) {
        Scan::Done(pos1) => match complete_opt_space(s, pos1) {
            Scan::Done(pos2) => match scan_digit_in(s, pos2, 49u8, 54u8) {
                Scan::Done(pos3) => if open_ids(s, pos3, 2).0 == s.len() {
                    Some(seq![s[pos2 as int]] + open_ids(s, pos3, 2).1)
                } else {
                    None
                },
                _ => None,
            },
            _ => None,
        },
        _ => None,
    }
}

/// The modem socket that an ASCII digit names.
pub open spec fn peer_of_digit(d: u8) -> PeerHandle {
    PeerHandle((d - 48) as u8)
}

/// Reads the places after the first in a `+MIPOPEN:` list.
fn open_ids_at(s: &[u8], pos: usize, level: u8) -> (r: (usize, Vec<u8>))
    requires
        pos <= s@.len(),
        2 <= level <= 7,
    ensures
        r.0 == open_ids(s@, pos as nat, level as nat).0,
        r.1@ == open_ids(s@, pos as nat, level as nat).1,
        r.0 <= s@.len(),
        forall|j: int| 0 <= j < r.1@.len() ==> 48 <= #[trigger] r.1@[j] <= 54,
    decreases 7 - level,
{
    if level >= 7 {
        return (pos, Vec::new());
    }
    let cm = one_byte(44u8);
    let p = match scan_tag_at(s, pos, cm.as_slice()) {
        Ok(p) => p,
        Err(_) => return (pos, Vec::new()),
    };
    let q = match scan_digit_in_at(s, p, 48u8 + level, 54u8) {
        Ok(q) => q,
        Err(_) => return (pos, Vec::new()),
    };
    let (e, ds) = open_ids_at(s, q, level + 1);
    let d = s[p];
    let mut out: Vec<u8> = Vec::new();
    out.push(d);
    let mut k: usize = 0;
    while k < ds.len()
        invariant
            k <= ds@.len(),
            out@ == seq![d] + ds@.subrange(0, k as int),
            48 <= d <= 54,
            forall|j: int| 0 <= j < ds@.len() ==> 48 <= #[trigger] ds@[j] <= 54,
        decreases ds@.len() - k,
    {
        out.push(ds[k]);
        proof {
            assert(out@ =~= seq![d] + ds@.subrange(0, k + 1));
        }
        k = k + 1;
    }
    proof {
        assert(ds@.subrange(0, ds@.len() as int) =~= ds@);
    }
    (e, out)
}

/// Parses the list of sockets that can be opened.
pub fn parse_can_socket_open(resp: &[u8]) -> (r: Option<Urc>)
    ensures
        match can_open_digits(resp@) {
            Some(ds) => r matches Some(Urc::CanSocketOpen(x)) && x.id_list@ == ds.map_values(
                |d: u8| peer_of_digit(d),
            ),
            None => r is None,
        },
{
    let tag = mip_tag(79u8, 80u8, 69u8, 78u8, 58u8);
    let pos1 = match scan_tag_at(resp, 0, tag.as_slice()) {
        Ok(p) => p,
        Err(_) => return None,
    };
    let pos2 = complete_opt_space_at(resp, pos1);
    let pos3 = match scan_digit_in_at(resp, pos2, 49u8, 54u8) {
        Ok(p) => p,
        Err(_) => return None,
    };
    let (e, ds) = open_ids_at(resp, pos3, 2);
    if e != resp.len() {
        return None;
    }
    let ghost all = seq![resp@[pos2 as int]] + ds@;
    let mut ids: Vec<PeerHandle> = Vec::new();
    ids.push(PeerHandle(resp[pos2] - 48));
    let mut k: usize = 0;
    while k < ds.len()
        invariant
            k <= ds@.len(),
            all == seq![resp@[pos2 as int]] + ds@,
            forall|j: int| 0 <= j < ds@.len() ==> 48 <= #[trigger] ds@[j] <= 54,
            ids@ == all.subrange(0, k + 1).map_values(|d: u8| peer_of_digit(d)),
        decreases ds@.len() - k,
    {
        ids.push(PeerHandle(ds[k] - 48));
        proof {
            assert(ids@ =~= all.subrange(0, k + 2).map_values(|d: u8| peer_of_digit(d)));
        }
        k = k + 1;
    }
    proof {
        assert(all.subrange(0, (ds@.len() + 1) as int) =~= all);
    }
    Some(Urc::CanSocketOpen(CanSocketOpen { id_list: ids }))
}

/// For `+MIPCALL:[ ]<0-2>[,<a.b.c.d>]\r\n`, taking the whole line: the
/// status byte, and where the address text starts and ends (an empty span
/// where there is none).
pub open spec fn ip_status_fields(s: Seq<u8>) -> Option<(u8, nat, nat)> {
    match scan_tag(s, 0, call_tag()) {
        Scan::Done(pos1) => match complete_opt_space(s, pos1) {
            Scan::Done(pos2) => match scan_digit_in(s, pos2, 48u8, 50u8) {
                Scan::Done(pos3) => match opt_address(s, pos3) {
                    Scan::Done(pos4) => match scan_tag(s, pos4, crlf()) {
                        Scan::Done(pos5) => if pos5 == s.len() {
                            Some((s[pos2 as int], if pos4 > pos3 { pos3 + 1 } else { pos3 }, pos4))
                        } else {
                            None
                        },
                        _ => None,
                    },
                    _ => None,
                },
                _ => None,
            },
            _ => None,
        },
        _ => None,
    }
}

/// The call status that a `+MIPCALL:` line with a status reports: `0`
/// disconnected, `2` busy, `1` connected with the address it gives.
pub open spec fn ip_status_of(s: Seq<u8>) -> Option<StatusConnection> {
    match ip_status_fields(s) {
        Some((st, a, b)) => if st == 48u8 {
            Some(StatusConnection::Disconnect)
        } else if st == 50u8 {
            Some(StatusConnection::Busy)
        } else if b > a {
            match parsed_ip(s.subrange(a as int, b as int)) {
                Some(ip) => Some(StatusConnection::Connected(ip)),
                None => None,
            }
        } else {
            None
        },
        None => None,
    }
}

/// For `+MIPCALL:[ ]<a.b.c.d>\r\n`, taking the whole line: where the
/// address text starts and ends.
pub open spec fn ip_only_fields(s: Seq<u8>) -> Option<(nat, nat)> {
    match scan_tag(s, 0, call_tag()) {
        Scan::Done(pos1) => match complete_opt_space(s, pos1) {
            Scan::Done(pos2) => match ip_quad(s, pos2) {
                Scan::Done(pos3) => match scan_tag(s, pos3, crlf()) {
                    Scan::Done(pos4) => if pos4 == s.len() {
                        Some((pos2, pos3))
                    } else {
                        None
                    },
                    _ => None,
                },
                _ => None,
            },
            _ => None,
        },
        _ => None,
    }
}

/// The call status that a `+MIPCALL:` line with only an address reports.
pub open spec fn ip_only_of(s: Seq<u8>) -> Option<StatusConnection> {
    match ip_only_fields(s) {
        Some((a, b)) => match parsed_ip(s.subrange(a as int, b as int)) {
            Some(ip) => Some(StatusConnection::Connected(ip)),
            None => None,
        },
        None => None,
    }
}

/// Parses a call status line.
pub fn parse_ip_status(resp: &[u8]) -> (r: Option<Urc>)
    ensures
        match ip_status_of(resp@) {
            Some(sc) => r matches Some(Urc::DataConnectionActivated(x)) && x.sc == sc,
            None => r is None,
        },
{
    let tag = mip_tag(67u8, 65u8, 76u8, 76u8, 58u8);
    let cr = crlf_bytes();
    let pos1 = match scan_tag_at(resp, 0, tag.as_slice()) {
        Ok(p) => p,
        Err(_) => return None,
    };
    let pos2 = complete_opt_space_at(resp, pos1);
    let pos3 = match scan_digit_in_at(resp, pos2, 48u8, 50u8) {
        Ok(p) => p,
        Err(_) => return None,
    };
    let pos4 = match scan_opt_address_at(resp, pos3) {
        Ok(p) => p,
        Err(_) => return None,
    };
    let pos5 = match scan_tag_at(resp, pos4, cr.as_slice()) {
        Ok(p) => p,
        Err(_) => return None,
    };
    if pos5 != resp.len() {
        return None;
    }
    let status = resp[pos2];
    if status == 48u8 {
        Some(Urc::DataConnectionActivated(DataConnectionActivated { sc: StatusConnection::Disconnect }))
    } else if status == 50u8 {
        Some(Urc::DataConnectionActivated(DataConnectionActivated { sc: StatusConnection::Busy }))
    } else if pos4 > pos3 {
        let text = copy_range(resp, pos3 + 1, pos4);
        match parse_ip_text(text.as_slice()) {
            Some(ip) => Some(
                Urc::DataConnectionActivated(
                    DataConnectionActivated { sc: StatusConnection::Connected(ip) },
                ),
            ),
            None => None,
        }
    } else {
        None
    }
}

/// Parses a call status line that carries only an address.
pub fn parse_ip_only(resp: &[u8]) -> (r: Option<Urc>)
    ensures
        match ip_only_of(resp@) {
            Some(sc) => r matches Some(Urc::DataConnectionActivated(x)) && x.sc == sc,
            None => r is None,
        },
{
    let tag = mip_tag(67u8, 65u8, 76u8, 76u8, 58u8);
    let cr = crlf_bytes();
    let pos1 = match scan_tag_at(resp, 0, tag.as_slice()) {
        Ok(p) => p,
        Err(_) => return None,
    };
    let pos2 = complete_opt_space_at(resp, pos1);
    let pos3 = match scan_ip_quad_at(resp, pos2) {
        Ok(p) => p,
        Err(_) => return None,
    };
    let pos4 = match scan_tag_at(resp, pos3, cr.as_slice()) {
        Ok(p) => p,
        Err(_) => return None,
    };
    if pos4 != resp.len() {
        return None;
    }
    let text = copy_range(resp, pos2, pos3);
    match parse_ip_text(text.as_slice()) {
        Some(ip) => Some(
            Urc::DataConnectionActivated(DataConnectionActivated { sc: StatusConnection::Connected(ip) }),
        ),
        None => None,
    }
}

impl Urc {
    /// Parses a notification line whose end only its own grammar tells: a
    /// socket payload, or else the list of sockets that can be opened.
    /// Other notifications are read by their prefix, outside this library.
    pub fn parse(resp: &[u8]) -> (r: Option<Urc>)
        ensures
            match read_data_fields(resp@) {
                Some((id, a, b)) if b - a <= DATA_PACKAGE_SIZE => r matches Some(
                    Urc::SocketReadData(x),
                ) && x.id == PeerHandle(id as u8) && payload(x.data) == resp@.subrange(
                    a as int,
                    b as int,
                ) && x.length == b - a,
                _ => match can_open_digits(resp@) {
                    Some(ds) => r matches Some(Urc::CanSocketOpen(x)) && x.id_list@
                        == ds.map_values(|d: u8| peer_of_digit(d)),
                    None => r is None,
                },
            },
    {
        match parse_read_data(resp) {
            Some(u) => Some(u),
            None => parse_can_socket_open(resp),
        }
    }
}

} // verus!
