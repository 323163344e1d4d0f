//! Recognisers for the notification frames that the generic line tokenizer
//! cannot delimit by itself: socket payloads, the list of sockets that can be
//! opened, and the packet-data call status.
//!
//! Each one takes the bytes received so far, starting at the line break that
//! precedes the frame, and gives back what follows the frame, the frame itself
//! (without that line break) and how many bytes it spans in all.
use vstd::prelude::*;
use crate::scan::{
    and_then, optional, reports, scan_digit_in, scan_digit_in_at, scan_number, scan_number_at,
    scan_opt_space, scan_opt_space_at, scan_tag, scan_tag_at, scan_take, scan_take_at, number_at,
    FrameError, Scan,
};

verus! {

pub open spec fn crlf() -> Seq<u8> {
    seq![13u8, 10u8]
}

pub open spec fn comma() -> Seq<u8> {
    seq![44u8]
}

pub open spec fn dot() -> Seq<u8> {
    seq![46u8]
}

/// `+MIPRTCP:`
pub open spec fn read_data_tag() -> Seq<u8> {
    seq![43u8, 77u8, 73u8, 80u8, 82u8, 84u8, 67u8, 80u8, 58u8]
}

/// `+MIPOPEN:`
pub open spec fn open_tag() -> Seq<u8> {
    seq![43u8, 77u8, 73u8, 80u8, 79u8, 80u8, 69u8, 78u8, 58u8]
}

/// `+MIPCALL:`
pub open spec fn call_tag() -> Seq<u8> {
    seq![43u8, 77u8, 73u8, 80u8, 67u8, 65u8, 76u8, 76u8, 58u8]
}

pub(crate) fn crlf_bytes() -> (r: Vec<u8>)
    ensures
        r@ == crlf(),
{
    let mut r: Vec<u8> = Vec::new();
    r.push(13u8);
    r.push(10u8);
    proof {
        assert(r@ =~= crlf());
    }
    r
}

pub(crate) fn one_byte(b: u8) -> (r: Vec<u8>)
    ensures
        r@ == seq![b],
{
    let mut r: Vec<u8> = Vec::new();
    r.push(b);
    proof {
        assert(r@ =~= seq![b]);
    }
    r
}

/// `+MIP` followed by four more bytes and a colon.
pub(crate) fn mip_tag(a: u8, b: u8, c: u8, d: u8, e: u8) -> (r: Vec<u8>)
    ensures
        r@ == seq![43u8, 77u8, 73u8, 80u8, a, b, c, d, e],
{
    let mut r: Vec<u8> = Vec::new();
    r.push(43u8);
    r.push(77u8);
    r.push(73u8);
    r.push(80u8);
    r.push(a);
    r.push(b);
    r.push(c);
    r.push(d);
    r.push(e);
    proof {
        assert(r@ =~= seq![43u8, 77u8, 73u8, 80u8, a, b, c, d, e]);
    }
    r
}

/// `\r\n+MIPRTCP:[ ]<id>,<len>,<len bytes>`
pub open spec fn read_data_frame(s: Seq<u8>) -> Scan {
    and_then(
        scan_tag(s, 0, crlf()),
        |pos1: nat|
            and_then(
                scan_tag(s, pos1, read_data_tag()),
                |pos2: nat|
                    and_then(
                        scan_opt_space(s, pos2),
                        |pos3: nat|
                            and_then(
                                scan_number(s, pos3, 255),
                                |pos4: nat|
                                    and_then(
                                        scan_tag(s, pos4, comma()),
                                        |pos5: nat|
                                            and_then(
                                                scan_number(s, pos5, 65535),
                                                |pos6: nat|
                                                    and_then(
                                                        scan_tag(s, pos6, comma()),
                                                        |pos7: nat|
                                                            scan_take(s, pos7, number_at(s, pos5)),
                                                    ),
                                            ),
                                    ),
                            ),
                    ),
            ),
    )
}

/// The socket numbers that may follow the first one in a `+MIPOPEN:` list:
/// at place `level` (2 to 6) a digit from `level` to 6, each after a comma.
pub open spec fn open_list(s: Seq<u8>, pos: nat, level: nat) -> Scan
    decreases 7 - level,
{
    if level >= 7 {
        Scan::Done(pos)
    } else {
        match scan_tag(s, pos, comma()) {
            Scan::Fail => Scan::Done(pos),
            Scan::More => Scan::More,
            Scan::Done(p) => match scan_digit_in(s, p, (48 + level) as u8, 54u8) {
                Scan::Fail => Scan::Done(pos),
                Scan::More => Scan::More,
                Scan::Done(q) => open_list(s, q, level + 1),
            },
        }
    }
}

/// `\r\n+MIPOPEN:[ ]<1-6>[,<2-6>[,<3-6>[,<4-6>[,<5-6>[,6]]]]]\r\n`
pub open spec fn can_socket_open_frame(s: Seq<u8>) -> Scan {
    and_then(
        scan_tag(s, 0, crlf()),
        |pos1: nat|
            and_then(
                scan_tag(s, pos1, open_tag()),
                |pos2: nat|
                    and_then(
                        scan_opt_space(s, pos2),
                        |pos3: nat|
                            and_then(
                                scan_digit_in(s, pos3, 49u8, 54u8),
                                |pos4: nat|
                                    and_then(
                                        open_list(s, pos4, 2),
                                        |pos5: nat| scan_tag(s, pos5, crlf()),
                                    ),
                            ),
                    ),
            ),
    )
}

/// A dotted IPv4 address: four decimal numbers up to 255.
pub open spec fn ip_quad(s: Seq<u8>, pos: nat) -> Scan {
    and_then(
        scan_number(s, pos, 255),
        |a: nat|
            and_then(
                scan_tag(s, a, dot()),
                |b: nat|
                    and_then(
                        scan_number(s, b, 255),
                        |c: nat|
                            and_then(
                                scan_tag(s, c, dot()),
                                |d: nat|
                                    and_then(
                                        scan_number(s, d, 255),
                                        |e: nat|
                                            and_then(
                                                scan_tag(s, e, dot()),
                                                |f: nat| scan_number(s, f, 255),
                                            ),
                                    ),
                            ),
                    ),
            ),
    )
}

/// An optional `,` and address after the call status.
pub open spec fn opt_address(s: Seq<u8>, pos: nat) -> Scan {
    optional(and_then(scan_tag(s, pos, comma()), |p: nat| ip_quad(s, p)), pos)
}

/// `\r\n+MIPCALL:[ ]<0-2>[,<a.b.c.d>]\r\n`
pub open spec fn ip_status_frame(s: Seq<u8>) -> Scan {
    and_then(
        scan_tag(s, 0, crlf()),
        |pos1: nat|
            and_then(
                scan_tag(s, pos1, call_tag()),
                |pos2: nat|
                    and_then(
                        scan_opt_space(s, pos2),
                        |pos3: nat|
                            and_then(
                                scan_digit_in(s, pos3, 48u8, 50u8),
                                |pos4: nat|
                                    and_then(
                                        opt_address(s, pos4),
                                        |pos5: nat| scan_tag(s, pos5, crlf()),
                                    ),
                            ),
                    ),
            ),
    )
}

/// `\r\n+MIPCALL:[ ]<a.b.c.d>\r\n`
pub open spec fn ip_only_frame(s: Seq<u8>) -> Scan {
    and_then(
        scan_tag(s, 0, crlf()),
        |pos1: nat|
            and_then(
                scan_tag(s, pos1, call_tag()),
                |pos2: nat|
                    and_then(
                        scan_opt_space(s, pos2),
                        |pos3: nat|
                            and_then(ip_quad(s, pos3), |pos4: nat| scan_tag(s, pos4, crlf())),
                    ),
            ),
    )
}

/// What a recogniser hands back for the outcome `sc` on the bytes `s`: on a
/// match ending at `end`, the bytes after it, the frame without its leading
/// line break, and `end`.
pub open spec fn frame_outcome(
    r: Result<(Vec<u8>, (Vec<u8>, usize)), FrameError>,
    s: Seq<u8>,
    sc: Scan,
) -> bool {
    match sc {
        Scan::Done(end) => match r {
            Ok((rest, (frame, n))) => rest@ == s.subrange(end as int, s.len() as int)
                && frame@ == s.subrange(2, end as int) && n == end,
            Err(_) => false,
        },
        Scan::More => r == Err::<(Vec<u8>, (Vec<u8>, usize)), FrameError>(FrameError::Incomplete),
        Scan::Fail => r == Err::<(Vec<u8>, (Vec<u8>, usize)), FrameError>(FrameError::Invalid),
    }
}

/// The bytes of `s` from `a` up to `b`.
pub fn copy_range(s: &[u8], a: usize, b: usize) -> (r: Vec<u8>)
    requires
        a <= b <= s@.len(),
    ensures
        r@ == s@.subrange(a as int, b as int),
{
    let mut r: Vec<u8> = Vec::new();
    let mut i: usize = a;
    while i < b
        invariant
            a <= i <= b,
            b <= s@.len(),
            r@ == s@.subrange(a as int, i as int),
        decreases b - i,
    {
        r.push(s[i]);
        proof {
            assert(r@ =~= s@.subrange(a as int, i + 1));
        }
        i = i + 1;
    }
    r
}

fn split_frame(s: &[u8], end: usize) -> (r: (Vec<u8>, (Vec<u8>, usize)))
    requires
        2 <= end <= s@.len(),
    ensures
        r.0@ == s@.subrange(end as int, s@.len() as int),
        r.1.0@ == s@.subrange(2, end as int),
        r.1.1 == end,
{
    (copy_range(s, end, s.len()), (copy_range(s, 2, end), end))
}

/// Recognises a socket payload notification.
pub fn parse_read_data(buf: &[u8]) -> (r: Result<(Vec<u8>, (Vec<u8>, usize)), FrameError>)
    ensures
        frame_outcome(r, buf@, read_data_frame(buf@)),
{
    let cr = crlf_bytes();
    let tag = mip_tag(82u8, 84u8, 67u8, 80u8, 58u8);
    let cm = one_byte(44u8);
    let pos1 = match scan_tag_at(buf, 0, cr.as_slice()) {
        Ok(p) => p,
        Err(e) => return Err(e),
    };
    let pos2 = match scan_tag_at(buf, pos1, tag.as_slice()) {
        Ok(p) => p,
        Err(e) => return Err(e),
    };
    let pos3 = match scan_opt_space_at(buf, pos2) {
        Ok(p) => p,
        Err(e) => return Err(e),
    };
    let pos4 = match scan_number_at(buf, pos3, 255) {
        Ok((p, _)) => p,
        Err(e) => return Err(e),
    };
    let pos5 = match scan_tag_at(buf, pos4, cm.as_slice()) {
        Ok(p) => p,
        Err(e) => return Err(e),
    };
    let (pos6, len) = match scan_number_at(buf, pos5, 65535) {
        Ok((p, v)) => (p, v),
        Err(e) => return Err(e),
    };
    let pos7 = match scan_tag_at(buf, pos6, cm.as_slice()) {
        Ok(p) => p,
        Err(e) => return Err(e),
    };
    let end = match scan_take_at(buf, pos7, len as usize) {
        Ok(p) => p,
        Err(e) => return Err(e),
    };
    Ok(split_frame(buf, end))
}

/// Recognises the comma-separated tail of a `+MIPOPEN:` list from place 2 on.
fn scan_open_list_at(s: &[u8], pos: usize) -> (r: Result<usize, FrameError>)
    requires
        pos <= s@.len(),
    ensures
        reports(r, open_list(s@, pos as nat, 2)),
        r is Ok ==> r->Ok_0 <= s@.len(),
{
    let cm = one_byte(44u8);
    let mut p: usize = pos;
    let mut level: u8 = 2;
    while level < 7
        invariant
            2 <= level <= 7,
            p <= s@.len(),
            cm@ == comma(),
            open_list(s@, pos as nat, 2) == open_list(s@, p as nat, level as nat),
        decreases 7 - level,
    {
        let q = match scan_tag_at(s, p, cm.as_slice()) {
            Ok(q) => q,
            Err(FrameError::Invalid) => return Ok(p),
            Err(FrameError::Incomplete) => return Err(FrameError::Incomplete),
        };
        let q2 = match scan_digit_in_at(s, q, 48u8 + level, 54u8) {
            Ok(q2) => q2,
            Err(FrameError::Invalid) => return Ok(p),
            Err(FrameError::Incomplete) => return Err(FrameError::Incomplete),
        };
        p = q2;
        level = level + 1;
    }
    Ok(p)
}

/// Recognises a dotted IPv4 address.
pub(crate) fn scan_ip_quad_at(s: &[u8], pos: usize) -> (r: Result<usize, FrameError>)
    requires
        pos <= s@.len(),
    ensures
        reports(r, ip_quad(s@, pos as nat)),
        r is Ok ==> r->Ok_0 <= s@.len(),
{
    let dt = one_byte(46u8);
    let a = match scan_number_at(s, pos, 255) {
        Ok((p, _)) => p,
        Err(e) => return Err(e),
    };
    let b = match scan_tag_at(s, a, dt.as_slice()) {
        Ok(p) => p,
        Err(e) => return Err(e),
    };
    let c = match scan_number_at(s, b, 255) {
        Ok((p, _)) => p,
        Err(e) => return Err(e),
    };
    let d = match scan_tag_at(s, c, dt.as_slice()) {
        Ok(p) => p,
        Err(e) => return Err(e),
    };
    let e = match scan_number_at(s, d, 255) {
        Ok((p, _)) => p,
        Err(e) => return Err(e),
    };
    let f = match scan_tag_at(s, e, dt.as_slice()) {
        Ok(p) => p,
        Err(e) => return Err(e),
    };
    match scan_number_at(s, f, 255) {
        Ok((p, _)) => Ok(p),
        Err(e) => Err(e),
    }
}

/// Recognises the optional address that may follow the call status.
pub(crate) fn scan_opt_address_at(s: &[u8], pos: usize) -> (r: Result<usize, FrameError>)
    requires
        pos <= s@.len(),
    ensures
        reports(r, opt_address(s@, pos as nat)),
        r is Ok ==> r->Ok_0 <= s@.len(),
{
    let cm = one_byte(44u8);
    let p = match scan_tag_at(s, pos, cm.as_slice()) {
        Ok(p) => p,
        Err(FrameError::Invalid) => return Ok(pos),
        Err(FrameError::Incomplete) => return Err(FrameError::Incomplete),
    };
    match scan_ip_quad_at(s, p) {
        Ok(q) => Ok(q),
        Err(FrameError::Invalid) => Ok(pos),
        Err(FrameError::Incomplete) => Err(FrameError::Incomplete),
    }
}

/// Recognises the list of sockets that can be opened.
pub fn parse_can_socket_open(buf: &[u8]) -> (r: Result<(Vec<u8>, (Vec<u8>, usize)), FrameError>)
    ensures
        frame_outcome(r, buf@, can_socket_open_frame(buf@)),
{
    let cr = crlf_bytes();
    let tag = mip_tag(79u8, 80u8, 69u8, 78u8, 58u8);
    let pos1 = match scan_tag_at(buf, 0, cr.as_slice()) {
        Ok(p) => p,
        Err(e) => return Err(e),
    };
    let pos2 = match scan_tag_at(buf, pos1, tag.as_slice()) {
        Ok(p) => p,
        Err(e) => return Err(e),
    };
    let pos3 = match scan_opt_space_at(buf, pos2) {
        Ok(p) => p,
        Err(e) => return Err(e),
    };
    let pos4 = match scan_digit_in_at(buf, pos3, 49u8, 54u8) {
        Ok(p) => p,
        Err(e) => return Err(e),
    };
    let pos5 = match scan_open_list_at(buf, pos4) {
        Ok(p) => p,
        Err(e) => return Err(e),
    };
    let end = match scan_tag_at(buf, pos5, cr.as_slice()) {
        Ok(p) => p,
        Err(e) => return Err(e),
    };
    Ok(split_frame(buf, end))
}

/// Recognises a packet-data call status, with the address when connected.
pub fn parse_ip_status(buf: &[u8]) -> (r: Result<(Vec<u8>, (Vec<u8>, usize)), FrameError>)
    ensures
        frame_outcome(r, buf@, ip_status_frame(buf@)),
{
    let cr = crlf_bytes();
    let tag = mip_tag(67u8, 65u8, 76u8, 76u8, 58u8);
    let pos1 = match scan_tag_at(buf, 0, cr.as_slice()) {
        Ok(p) => p,
        Err(e) => return Err(e),
    };
    let pos2 = match scan_tag_at(buf, pos1, tag.as_slice()) {
        Ok(p) => p,
        Err(e) => return Err(e),
    };
    let pos3 = match scan_opt_space_at(buf, pos2) {
        Ok(p) => p,
        Err(e) => return Err(e),
    };
    let pos4 = match scan_digit_in_at(buf, pos3, 48u8, 50u8) {
        Ok(p) => p,
        Err(e) => return Err(e),
    };
    let pos5 = match scan_opt_address_at(buf, pos4) {
        Ok(p) => p,
        Err(e) => return Err(e),
    };
    let end = match scan_tag_at(buf, pos5, cr.as_slice()) {
        Ok(p) => p,
        Err(e) => return Err(e),
    };
    Ok(split_frame(buf, end))
}

/// Recognises a packet-data call status that carries only an address.
pub fn parse_ip_only(buf: &[u8]) -> (r: Result<(Vec<u8>, (Vec<u8>, usize)), FrameError>)
    ensures
        frame_outcome(r, buf@, ip_only_frame(buf@)),
{
    let cr = crlf_bytes();
    let tag = mip_tag(67u8, 65u8, 76u8, 76u8, 58u8);
    let pos1 = match scan_tag_at(buf, 0, cr.as_slice()) {
        Ok(p) => p,
        Err(e) => return Err(e),
    };
    let pos2 = match scan_tag_at(buf, pos1, tag.as_slice()) {
        Ok(p) => p,
        Err(e) => return Err(e),
    };
    let pos3 = match scan_opt_space_at(buf, pos2) {
        Ok(p) => p,
        Err(e) => return Err(e),
    };
    let pos4 = match scan_ip_quad_at(buf, pos3) {
        Ok(p) => p,
        Err(e) => return Err(e),
    };
    let end = match scan_tag_at(buf, pos4, cr.as_slice()) {
        Ok(p) => p,
        Err(e) => return Err(e),
    };
    Ok(split_frame(buf, end))
}

} // verus!
