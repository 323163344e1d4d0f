//! IP addresses as the driver holds them, and the two places where their
//! text form is read or written.
use vstd::prelude::*;

verus! {

/// An IPv4 address by its four octets, or an IPv6 address by its eight
/// 16-bit segments.
#[derive(Clone, Copy, Debug, PartialEq, Eq, Structural)]
pub enum IpAddress {
    V4(u8, u8, u8, u8),
    V6(u16, u16, u16, u16, u16, u16, u16, u16),
}

/// An IP address and a port.
#[derive(Clone, Copy, Debug, PartialEq, Eq, Structural)]
pub struct SocketAddr {
    pub ip: IpAddress,
    pub port: u16,
}

/// The address that the text `s` spells, if it spells one.
pub uninterp spec fn parsed_ip(s: Seq<u8>) -> Option<IpAddress>;

/// The text form of `ip`.
pub uninterp spec fn ip_text_of(ip: IpAddress) -> Seq<u8>;

/// Relies on `FromStr` for `no_std_net::IpAddr`: reads an IPv4 or IPv6
/// address from its text; what it gives depends on the bytes alone.
#[verifier::external_body]
pub(crate) fn parse_ip_text(b: &[u8]) -> (r: Option<IpAddress>)
    ensures
        r == parsed_ip(b@),
{
    let s = core::str::from_utf8(b).ok()?;
    match s.parse::<no_std_net::IpAddr>().ok()? {
        no_std_net::IpAddr::V4(a) => {
            let o = a.octets();
            Some(IpAddress::V4(o[0], o[1], o[2], o[3]))
        },
        no_std_net::IpAddr::V6(a) => {
            let g = a.segments();
            Some(IpAddress::V6(g[0], g[1], g[2], g[3], g[4], g[5], g[6], g[7]))
        },
    }
}

/// Relies on `Display` for `no_std_net::IpAddr`: writes the address as text;
/// what it writes depends on the address alone.
#[verifier::external_body]
pub(crate) fn ip_text(ip: &IpAddress) -> (r: Vec<u8>)
    ensures
        r@ == ip_text_of(*ip),
{
    let a = match *ip {
        IpAddress::V4(a, b, c, d) => no_std_net::IpAddr::V4(no_std_net::Ipv4Addr::new(a, b, c, d)),
        IpAddress::V6(a, b, c, d, e, f, g, h) => no_std_net::IpAddr::V6(
            no_std_net::Ipv6Addr::new(a, b, c, d, e, f, g, h),
        ),
    };
    format!("{}", a).into_bytes()
}

} // verus!
