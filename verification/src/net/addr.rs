//! IPv4 socket addresses and their resolution from the forms an application
//! may hand over (tuples, generic addresses and text).

use vstd::prelude::*;
use crate::io::Error;

verus! {

/// An IPv4 address, as its four octets in network order.
#[derive(Debug, Clone, Copy, PartialEq, Eq, Structural)]
pub struct Ipv4Addr(pub u8, pub u8, pub u8, pub u8);

/// An IPv6 address, as its 128 bits.
#[derive(Debug, Clone, Copy, PartialEq, Eq, Structural)]
pub struct Ipv6Addr(pub u128);

/// An IPv4 address and a port.
#[derive(Debug, Clone, Copy, PartialEq, Eq, Structural)]
pub struct SocketAddrV4 {
    pub ip: Ipv4Addr,
    pub port: u16,
}

/// An IPv6 address and a port.
#[derive(Debug, Clone, Copy, PartialEq, Eq, Structural)]
pub struct SocketAddrV6 {
    pub ip: Ipv6Addr,
    pub port: u16,
}

/// An IP address of either family.
#[derive(Debug, Clone, Copy, PartialEq, Eq, Structural)]
pub enum IpAddr {
    V4(Ipv4Addr),
    V6(Ipv6Addr),
}

/// A socket address of either family.
#[derive(Debug, Clone, Copy, PartialEq, Eq, Structural)]
pub enum SocketAddr {
    V4(SocketAddrV4),
    V6(SocketAddrV6),
}

/// The 32-bit number of an address, first octet most significant.
pub open spec fn ipv4_bits(ip: Ipv4Addr) -> u32 {
    (ip.0 as nat * 0x100_0000 + ip.1 as nat * 0x1_0000 + ip.2 as nat * 0x100 + ip.3 as nat) as u32
}

/// The address whose 32-bit number is `x`.
pub open spec fn ipv4_of_bits(x: u32) -> Ipv4Addr {
    Ipv4Addr(
        (x / 0x100_0000) as u8,
        (x / 0x1_0000 % 0x100) as u8,
        (x / 0x100 % 0x100) as u8,
        (x % 0x100) as u8,
    )
}

impl Ipv4Addr {
    /// The 32-bit number of the address, first octet most significant.
    pub fn to_bits(self) -> (r: u32)
        ensures
            r == ipv4_bits(self),
    {
        let (a, b, c, d) = (self.0, self.1, self.2, self.3);
        let r = ((a as u32) << 24) | ((b as u32) << 16) | ((c as u32) << 8) | (d as u32);
        assert(((a as u32) << 24) | ((b as u32) << 16) | ((c as u32) << 8) | (d as u32) == a
            as u32 * 0x100_0000 + b as u32 * 0x1_0000 + c as u32 * 0x100 + d as u32)
            by (bit_vector);
        r
    }

    /// The address whose 32-bit number is `x`.
    pub fn from_bits(x: u32) -> (r: Self)
        ensures
            r == ipv4_of_bits(x),
    {
        assert((x >> 24) == x / 0x100_0000) by (bit_vector);
        assert((x >> 16) & 0xff == x / 0x1_0000 % 0x100) by (bit_vector);
        assert((x >> 8) & 0xff == x / 0x100 % 0x100) by (bit_vector);
        assert(x & 0xff == x % 0x100) by (bit_vector);
        Ipv4Addr(
            (x >> 24) as u8,
            ((x >> 16) & 0xff) as u8,
            ((x >> 8) & 0xff) as u8,
            (x & 0xff) as u8,
        )
    }
}

/// Reading an address back from its number gives the same address, and the
/// other way round.
pub proof fn lemma_ipv4_bits_round_trip(ip: Ipv4Addr, x: u32)
    ensures
        ipv4_of_bits(ipv4_bits(ip)) == ip,
        ipv4_bits(ipv4_of_bits(x)) == x,
{
    let (a, b, c, d) = (ip.0, ip.1, ip.2, ip.3);
    let n: u32 = ipv4_bits(ip);
    assert(n == (a as u32) * 0x100_0000 + (b as u32) * 0x1_0000 + (c as u32) * 0x100 + (d as u32));
    assert(n / 0x100_0000 == a as u32 && n / 0x1_0000 % 0x100 == b as u32 && n / 0x100 % 0x100
        == c as u32 && n % 0x100 == d as u32) by (bit_vector)
        requires
            n == (a as u32) * 0x100_0000 + (b as u32) * 0x1_0000 + (c as u32) * 0x100 + (d as u32),
    ;
    let (p, q, r, t) = (x / 0x100_0000, x / 0x1_0000 % 0x100, x / 0x100 % 0x100, x % 0x100);
    assert(p < 0x100 && x == p * 0x100_0000 + q * 0x1_0000 + r * 0x100 + t) by (bit_vector)
        requires
            p == x / 0x100_0000,
            q == x / 0x1_0000 % 0x100,
            r == x / 0x100 % 0x100,
            t == x % 0x100,
    ;
}

impl SocketAddrV4 {
    pub fn new(ip: Ipv4Addr, port: u16) -> (r: Self)
        ensures
            r == (SocketAddrV4 { ip, port }),
    {
        SocketAddrV4 { ip, port }
    }
}

/// What the standard library's `Ipv4Addr` parser makes of a text: the four
/// octets, or `None` when it does not accept the text.
pub uninterp spec fn std_ipv4_octets(s: Seq<char>) -> Option<(u8, u8, u8, u8)>;

/// What the standard library's `SocketAddrV4` parser makes of a text: the four
/// octets and the port, or `None` when it does not accept the text.
pub uninterp spec fn std_socket_addr_v4(s: Seq<char>) -> Option<(u8, u8, u8, u8, u16)>;

/// What the standard library's `u16` parser makes of a text.
pub uninterp spec fn std_u16(s: Seq<char>) -> Option<u16>;

/// Parses an IPv4 address with the standard library (`str::parse::<Ipv4Addr>`);
/// the contract names the result and says nothing of the grammar.
#[verifier::external_body]
fn parse_ipv4(s: &str) -> (r: Option<Ipv4Addr>)
    ensures
        r == (match std_ipv4_octets(s@) {
            Some(o) => Some(Ipv4Addr(o.0, o.1, o.2, o.3)),
            None => None,
        }),
{
    match s.parse::<core::net::Ipv4Addr>() {
        Ok(a) => {
            let o = a.octets();
            Some(Ipv4Addr(o[0], o[1], o[2], o[3]))
        },
        Err(_) => None,
    }
}

/// Parses `a.b.c.d:port` with the standard library (`str::parse::<SocketAddrV4>`);
/// the contract names the result and says nothing of the grammar.
#[verifier::external_body]
fn parse_socket_addr_v4(s: &str) -> (r: Option<SocketAddrV4>)
    ensures
        r == (match std_socket_addr_v4(s@) {
            Some(t) => Some(SocketAddrV4 { ip: Ipv4Addr(t.0, t.1, t.2, t.3), port: t.4 }),
            None => None,
        }),
{
    match s.parse::<core::net::SocketAddrV4>() {
        Ok(a) => {
            let o = a.ip().octets();
            Some(SocketAddrV4 { ip: Ipv4Addr(o[0], o[1], o[2], o[3]), port: a.port() })
        },
        Err(_) => None,
    }
}

/// Parses a port number with the standard library (`str::parse::<u16>`); the
/// contract names the result and says nothing of the grammar.
#[verifier::external_body]
fn parse_u16(s: &str) -> (r: Option<u16>)
    ensures
        r == std_u16(s@),
{
    s.parse::<u16>().ok()
}

/// Whether position `i` of `s` holds the last `:` of the text.
pub open spec fn is_last_colon(s: Seq<char>, i: int) -> bool {
    0 <= i < s.len() && s[i] == ':' && !s.skip(i + 1).contains(':')
}

/// Splits a text at its last `:` (`str::rsplit_once`): the part before and the
/// part after it, or `None` when the text holds no `:`.
#[verifier::external_body]
fn split_last_colon(s: &str) -> (r: Option<(&str, &str)>)
    ensures
        r is None <==> !s@.contains(':'),
        r matches Some(parts) ==> exists|i: int| #[trigger] is_last_colon(s@, i) && parts.0@ == s@.take(i)
            && parts.1@ == s@.skip(i + 1),
{
    s.rsplit_once(':')
}

/// The position of the last `:` of a text that holds one.
pub open spec fn last_colon(s: Seq<char>) -> int {
    choose|i: int| is_last_colon(s, i)
}

proof fn lemma_last_colon_unique(s: Seq<char>, i: int, j: int)
    requires
        is_last_colon(s, i),
        is_last_colon(s, j),
    ensures
        i == j,
{
    if i < j {
        assert(s.skip(i + 1)[j - i - 1] == ':');
    } else if j < i {
        assert(s.skip(j + 1)[i - j - 1] == ':');
    }
}

proof fn lemma_last_colon_exists(s: Seq<char>)
    requires
        s.contains(':'),
    ensures
        is_last_colon(s, last_colon(s)),
    decreases s.len(),
{
    let n = s.len() - 1;
    if s[n] == ':' {
        assert(s.skip(n + 1) =~= Seq::<char>::empty());
        assert(is_last_colon(s, n));
    } else {
        let t = s.drop_last();
        let k = choose|k: int| 0 <= k < s.len() && s[k] == ':';
        assert(k < n);
        assert(t[k] == ':');
        lemma_last_colon_exists(t);
        let i = last_colon(t);
        assert(s.skip(i + 1) =~= t.skip(i + 1).push(s[n]));
        assert(is_last_colon(s, i));
    }
}

/// How a text of the form `host:port` resolves, given what the standard parsers
/// made of the whole text (`full`), and of the parts around its last `:`
/// (`parts`: host and port, when the text holds a `:`).
pub open spec fn text_resolution(
    full: Option<SocketAddrV4>,
    parts: Option<(Option<Ipv4Addr>, Option<u16>)>,
) -> Result<SocketAddrV4, Error> {
    match full {
        Some(a) => Ok(a),
        None => match parts {
            None => Err(Error::InvalidInput),
            Some((host, port)) => match (host, port) {
                (Some(ip), Some(p)) => Ok(SocketAddrV4 { ip, port: p }),
                _ => Err(Error::InvalidInput),
            },
        },
    }
}

/// Resolves a text to a socket address from what the standard parsers made of
/// it: the whole text as `a.b.c.d:port` first; failing that, the host and the
/// port on either side of its last `:`. Any failure is `InvalidInput`.
pub fn resolve_text(
    full: Option<SocketAddrV4>,
    parts: Option<(Option<Ipv4Addr>, Option<u16>)>,
) -> (r: Result<SocketAddrV4, Error>)
    ensures
        r == text_resolution(full, parts),
{
    match full {
        Some(a) => Ok(a),
        None => match parts {
            None => Err(Error::InvalidInput),
            Some((host, port)) => match (host, port) {
                (Some(ip), Some(p)) => Ok(SocketAddrV4 { ip, port: p }),
                _ => Err(Error::InvalidInput),
            },
        },
    }
}

/// What the standard parsers make of the parts of a text around its last `:`.
pub open spec fn text_parts(s: Seq<char>) -> Option<(Option<Ipv4Addr>, Option<u16>)> {
    if s.contains(':') {
        let i = last_colon(s);
        Some(
            (
                match std_ipv4_octets(s.take(i)) {
                    Some(o) => Some(Ipv4Addr(o.0, o.1, o.2, o.3)),
                    None => None,
                },
                std_u16(s.skip(i + 1)),
            ),
        )
    } else {
        None
    }
}

/// What the standard parser makes of a whole text as `a.b.c.d:port`.
pub open spec fn text_full(s: Seq<char>) -> Option<SocketAddrV4> {
    match std_socket_addr_v4(s) {
        Some(t) => Some(SocketAddrV4 { ip: Ipv4Addr(t.0, t.1, t.2, t.3), port: t.4 }),
        None => None,
    }
}

/// Resolves a text of the form `a.b.c.d:port` (or `host:port` where the host is
/// an IPv4 address) to a socket address.
pub fn resolve_str(s: &str) -> (r: Result<SocketAddrV4, Error>)
    ensures
        r == text_resolution(text_full(s@), text_parts(s@)),
{
    let full = parse_socket_addr_v4(s);
    let parts = match split_last_colon(s) {
        None => None,
        Some((host, port)) => {
            proof {
                lemma_last_colon_exists(s@);
                let i = choose|i: int| #[trigger] is_last_colon(s@, i) && host@ == s@.take(i)
                    && port@ == s@.skip(i + 1);
                lemma_last_colon_unique(s@, i, last_colon(s@));
            }
            Some((parse_ipv4(host), parse_u16(port)))
        },
    };
    resolve_text(full, parts)
}

/// Values that resolve to one IPv4 socket address.
pub trait ToSocketAddrs {
    /// The address (or the error) this value resolves to.
    spec fn resolution(&self) -> Result<SocketAddrV4, Error>;

    fn to_socket_addrs(&self) -> (r: Result<SocketAddrV4, Error>)
        ensures
            r == self.resolution(),
    ;
}

impl ToSocketAddrs for ([u8; 4], u16) {
    open spec fn resolution(&self) -> Result<SocketAddrV4, Error> {
        Ok(SocketAddrV4 { ip: Ipv4Addr(self.0@[0], self.0@[1], self.0@[2], self.0@[3]), port: self.1 })
    }

    fn to_socket_addrs(&self) -> (r: Result<SocketAddrV4, Error>) {
        let o = &self.0;
        Ok(SocketAddrV4::new(Ipv4Addr(o[0], o[1], o[2], o[3]), self.1))
    }
}

/// An array of four octets and a port resolve to the address with those octets
/// in order, first octet most significant, and that port.
pub proof fn lemma_octets_resolve_in_order(octets: [u8; 4], port: u16)
    ensures
        (octets, port).resolution() is Ok,
        (octets, port).resolution() matches Ok(a) && a.port == port && a.ip.0 == octets@[0]
            && a.ip.1 == octets@[1] && a.ip.2 == octets@[2] && a.ip.3 == octets@[3],
{
}

/// Resolving an address that is already an IPv4 address (with a port) gives
/// that address and port back, whatever form it comes in; an IPv6 address
/// resolves to `AddrNotAvailable`.
pub proof fn lemma_address_forms_resolve_to_themselves(
    ip: Ipv4Addr,
    port: u16,
    v4: SocketAddrV4,
    v6: SocketAddrV6,
    ip6: Ipv6Addr,
)
    ensures
        (ip, port).resolution() matches Ok(a) && a.ip == ip && a.port == port,
        (IpAddr::V4(ip), port).resolution() matches Ok(a) && a.ip == ip && a.port == port,
        (IpAddr::V6(ip6), port).resolution() == Err::<SocketAddrV4, Error>(Error::AddrNotAvailable),
        v4.resolution() matches Ok(a) && a.ip == v4.ip && a.port == v4.port,
        SocketAddr::V4(v4).resolution() matches Ok(a) && a.ip == v4.ip && a.port == v4.port,
        SocketAddr::V6(v6).resolution() == Err::<SocketAddrV4, Error>(Error::AddrNotAvailable),
{
}

impl ToSocketAddrs for SocketAddr {
    open spec fn resolution(&self) -> Result<SocketAddrV4, Error> {
        match *self {
            SocketAddr::V4(a) => Ok(a),
            SocketAddr::V6(_) => Err(Error::AddrNotAvailable),
        }
    }

    fn to_socket_addrs(&self) -> (r: Result<SocketAddrV4, Error>) {
        match self {
            SocketAddr::V4(a) => Ok(*a),
            SocketAddr::V6(_) => Err(Error::AddrNotAvailable),
        }
    }
}

impl ToSocketAddrs for SocketAddrV4 {
    open spec fn resolution(&self) -> Result<SocketAddrV4, Error> {
        Ok(*self)
    }

    fn to_socket_addrs(&self) -> (r: Result<SocketAddrV4, Error>) {
        Ok(*self)
    }
}

impl ToSocketAddrs for (IpAddr, u16) {
    open spec fn resolution(&self) -> Result<SocketAddrV4, Error> {
        match self.0 {
            IpAddr::V4(ip) => Ok(SocketAddrV4 { ip, port: self.1 }),
            IpAddr::V6(_) => Err(Error::AddrNotAvailable),
        }
    }

    fn to_socket_addrs(&self) -> (r: Result<SocketAddrV4, Error>) {
        match self.0 {
            IpAddr::V4(ip) => Ok(SocketAddrV4::new(ip, self.1)),
            IpAddr::V6(_) => Err(Error::AddrNotAvailable),
        }
    }
}

impl ToSocketAddrs for (Ipv4Addr, u16) {
    open spec fn resolution(&self) -> Result<SocketAddrV4, Error> {
        Ok(SocketAddrV4 { ip: self.0, port: self.1 })
    }

    fn to_socket_addrs(&self) -> (r: Result<SocketAddrV4, Error>) {
        Ok(SocketAddrV4::new(self.0, self.1))
    }
}

impl<'a> ToSocketAddrs for (&'a str, u16) {
    open spec fn resolution(&self) -> Result<SocketAddrV4, Error> {
        match std_ipv4_octets(self.0@) {
            Some(o) => Ok(SocketAddrV4 { ip: Ipv4Addr(o.0, o.1, o.2, o.3), port: self.1 }),
            None => Err(Error::InvalidInput),
        }
    }

    fn to_socket_addrs(&self) -> (r: Result<SocketAddrV4, Error>) {
        match parse_ipv4(self.0) {
            Some(ip) => Ok(SocketAddrV4::new(ip, self.1)),
            None => Err(Error::InvalidInput),
        }
    }
}

impl<'a> ToSocketAddrs for &'a str {
    open spec fn resolution(&self) -> Result<SocketAddrV4, Error> {
        text_resolution(text_full((*self)@), text_parts((*self)@))
    }

    fn to_socket_addrs(&self) -> (r: Result<SocketAddrV4, Error>) {
        resolve_str(self)
    }
}

} // verus!
