//! Addresses and endpoints.

use vstd::prelude::*;

pub mod codec;
pub mod dns;
pub mod tcp4;

verus! {

/// An IPv4 address: four bytes in network order.
#[derive(Debug, Clone, Copy, PartialEq, Eq, Structural)]
pub struct Ipv4Addr {
    a: u8,
    b: u8,
    c: u8,
    d: u8,
}

impl View for Ipv4Addr {
    type V = Seq<u8>;

    closed spec fn view(&self) -> Seq<u8> {
        seq![self.a, self.b, self.c, self.d]
    }
}

impl Ipv4Addr {
    /// The address `a.b.c.d`.
    pub closed spec fn spec_new(a: u8, b: u8, c: u8, d: u8) -> Ipv4Addr {
        Ipv4Addr { a, b, c, d }
    }

    /// The address `a.b.c.d`.
    #[verifier::when_used_as_spec(spec_new)]
    pub fn new(a: u8, b: u8, c: u8, d: u8) -> (ip: Ipv4Addr)
        ensures
            ip == Ipv4Addr::spec_new(a, b, c, d),
            ip@ == seq![a, b, c, d],
    {
        Ipv4Addr { a, b, c, d }
    }

    /// The address whose four bytes are all zero.
    pub fn zero() -> (ip: Ipv4Addr)
        ensures
            ip == Ipv4Addr::spec_new(0, 0, 0, 0),
    {
        Ipv4Addr { a: 0, b: 0, c: 0, d: 0 }
    }

    /// The address with these four bytes.
    pub fn from_octets(octets: [u8; 4]) -> (ip: Ipv4Addr)
        ensures
            ip == Ipv4Addr::spec_new(octets@[0], octets@[1], octets@[2], octets@[3]),
            ip@ == octets@,
    {
        let ip = Ipv4Addr { a: octets[0], b: octets[1], c: octets[2], d: octets[3] };
        assert(ip@ =~= octets@);
        ip
    }

    /// An address holds the four bytes that it was made of.
    pub proof fn lemma_bytes(a: u8, b: u8, c: u8, d: u8)
        ensures
            Ipv4Addr::spec_new(a, b, c, d)@ == seq![a, b, c, d],
    {
    }

    /// The four bytes of the address.
    pub fn octets(&self) -> (o: [u8; 4])
        ensures
            o@ == self@,
    {
        let o = [self.a, self.b, self.c, self.d];
        assert(o@ =~= self@);
        o
    }
}

/// An IPv6 address: sixteen bytes, as the platform keeps them.
#[derive(Debug, Clone, Copy, PartialEq, Eq)]
pub struct Ipv6Addr {
    octets: [u8; 16],
}

impl View for Ipv6Addr {
    type V = Seq<u8>;

    closed spec fn view(&self) -> Seq<u8> {
        self.octets@
    }
}

/// The low byte of a group of sixteen bits.
pub open spec fn low_byte(group: u16) -> u8 {
    (group % 256) as u8
}

/// The high byte of a group of sixteen bits.
pub open spec fn high_byte(group: u16) -> u8 {
    (group / 256) as u8
}

impl Ipv6Addr {
    /// The address with these sixteen bytes.
    pub fn from_octets(octets: [u8; 16]) -> (ip: Ipv6Addr)
        ensures
            ip@ == octets@,
    {
        Ipv6Addr { octets }
    }

    /// The sixteen bytes of the address.
    pub fn octets(&self) -> (o: [u8; 16])
        ensures
            o@ == self@,
    {
        self.octets
    }

    /// The address of these eight groups. The groups follow each other in
    /// their order, and each is stored low byte first, as the platform's
    /// processors lay out a number of sixteen bits in memory.
    pub fn new(a: u16, b: u16, c: u16, d: u16, e: u16, f: u16, g: u16, h: u16) -> (ip: Ipv6Addr)
        ensures
            ip@ == seq![
                low_byte(a), high_byte(a), low_byte(b), high_byte(b),
                low_byte(c), high_byte(c), low_byte(d), high_byte(d),
                low_byte(e), high_byte(e), low_byte(f), high_byte(f),
                low_byte(g), high_byte(g), low_byte(h), high_byte(h),
            ],
    {
        let octets = [
            (a % 256) as u8, (a / 256) as u8, (b % 256) as u8, (b / 256) as u8,
            (c % 256) as u8, (c / 256) as u8, (d % 256) as u8, (d / 256) as u8,
            (e % 256) as u8, (e / 256) as u8, (f % 256) as u8, (f / 256) as u8,
            (g % 256) as u8, (g / 256) as u8, (h % 256) as u8, (h / 256) as u8,
        ];
        let ip = Ipv6Addr { octets };
        assert(ip@ =~= seq![
                low_byte(a), high_byte(a), low_byte(b), high_byte(b),
                low_byte(c), high_byte(c), low_byte(d), high_byte(d),
                low_byte(e), high_byte(e), low_byte(f), high_byte(f),
                low_byte(g), high_byte(g), low_byte(h), high_byte(h),
            ]);
        ip
    }
}

/// The sixteen bytes that the platform keeps for an address of either
/// kind: an IPv4 address fills the first four of them.
#[derive(Debug, Clone, Copy, PartialEq, Eq)]
pub struct IpAddress {
    octets: [u8; 16],
}

impl View for IpAddress {
    type V = Seq<u8>;

    closed spec fn view(&self) -> Seq<u8> {
        self.octets@
    }
}

impl IpAddress {
    /// The address with these sixteen bytes.
    pub fn new(octets: [u8; 16]) -> (ip: IpAddress)
        ensures
            ip@ == octets@,
    {
        IpAddress { octets }
    }

    /// The address whose bytes are all zero.
    pub fn zero() -> (ip: IpAddress)
        ensures
            ip@ == Seq::new(16, |i: int| 0u8),
    {
        let ip = IpAddress { octets: [0; 16] };
        assert(ip@ =~= Seq::new(16, |i: int| 0u8));
        ip
    }

    /// The sixteen bytes of the address.
    pub fn octets(&self) -> (o: [u8; 16])
        ensures
            o@ == self@,
    {
        self.octets
    }
}

/// Either kind of address.
#[derive(Debug, Clone, Copy, PartialEq, Eq)]
pub enum IpAddr {
    V4(Ipv4Addr),
    V6(Ipv6Addr),
}

/// An IPv4 address together with a port.
#[derive(Debug, Clone, Copy, PartialEq, Eq, Structural)]
pub struct SocketAddrV4 {
    ip: Ipv4Addr,
    port: u16,
}

impl SocketAddrV4 {
    /// The endpoint at this address and port.
    pub closed spec fn spec_new(ip: Ipv4Addr, port: u16) -> SocketAddrV4 {
        SocketAddrV4 { ip, port }
    }

    /// The address of the endpoint.
    pub closed spec fn spec_ip(&self) -> Ipv4Addr {
        self.ip
    }

    /// The port of the endpoint.
    pub closed spec fn spec_port(&self) -> u16 {
        self.port
    }

    /// The endpoint at this address and port.
    #[verifier::when_used_as_spec(spec_new)]
    pub fn new(ip: Ipv4Addr, port: u16) -> (addr: SocketAddrV4)
        ensures
            addr == SocketAddrV4::spec_new(ip, port),
            addr.spec_ip() == ip,
            addr.spec_port() == port,
    {
        SocketAddrV4 { ip, port }
    }

    /// The address of the endpoint.
    pub fn ip(&self) -> (ip: &Ipv4Addr)
        ensures
            *ip == self.spec_ip(),
    {
        &self.ip
    }

    /// The port of the endpoint.
    #[verifier::when_used_as_spec(spec_port)]
    pub fn port(&self) -> (port: u16)
        ensures
            port == self.spec_port(),
    {
        self.port
    }

    /// An endpoint holds the address and the port that it was made of.
    pub proof fn lemma_parts(ip: Ipv4Addr, port: u16)
        ensures
            SocketAddrV4::spec_new(ip, port).spec_ip() == ip,
            SocketAddrV4::spec_new(ip, port).spec_port() == port,
    {
    }
}

/// An IPv6 address together with a port.
#[derive(Debug, Clone, Copy, PartialEq, Eq)]
pub struct SocketAddrV6 {
    ip: Ipv6Addr,
    port: u16,
}

impl SocketAddrV6 {
    /// The address of the endpoint.
    pub closed spec fn spec_ip(&self) -> Ipv6Addr {
        self.ip
    }

    /// The port of the endpoint.
    pub closed spec fn spec_port(&self) -> u16 {
        self.port
    }

    /// The endpoint at this address and port.
    pub fn new(ip: Ipv6Addr, port: u16) -> (addr: SocketAddrV6)
        ensures
            addr.spec_ip() == ip,
            addr.spec_port() == port,
    {
        SocketAddrV6 { ip, port }
    }

    /// The address of the endpoint.
    pub fn ip(&self) -> (ip: &Ipv6Addr)
        ensures
            *ip == self.spec_ip(),
    {
        &self.ip
    }

    /// The port of the endpoint.
    #[verifier::when_used_as_spec(spec_port)]
    pub fn port(&self) -> (port: u16)
        ensures
            port == self.spec_port(),
    {
        self.port
    }
}

/// Either kind of endpoint.
#[derive(Debug, Clone, Copy, PartialEq, Eq)]
pub enum SocketAddr {
    V4(SocketAddrV4),
    V6(SocketAddrV6),
}

} // verus!
