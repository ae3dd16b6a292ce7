//! Addresses and prefixes as plain values.
use vstd::prelude::*;

verus! {

/// An IP address as one big-endian number.
#[derive(Debug, Clone, Copy, PartialEq, Eq, Structural)]
pub enum IpAddr {
    /// An IPv4 address.
    V4(u32),
    /// An IPv6 address.
    V6(u128),
}

impl IpAddr {
    /// Whether this is an IPv6 address.
    pub fn is_ipv6(&self) -> (r: bool)
        ensures
            r == (self is V6),
    {
        match self {
            IpAddr::V4(_) => false,
            IpAddr::V6(_) => true,
        }
    }
}

/// An IPv4 address with a port.
#[derive(Debug, Clone, Copy, PartialEq, Eq, Structural)]
pub struct SocketAddrV4 {
    /// The address.
    pub ip: u32,
    /// The port.
    pub port: u16,
}

/// An IPv6 address with a port.
#[derive(Debug, Clone, Copy, PartialEq, Eq, Structural)]
pub struct SocketAddrV6 {
    /// The address.
    pub ip: u128,
    /// The port.
    pub port: u16,
    /// The flow information field.
    pub flowinfo: u32,
    /// The scope id.
    pub scope_id: u32,
}

/// An IP address with a port.
#[derive(Debug, Clone, Copy, PartialEq, Eq, Structural)]
pub enum SocketAddr {
    /// An IPv4 endpoint.
    V4(SocketAddrV4),
    /// An IPv6 endpoint.
    V6(SocketAddrV6),
}

impl SocketAddr {
    /// The address without the port.
    pub open spec fn spec_ip(self) -> IpAddr {
        match self {
            SocketAddr::V4(addr) => IpAddr::V4(addr.ip),
            SocketAddr::V6(addr) => IpAddr::V6(addr.ip),
        }
    }

    /// The address without the port.
    pub fn ip(&self) -> (r: IpAddr)
        ensures
            r == self.spec_ip(),
    {
        match self {
            SocketAddr::V4(addr) => IpAddr::V4(addr.ip),
            SocketAddr::V6(addr) => IpAddr::V6(addr.ip),
        }
    }
}

/// An IPv4 prefix: an address and how many of its leading bits count.
#[derive(Debug, Clone, Copy, PartialEq, Eq, Structural)]
pub struct Ipv4Net {
    /// The address. Bits behind the prefix are kept as they were given.
    pub addr: u32,
    /// The prefix length.
    pub prefix_len: u8,
}

/// An IPv6 prefix: an address and how many of its leading bits count.
#[derive(Debug, Clone, Copy, PartialEq, Eq, Structural)]
pub struct Ipv6Net {
    /// The address. Bits behind the prefix are kept as they were given.
    pub addr: u128,
    /// The prefix length.
    pub prefix_len: u8,
}

/// An IP prefix.
#[derive(Debug, Clone, Copy, PartialEq, Eq, Structural)]
pub enum IpNet {
    /// An IPv4 prefix.
    V4(Ipv4Net),
    /// An IPv6 prefix.
    V6(Ipv6Net),
}

/// The prefix length exceeds the width of the address.
#[derive(Debug, Clone, Copy, PartialEq, Eq, Structural)]
pub struct BadPrefixLen;

/// The error of `ipnet` for a prefix length that exceeds the width of the address.
#[verifier::external_type_specification]
#[verifier::external_body]
pub struct ExPrefixLenError(ipnet::PrefixLenError);

/// Calls `ipnet::Ipv4Net::new`: it takes prefix lengths up to 32 and keeps both values as they are.
#[verifier::external_body]
fn ipnet_v4(addr: u32, prefix_len: u8) -> (r: Result<(u32, u8), ipnet::PrefixLenError>)
    ensures
        r is Ok <==> prefix_len <= 32,
        r matches Ok(kept) ==> kept == (addr, prefix_len),
{
    ipnet::Ipv4Net::new(addr.into(), prefix_len).map(|n| (n.addr().into(), n.prefix_len()))
}

impl Ipv4Net {
    /// The prefix length fits the address.
    pub open spec fn wf(self) -> bool {
        self.prefix_len <= 32
    }

    /// The prefix of length `prefix_len` around `addr`.
    pub fn new(addr: u32, prefix_len: u8) -> (r: Result<Ipv4Net, BadPrefixLen>)
        ensures
            r is Ok <==> prefix_len <= 32,
            r matches Ok(net) ==> net == (Ipv4Net { addr, prefix_len }) && net.wf(),
    {
        match ipnet_v4(addr, prefix_len) {
            Ok((addr, prefix_len)) => Ok(Ipv4Net { addr, prefix_len }),
            Err(_) => Err(BadPrefixLen),
        }
    }
}

impl Ipv6Net {
    /// The prefix length fits the address.
    pub open spec fn wf(self) -> bool {
        self.prefix_len <= 128
    }
}

impl IpNet {
    /// The prefix length fits the address.
    pub open spec fn wf(self) -> bool {
        match self {
            IpNet::V4(net) => net.wf(),
            IpNet::V6(net) => net.wf(),
        }
    }

    /// The prefix length.
    pub open spec fn spec_prefix_len(self) -> u8 {
        match self {
            IpNet::V4(net) => net.prefix_len,
            IpNet::V6(net) => net.prefix_len,
        }
    }

    /// The address as it was given.
    pub open spec fn spec_addr(self) -> IpAddr {
        match self {
            IpNet::V4(net) => IpAddr::V4(net.addr),
            IpNet::V6(net) => IpAddr::V6(net.addr),
        }
    }

    /// The prefix length.
    pub fn prefix_len(&self) -> (r: u8)
        ensures
            r == self.spec_prefix_len(),
    {
        match self {
            IpNet::V4(net) => net.prefix_len,
            IpNet::V6(net) => net.prefix_len,
        }
    }

    /// The address as it was given.
    pub fn addr(&self) -> (r: IpAddr)
        ensures
            r == self.spec_addr(),
    {
        match self {
            IpNet::V4(net) => IpAddr::V4(net.addr),
            IpNet::V6(net) => IpAddr::V6(net.addr),
        }
    }
}

/// An endpoint, a prefix and their addresses are read off their fields: no bit of an address and no
/// prefix length is changed.
pub proof fn law_addresses_are_the_fields(
    v4: SocketAddrV4,
    v6: SocketAddrV6,
    net4: Ipv4Net,
    net6: Ipv6Net,
)
    ensures
        SocketAddr::V4(v4).spec_ip() == IpAddr::V4(v4.ip),
        SocketAddr::V6(v6).spec_ip() == IpAddr::V6(v6.ip),
        IpNet::V4(net4).spec_addr() == IpAddr::V4(net4.addr),
        IpNet::V6(net6).spec_addr() == IpAddr::V6(net6.addr),
        IpNet::V4(net4).spec_prefix_len() == net4.prefix_len,
        IpNet::V6(net6).spec_prefix_len() == net6.prefix_len,
        IpNet::V4(net4).wf() <==> net4.prefix_len <= 32,
        IpNet::V6(net6).wf() <==> net6.prefix_len <= 128,
        net4.wf() <==> net4.prefix_len <= 32,
        net6.wf() <==> net6.prefix_len <= 128,
{
}

} // verus!
