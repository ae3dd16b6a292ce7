//! Sizing of the userspace network stacks.
use vstd::prelude::*;

verus! {

/// Tailscale's overlay MTU. The userspace netstacks must advertise an MSS that fits this so they
/// never hand the WireGuard encrypt path an IP packet larger than the tunnel can carry. The TUN
/// device uses the same default, so the netstack and the TUN always agree.
///
/// This is the **inner** IP-packet budget: the WireGuard transport header and the outer UDP/IP
/// headers ride on top of it and are not subtracted here.
pub const DEFAULT_OVERLAY_MTU: u16 = 1280;

/// What WireGuard adds to a packet: a 16-byte header and a 16-byte tag.
pub const WIREGUARD_OVERHEAD: u16 = 32;

/// The size of a UDP header.
pub const UDP_HEADER: u16 = 8;

/// The size of an outer IPv4 header.
pub const OUTER_IP_HEADER: u16 = 20;

/// The MTU of a conventional physical path.
pub const PHYSICAL_MTU: u16 = 1500;

/// The knobs of a userspace netstack that a deployment can turn.
#[derive(Debug, Clone, Copy, PartialEq, Eq, Structural)]
pub struct NetstackConfig {
    /// The TCP buffer per connection and direction, in bytes.
    pub tcp_buffer_size: usize,
    /// The largest IP packet that the netstack emits.
    pub mtu: usize,
}

impl Default for NetstackConfig {
    /// The netstack's own defaults: 256 KiB of TCP buffer per direction and the MTU of a
    /// conventional physical path.
    fn default() -> (r: NetstackConfig)
        ensures
            r == (NetstackConfig { tcp_buffer_size: 262144, mtu: PHYSICAL_MTU as usize }),
    {
        NetstackConfig { tcp_buffer_size: 262144, mtu: PHYSICAL_MTU as usize }
    }
}

/// How a TUN transport is set up.
#[derive(Debug, Clone, Copy, PartialEq, Eq, Structural)]
pub struct TunConfig {
    /// The MTU of the TUN device, where one is configured.
    pub mtu: Option<u16>,
}

/// Which data path carries the application's packets.
#[derive(Debug, Clone, Copy, PartialEq, Eq, Structural)]
pub enum TransportMode {
    /// A userspace netstack.
    Netstack,
    /// A kernel TUN device.
    Tun(TunConfig),
}

/// The MTU in force for a configured one: zero is not a usable MTU and counts as none, and none
/// means the overlay default.
pub open spec fn effective_mtu(mtu: Option<u16>) -> u16 {
    match mtu {
        Some(m) => if m == 0 { DEFAULT_OVERLAY_MTU } else { m },
        None => DEFAULT_OVERLAY_MTU,
    }
}

impl TransportMode {
    /// The MTU that this mode configures: that of a TUN device, and none for a netstack.
    pub open spec fn spec_configured_mtu(self) -> Option<u16> {
        match self {
            TransportMode::Tun(tun) => tun.mtu,
            TransportMode::Netstack => None,
        }
    }

    /// The MTU that this mode configures: that of a TUN device, and none for a netstack.
    pub fn configured_mtu(&self) -> (r: Option<u16>)
        ensures
            r == self.spec_configured_mtu(),
    {
        match self {
            TransportMode::Tun(tun) => tun.mtu,
            TransportMode::Netstack => None,
        }
    }
}

/// Build the netstack config shared by both userspace netstacks (application + forwarder) from the
/// per-deployment knobs.
///
/// `tcp_buffer_size`: `None` keeps the netstack default; `Some(n)` overrides it.
///
/// `mtu`: the overlay/tunnel MTU. `None` (and a stray `0`) falls back to [`DEFAULT_OVERLAY_MTU`],
/// exactly as the TUN device does, so the netstack's advertised MSS fits the tunnel.
pub fn netstack_config_from(tcp_buffer_size: Option<usize>, mtu: Option<u16>) -> (r: NetstackConfig)
    ensures
        r.tcp_buffer_size == (match tcp_buffer_size {
            Some(n) => n,
            None => 262144,
        }),
        r.mtu == effective_mtu(mtu),
        r.mtu == (match mtu {
            Some(m) => if m != 0 { m as int } else { 1280 },
            None => 1280,
        }),
{
    let mut c = NetstackConfig::default();
    if let Some(n) = tcp_buffer_size {
        c.tcp_buffer_size = n;
    }
    let effective: u16 = match mtu {
        Some(m) => if m != 0 { m } else { DEFAULT_OVERLAY_MTU },
        None => DEFAULT_OVERLAY_MTU,
    };
    c.mtu = effective as usize;
    c
}

/// A full inner packet still fits a conventional physical path once WireGuard, UDP and the outer
/// IP header have been added.
pub proof fn law_outer_datagram_fits_physical_path(inner: int)
    requires
        inner <= DEFAULT_OVERLAY_MTU,
    ensures
        inner + WIREGUARD_OVERHEAD + UDP_HEADER + OUTER_IP_HEADER <= PHYSICAL_MTU,
{
}

/// The MTU in force is never zero.
pub proof fn law_mtu_is_usable(mtu: Option<u16>)
    ensures
        effective_mtu(mtu) > 0,
{
}

/// A configured MTU is honored as it is, and only zero and none give way to 1280; only a TUN device
/// configures one.
pub proof fn law_mtu_in_force(mtu: u16, tun: TunConfig)
    ensures
        mtu != 0 ==> effective_mtu(Some(mtu)) == mtu,
        effective_mtu(Some(0)) == 1280,
        effective_mtu(None) == 1280,
        TransportMode::Tun(tun).spec_configured_mtu() == tun.mtu,
        TransportMode::Netstack.spec_configured_mtu() is None,
{
}

/// With the default MTU, the 32 bytes of WireGuard, the 8 of UDP and the 20 of the outer IP header
/// leave a full packet within the 1500 bytes of a physical path.
pub proof fn law_default_mtu_leaves_room(tun: TunConfig)
    requires
        tun.mtu is None || tun.mtu == Some(0u16),
    ensures
        effective_mtu(TransportMode::Netstack.spec_configured_mtu()) + 32 + 8 + 20 <= 1500,
        effective_mtu(TransportMode::Tun(tun).spec_configured_mtu()) + 32 + 8 + 20 <= 1500,
{
}

} // verus!
