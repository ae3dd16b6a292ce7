//! Kernel-WireGuard backend of the hybrid data plane.
//!
//! Mirrors the tailnet peer set into a kernel WireGuard interface. Hybrid rule: only peers with a
//! direct underlay endpoint are placed on the kernel path; relay-only and not-yet-direct peers stay
//! on the userspace tunnel and its relays.
use defguard_wireguard_rs::key::Key;
use vstd::prelude::*;

use crate::net::{IpAddr, SocketAddr};

verus! {

/// An IP address with the length of its prefix.
#[derive(Debug, Clone, Copy, PartialEq, Eq, Structural)]
pub struct IpAddrMask {
    /// The address.
    pub ip: IpAddr,
    /// The prefix length.
    pub cidr: u8,
}

/// One tailnet peer as the dataplane sees it.
#[derive(Debug)]
pub struct KernelPeer {
    /// The peer's WireGuard public key.
    pub public_key: [u8; 32],
    /// The peer's tailnet addresses and accepted routes.
    pub allowed_ips: Vec<IpAddrMask>,
    /// Direct underlay endpoint; `None` => relay-only, excluded.
    pub endpoint: Option<SocketAddr>,
}

/// One peer of a kernel interface.
#[derive(Debug)]
pub struct Peer {
    /// The peer's WireGuard public key.
    pub public_key: [u8; 32],
    /// Where its packets are sent.
    pub endpoint: Option<SocketAddr>,
    /// Which inner addresses belong to it.
    pub allowed_ips: Vec<IpAddrMask>,
}

/// The configuration of a kernel interface.
#[derive(Debug)]
pub struct InterfaceConfiguration {
    /// The interface name.
    pub name: String,
    /// The private key as base64 text.
    pub prvkey: String,
    /// The addresses to assign.
    pub addresses: Vec<IpAddrMask>,
    /// The UDP port to listen on.
    pub port: u32,
    /// The peers.
    pub peers: Vec<Peer>,
    /// The MTU; `None` keeps the system default.
    pub mtu: Option<u32>,
}

/// A peer's values, for either side of the projection.
#[verifier::ext_equal]
pub struct PeerView {
    /// The WireGuard public key.
    pub public_key: Seq<u8>,
    /// The direct underlay endpoint.
    pub endpoint: Option<SocketAddr>,
    /// The inner addresses.
    pub allowed_ips: Seq<IpAddrMask>,
}

impl View for KernelPeer {
    type V = PeerView;

    open spec fn view(&self) -> PeerView {
        PeerView {
            public_key: self.public_key@,
            endpoint: self.endpoint,
            allowed_ips: self.allowed_ips@,
        }
    }
}

impl View for Peer {
    type V = PeerView;

    open spec fn view(&self) -> PeerView {
        PeerView {
            public_key: self.public_key@,
            endpoint: self.endpoint,
            allowed_ips: self.allowed_ips@,
        }
    }
}

/// The values of the peers in a list.
pub open spec fn kernel_peer_views(peers: Seq<KernelPeer>) -> Seq<PeerView> {
    peers.map_values(|p: KernelPeer| p@)
}

/// The values of the peers of an interface.
pub open spec fn peer_views(peers: Seq<Peer>) -> Seq<PeerView> {
    peers.map_values(|p: Peer| p@)
}

/// The hybrid rule: the peers that have a direct endpoint, in order.
pub open spec fn direct_peers(peers: Seq<PeerView>) -> Seq<PeerView> {
    peers.filter(|p: PeerView| p.endpoint is Some)
}

/// Pick the kernel-path endpoint for a peer: prefer the verified direct address (`best_addr`, the
/// live, NAT-traversed path) when present, else fall back to the first control-distributed
/// candidate. `None` => no direct path => relay-only => the peer is excluded from the kernel path.
pub fn select_endpoint(best_addr: Option<SocketAddr>, underlay_addresses: &[SocketAddr]) -> (r:
    Option<SocketAddr>)
    ensures
        r == selected_endpoint(best_addr, underlay_addresses@),
        best_addr is Some ==> r == best_addr,
        best_addr is None && underlay_addresses@.len() > 0 ==> r == Some(underlay_addresses@[0]),
        best_addr is None && underlay_addresses@.len() == 0 ==> r is None,
{
    match best_addr {
        Some(addr) => Some(addr),
        None => if underlay_addresses.len() > 0 {
            Some(underlay_addresses[0])
        } else {
            None
        },
    }
}

/// The endpoint that is picked: the verified one, else the first candidate, else none.
pub open spec fn selected_endpoint(
    best_addr: Option<SocketAddr>,
    underlay_addresses: Seq<SocketAddr>,
) -> Option<SocketAddr> {
    if best_addr is Some {
        best_addr
    } else if underlay_addresses.len() > 0 {
        Some(underlay_addresses[0])
    } else {
        None
    }
}

/// The base64 digit for a value below 64.
pub open spec fn base64_digit(v: int) -> char {
    if v < 26 {
        ('A' as int + v) as char
    } else if v < 52 {
        ('a' as int + v - 26) as char
    } else if v < 62 {
        ('0' as int + v - 52) as char
    } else if v == 62 {
        '+'
    } else {
        '/'
    }
}

/// The byte at `i`, and zero behind the end.
pub open spec fn byte_at(bytes: Seq<u8>, i: int) -> int {
    if i < bytes.len() {
        bytes[i] as int
    } else {
        0
    }
}

/// The `i`-th group of six bits: three bytes make four groups, most significant first.
pub open spec fn sextet(bytes: Seq<u8>, i: int) -> int {
    let at = 3 * (i / 4);
    let triple = byte_at(bytes, at) * 65536 + byte_at(bytes, at + 1) * 256 + byte_at(bytes, at + 2);
    if i % 4 == 0 {
        triple / 262144
    } else if i % 4 == 1 {
        (triple / 4096) % 64
    } else if i % 4 == 2 {
        (triple / 64) % 64
    } else {
        triple % 64
    }
}

/// The standard base64 text of a 32-byte key: 43 digits and one `=`.
pub open spec fn key_text(key: Seq<u8>) -> Seq<char> {
    Seq::new(44, |i: int| if i == 43 { '=' } else { base64_digit(sextet(key, i)) })
}

/// Calls `defguard_wireguard_rs::key::Key::new` and the `to_string` of the result, which writes the
/// 32 bytes as standard base64 with padding.
#[verifier::external_body]
fn encode_key(key: [u8; 32]) -> (r: String)
    ensures
        r@ == key_text(key@),
{
    Key::new(key).to_string()
}

impl InterfaceConfiguration {
    /// Whether this is the configuration for the given interface and peers: the name, the port and
    /// the key text as given, no address and no MTU, and the peers that have a direct endpoint.
    pub open spec fn mirrors(
        self,
        ifname: Seq<char>,
        private_key: Seq<u8>,
        listen_port: u32,
        peers: Seq<PeerView>,
    ) -> bool {
        &&& self.name@ == ifname
        &&& self.prvkey@ == key_text(private_key)
        &&& self.addresses@ == Seq::<IpAddrMask>::empty()
        &&& self.port == listen_port
        &&& peer_views(self.peers@) == direct_peers(peers)
        &&& self.mtu is None
    }
}

/// Build the interface config, applying the hybrid rule (direct-endpoint peers only).
pub fn build_config(
    ifname: &str,
    private_key: [u8; 32],
    listen_port: u32,
    peers: &[KernelPeer],
) -> (r: InterfaceConfiguration)
    ensures
        r.mirrors(ifname@, private_key@, listen_port, kernel_peer_views(peers@)),
{
    let mut kernel_peers: Vec<Peer> = Vec::new();
    let mut i: usize = 0;
    let ghost all = kernel_peer_views(peers@);
    let ghost rule = |p: PeerView| p.endpoint is Some;
    assert(peer_views(kernel_peers@) =~= all.take(0).filter(rule)) by {
        reveal(Seq::filter);
    }
    while i < peers.len()
        invariant
            0 <= i <= peers.len(),
            all == kernel_peer_views(peers@),
            rule == (|p: PeerView| p.endpoint is Some),
            peer_views(kernel_peers@) == all.take(i as int).filter(rule),
        decreases peers.len() - i,
    {
        let p = &peers[i];
        let ghost before = peer_views(kernel_peers@);
        proof {
            reveal(Seq::filter);
            assert(all.take(i + 1).drop_last() =~= all.take(i as int));
            assert(all.take(i + 1).last() == p@);
        }
        if p.endpoint.is_some() {
            let peer = Peer {
                public_key: p.public_key,
                endpoint: p.endpoint,
                allowed_ips: p.allowed_ips.clone(),
            };
            assert(peer@ == p@);
            kernel_peers.push(peer);
            assert(peer_views(kernel_peers@) =~= before.push(p@));
        }
        i += 1;
    }
    assert(all.take(i as int) =~= all);
    InterfaceConfiguration {
        name: ifname.to_owned(),
        prvkey: encode_key(private_key),
        addresses: Vec::new(),
        port: listen_port,
        peers: kernel_peers,
        mtu: None,
    }
}

/// Where a synchronisation of the kernel interface stands: the netlink operation to perform next,
/// or how it ended.
#[derive(Debug, PartialEq, Eq)]
pub enum SyncStep<E> {
    /// Open a handle on the interface.
    Open,
    /// Create the interface.
    Create,
    /// Configure the interface.
    Configure,
    /// Finished.
    Done(Result<(), E>),
}

impl<E> SyncStep<E> {
    /// What follows once the operation of this step came back with `reply`.
    pub open spec fn after(self, reply: Result<(), E>) -> SyncStep<E> {
        match self {
            SyncStep::Open => match reply {
                Ok(_) => SyncStep::Create,
                Err(e) => SyncStep::Done(Err(e)),
            },
            SyncStep::Create => SyncStep::Configure,
            SyncStep::Configure => SyncStep::Done(reply),
            SyncStep::Done(result) => SyncStep::Done(result),
        }
    }

    /// What follows once the operation of this step came back with `reply`. The interface may
    /// already exist, so an error of its creation is not fatal: it is configured all the same.
    pub fn next(self, reply: Result<(), E>) -> (r: SyncStep<E>)
        ensures
            r == self.after(reply),
    {
        match self {
            SyncStep::Open => match reply {
                Ok(_) => SyncStep::Create,
                Err(e) => SyncStep::Done(Err(e)),
            },
            SyncStep::Create => SyncStep::Configure,
            SyncStep::Configure => SyncStep::Done(reply),
            SyncStep::Done(result) => SyncStep::Done(result),
        }
    }
}

/// Create (if needed) and configure the kernel interface for the given peer set: the configuration
/// to apply and the first netlink operation.
pub fn sync<E>(
    ifname: &str,
    private_key: [u8; 32],
    listen_port: u32,
    peers: &[KernelPeer],
) -> (r: (InterfaceConfiguration, SyncStep<E>))
    ensures
        r.0.mirrors(ifname@, private_key@, listen_port, kernel_peer_views(peers@)),
        r.1 == SyncStep::<E>::Open,
{
    (build_config(ifname, private_key, listen_port, peers), SyncStep::Open)
}

/// Exactly the peers with a direct endpoint reach the kernel.
pub proof fn law_only_direct_endpoint_peers_reach_the_kernel(peers: Seq<PeerView>, p: PeerView)
    ensures
        direct_peers(peers).contains(p) <==> peers.contains(p) && p.endpoint is Some,
        forall|i: int| 0 <= i < direct_peers(peers).len() ==> (#[trigger] direct_peers(
            peers,
        )[i]).endpoint is Some,
{
    let rule = |q: PeerView| q.endpoint is Some;
    broadcast use vstd::seq_lib::group_filter_ensures;

    assert forall|i: int| 0 <= i < direct_peers(peers).len() implies (#[trigger] direct_peers(
        peers,
    )[i]).endpoint is Some by {
        assert(rule(peers.filter(rule)[i]));
    }
    if peers.contains(p) && p.endpoint is Some {
        let i = choose|i: int| 0 <= i < peers.len() && peers[i] == p;
        assert(rule(peers[i]));
        assert(peers.filter(rule).contains(peers[i]));
    }
    if direct_peers(peers).contains(p) {
        peers.lemma_filter_contains_rev(rule, p);
    }
}

/// A synchronisation ends with the reply to the configuration, unless no handle could be opened;
/// whether the creation succeeded does not matter.
pub proof fn law_sync_outcome<E>(
    open: Result<(), E>,
    create: Result<(), E>,
    configure: Result<(), E>,
)
    ensures
        open is Ok ==> SyncStep::<E>::Open.after(open).after(create).after(configure)
            == SyncStep::Done(configure),
        open is Err ==> SyncStep::<E>::Open.after(open) == SyncStep::Done(open),
{
}

/// The values of a peer are those of its fields, on either side of the projection.
pub proof fn law_peer_values_are_the_fields(k: KernelPeer, p: Peer)
    ensures
        k@.public_key == k.public_key@,
        k@.endpoint == k.endpoint,
        k@.allowed_ips == k.allowed_ips@,
        p@.public_key == p.public_key@,
        p@.endpoint == p.endpoint,
        p@.allowed_ips == p.allowed_ips@,
{
}

/// The verified endpoint wins, then the first candidate; without either there is none.
pub proof fn law_endpoint_preference(best: Option<SocketAddr>, candidates: Seq<SocketAddr>)
    ensures
        best is Some ==> selected_endpoint(best, candidates) == best,
        best is None && candidates.len() > 0 ==> selected_endpoint(best, candidates) == Some(
            candidates[0],
        ),
        best is None && candidates.len() == 0 ==> selected_endpoint(best, candidates) is None,
{
}

/// Each peer is taken or left for itself: the direct peers of two lists behind one another are the
/// direct peers of each, in order, as often as they occur; one peer is taken as it is exactly if it
/// has an endpoint.
pub proof fn law_direct_peers_add_up(a: Seq<PeerView>, b: Seq<PeerView>, p: PeerView)
    ensures
        direct_peers(a + b) == direct_peers(a) + direct_peers(b),
        p.endpoint is Some ==> direct_peers(seq![p]) == seq![p],
        p.endpoint is None ==> direct_peers(seq![p]) == Seq::<PeerView>::empty(),
        direct_peers(seq![]) == Seq::<PeerView>::empty(),
{
    let rule = |q: PeerView| q.endpoint is Some;
    Seq::filter_distributes_over_add(a, b, rule);
    reveal(Seq::filter);
    reveal_with_fuel(Seq::filter, 2);
    assert(seq![p].drop_last() =~= seq![]);
    assert(seq![p].filter(rule) =~= (if rule(p) {
        seq![p]
    } else {
        seq![]
    }));
}

/// The configuration of an interface: the given name and port, the given key as text, neither an
/// address nor an MTU, and one peer for each direct peer, with that peer's key, endpoint and
/// addresses.
pub proof fn law_configuration(
    cfg: InterfaceConfiguration,
    ifname: Seq<char>,
    private_key: Seq<u8>,
    listen_port: u32,
    peers: Seq<PeerView>,
)
    requires
        cfg.mirrors(ifname, private_key, listen_port, peers),
    ensures
        cfg.name@ == ifname,
        cfg.prvkey@ == key_text(private_key),
        cfg.addresses@.len() == 0,
        cfg.port == listen_port,
        cfg.mtu is None,
        cfg.peers@.len() == direct_peers(peers).len(),
        forall|i: int|
            #![trigger cfg.peers@[i]]
            0 <= i < cfg.peers@.len() ==> {
                &&& cfg.peers@[i].public_key@ == direct_peers(peers)[i].public_key
                &&& cfg.peers@[i].endpoint == direct_peers(peers)[i].endpoint
                &&& cfg.peers@[i].allowed_ips@ == direct_peers(peers)[i].allowed_ips
            },
{
    assert(peer_views(cfg.peers@).len() == cfg.peers@.len());
    assert forall|i: int| #![trigger cfg.peers@[i]] 0 <= i < cfg.peers@.len() implies {
        &&& cfg.peers@[i].public_key@ == direct_peers(peers)[i].public_key
        &&& cfg.peers@[i].endpoint == direct_peers(peers)[i].endpoint
        &&& cfg.peers@[i].allowed_ips@ == direct_peers(peers)[i].allowed_ips
    } by {
        assert(peer_views(cfg.peers@)[i] == cfg.peers@[i]@);
    }
}

/// A list of peers has the values of its peers, one for one.
pub proof fn law_peer_lists_are_their_peers(ks: Seq<KernelPeer>, ps: Seq<Peer>)
    ensures
        kernel_peer_views(ks).len() == ks.len(),
        forall|i: int| 0 <= i < ks.len() ==> #[trigger] kernel_peer_views(ks)[i] == ks[i]@,
        peer_views(ps).len() == ps.len(),
        forall|i: int| 0 <= i < ps.len() ==> #[trigger] peer_views(ps)[i] == ps[i]@,
{
}

/// The value of a base64 digit.
pub open spec fn base64_value(c: char) -> int {
    let code = c as int;
    if 65 <= code <= 90 {
        code - 65
    } else if 97 <= code <= 122 {
        code - 71
    } else if 48 <= code <= 57 {
        code + 4
    } else if code == 43 {
        62
    } else if code == 47 {
        63
    } else {
        -1
    }
}

/// The text of a key reads back as the key: 44 characters, of which each four stand for three bytes,
/// the last three for two, and the last is the pad.
pub proof fn law_key_text_reads_back(key: Seq<u8>, g: int)
    requires
        key.len() == 32,
        0 <= g <= 10,
    ensures
        key_text(key).len() == 44,
        key_text(key)[43] == '=',
        forall|i: int| 0 <= i < 43 ==> 0 <= base64_value(#[trigger] key_text(key)[i]) < 64,
        base64_value(key_text(key)[4 * g]) * 262144 + base64_value(key_text(key)[4 * g + 1]) * 4096
            + base64_value(key_text(key)[4 * g + 2]) * 64 + (if g < 10 {
            base64_value(key_text(key)[4 * g + 3])
        } else {
            0
        }) == key[3 * g] * 65536 + key[3 * g + 1] * 256 + (if g < 10 {
            key[3 * g + 2] as int
        } else {
            0
        }),
{
    let text = key_text(key);
    assert forall|i: int| 0 <= i < 43 implies 0 <= base64_value(#[trigger] text[i]) < 64 by {
        lemma_text_digit(key, i);
    }
    let at = 3 * g;
    let triple = byte_at(key, at) * 65536 + byte_at(key, at + 1) * 256 + byte_at(key, at + 2);
    lemma_text_digit(key, 4 * g);
    lemma_text_digit(key, 4 * g + 1);
    lemma_text_digit(key, 4 * g + 2);
    if g < 10 {
        lemma_text_digit(key, 4 * g + 3);
    }
    lemma_sextets_of(key, g);
    lemma_sextets_make_the_triple(triple);
}

/// The four groups of three bytes.
proof fn lemma_sextets_of(key: Seq<u8>, g: int)
    requires
        g >= 0,
    ensures
        ({
            let at = 3 * g;
            let triple = byte_at(key, at) * 65536 + byte_at(key, at + 1) * 256 + byte_at(
                key,
                at + 2,
            );
            &&& sextet(key, 4 * g) == triple / 262144
            &&& sextet(key, 4 * g + 1) == (triple / 4096) % 64
            &&& sextet(key, 4 * g + 2) == (triple / 64) % 64
            &&& sextet(key, 4 * g + 3) == triple % 64
        }),
{
    assert((4 * g) / 4 == g && (4 * g + 1) / 4 == g && (4 * g + 2) / 4 == g && (4 * g + 3) / 4
        == g);
    assert((4 * g) % 4 == 0 && (4 * g + 1) % 4 == 1 && (4 * g + 2) % 4 == 2 && (4 * g + 3) % 4
        == 3);
}

proof fn lemma_sextets_make_the_triple(triple: int)
    requires
        0 <= triple < 16777216,
    ensures
        (triple / 262144) * 262144 + ((triple / 4096) % 64) * 4096 + ((triple / 64) % 64) * 64
            + triple % 64 == triple,
{
}

/// A character of the text has the value of its group of bits.
proof fn lemma_text_digit(key: Seq<u8>, i: int)
    requires
        0 <= i < 43,
    ensures
        base64_value(key_text(key)[i]) == sextet(key, i),
        0 <= sextet(key, i) < 64,
{
    lemma_sextet_range(key, i);
    lemma_digit_value(sextet(key, i));
}

proof fn lemma_digit_value(v: int)
    requires
        0 <= v < 64,
    ensures
        base64_value(base64_digit(v)) == v,
{
}

proof fn lemma_sextet_range(key: Seq<u8>, i: int)
    requires
        i >= 0,
    ensures
        0 <= sextet(key, i) < 64,
{
    let at = 3 * (i / 4);
    let triple = byte_at(key, at) * 65536 + byte_at(key, at + 1) * 256 + byte_at(key, at + 2);
    assert(0 <= triple < 16777216);
}

/// A synchronisation opens a handle, creates the interface and configures it, in this order, and is
/// over then.
pub proof fn law_sync_order<E>(e: E, reply: Result<(), E>, result: Result<(), E>)
    ensures
        SyncStep::<E>::Open.after(Ok(())) == SyncStep::<E>::Create,
        SyncStep::<E>::Open.after(Err(e)) == SyncStep::Done(Err(e)),
        SyncStep::<E>::Create.after(reply) == SyncStep::<E>::Configure,
        SyncStep::<E>::Configure.after(reply) == SyncStep::Done(reply),
        SyncStep::Done(result).after(reply) == SyncStep::Done(result),
{
}

} // verus!
