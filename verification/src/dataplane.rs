//! What the dataplane does with a change of the peer set: the operations on the userspace tunnel,
//! and the peers that are mirrored into the kernel interface.
use core::time::Duration;
use std::collections::HashMap;
use vstd::prelude::*;
use vstd::std_specs::hash::group_hash_axioms;

use crate::kernel_wg;
use crate::kernel_wg::{InterfaceConfiguration, IpAddrMask, KernelPeer, PeerView, SyncStep};
use crate::net::{IpAddr, IpNet, Ipv4Net, Ipv6Net, SocketAddr};
use crate::text;

verus! {

broadcast use group_hash_axioms;

/// What the dataplane reads of a control node.
#[derive(Debug)]
pub struct PeerNode {
    /// The node's WireGuard public key.
    pub node_key: [u8; 32],
    /// The node's IPv4 tailnet address.
    pub ipv4: Ipv4Net,
    /// The node's IPv6 tailnet address.
    pub ipv6: Ipv6Net,
    /// The routes through this node that are accepted.
    pub accepted_routes: Vec<IpNet>,
    /// The underlay endpoints that control distributes for this node.
    pub underlay_addresses: Vec<SocketAddr>,
}

/// A change of the peer set, with a snapshot of all peers by their id.
#[derive(Debug)]
pub struct PeerState {
    /// The ids of the peers that are new or have changed.
    pub upserts: Vec<u32>,
    /// The ids of the peers that are gone.
    pub deletions: Vec<u32>,
    /// All known peers.
    pub peers: HashMap<u32, PeerNode>,
}

/// A peer's entry in the userspace tunnel.
#[derive(Debug, Clone, Copy)]
pub struct PeerConfig {
    /// The peer's WireGuard public key.
    pub key: [u8; 32],
    /// The pre-shared key.
    pub psk: [u8; 32],
    /// How often an idle session is kept alive; `None` disables it.
    pub persistent_keepalive_interval: Option<Duration>,
}

/// One operation on the userspace tunnel.
#[derive(Debug, Clone, Copy)]
pub enum WgOp {
    /// Enter or replace a peer.
    Upsert(u32, PeerConfig),
    /// Remove a peer.
    Remove(u32),
}

/// The values of a peer's entry in the userspace tunnel.
#[verifier::ext_equal]
pub struct TunnelPeer {
    /// The WireGuard public key.
    pub key: Seq<u8>,
    /// The pre-shared key.
    pub psk: Seq<u8>,
    /// How often an idle session is kept alive.
    pub keepalive: Option<Duration>,
}

impl View for PeerConfig {
    type V = TunnelPeer;

    open spec fn view(&self) -> TunnelPeer {
        TunnelPeer {
            key: self.key@,
            psk: self.psk@,
            keepalive: self.persistent_keepalive_interval,
        }
    }
}

/// The values of one operation on the userspace tunnel.
#[verifier::ext_equal]
pub enum TunnelOp {
    /// Enter or replace a peer.
    Upsert(u32, TunnelPeer),
    /// Remove a peer.
    Remove(u32),
}

impl View for WgOp {
    type V = TunnelOp;

    open spec fn view(&self) -> TunnelOp {
        match self {
            WgOp::Upsert(id, config) => TunnelOp::Upsert(*id, config@),
            WgOp::Remove(id) => TunnelOp::Remove(*id),
        }
    }
}

/// The values of a list of operations.
pub open spec fn op_views(ops: Seq<WgOp>) -> Seq<TunnelOp> {
    ops.map_values(|op: WgOp| op@)
}

/// The tunnel entry for a peer: its key, an all-zero pre-shared key, and the interval of all peers.
pub open spec fn tunnel_peer(node: PeerNode, keepalive: Option<Duration>) -> TunnelPeer {
    TunnelPeer { key: node.node_key@, psk: Seq::new(32, |i: int| 0u8), keepalive }
}

/// The upsert for an id, or none for an id that is missing from the snapshot.
pub open spec fn upsert_op(
    peers: Map<u32, PeerNode>,
    keepalive: Option<Duration>,
    id: u32,
) -> Option<TunnelOp> {
    if peers.contains_key(id) {
        Some(TunnelOp::Upsert(id, tunnel_peer(peers[id], keepalive)))
    } else {
        None
    }
}

/// The operations that a change amounts to: an upsert for each changed peer that the snapshot
/// knows, then a removal for each peer that is gone.
pub open spec fn peer_ops(
    upserts: Seq<u32>,
    deletions: Seq<u32>,
    peers: Map<u32, PeerNode>,
    keepalive: Option<Duration>,
) -> Seq<TunnelOp> {
    upserts.filter_map(|id: u32| upsert_op(peers, keepalive, id)) + deletions.map_values(
        |id: u32| TunnelOp::Remove(id),
    )
}

/// What the packet loop works with, each part replaced as a whole by the messages that bring it:
/// routes towards peers (`O` on the overlay, `U` on the underlay) and towards this node (`I`), the
/// packet filter `P`, the source filter `F`, and a capture hook `H`.
#[derive(Debug, PartialEq, Eq)]
pub struct Tables<O, U, I, P, F, H> {
    /// Which peer a packet of this node goes to.
    pub overlay_out: O,
    /// Which underlay transport a peer is reached over.
    pub underlay: U,
    /// Which overlay transport a packet for this node goes to.
    pub overlay_in: I,
    /// Which packets may pass.
    pub packet_filter: P,
    /// Which source addresses a peer may use.
    pub src_filter_in: F,
    /// Where every plaintext packet is copied to, while capture is on.
    pub capture: Option<H>,
}

/// The dataplane: the tables `D` that its packet loop works with, and its own settings.
#[derive(Debug)]
pub struct DataplaneActor<D> {
    /// What the packet loop works with.
    pub dataplane: D,
    /// Persistent-keepalive interval applied to every upserted peer (or `None` to disable).
    pub persistent_keepalive_interval: Option<Duration>,
}

impl<O, U, I, P, F, H> DataplaneActor<Tables<O, U, I, P, F, H>> {
    /// Applies new routes towards peers, on both sides together.
    pub fn handle_peer_routes(&mut self, overlay_out: O, underlay: U)
        ensures
            final(self).dataplane == (Tables { overlay_out, underlay, ..old(self).dataplane }),
            final(self).persistent_keepalive_interval == old(self).persistent_keepalive_interval,
    {
        self.dataplane.overlay_out = overlay_out;
        self.dataplane.underlay = underlay;
    }

    /// Applies new routes towards this node.
    pub fn handle_self_routes(&mut self, overlay_in: I)
        ensures
            final(self).dataplane == (Tables { overlay_in, ..old(self).dataplane }),
            final(self).persistent_keepalive_interval == old(self).persistent_keepalive_interval,
    {
        self.dataplane.overlay_in = overlay_in;
    }

    /// Applies a new packet filter.
    pub fn handle_packet_filter(&mut self, packet_filter: P)
        ensures
            final(self).dataplane == (Tables { packet_filter, ..old(self).dataplane }),
            final(self).persistent_keepalive_interval == old(self).persistent_keepalive_interval,
    {
        self.dataplane.packet_filter = packet_filter;
    }

    /// Applies a new source filter.
    pub fn handle_source_filter(&mut self, src_filter_in: F)
        ensures
            final(self).dataplane == (Tables { src_filter_in, ..old(self).dataplane }),
            final(self).persistent_keepalive_interval == old(self).persistent_keepalive_interval,
    {
        self.dataplane.src_filter_in = src_filter_in;
    }

    /// Installs (`Some`) or clears (`None`) the debug packet-capture hook on the running dataplane.
    pub fn install_capture(&mut self, hook: Option<H>)
        ensures
            final(self).dataplane == (Tables { capture: hook, ..old(self).dataplane }),
            final(self).persistent_keepalive_interval == old(self).persistent_keepalive_interval,
    {
        self.dataplane.capture = hook;
    }
}

impl<D> DataplaneActor<D> {
    /// The tunnel operations for a change of the peer set. An upsert whose id is missing from the
    /// snapshot is skipped.
    ///
    /// The keepalive holds the (often relayed) path to every peer warm so an idle session doesn't
    /// age out and wedge the next dial; it is applied to all peers.
    pub fn handle(&self, msg: &PeerState) -> (r: Vec<WgOp>)
        ensures
            op_views(r@) == peer_ops(
                msg.upserts@,
                msg.deletions@,
                msg.peers@,
                self.persistent_keepalive_interval,
            ),
            forall|i: int|
                #![trigger r@[i]]
                0 <= i < r@.len() ==> (r@[i] matches WgOp::Upsert(id, config) ==> {
                    &&& msg.upserts@.contains(id)
                    &&& msg.peers@.contains_key(id)
                    &&& config.key == msg.peers@[id].node_key
                    &&& forall|k: int| 0 <= k < 32 ==> config.psk[k] == 0
                    &&& config.persistent_keepalive_interval == self.persistent_keepalive_interval
                }),
    {
        let mut ops: Vec<WgOp> = Vec::new();
        let ghost pick = |id: u32|
            upsert_op(msg.peers@, self.persistent_keepalive_interval, id);
        let mut i: usize = 0;
        assert(op_views(ops@) =~= msg.upserts@.take(0).filter_map(pick));
        while i < msg.upserts.len()
            invariant
                0 <= i <= msg.upserts.len(),
                pick == (|id: u32| upsert_op(msg.peers@, self.persistent_keepalive_interval, id)),
                op_views(ops@) == msg.upserts@.take(i as int).filter_map(pick),
                forall|n: int|
                    #![trigger ops@[n]]
                    0 <= n < ops@.len() ==> (ops@[n] matches WgOp::Upsert(id, config) ==> {
                        &&& msg.upserts@.contains(id)
                        &&& msg.peers@.contains_key(id)
                        &&& config.key == msg.peers@[id].node_key
                        &&& forall|k: int| 0 <= k < 32 ==> config.psk[k] == 0
                        &&& config.persistent_keepalive_interval
                            == self.persistent_keepalive_interval
                    }),
            decreases msg.upserts.len() - i,
        {
            let id = msg.upserts[i];
            proof {
                msg.upserts@.lemma_filter_map_take_succ(pick, i as int);
            }
            if let Some(node) = msg.peers.get(&id) {
                let config = PeerConfig {
                    key: node.node_key,
                    psk: [0u8; 32],
                    persistent_keepalive_interval: self.persistent_keepalive_interval,
                };
                let ghost before = ops@;
                ops.push(WgOp::Upsert(id, config));
                proof {
                    assert(config.psk@ =~= Seq::new(32, |k: int| 0u8));
                    assert(op_views(ops@) =~= op_views(before).push(TunnelOp::Upsert(id, config@)));
                }
            }
            i += 1;
        }
        assert(msg.upserts@.take(i as int) =~= msg.upserts@);
        let ghost upserts = op_views(ops@);
        let mut j: usize = 0;
        assert(op_views(ops@) =~= upserts + msg.deletions@.take(0).map_values(
            |id: u32| TunnelOp::Remove(id),
        ));
        while j < msg.deletions.len()
            invariant
                0 <= j <= msg.deletions.len(),
                op_views(ops@) == upserts + msg.deletions@.take(j as int).map_values(
                    |id: u32| TunnelOp::Remove(id),
                ),
                forall|n: int|
                    #![trigger ops@[n]]
                    0 <= n < ops@.len() ==> (ops@[n] matches WgOp::Upsert(id, config) ==> {
                        &&& msg.upserts@.contains(id)
                        &&& msg.peers@.contains_key(id)
                        &&& config.key == msg.peers@[id].node_key
                        &&& forall|k: int| 0 <= k < 32 ==> config.psk[k] == 0
                        &&& config.persistent_keepalive_interval
                            == self.persistent_keepalive_interval
                    }),
            decreases msg.deletions.len() - j,
        {
            let ghost before = ops@;
            ops.push(WgOp::Remove(msg.deletions[j]));
            proof {
                assert(op_views(ops@) =~= op_views(before).push(
                    TunnelOp::Remove(msg.deletions@[j as int]),
                ));
                assert(msg.deletions@.take(j + 1) =~= msg.deletions@.take(j as int).push(
                    msg.deletions@[j as int],
                ));
                assert(op_views(ops@) =~= upserts + msg.deletions@.take(j + 1).map_values(
                    |id: u32| TunnelOp::Remove(id),
                ));
            }
            j += 1;
        }
        assert(msg.deletions@.take(j as int) =~= msg.deletions@);
        ops
    }
}

/// The peers that are entered in the tunnel once `ops` have been performed on it.
pub open spec fn apply_ops(table: Map<u32, TunnelPeer>, ops: Seq<TunnelOp>) -> Map<u32, TunnelPeer>
    decreases ops.len(),
{
    if ops.len() == 0 {
        table
    } else {
        let before = apply_ops(table, ops.drop_last());
        match ops.last() {
            TunnelOp::Upsert(id, config) => before.insert(id, config),
            TunnelOp::Remove(id) => before.remove(id),
        }
    }
}

/// A change of the peer set touches exactly the peers it names. A peer that is gone is removed,
/// even if it is upserted by the same change; a changed peer that the snapshot knows has its entry
/// from the snapshot; every other entry stays.
pub proof fn law_tunnel_follows_the_peer_set(
    table: Map<u32, TunnelPeer>,
    upserts: Seq<u32>,
    deletions: Seq<u32>,
    peers: Map<u32, PeerNode>,
    keepalive: Option<Duration>,
    id: u32,
)
    ensures
        ({
            let after = apply_ops(table, peer_ops(upserts, deletions, peers, keepalive));
            if deletions.contains(id) {
                !after.contains_key(id)
            } else if upserts.contains(id) && peers.contains_key(id) {
                &&& after.contains_key(id)
                &&& after[id].key.len() == 32
                &&& forall|i: int| 0 <= i < 32 ==> after[id].key[i] == peers[id].node_key[i]
                &&& after[id].psk.len() == 32
                &&& forall|i: int| 0 <= i < 32 ==> after[id].psk[i] == 0
                &&& after[id].keepalive == keepalive
            } else {
                after.contains_key(id) == table.contains_key(id) && (table.contains_key(id)
                    ==> after[id] == table[id])
            }
        }),
{
    let pick = |k: u32| upsert_op(peers, keepalive, k);
    let entered = upserts.filter_map(pick);
    let removed = deletions.map_values(|k: u32| TunnelOp::Remove(k));
    lemma_apply_concat(table, entered, removed);
    lemma_apply_removals(apply_ops(table, entered), deletions, id);
    lemma_apply_upserts(table, upserts, peers, keepalive, id);
}

proof fn lemma_apply_concat(
    table: Map<u32, TunnelPeer>,
    first: Seq<TunnelOp>,
    second: Seq<TunnelOp>,
)
    ensures
        apply_ops(table, first + second) == apply_ops(apply_ops(table, first), second),
    decreases second.len(),
{
    if second.len() == 0 {
        assert(first + second =~= first);
    } else {
        lemma_apply_concat(table, first, second.drop_last());
        assert((first + second).drop_last() =~= first + second.drop_last());
    }
}

proof fn lemma_apply_removals(table: Map<u32, TunnelPeer>, deletions: Seq<u32>, id: u32)
    ensures
        ({
            let after = apply_ops(table, deletions.map_values(|k: u32| TunnelOp::Remove(k)));
            if deletions.contains(id) {
                !after.contains_key(id)
            } else {
                after.contains_key(id) == table.contains_key(id) && (table.contains_key(id)
                    ==> after[id] == table[id])
            }
        }),
    decreases deletions.len(),
{
    let ops = deletions.map_values(|k: u32| TunnelOp::Remove(k));
    if deletions.len() > 0 {
        let rest = deletions.drop_last();
        lemma_apply_removals(table, rest, id);
        assert(ops.drop_last() =~= rest.map_values(|k: u32| TunnelOp::Remove(k)));
        lemma_contains_drop_last(deletions, id);
    }
}

proof fn lemma_contains_drop_last(s: Seq<u32>, id: u32)
    requires
        s.len() > 0,
    ensures
        s.contains(id) <==> s.drop_last().contains(id) || s.last() == id,
{
    if s.drop_last().contains(id) {
        let k = choose|k: int| 0 <= k < s.len() - 1 && s.drop_last()[k] == id;
        assert(s[k] == id);
    }
    if s.contains(id) && s.last() != id {
        let k = choose|k: int| 0 <= k < s.len() && s[k] == id;
        assert(s.drop_last()[k] == id);
    }
    assert(s[s.len() - 1] == s.last());
}

proof fn lemma_apply_upserts(
    table: Map<u32, TunnelPeer>,
    upserts: Seq<u32>,
    peers: Map<u32, PeerNode>,
    keepalive: Option<Duration>,
    id: u32,
)
    ensures
        ({
            let after = apply_ops(
                table,
                upserts.filter_map(|k: u32| upsert_op(peers, keepalive, k)),
            );
            if upserts.contains(id) && peers.contains_key(id) {
                after.contains_key(id) && after[id] == tunnel_peer(peers[id], keepalive)
            } else {
                after.contains_key(id) == table.contains_key(id) && (table.contains_key(id)
                    ==> after[id] == table[id])
            }
        }),
    decreases upserts.len(),
{
    let pick = |k: u32| upsert_op(peers, keepalive, k);
    if upserts.len() > 0 {
        let rest = upserts.drop_last();
        lemma_apply_upserts(table, rest, peers, keepalive, id);
        lemma_contains_drop_last(upserts, id);
        if peers.contains_key(upserts.last()) {
            let ops = upserts.filter_map(pick);
            assert(ops.drop_last() =~= rest.filter_map(pick));
        }
    }
}

/// What the kernel interface is set up with.
#[derive(Debug)]
pub struct KernelSettings {
    /// The interface name.
    pub ifname: String,
    /// The UDP port to listen on.
    pub port: u32,
    /// The private key.
    pub private_key: [u8; 32],
}

/// The interface name in force: the configured one, else `wg-ts`.
pub open spec fn effective_ifname(configured: Option<String>) -> Seq<char> {
    match configured {
        Some(name) => name@,
        None => "wg-ts"@,
    }
}

/// The port in force: the configured one where it is a number, else 51820.
pub open spec fn effective_port(configured: Option<String>) -> u32 {
    match configured {
        Some(port) => match text::parsed_u32(port@) {
            Some(n) => n,
            None => 51820,
        },
        None => 51820,
    }
}

/// The private key in force: the contents of the key file where it holds 32 bytes, else all zeros.
pub open spec fn effective_key(key_file: Option<Vec<u8>>) -> Seq<u8> {
    match key_file {
        Some(bytes) => if bytes@.len() == 32 {
            bytes@
        } else {
            Seq::new(32, |i: int| 0u8)
        },
        None => Seq::new(32, |i: int| 0u8),
    }
}

impl KernelSettings {
    /// Reads the settings of the kernel interface: the configured interface name and port, and the
    /// contents of the key file, each where there is one.
    pub fn from_env(
        ifname: Option<String>,
        port: Option<String>,
        key_file: Option<Vec<u8>>,
    ) -> (r: KernelSettings)
        ensures
            r.ifname@ == effective_ifname(ifname),
            r.port == effective_port(port),
            r.private_key@ == effective_key(key_file),
    {
        let ifname = match ifname {
            Some(name) => name,
            None => "wg-ts".to_owned(),
        };
        let port: u32 = match port {
            Some(text) => match text::parse_u32(text.as_str()) {
                Some(n) => n,
                None => 51820,
            },
            None => 51820,
        };
        let mut private_key: [u8; 32] = [0u8; 32];
        assert(private_key@ =~= Seq::new(32, |i: int| 0u8));
        if let Some(bytes) = &key_file {
            if bytes.len() == 32 {
                let mut i: usize = 0;
                while i < 32
                    invariant
                        0 <= i <= 32,
                        bytes@.len() == 32,
                        forall|k: int| 0 <= k < i ==> private_key@[k] == bytes@[k],
                    decreases 32 - i,
                {
                    private_key[i] = bytes[i];
                    i += 1;
                }
                assert(private_key@ =~= bytes@);
            }
        }
        KernelSettings { ifname, port, private_key }
    }
}

/// A route as an allowed address.
pub open spec fn route_mask(net: IpNet) -> IpAddrMask {
    IpAddrMask { ip: net.spec_addr(), cidr: net.spec_prefix_len() }
}

/// The addresses that belong to a peer: its two tailnet addresses, then its accepted routes.
pub open spec fn allowed_ips(node: PeerNode) -> Seq<IpAddrMask> {
    seq![
        IpAddrMask { ip: IpAddr::V4(node.ipv4.addr), cidr: node.ipv4.prefix_len },
        IpAddrMask { ip: IpAddr::V6(node.ipv6.addr), cidr: node.ipv6.prefix_len },
    ] + node.accepted_routes@.map_values(|net: IpNet| route_mask(net))
}

/// A peer as the kernel path sees it: no verified direct address is known here, so its endpoint is
/// the first one that control distributes.
pub open spec fn kernel_peer(node: PeerNode) -> PeerView {
    PeerView {
        public_key: node.node_key@,
        endpoint: kernel_wg::selected_endpoint(None, node.underlay_addresses@),
        allowed_ips: allowed_ips(node),
    }
}

/// The kernel-path peer for an id, or none for an id that is missing from the snapshot.
pub open spec fn kernel_peer_at(peers: Map<u32, PeerNode>, id: u32) -> Option<PeerView> {
    if peers.contains_key(id) {
        Some(kernel_peer(peers[id]))
    } else {
        None
    }
}

/// The changed peers as the kernel path sees them.
pub open spec fn kernel_peers_of(upserts: Seq<u32>, peers: Map<u32, PeerNode>) -> Seq<PeerView> {
    upserts.filter_map(|id: u32| kernel_peer_at(peers, id))
}

fn project_node(node: &PeerNode) -> (r: KernelPeer)
    ensures
        r@ == kernel_peer(*node),
{
    let mut allowed: Vec<IpAddrMask> = Vec::new();
    allowed.push(IpAddrMask { ip: IpAddr::V4(node.ipv4.addr), cidr: node.ipv4.prefix_len });
    allowed.push(IpAddrMask { ip: IpAddr::V6(node.ipv6.addr), cidr: node.ipv6.prefix_len });
    let ghost tailnet = allowed@;
    let ghost masks = node.accepted_routes@.map_values(|net: IpNet| route_mask(net));
    let mut i: usize = 0;
    while i < node.accepted_routes.len()
        invariant
            0 <= i <= node.accepted_routes.len(),
            masks == node.accepted_routes@.map_values(|net: IpNet| route_mask(net)),
            allowed@ =~= tailnet + masks.take(i as int),
        decreases node.accepted_routes.len() - i,
    {
        let route = node.accepted_routes[i];
        allowed.push(IpAddrMask { ip: route.addr(), cidr: route.prefix_len() });
        i += 1;
    }
    let endpoint = kernel_wg::select_endpoint(None, node.underlay_addresses.as_slice());
    let peer = KernelPeer { public_key: node.node_key, allowed_ips: allowed, endpoint };
    assert(peer@.allowed_ips =~= allowed_ips(*node));
    peer
}

/// Projects the changed peers of `msg` onto the kernel path. An id that is missing from the
/// snapshot is skipped.
pub fn kernel_peers(msg: &PeerState) -> (r: Vec<KernelPeer>)
    ensures
        kernel_wg::kernel_peer_views(r@) == kernel_peers_of(msg.upserts@, msg.peers@),
{
    let mut peers: Vec<KernelPeer> = Vec::new();
    let ghost pick = |id: u32| kernel_peer_at(msg.peers@, id);
    let mut i: usize = 0;
    assert(kernel_wg::kernel_peer_views(peers@) =~= msg.upserts@.take(0).filter_map(pick));
    while i < msg.upserts.len()
        invariant
            0 <= i <= msg.upserts.len(),
            pick == (|id: u32| kernel_peer_at(msg.peers@, id)),
            kernel_wg::kernel_peer_views(peers@) == msg.upserts@.take(i as int).filter_map(pick),
        decreases msg.upserts.len() - i,
    {
        let id = msg.upserts[i];
        proof {
            msg.upserts@.lemma_filter_map_take_succ(pick, i as int);
        }
        if let Some(node) = msg.peers.get(&id) {
            let peer = project_node(node);
            let ghost before = peers@;
            peers.push(peer);
            proof {
                assert(kernel_wg::kernel_peer_views(peers@) =~= kernel_wg::kernel_peer_views(
                    before,
                ).push(peer@));
            }
        }
        i += 1;
    }
    assert(msg.upserts@.take(i as int) =~= msg.upserts@);
    peers
}

/// Mirrors the changed peers that have a direct underlay endpoint into the kernel interface, so
/// that the kernel does their crypto and sends directly: the configuration to apply and the first
/// netlink operation.
pub fn mirror<E>(settings: &KernelSettings, msg: &PeerState) -> (r: (
    InterfaceConfiguration,
    SyncStep<E>,
))
    ensures
        r.0.mirrors(
            settings.ifname@,
            settings.private_key@,
            settings.port,
            kernel_peers_of(msg.upserts@, msg.peers@),
        ),
        r.1 == SyncStep::<E>::Open,
{
    let peers = kernel_peers(msg);
    kernel_wg::sync(
        settings.ifname.as_str(),
        settings.private_key,
        settings.port,
        peers.as_slice(),
    )
}

impl<D> DataplaneActor<D> {
    /// All that a change of the peer set leads to: the tunnel operations, to be performed in order,
    /// and behind them, where there is a kernel path, one synchronisation of the kernel interface.
    /// How that ends changes nothing here: a peer that the kernel does not take stays on the
    /// userspace path.
    pub fn handle_peers<E>(&self, msg: &PeerState, kernel: Option<&KernelSettings>) -> (r: (
        Vec<WgOp>,
        Option<(InterfaceConfiguration, SyncStep<E>)>,
    ))
        ensures
            op_views(r.0@) == peer_ops(
                msg.upserts@,
                msg.deletions@,
                msg.peers@,
                self.persistent_keepalive_interval,
            ),
            r.1 is Some <==> kernel is Some,
            kernel matches Some(settings) ==> (r.1 matches Some(mirrored) && mirrored.0.mirrors(
                settings.ifname@,
                settings.private_key@,
                settings.port,
                kernel_peers_of(msg.upserts@, msg.peers@),
            ) && mirrored.1 == SyncStep::<E>::Open),
    {
        let ops = self.handle(msg);
        match kernel {
            Some(settings) => (ops, Some(mirror(settings, msg))),
            None => (ops, None),
        }
    }
}

/// A relay-only peer is never mirrored: whoever reaches the kernel has an endpoint that control
/// distributed for it.
pub proof fn law_relay_only_peers_stay_off_the_kernel(
    upserts: Seq<u32>,
    peers: Map<u32, PeerNode>,
    p: PeerView,
)
    requires
        kernel_wg::direct_peers(kernel_peers_of(upserts, peers)).contains(p),
    ensures
        exists|id: u32|
            #![trigger peers[id]]
            upserts.contains(id) && peers.contains_key(id) && p == kernel_peer(peers[id])
                && peers[id].underlay_addresses@.len() > 0 && p.endpoint == Some(
                peers[id].underlay_addresses@[0],
            ),
{
    let all = kernel_peers_of(upserts, peers);
    let pick = |id: u32| kernel_peer_at(peers, id);
    kernel_wg::law_only_direct_endpoint_peers_reach_the_kernel(all, p);
    upserts.lemma_filter_map_contains(pick, p);
    let id = choose|id: u32| #[trigger] upserts.contains(id) && pick(id) == Some(p);
    assert(p == kernel_peer(peers[id]));
}

/// The message topics that the dataplane listens to.
#[derive(Debug, Clone, Copy, PartialEq, Eq, Structural)]
pub enum Topic {
    /// Routes towards peers.
    PeerRoutes,
    /// Routes towards this node.
    SelfRoutes,
    /// The packet filter.
    PacketFilter,
    /// The source filter.
    SourceFilter,
    /// The peer set.
    Peers,
}

/// Where the start of the dataplane stands.
#[derive(Debug, PartialEq, Eq)]
pub enum StartStep<E> {
    /// Subscribe to a topic.
    Subscribe(Topic),
    /// Every subscription is in place: run the packet loop.
    Run,
    /// A subscription failed.
    Failed(E),
}

impl Topic {
    /// What follows once a topic is subscribed to.
    pub open spec fn then_step<E>(self) -> StartStep<E> {
        match self {
            Topic::PeerRoutes => StartStep::Subscribe(Topic::SelfRoutes),
            Topic::SelfRoutes => StartStep::Subscribe(Topic::PacketFilter),
            Topic::PacketFilter => StartStep::Subscribe(Topic::SourceFilter),
            Topic::SourceFilter => StartStep::Subscribe(Topic::Peers),
            Topic::Peers => StartStep::Run,
        }
    }
}

impl<E> StartStep<E> {
    /// What follows once the step came back with `reply`.
    pub open spec fn after(self, reply: Result<(), E>) -> StartStep<E> {
        match self {
            StartStep::Subscribe(topic) => match reply {
                Ok(_) => topic.then_step(),
                Err(e) => StartStep::Failed(e),
            },
            StartStep::Run => StartStep::Run,
            StartStep::Failed(e) => StartStep::Failed(e),
        }
    }

    /// What follows once the step came back with `reply`: the next subscription, or the packet loop
    /// behind the last one. The first failure ends the start.
    pub fn next(self, reply: Result<(), E>) -> (r: StartStep<E>)
        ensures
            r == self.after(reply),
    {
        match self {
            StartStep::Subscribe(topic) => match reply {
                Ok(_) => match topic {
                    Topic::PeerRoutes => StartStep::Subscribe(Topic::SelfRoutes),
                    Topic::SelfRoutes => StartStep::Subscribe(Topic::PacketFilter),
                    Topic::PacketFilter => StartStep::Subscribe(Topic::SourceFilter),
                    Topic::SourceFilter => StartStep::Subscribe(Topic::Peers),
                    Topic::Peers => StartStep::Run,
                },
                Err(e) => StartStep::Failed(e),
            },
            StartStep::Run => StartStep::Run,
            StartStep::Failed(e) => StartStep::Failed(e),
        }
    }
}

impl<D> DataplaneActor<D> {
    /// The dataplane over its tables, and the first step of its start.
    pub fn on_start<E>(dataplane: D, keepalive: Option<Duration>) -> (r: (
        DataplaneActor<D>,
        StartStep<E>,
    ))
        ensures
            r.0 == (DataplaneActor { dataplane, persistent_keepalive_interval: keepalive }),
            r.1 == StartStep::<E>::Subscribe(Topic::PeerRoutes),
    {
        (
            DataplaneActor { dataplane, persistent_keepalive_interval: keepalive },
            StartStep::Subscribe(Topic::PeerRoutes),
        )
    }
}

/// The packet loop runs only behind five successful subscriptions, and the first failure is what
/// the start fails with.
pub proof fn law_dataplane_runs_behind_all_subscriptions<E>(replies: Seq<Result<(), E>>)
    requires
        replies.len() == 5,
    ensures
        ({
            let end = StartStep::<E>::Subscribe(Topic::PeerRoutes).after(replies[0]).after(
                replies[1],
            ).after(replies[2]).after(replies[3]).after(replies[4]);
            &&& end is Run <==> (forall|i: int| 0 <= i < 5 ==> #[trigger] replies[i] is Ok)
            &&& forall|i: int|
                0 <= i < 5 && (#[trigger] replies[i]) is Err && (forall|k: int|
                    0 <= k < i ==> #[trigger] replies[k] is Ok) ==> end == StartStep::Failed(
                    replies[i]->Err_0,
                )
        }),
{
    assert(replies[0] is Ok || replies[0] is Err);
    assert(replies[1] is Ok || replies[1] is Err);
    assert(replies[2] is Ok || replies[2] is Err);
    assert(replies[3] is Ok || replies[3] is Err);
    assert(replies[4] is Ok || replies[4] is Err);
}

/// The values of a tunnel entry and of an operation are those of their fields.
pub proof fn law_tunnel_values_are_the_fields(id: u32, config: PeerConfig, ops: Seq<WgOp>)
    ensures
        op_views(ops).len() == ops.len(),
        forall|i: int| 0 <= i < ops.len() ==> #[trigger] op_views(ops)[i] == ops[i]@,
        config@.key == config.key@,
        config@.psk == config.psk@,
        config@.keepalive == config.persistent_keepalive_interval,
        WgOp::Upsert(id, config)@ == TunnelOp::Upsert(id, config@),
        WgOp::Remove(id)@ == TunnelOp::Remove(id),
{
}

proof fn lemma_filter_map_add<A, B>(a: Seq<A>, b: Seq<A>, f: spec_fn(A) -> Option<B>)
    ensures
        (a + b).filter_map(f) == a.filter_map(f) + b.filter_map(f),
    decreases b.len(),
{
    if b.len() == 0 {
        assert(a + b =~= a);
        assert(a.filter_map(f) + b.filter_map(f) =~= a.filter_map(f));
    } else {
        lemma_filter_map_add(a, b.drop_last(), f);
        assert((a + b).drop_last() =~= a + b.drop_last());
        assert((a + b).last() == b.last());
        assert((a + b).filter_map(f) =~= a.filter_map(f) + b.filter_map(f));
    }
}

/// A change is the sum of its parts, in order: first what each changed peer amounts to by itself,
/// then what each gone peer does. Nothing is merged, moved or lost.
pub proof fn law_peer_changes_add_up(
    upserts: Seq<u32>,
    more_upserts: Seq<u32>,
    deletions: Seq<u32>,
    more_deletions: Seq<u32>,
    peers: Map<u32, PeerNode>,
    keepalive: Option<Duration>,
)
    ensures
        peer_ops(upserts + more_upserts, deletions + more_deletions, peers, keepalive) == peer_ops(
            upserts,
            seq![],
            peers,
            keepalive,
        ) + peer_ops(more_upserts, seq![], peers, keepalive) + peer_ops(
            seq![],
            deletions,
            peers,
            keepalive,
        ) + peer_ops(seq![], more_deletions, peers, keepalive),
{
    let pick = |id: u32| upsert_op(peers, keepalive, id);
    let remove = |id: u32| TunnelOp::Remove(id);
    lemma_filter_map_add(upserts, more_upserts, pick);
    assert((deletions + more_deletions).map_values(remove) =~= deletions.map_values(remove)
        + more_deletions.map_values(remove));
    assert(Seq::<u32>::empty().filter_map(pick) =~= seq![]);
    assert(Seq::<u32>::empty().map_values(remove) =~= seq![]);
    assert(peer_ops(upserts + more_upserts, deletions + more_deletions, peers, keepalive)
        =~= peer_ops(upserts, seq![], peers, keepalive) + peer_ops(
        more_upserts,
        seq![],
        peers,
        keepalive,
    ) + peer_ops(seq![], deletions, peers, keepalive) + peer_ops(
        seq![],
        more_deletions,
        peers,
        keepalive,
    ));
}

/// What one peer amounts to: a changed peer that the snapshot knows is entered with its own public
/// key, an all-zero pre-shared key and the common keepalive; one that the snapshot does not know is
/// skipped; a gone one is removed, known or not.
pub proof fn law_one_peer_amounts_to_one_operation(
    id: u32,
    peers: Map<u32, PeerNode>,
    keepalive: Option<Duration>,
)
    ensures
        peer_ops(seq![id], seq![], peers, keepalive).len() == (if peers.contains_key(id) {
            1nat
        } else {
            0nat
        }),
        peers.contains_key(id) ==> (peer_ops(seq![id], seq![], peers, keepalive)[0] matches
            TunnelOp::Upsert(entered, config) && entered == id && config.key
            == peers[id].node_key@ && config.psk.len() == 32 && (forall|i: int|
            0 <= i < 32 ==> config.psk[i] == 0) && config.keepalive == keepalive),
        peer_ops(seq![], seq![id], peers, keepalive) == seq![TunnelOp::Remove(id)],
{
    let pick = |k: u32| upsert_op(peers, keepalive, k);
    let remove = |k: u32| TunnelOp::Remove(k);
    Seq::<u32>::lemma_filter_map_singleton(id, pick);
    assert(Seq::<u32>::empty().filter_map(pick) =~= seq![]);
    assert(Seq::<u32>::empty().map_values(remove) =~= seq![]);
    assert(seq![id].map_values(remove) =~= seq![TunnelOp::Remove(id)]);
    assert(peer_ops(seq![id], seq![], peers, keepalive) =~= seq![id].filter_map(pick));
    assert(peer_ops(seq![], seq![id], peers, keepalive) =~= seq![TunnelOp::Remove(id)]);
}

/// The interface is called as configured, else `wg-ts`.
pub proof fn law_interface_name(configured: Option<String>)
    ensures
        configured matches Some(name) ==> effective_ifname(configured) == name@,
        configured is None ==> effective_ifname(configured) == seq!['w', 'g', '-', 't', 's'],
{
    reveal_strlit("wg-ts");
    assert("wg-ts"@ =~= seq!['w', 'g', '-', 't', 's']);
}

/// The port is the configured number, with or without a plus sign; what is no number that fits 32
/// bits, or is not configured at all, counts as 51820.
pub proof fn law_interface_port(configured: Option<String>, n: u32)
    ensures
        configured matches Some(port) ==> (port@ == text::decimal(n as int) ==> effective_port(
            configured,
        ) == n),
        configured matches Some(port) ==> (port@ == seq!['+'] + text::decimal(n as int)
            ==> effective_port(configured) == n),
        configured matches Some(port) ==> (text::parsed_u32(port@) is None ==> effective_port(
            configured,
        ) == 51820),
        configured is None ==> effective_port(configured) == 51820,
{
    text::law_numerals_read_back(n);
}

/// The private key is the contents of the key file, byte for byte, if it holds exactly 32 bytes;
/// otherwise, and without a file, it is all zeros.
pub proof fn law_interface_key(key_file: Option<Vec<u8>>, i: int)
    requires
        0 <= i < 32,
    ensures
        effective_key(key_file).len() == 32,
        key_file matches Some(bytes) ==> (bytes@.len() == 32 ==> effective_key(key_file)[i]
            == bytes@[i]),
        key_file matches Some(bytes) ==> (bytes@.len() != 32 ==> effective_key(key_file)[i] == 0),
        key_file is None ==> effective_key(key_file)[i] == 0,
{
}

/// The allowed addresses of a mirrored peer: its IPv4 and its IPv6 tailnet address, then every
/// accepted route with its own address and prefix length, and nothing else.
pub proof fn law_mirrored_addresses(node: PeerNode, k: int)
    requires
        0 <= k < node.accepted_routes@.len(),
    ensures
        ({
            let ips = kernel_peer(node).allowed_ips;
            &&& ips[2 + k].ip == (match node.accepted_routes@[k] {
                IpNet::V4(net) => IpAddr::V4(net.addr),
                IpNet::V6(net) => IpAddr::V6(net.addr),
            })
            &&& ips[2 + k].cidr == (match node.accepted_routes@[k] {
                IpNet::V4(net) => net.prefix_len,
                IpNet::V6(net) => net.prefix_len,
            })
        }),
{
}

/// A mirrored peer keeps its own key and its two tailnet addresses, has as many allowed addresses
/// as it has routes and two more, and is reached at the first endpoint that control distributes.
pub proof fn law_mirrored_peer(node: PeerNode)
    ensures
        ({
            let peer = kernel_peer(node);
            &&& peer.public_key.len() == 32
            &&& forall|i: int| 0 <= i < 32 ==> peer.public_key[i] == node.node_key[i]
            &&& peer.allowed_ips.len() == 2 + node.accepted_routes@.len()
            &&& peer.allowed_ips[0].ip == IpAddr::V4(node.ipv4.addr)
            &&& peer.allowed_ips[0].cidr == node.ipv4.prefix_len
            &&& peer.allowed_ips[1].ip == IpAddr::V6(node.ipv6.addr)
            &&& peer.allowed_ips[1].cidr == node.ipv6.prefix_len
            &&& node.underlay_addresses@.len() > 0 ==> peer.endpoint == Some(
                node.underlay_addresses@[0],
            )
            &&& node.underlay_addresses@.len() == 0 ==> peer.endpoint is None
        }),
{
}

/// The mirrored peers are those of the parts of a change, in order, each for itself; an id that the
/// snapshot does not know is skipped.
pub proof fn law_mirrored_peers_add_up(
    upserts: Seq<u32>,
    more: Seq<u32>,
    id: u32,
    peers: Map<u32, PeerNode>,
)
    ensures
        kernel_peers_of(upserts + more, peers) == kernel_peers_of(upserts, peers)
            + kernel_peers_of(more, peers),
        peers.contains_key(id) ==> kernel_peers_of(seq![id], peers) == seq![
            kernel_peer(peers[id]),
        ],
        !peers.contains_key(id) ==> kernel_peers_of(seq![id], peers) == Seq::<PeerView>::empty(),
        kernel_peers_of(seq![], peers) == Seq::<PeerView>::empty(),
{
    let pick = |k: u32| kernel_peer_at(peers, k);
    lemma_filter_map_add(upserts, more, pick);
    Seq::<u32>::lemma_filter_map_singleton(id, pick);
    assert(kernel_peers_of(seq![], peers) =~= Seq::<PeerView>::empty());
}

/// The start goes through all five topics, each once, in this order.
pub proof fn law_every_topic_is_subscribed_to<E>()
    ensures
        StartStep::<E>::Subscribe(Topic::PeerRoutes).after(Ok(())) == StartStep::<E>::Subscribe(
            Topic::SelfRoutes,
        ),
        StartStep::<E>::Subscribe(Topic::SelfRoutes).after(Ok(())) == StartStep::<E>::Subscribe(
            Topic::PacketFilter,
        ),
        StartStep::<E>::Subscribe(Topic::PacketFilter).after(Ok(())) == StartStep::<E>::Subscribe(
            Topic::SourceFilter,
        ),
        StartStep::<E>::Subscribe(Topic::SourceFilter).after(Ok(())) == StartStep::<E>::Subscribe(
            Topic::Peers,
        ),
        StartStep::<E>::Subscribe(Topic::Peers).after(Ok(())) == StartStep::<E>::Run,
{
}

/// A start that is over stays over, and a failed subscription ends it with its own error.
pub proof fn law_dataplane_start_is_final<E>(topic: Topic, e: E, reply: Result<(), E>)
    ensures
        StartStep::<E>::Run.after(reply) == StartStep::<E>::Run,
        StartStep::Failed(e).after(reply) == StartStep::Failed(e),
        StartStep::Subscribe(topic).after(Err(e)) == StartStep::Failed(e),
{
}

} // verus!
