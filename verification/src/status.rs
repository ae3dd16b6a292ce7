//! A snapshot of the local netmap: this node plus every known peer, and how each peer is reached.
use std::collections::HashMap;
use vstd::prelude::*;
use vstd::std_specs::hash::group_hash_axioms;

use crate::ask;
use crate::error::Error;
use crate::net::SocketAddr;
use crate::runtime::Runtime;

verus! {

broadcast use group_hash_axioms;

/// A node in a snapshot; `N` is what the netmap says of it.
#[derive(Debug, PartialEq, Eq)]
pub struct StatusNode<N> {
    /// What the netmap says of the node.
    pub node: N,
    /// The direct endpoint that packets for the node currently go to.
    pub cur_addr: Option<SocketAddr>,
    /// The code of the relay region that packets for the node currently go through.
    pub relay: Option<String>,
}

/// This node in a snapshot.
#[derive(Debug, PartialEq, Eq)]
pub struct SelfStatus<N> {
    /// This node.
    pub node: StatusNode<N>,
    /// Its MagicDNS name without the host label.
    pub tailnet: Option<String>,
}

/// A snapshot of the local netmap.
#[derive(Debug, PartialEq, Eq)]
pub struct Status<N> {
    /// This node, once the first netmap has come.
    pub self_node: Option<StatusNode<N>>,
    /// Every known peer.
    pub peers: Vec<StatusNode<N>>,
    /// The stable id of the exit node that traffic egresses through.
    pub active_exit_node: Option<String>,
    /// The suffix of the tailnet's MagicDNS names.
    pub magic_dns_suffix: Option<String>,
}

/// The contents of a map that came as a reply; a failed request counts as an empty map.
pub open spec fn replied<V, E>(reply: Result<HashMap<u32, V>, E>) -> Map<u32, V> {
    match reply {
        Ok(map) => map@,
        Err(_) => Map::empty(),
    }
}

/// What a map holds for a key.
pub open spec fn lookup<V>(map: Map<u32, V>, id: u32) -> Option<V> {
    if map.contains_key(id) {
        Some(map[id])
    } else {
        None
    }
}

/// The ids of the peers.
pub open spec fn ids_of<N>(peers: Seq<(u32, StatusNode<N>)>) -> Seq<u32> {
    peers.map_values(|p: (u32, StatusNode<N>)| p.0)
}

/// The ids without a direct endpoint, in order.
pub open spec fn relayed(ids: Seq<u32>, best_addrs: Map<u32, SocketAddr>) -> Seq<u32> {
    ids.filter(|id: u32| !best_addrs.contains_key(id))
}

/// A peer with its connectivity: the direct endpoint where it has one, else the relay region where
/// one is known.
pub open spec fn joined<N>(
    peer: (u32, StatusNode<N>),
    best_addrs: Map<u32, SocketAddr>,
    relay_codes: Map<u32, String>,
) -> StatusNode<N> {
    if best_addrs.contains_key(peer.0) {
        StatusNode { cur_addr: Some(best_addrs[peer.0]), ..peer.1 }
    } else {
        StatusNode { relay: lookup(relay_codes, peer.0), ..peer.1 }
    }
}

/// The peers with their connectivity.
pub open spec fn all_joined<N>(
    peers: Seq<(u32, StatusNode<N>)>,
    best_addrs: Map<u32, SocketAddr>,
    relay_codes: Map<u32, String>,
) -> Seq<StatusNode<N>> {
    peers.map_values(|p: (u32, StatusNode<N>)| joined(p, best_addrs, relay_codes))
}

/// A status request that asks the control runner for this node.
#[derive(Debug)]
pub struct AsksSelf;

/// A status request that asks the peer tracker for the peers.
#[derive(Debug)]
pub struct AsksPeers<N> {
    /// This node.
    pub self_node: Option<StatusNode<N>>,
    /// The suffix of the tailnet's MagicDNS names.
    pub magic_dns_suffix: Option<String>,
}

/// A status request that asks the manager of direct paths for the endpoints of `ids`.
#[derive(Debug)]
pub struct AsksAddrs<N> {
    /// The peers to ask for.
    pub ids: Vec<u32>,
    /// This node.
    pub self_node: Option<StatusNode<N>>,
    /// The peers.
    pub peers: Vec<(u32, StatusNode<N>)>,
    /// The suffix of the tailnet's MagicDNS names.
    pub magic_dns_suffix: Option<String>,
}

/// A status request that asks the relay manager for the regions of `relay_ids`, unless there are
/// none.
#[derive(Debug)]
pub struct AsksRelays<N> {
    /// The peers to ask for.
    pub relay_ids: Vec<u32>,
    /// The direct endpoints.
    pub best_addrs: HashMap<u32, SocketAddr>,
    /// This node.
    pub self_node: Option<StatusNode<N>>,
    /// The peers.
    pub peers: Vec<(u32, StatusNode<N>)>,
    /// The suffix of the tailnet's MagicDNS names.
    pub magic_dns_suffix: Option<String>,
}

impl AsksSelf {
    /// Goes on with this node. `tracker` tells whether the peer tracker is still there.
    pub fn reply<N, E>(self, reply: Result<Option<SelfStatus<N>>, E>, tracker: bool) -> (r: Result<
        AsksPeers<N>,
        Error<E>,
    >)
        ensures
            match ask::asked(reply) {
                Err(e) => r == Err::<AsksPeers<N>, Error<E>>(e),
                Ok(node) => match ask::reachable::<E>(tracker) {
                    Err(e) => r == Err::<AsksPeers<N>, Error<E>>(e),
                    Ok(_) => r == Ok::<AsksPeers<N>, Error<E>>(
                        match node {
                            Some(node) => AsksPeers {
                                self_node: Some(node.node),
                                magic_dns_suffix: node.tailnet,
                            },
                            None => AsksPeers { self_node: None, magic_dns_suffix: None },
                        },
                    ),
                },
            },
    {
        match ask::answer(reply) {
            Err(e) => Err(e),
            Ok(node) => match ask::reach(tracker) {
                Err(e) => Err(e),
                Ok(_) => match node {
                    Some(node) => Ok(
                        AsksPeers { self_node: Some(node.node), magic_dns_suffix: node.tailnet },
                    ),
                    None => Ok(AsksPeers { self_node: None, magic_dns_suffix: None }),
                },
            },
        }
    }
}

impl<N> AsksPeers<N> {
    /// Goes on with the peers: all of them are asked for.
    pub fn reply<E>(self, reply: Result<Vec<(u32, StatusNode<N>)>, E>) -> (r: Result<
        AsksAddrs<N>,
        Error<E>,
    >)
        ensures
            match ask::asked(reply) {
                Err(e) => r == Err::<AsksAddrs<N>, Error<E>>(e),
                Ok(peers) => {
                    &&& r matches Ok(next)
                    &&& next.ids@ == ids_of(peers@)
                    &&& next.peers == peers
                    &&& next.self_node == self.self_node
                    &&& next.magic_dns_suffix == self.magic_dns_suffix
                },
            },
    {
        match ask::answer(reply) {
            Err(e) => Err(e),
            Ok(peers) => {
                let mut ids: Vec<u32> = Vec::new();
                let mut i: usize = 0;
                while i < peers.len()
                    invariant
                        0 <= i <= peers.len(),
                        ids@ =~= ids_of(peers@).take(i as int),
                    decreases peers.len() - i,
                {
                    ids.push(peers[i].0);
                    i += 1;
                }
                assert(ids@ =~= ids_of(peers@));
                Ok(
                    AsksAddrs {
                        ids,
                        self_node: self.self_node,
                        peers,
                        magic_dns_suffix: self.magic_dns_suffix,
                    },
                )
            },
        }
    }
}

impl<N> AsksAddrs<N> {
    /// Goes on with the direct endpoints; a peer without one is relayed. A failed request counts as
    /// no direct endpoint at all.
    pub fn reply<E>(self, reply: Result<HashMap<u32, SocketAddr>, E>) -> (r: AsksRelays<N>)
        ensures
            r.best_addrs@ == replied(reply),
            r.relay_ids@ == relayed(self.ids@, replied(reply)),
            r.self_node == self.self_node,
            r.peers == self.peers,
            r.magic_dns_suffix == self.magic_dns_suffix,
    {
        let best_addrs: HashMap<u32, SocketAddr> = match reply {
            Ok(map) => map,
            Err(_) => HashMap::new(),
        };
        let ghost rule = |id: u32| !best_addrs@.contains_key(id);
        let mut relay_ids: Vec<u32> = Vec::new();
        let mut i: usize = 0;
        assert(relay_ids@ =~= self.ids@.take(0).filter(rule)) by {
            reveal(Seq::filter);
        }
        while i < self.ids.len()
            invariant
                0 <= i <= self.ids.len(),
                rule == (|id: u32| !best_addrs@.contains_key(id)),
                relay_ids@ == self.ids@.take(i as int).filter(rule),
            decreases self.ids.len() - i,
        {
            let id = self.ids[i];
            proof {
                reveal(Seq::filter);
                assert(self.ids@.take(i + 1).drop_last() =~= self.ids@.take(i as int));
            }
            if !best_addrs.contains_key(&id) {
                relay_ids.push(id);
            }
            i += 1;
        }
        assert(self.ids@.take(i as int) =~= self.ids@);
        AsksRelays {
            relay_ids,
            best_addrs,
            self_node: self.self_node,
            peers: self.peers,
            magic_dns_suffix: self.magic_dns_suffix,
        }
    }
}

impl<N> AsksRelays<N> {
    /// Whether the relay manager is to be asked at all.
    pub fn asks(&self) -> (r: bool)
        ensures
            r == (self.relay_ids@.len() > 0),
    {
        self.relay_ids.len() > 0
    }

    /// Ends with the relay regions: none where the relay manager was not asked, or the request
    /// failed.
    pub fn reply<S, E>(
        self,
        runtime: &Runtime<S>,
        reply: Option<Result<HashMap<u32, String>, E>>,
    ) -> (r: Status<N>)
        ensures
            r.self_node == self.self_node,
            r.peers@ == all_joined(
                self.peers@,
                self.best_addrs@,
                match reply {
                    Some(reply) => replied(reply),
                    None => Map::empty(),
                },
            ),
            r.active_exit_node == runtime.active_exit,
            r.magic_dns_suffix == self.magic_dns_suffix,
    {
        let codes: HashMap<u32, String> = match reply {
            Some(Ok(map)) => map,
            _ => HashMap::new(),
        };
        let best_addrs = self.best_addrs;
        let ghost all = self.peers@;
        let mut peers: Vec<StatusNode<N>> = Vec::new();
        for peer in it: self.peers.into_iter()
            invariant
                it.seq() == all,
                peers@ =~= all_joined(all, best_addrs@, codes@).take(it.index()),
        {
            let (id, mut node) = peer;
            match best_addrs.get(&id) {
                Some(addr) => {
                    node.cur_addr = Some(*addr);
                },
                None => {
                    node.relay = match codes.get(&id) {
                        Some(code) => Some(code.clone()),
                        None => None,
                    };
                },
            }
            peers.push(node);
        }
        assert(peers@ =~= all_joined(all, best_addrs@, codes@));
        Status {
            self_node: self.self_node,
            peers,
            active_exit_node: runtime.active_exit.clone(),
            magic_dns_suffix: self.magic_dns_suffix,
        }
    }
}

impl<S> Runtime<S> {
    /// A snapshot of the local netmap: this node plus every known peer.
    ///
    /// Combines the self node held by the control runner with the peer set held by the peer
    /// tracker. `self_node` is `None` until the first netmap update has been received from control.
    pub fn status(&self) -> (r: AsksSelf)
        ensures
            r == AsksSelf,
    {
        AsksSelf
    }
}

/// How a peer is reached in a snapshot: never both directly and through a relay. The direct
/// endpoint wins, a relay is only shown for a peer without one, and nothing else of the peer
/// changes. No peer is lost, added or moved.
pub proof fn law_status_shows_one_path<N>(
    peers: Seq<(u32, StatusNode<N>)>,
    best_addrs: Map<u32, SocketAddr>,
    relay_codes: Map<u32, String>,
    i: int,
)
    requires
        0 <= i < peers.len(),
        peers[i].1.cur_addr is None,
        peers[i].1.relay is None,
    ensures
        ({
            let all = all_joined(peers, best_addrs, relay_codes);
            &&& all.len() == peers.len()
            &&& all[i].node == peers[i].1.node
            &&& all[i].cur_addr == lookup(best_addrs, peers[i].0)
            &&& all[i].relay == (if best_addrs.contains_key(peers[i].0) {
                None
            } else {
                lookup(relay_codes, peers[i].0)
            })
            &&& all[i].cur_addr is None || all[i].relay is None
        }),
{
}

/// The relay manager is asked for exactly the peers without a direct endpoint, so every region that
/// a snapshot shows was asked for.
pub proof fn law_relays_are_asked_where_shown<N>(
    peers: Seq<(u32, StatusNode<N>)>,
    best_addrs: Map<u32, SocketAddr>,
    relay_codes: Map<u32, String>,
    i: int,
)
    requires
        0 <= i < peers.len(),
        peers[i].1.relay is None,
    ensures
        relayed(ids_of(peers), best_addrs).contains(peers[i].0) <==> !best_addrs.contains_key(
            peers[i].0,
        ),
        all_joined(peers, best_addrs, relay_codes)[i].relay is Some ==> relayed(
            ids_of(peers),
            best_addrs,
        ).contains(peers[i].0),
{
    broadcast use vstd::seq_lib::group_filter_ensures;

    let ids = ids_of(peers);
    let rule = |id: u32| !best_addrs.contains_key(id);
    assert(ids[i] == peers[i].0);
    if rule(ids[i]) {
        assert(ids.filter(rule).contains(ids[i]));
    }
    if ids.filter(rule).contains(ids[i]) {
        ids.lemma_filter_contains_rev(rule, ids[i]);
        let k = choose|k: int| 0 <= k < ids.filter(rule).len() && ids.filter(rule)[k] == ids[i];
        assert(rule(ids.filter(rule)[k]));
    }
}

/// The peers are asked for by their ids, one for one; a relay is asked for exactly for the peers
/// without a direct endpoint, each for itself and in order.
pub proof fn law_who_is_asked_for<N>(
    peers: Seq<(u32, StatusNode<N>)>,
    ids: Seq<u32>,
    more: Seq<u32>,
    id: u32,
    best_addrs: Map<u32, SocketAddr>,
)
    ensures
        ids_of(peers).len() == peers.len(),
        forall|i: int| 0 <= i < peers.len() ==> #[trigger] ids_of(peers)[i] == peers[i].0,
        relayed(ids + more, best_addrs) == relayed(ids, best_addrs) + relayed(more, best_addrs),
        best_addrs.contains_key(id) ==> relayed(seq![id], best_addrs) == Seq::<u32>::empty(),
        !best_addrs.contains_key(id) ==> relayed(seq![id], best_addrs) == seq![id],
        relayed(seq![], best_addrs) == Seq::<u32>::empty(),
{
    let rule = |k: u32| !best_addrs.contains_key(k);
    Seq::filter_distributes_over_add(ids, more, rule);
    reveal(Seq::filter);
    reveal_with_fuel(Seq::filter, 2);
    assert(seq![id].drop_last() =~= seq![]);
    assert(seq![id].filter(rule) =~= (if rule(id) {
        seq![id]
    } else {
        seq![]
    }));
}

/// A peer in a snapshot, whatever it came with: a direct endpoint is entered as it is and leaves the
/// relay alone; without one the relay is what the relay manager says, or none, and the endpoint is
/// left alone. The rest of the peer, the number of peers and their order stay.
pub proof fn law_snapshot_of_a_peer<N>(
    peers: Seq<(u32, StatusNode<N>)>,
    best_addrs: Map<u32, SocketAddr>,
    relay_codes: Map<u32, String>,
    i: int,
)
    requires
        0 <= i < peers.len(),
    ensures
        ({
            let all = all_joined(peers, best_addrs, relay_codes);
            let (id, before, after) = (peers[i].0, peers[i].1, all[i]);
            &&& all.len() == peers.len()
            &&& after.node == before.node
            &&& best_addrs.contains_key(id) ==> after.cur_addr == Some(best_addrs[id])
                && after.relay == before.relay
            &&& !best_addrs.contains_key(id) ==> after.cur_addr == before.cur_addr
            &&& !best_addrs.contains_key(id) && relay_codes.contains_key(id) ==> after.relay
                == Some(relay_codes[id])
            &&& !best_addrs.contains_key(id) && !relay_codes.contains_key(id)
                ==> after.relay is None
        }),
{
}

/// A map that came as a reply counts as it is, a failed request as an empty one.
pub proof fn law_failed_lookups_are_empty<V, E>(map: HashMap<u32, V>, e: E, id: u32)
    ensures
        replied::<V, E>(Ok(map)) == map@,
        !replied::<V, E>(Err(e)).contains_key(id),
        map@.contains_key(id) ==> lookup(map@, id) == Some(map@[id]),
        !map@.contains_key(id) ==> lookup(map@, id) is None,
{
}

} // verus!
