//! The subnet routes a node advertises.
//!
//! Two preferences feed the advertised set: the explicit subnet prefixes and whether the node
//! offers itself as an exit node. Only IPv4 prefixes are advertised; a route that would not be
//! forwarded is never announced.
use vstd::prelude::*;

use crate::net::{IpNet, Ipv4Net};

verus! {

/// The default route `0.0.0.0/0`.
pub open spec fn default_v4() -> IpNet {
    IpNet::V4(Ipv4Net { addr: 0, prefix_len: 0 })
}

/// The IPv4 prefixes of `routes`, each where it first occurs.
pub open spec fn filtered(routes: Seq<IpNet>) -> Seq<IpNet>
    decreases routes.len(),
{
    if routes.len() == 0 {
        seq![]
    } else {
        let kept = filtered(routes.drop_last());
        if routes.last() is V4 && !kept.contains(routes.last()) {
            kept.push(routes.last())
        } else {
            kept
        }
    }
}

/// The advertised set: the filtered subnet prefixes and, for an exit node, the default route
/// behind them unless it is one of them.
pub open spec fn composed(routes: Seq<IpNet>, exit_node: bool) -> Seq<IpNet> {
    if exit_node && !filtered(routes).contains(default_v4()) {
        filtered(routes).push(default_v4())
    } else {
        filtered(routes)
    }
}

fn holds(routes: &Vec<IpNet>, net: IpNet) -> (r: bool)
    ensures
        r == routes@.contains(net),
{
    let mut i: usize = 0;
    while i < routes.len()
        invariant
            0 <= i <= routes.len(),
            forall|k: int| 0 <= k < i ==> routes@[k] != net,
        decreases routes.len() - i,
    {
        if routes[i] == net {
            assert(routes@[i as int] == net);
            return true;
        }
        i += 1;
    }
    false
}

/// Filter a requested advertise-route set to the IPv4-only, deduplicated set that can be honored.
/// Order is preserved (first occurrence wins).
pub fn filter_advertise_routes(routes: Vec<IpNet>) -> (r: Vec<IpNet>)
    ensures
        r@ == filtered(routes@),
{
    let mut kept: Vec<IpNet> = Vec::new();
    let mut i: usize = 0;
    assert(routes@.take(0) =~= seq![]);
    while i < routes.len()
        invariant
            0 <= i <= routes.len(),
            kept@ == filtered(routes@.take(i as int)),
        decreases routes.len() - i,
    {
        let net = routes[i];
        assert(routes@.take(i + 1).drop_last() =~= routes@.take(i as int));
        if let IpNet::V4(_) = net {
            if !holds(&kept, net) {
                kept.push(net);
            }
        }
        i += 1;
    }
    assert(routes@.take(i as int) =~= routes@);
    kept
}

/// Compose the final advertised-route set from the explicit subnet `routes` and the exit-node
/// flag: the filtered subnet prefixes, plus `0.0.0.0/0` when `exit_node` is set.
pub fn compose_advertised_routes(routes: Vec<IpNet>, exit_node: bool) -> (r: Vec<IpNet>)
    ensures
        r@ == composed(routes@, exit_node),
{
    let mut kept = filter_advertise_routes(routes);
    if exit_node {
        if let Ok(net) = Ipv4Net::new(0, 0) {
            let default_route = IpNet::V4(net);
            if !holds(&kept, default_route) {
                kept.push(default_route);
            }
        }
    }
    kept
}

/// The advertised-route preference: the explicit subnet routes plus whether this node advertises
/// itself as an exit node. Each setter changes its own part and hands back the composed set, so
/// the two preferences compose rather than clobber one another.
#[derive(Debug)]
pub struct AdvertiseState {
    /// The explicit subnet prefixes, before filtering.
    pub routes: Vec<IpNet>,
    /// Whether this node advertises the exit-node default route (`0.0.0.0/0`).
    pub exit_node: bool,
}

impl AdvertiseState {
    /// The set that this preference advertises.
    pub open spec fn advertised(self) -> Seq<IpNet> {
        composed(self.routes@, self.exit_node)
    }

    /// Changes the explicit subnet prefixes and returns the set to advertise.
    pub fn set_routes(&mut self, routes: Vec<IpNet>) -> (r: Vec<IpNet>)
        ensures
            final(self).routes == routes,
            final(self).exit_node == old(self).exit_node,
            r@ == final(self).advertised(),
    {
        self.routes = routes;
        compose_advertised_routes(self.routes.clone(), self.exit_node)
    }

    /// Turns the exit-node advertisement on or off and returns the set to advertise.
    pub fn set_exit_node(&mut self, enable: bool) -> (r: Vec<IpNet>)
        ensures
            final(self).routes == old(self).routes,
            final(self).exit_node == enable,
            r@ == final(self).advertised(),
    {
        self.exit_node = enable;
        compose_advertised_routes(self.routes.clone(), self.exit_node)
    }
}

impl Default for AdvertiseState {
    fn default() -> (r: AdvertiseState)
        ensures
            r.routes@ == Seq::<IpNet>::empty(),
            !r.exit_node,
    {
        AdvertiseState { routes: Vec::new(), exit_node: false }
    }
}

/// What is advertised: exactly the requested IPv4 prefixes, plus the default route for an exit
/// node; nothing twice, and never an IPv6 prefix.
pub proof fn law_advertised_set(routes: Seq<IpNet>, exit_node: bool)
    ensures
        composed(routes, exit_node).no_duplicates(),
        forall|net: IpNet| #[trigger]
            composed(routes, exit_node).contains(net) <==> net is V4 && (routes.contains(net) || (
            exit_node && net == default_v4())),
{
    lemma_filtered_members(routes);
    let kept = filtered(routes);
    if exit_node && !kept.contains(default_v4()) {
        let all = kept.push(default_v4());
        assert forall|net: IpNet| #[trigger] all.contains(net) <==> kept.contains(net) || net
            == default_v4() by {
            if kept.contains(net) {
                let k = choose|k: int| 0 <= k < kept.len() && kept[k] == net;
                assert(all[k] == net);
            }
            assert(all[kept.len() as int] == default_v4());
        }
    }
}

/// Valid prefixes in, valid prefixes out: what is advertised has no prefix length beyond the width
/// of its address.
pub proof fn law_advertised_prefixes_are_valid(routes: Seq<IpNet>, exit_node: bool, net: IpNet)
    requires
        forall|k: int| 0 <= k < routes.len() ==> (#[trigger] routes[k]).wf(),
        composed(routes, exit_node).contains(net),
    ensures
        net.wf(),
{
    law_advertised_set(routes, exit_node);
    if routes.contains(net) {
        let k = choose|k: int| 0 <= k < routes.len() && routes[k] == net;
        assert(routes[k].wf());
    }
}

proof fn lemma_filtered_members(routes: Seq<IpNet>)
    ensures
        filtered(routes).no_duplicates(),
        forall|net: IpNet| #[trigger]
            filtered(routes).contains(net) <==> net is V4 && routes.contains(net),
    decreases routes.len(),
{
    if routes.len() > 0 {
        let rest = routes.drop_last();
        let last = routes.last();
        lemma_filtered_members(rest);
        assert forall|net: IpNet| #[trigger] filtered(routes).contains(net) <==> net is V4
            && routes.contains(net) by {
            assert(routes =~= rest.push(last));
            assert(routes.contains(net) <==> rest.contains(net) || net == last) by {
                if rest.contains(net) {
                    let k = choose|k: int| 0 <= k < rest.len() && rest[k] == net;
                    assert(routes[k] == net);
                }
                assert(routes[routes.len() - 1] == last);
            }
            let kept = filtered(rest);
            if last is V4 && !kept.contains(last) {
                let all = kept.push(last);
                if kept.contains(net) {
                    let k = choose|k: int| 0 <= k < kept.len() && kept[k] == net;
                    assert(all[k] == net);
                }
                assert(all[kept.len() as int] == last);
            }
        }
    }
}

/// The position at which `net` first occurs in `routes`.
pub open spec fn first_at(routes: Seq<IpNet>, net: IpNet, at: int) -> bool {
    &&& 0 <= at < routes.len()
    &&& routes[at] == net
    &&& forall|k: int| 0 <= k < at ==> routes[k] != net
}

/// Filtering preserves order: of two advertised prefixes, the one that was requested first comes
/// first.
pub proof fn law_filter_preserves_order(routes: Seq<IpNet>, i: int, j: int, p: int, q: int)
    requires
        0 <= i < j < filtered(routes).len(),
        first_at(routes, filtered(routes)[i], p),
        first_at(routes, filtered(routes)[j], q),
    ensures
        p < q,
    decreases routes.len(),
{
    let rest = routes.drop_last();
    let last = routes.last();
    let kept = filtered(rest);
    lemma_filtered_members(rest);
    if j < kept.len() {
        assert(kept.contains(kept[i]) && kept.contains(kept[j]));
        lemma_first_at_prefix(routes, kept[i], p);
        lemma_first_at_prefix(routes, kept[j], q);
        law_filter_preserves_order(rest, i, j, p, q);
    } else {
        assert(kept.contains(kept[i]));
        lemma_first_at_prefix(routes, kept[i], p);
        if q < rest.len() {
            assert(rest[q] == last);
            assert(rest.contains(last));
        }
    }
}

proof fn lemma_first_at_prefix(routes: Seq<IpNet>, net: IpNet, at: int)
    requires
        routes.len() > 0,
        routes.drop_last().contains(net),
        first_at(routes, net, at),
    ensures
        first_at(routes.drop_last(), net, at),
{
    let rest = routes.drop_last();
    let k = choose|k: int| 0 <= k < rest.len() && rest[k] == net;
    assert(routes[k] == net);
}

/// Filtering an advertised set changes nothing: what is fed back in comes out as it is.
pub proof fn law_composition_is_idempotent(routes: Seq<IpNet>, exit_node: bool)
    ensures
        filtered(filtered(routes)) == filtered(routes),
        composed(composed(routes, exit_node), exit_node) == composed(routes, exit_node),
{
    law_advertised_set(routes, exit_node);
    lemma_filtered_members(routes);
    lemma_filter_fixpoint(filtered(routes));
    lemma_filter_fixpoint(composed(routes, exit_node));
    if exit_node {
        assert(composed(routes, exit_node).contains(default_v4()));
    }
}

proof fn lemma_filter_fixpoint(routes: Seq<IpNet>)
    requires
        routes.no_duplicates(),
        forall|net: IpNet| #[trigger] routes.contains(net) ==> net is V4,
    ensures
        filtered(routes) == routes,
    decreases routes.len(),
{
    if routes.len() > 0 {
        let rest = routes.drop_last();
        let last = routes.last();
        assert(routes.contains(routes[routes.len() - 1]));
        assert forall|net: IpNet| #[trigger] rest.contains(net) implies net is V4 by {
            let k = choose|k: int| 0 <= k < rest.len() && rest[k] == net;
            assert(routes[k] == net);
            assert(routes.contains(net));
        }
        lemma_filter_fixpoint(rest);
        assert(!rest.contains(last));
        assert(routes =~= rest.push(last));
    } else {
        assert(routes =~= filtered(routes));
    }
}

/// The default route of an exit node is `0.0.0.0/0`; it stands behind the subnet routes, which are
/// as without it, and the exit-node flag changes nothing else.
pub proof fn law_exit_node_adds_the_default_route(routes: Seq<IpNet>)
    ensures
        default_v4() == IpNet::V4(Ipv4Net { addr: 0, prefix_len: 0 }),
        composed(routes, false) == filtered(routes),
        filtered(routes).contains(default_v4()) ==> composed(routes, true) == filtered(routes),
        !filtered(routes).contains(default_v4()) ==> composed(routes, true) == filtered(
            routes,
        ).push(IpNet::V4(Ipv4Net { addr: 0, prefix_len: 0 })),
{
}

/// One more request behind the others adds that prefix at the end if it is a new IPv4 prefix, and
/// changes nothing otherwise. Nothing is filtered out of no request at all.
pub proof fn law_one_more_route(routes: Seq<IpNet>, net: IpNet)
    ensures
        filtered(seq![]) == Seq::<IpNet>::empty(),
        net is V4 && !routes.contains(net) ==> filtered(routes.push(net)) == filtered(routes).push(
            net,
        ),
        net is V6 || routes.contains(net) ==> filtered(routes.push(net)) == filtered(routes),
{
    lemma_filtered_members(routes);
    assert(routes.push(net).drop_last() =~= routes);
}

/// A preference advertises its own subnet routes and, with its own flag, the default route: nothing
/// but what it holds, and all of it.
pub proof fn law_preference_advertises_what_it_holds(state: AdvertiseState, net: IpNet)
    ensures
        state.advertised() == composed(state.routes@, state.exit_node),
        state.advertised().contains(net) <==> net is V4 && (state.routes@.contains(net) || (
        state.exit_node && net == IpNet::V4(Ipv4Net { addr: 0, prefix_len: 0 }))),
{
    law_advertised_set(state.routes@, state.exit_node);
}

} // verus!
