//! What the runtime reads of a node of the netmap.
use vstd::prelude::*;

use crate::net::{IpAddr, IpNet, Ipv4Net, Ipv6Net};
use crate::text;
use crate::text::Comparison;

verus! {

/// A node of the netmap.
#[derive(Debug)]
pub struct Node {
    /// The stable id.
    pub stable_id: String,
    /// The host name.
    pub hostname: String,
    /// The MagicDNS name without a trailing dot, where the node has one.
    pub fqdn: Option<String>,
    /// The MagicDNS name without the host label, where the node has one.
    pub tailnet: Option<String>,
    /// The user that owns the node.
    pub user_id: i64,
    /// The IPv4 tailnet address.
    pub ipv4: Ipv4Net,
    /// The IPv6 tailnet address.
    pub ipv6: Ipv6Net,
    /// The key for finding direct paths; without it the node is only reached through a relay.
    pub disco_key: Option<[u8; 32]>,
    /// The home relay region.
    pub derp_region: Option<u32>,
    /// Whether the node is online, where control says so.
    pub online: Option<bool>,
    /// The routes through this node that are accepted.
    pub accepted_routes: Vec<IpNet>,
    /// The attributes and capabilities that control grants the node.
    pub attrs: Vec<String>,
    /// Whether the node holds the file-sharing capability.
    pub can_share_files: bool,
    /// Whether the node is explicitly granted as a target of file sharing.
    pub file_sharing_target: bool,
    /// Whether the node advertises a reachable peerAPI.
    pub peerapi: bool,
}

/// Whether one of `routes` is a default route.
pub open spec fn has_default_route(routes: Seq<IpNet>) -> bool {
    exists|i: int| 0 <= i < routes.len() && (#[trigger] routes[i]).spec_prefix_len() == 0
}

/// Whether `cap` is one of `attrs`.
pub open spec fn holds_attr(attrs: Seq<String>, cap: Seq<char>) -> bool {
    exists|i: int| 0 <= i < attrs.len() && (#[trigger] attrs[i])@ == cap
}

impl Node {
    /// Whether the node holds the attribute `cap`.
    pub fn has_node_attr(&self, cap: &str) -> (r: bool)
        ensures
            r == holds_attr(self.attrs@, cap@),
    {
        let mut i: usize = 0;
        while i < self.attrs.len()
            invariant
                0 <= i <= self.attrs.len(),
                forall|k: int| 0 <= k < i ==> (#[trigger] self.attrs@[k])@ != cap@,
            decreases self.attrs.len() - i,
        {
            proof {
                text::lemma_compare_same(self.attrs@[i as int]@, cap@);
            }
            if text::compare_str(self.attrs[i].as_str(), cap) == Comparison::Same {
                assert(self.attrs@[i as int]@ == cap@);
                return true;
            }
            i += 1;
        }
        false
    }

    /// The name a user knows the node by: its MagicDNS name, else its host name.
    pub open spec fn spec_name(self) -> String {
        match self.fqdn {
            Some(fqdn) => fqdn,
            None => self.hostname,
        }
    }

    /// The name a user knows the node by: its MagicDNS name, else its host name.
    pub fn name(&self) -> (r: &String)
        ensures
            *r == self.spec_name(),
    {
        match &self.fqdn {
            Some(fqdn) => fqdn,
            None => &self.hostname,
        }
    }

    /// The node's own tailnet address of the family of `dst`.
    pub open spec fn spec_addr_towards(self, dst: IpAddr) -> IpAddr {
        if dst is V6 {
            IpAddr::V6(self.ipv6.addr)
        } else {
            IpAddr::V4(self.ipv4.addr)
        }
    }

    /// The node's own tailnet address of the family of `dst`.
    pub fn addr_towards(&self, dst: IpAddr) -> (r: IpAddr)
        ensures
            r == self.spec_addr_towards(dst),
    {
        if dst.is_ipv6() {
            IpAddr::V6(self.ipv6.addr)
        } else {
            IpAddr::V4(self.ipv4.addr)
        }
    }

    /// Whether the node offers a default route. Either family counts.
    pub fn advertises_exit_route(&self) -> (r: bool)
        ensures
            r == has_default_route(self.accepted_routes@),
    {
        let mut i: usize = 0;
        while i < self.accepted_routes.len()
            invariant
                0 <= i <= self.accepted_routes.len(),
                forall|k: int| 0 <= k < i ==> self.accepted_routes@[k].spec_prefix_len() != 0,
            decreases self.accepted_routes.len() - i,
        {
            let route = self.accepted_routes[i];
            if route.prefix_len() == 0 {
                assert(self.accepted_routes@[i as int].spec_prefix_len() == 0);
                return true;
            }
            i += 1;
        }
        false
    }
}

/// A node offers a default route exactly if one of its accepted routes, of either family, has a
/// prefix of length zero; in particular if `0.0.0.0/0` or `::/0` is among them. Another route more
/// or less does not take an offer away.
pub proof fn law_default_routes(routes: Seq<IpNet>, more: Seq<IpNet>, v4: Ipv4Net, v6: Ipv6Net)
    ensures
        has_default_route(routes) <==> (exists|i: int|
            #![trigger routes[i]]
            0 <= i < routes.len() && (match routes[i] {
                IpNet::V4(net) => net.prefix_len == 0,
                IpNet::V6(net) => net.prefix_len == 0,
            })),
        routes.contains(IpNet::V4(v4)) && v4.prefix_len == 0 ==> has_default_route(routes),
        routes.contains(IpNet::V6(v6)) && v6.prefix_len == 0 ==> has_default_route(routes),
        has_default_route(routes + more) <==> has_default_route(routes) || has_default_route(more),
        !has_default_route(seq![]),
        has_default_route(seq![IpNet::V4(v4)]) <==> v4.prefix_len == 0,
        has_default_route(seq![IpNet::V6(v6)]) <==> v6.prefix_len == 0,
{
    let all = routes + more;
    if has_default_route(routes) {
        let i = choose|i: int|
            0 <= i < routes.len() && (#[trigger] routes[i]).spec_prefix_len() == 0;
        assert(all[i].spec_prefix_len() == 0);
    }
    if has_default_route(more) {
        let i = choose|i: int| 0 <= i < more.len() && (#[trigger] more[i]).spec_prefix_len() == 0;
        assert(all[routes.len() + i].spec_prefix_len() == 0);
    }
    if has_default_route(all) {
        let i = choose|i: int| 0 <= i < all.len() && (#[trigger] all[i]).spec_prefix_len() == 0;
        if i < routes.len() {
            assert(routes[i].spec_prefix_len() == 0);
        } else {
            assert(more[i - routes.len()].spec_prefix_len() == 0);
        }
    }
    assert(seq![IpNet::V4(v4)][0].spec_prefix_len() == v4.prefix_len);
    assert(seq![IpNet::V6(v6)][0].spec_prefix_len() == v6.prefix_len);
    if exists|i: int|
        #![trigger routes[i]]
        0 <= i < routes.len() && (match routes[i] {
            IpNet::V4(net) => net.prefix_len == 0,
            IpNet::V6(net) => net.prefix_len == 0,
        }) {
        let i = choose|i: int|
            #![trigger routes[i]]
            0 <= i < routes.len() && (match routes[i] {
                IpNet::V4(net) => net.prefix_len == 0,
                IpNet::V6(net) => net.prefix_len == 0,
            });
        assert(routes[i].spec_prefix_len() == 0);
    }
    if routes.contains(IpNet::V4(v4)) && v4.prefix_len == 0 {
        let i = choose|i: int| 0 <= i < routes.len() && routes[i] == IpNet::V4(v4);
        assert(routes[i].spec_prefix_len() == 0);
    }
    if routes.contains(IpNet::V6(v6)) && v6.prefix_len == 0 {
        let i = choose|i: int| 0 <= i < routes.len() && routes[i] == IpNet::V6(v6);
        assert(routes[i].spec_prefix_len() == 0);
    }
}

/// A node holds an attribute exactly if one of its attributes is the same text; each attribute
/// counts for itself.
pub proof fn law_attributes(attrs: Seq<String>, attr: String, cap: Seq<char>)
    ensures
        !holds_attr(seq![], cap),
        holds_attr(attrs.push(attr), cap) <==> holds_attr(attrs, cap) || attr@ == cap,
{
    let all = attrs.push(attr);
    if holds_attr(attrs, cap) {
        let i = choose|i: int| 0 <= i < attrs.len() && (#[trigger] attrs[i])@ == cap;
        assert(all[i]@ == cap);
    }
    assert(all[attrs.len() as int] == attr);
    if holds_attr(all, cap) {
        let i = choose|i: int| 0 <= i < all.len() && (#[trigger] all[i])@ == cap;
        if i < attrs.len() {
            assert(attrs[i]@ == cap);
        }
    }
}

/// A node goes by its MagicDNS name, and by its host name only without one; its address towards a
/// destination is its own one of that family.
pub proof fn law_names_and_addresses(node: Node, dst: IpAddr)
    ensures
        node.fqdn matches Some(fqdn) ==> node.spec_name() == fqdn,
        node.fqdn is None ==> node.spec_name() == node.hostname,
        dst is V4 ==> node.spec_addr_towards(dst) == IpAddr::V4(node.ipv4.addr),
        dst is V6 ==> node.spec_addr_towards(dst) == IpAddr::V6(node.ipv6.addr),
{
}

} // verus!
