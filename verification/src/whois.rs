//! Which node owns a tailnet address, and which capabilities a flow to it has.
use vstd::prelude::*;

use crate::ask;
use crate::ask::Step;
use crate::error::Error;
use crate::net::{IpAddr, SocketAddr};
use crate::node;
use crate::node::Node;
use crate::runtime::Runtime;

verus! {

/// The owner of an address; `N` is what the netmap says of it, `C` a set of capabilities.
#[derive(Debug, PartialEq, Eq)]
pub struct WhoIs<N, C> {
    /// What the netmap says of the owner.
    pub node: N,
    /// The capabilities that a flow from this node to the address has.
    pub cap_map: C,
}

/// A request for the owner of `addr` that asks the peer tracker.
#[derive(Debug, PartialEq, Eq)]
pub struct AsksOwner {
    /// The address.
    pub addr: SocketAddr,
}

/// A request for the owner of an address that asks the control runner for this node.
#[derive(Debug, PartialEq, Eq)]
pub struct AsksSelf<N, C> {
    /// The owner.
    pub whois: WhoIs<N, C>,
    /// The address.
    pub dst: IpAddr,
}

/// A request for the owner of an address that wants the capabilities of the flow from `src` to
/// `dst`. A grant applies to the flow if `dst` is one of its destinations and either `src` is one
/// of its sources or `source` holds one of the attributes that it is granted to.
#[derive(Debug)]
pub struct AsksCaps<N, C> {
    /// The owner.
    pub whois: WhoIs<N, C>,
    /// This node, whose attributes count.
    pub source: Node,
    /// The address of this node that the flow comes from.
    pub src: IpAddr,
    /// The address that the flow goes to.
    pub dst: IpAddr,
}

impl AsksOwner {
    /// How the request goes on with the owner.
    pub open spec fn after<N, C, E>(self, reply: Result<Option<WhoIs<N, C>>, E>) -> Result<
        Step<AsksSelf<N, C>, Option<WhoIs<N, C>>>,
        Error<E>,
    > {
        match ask::asked(reply) {
            Err(e) => Err(e),
            Ok(None) => Ok(Step::Done(None)),
            Ok(Some(whois)) => Ok(Step::Ask(AsksSelf { whois, dst: self.addr.spec_ip() })),
        }
    }

    /// Goes on with the owner, if there is one.
    pub fn reply<N, C, E>(self, reply: Result<Option<WhoIs<N, C>>, E>) -> (r: Result<
        Step<AsksSelf<N, C>, Option<WhoIs<N, C>>>,
        Error<E>,
    >)
        ensures
            r == self.after(reply),
    {
        match ask::answer(reply) {
            Err(e) => Err(e),
            Ok(None) => Ok(Step::Done(None)),
            Ok(Some(whois)) => Ok(Step::Ask(AsksSelf { whois, dst: self.addr.ip() })),
        }
    }
}

impl<N, C> AsksSelf<N, C> {
    /// How the request goes on with this node.
    pub open spec fn after<E>(self, reply: Result<Option<Node>, E>) -> Result<
        Step<AsksCaps<N, C>, Option<WhoIs<N, C>>>,
        Error<E>,
    > {
        match ask::asked(reply) {
            Err(e) => Err(e),
            Ok(None) => Ok(Step::Done(Some(self.whois))),
            Ok(Some(source)) => Ok(
                Step::Ask(
                    AsksCaps {
                        whois: self.whois,
                        source,
                        src: source.spec_addr_towards(self.dst),
                        dst: self.dst,
                    },
                ),
            ),
        }
    }

    /// Goes on with this node: the flow comes from its address of the family of the destination.
    /// Before the first netmap there is no source, and the owner is handed out as it is.
    pub fn reply<E>(self, reply: Result<Option<Node>, E>) -> (r: Result<
        Step<AsksCaps<N, C>, Option<WhoIs<N, C>>>,
        Error<E>,
    >)
        ensures
            r == self.after(reply),
    {
        match ask::answer(reply) {
            Err(e) => Err(e),
            Ok(None) => Ok(Step::Done(Some(self.whois))),
            Ok(Some(source)) => {
                let src = source.addr_towards(self.dst);
                Ok(Step::Ask(AsksCaps { whois: self.whois, source, src, dst: self.dst }))
            },
        }
    }
}

impl<N, C> AsksCaps<N, C> {
    /// Whether the source of the flow holds the attribute `cap`.
    pub fn source_holds(&self, cap: &str) -> (r: bool)
        ensures
            r == node::holds_attr(self.source.attrs@, cap@),
    {
        self.source.has_node_attr(cap)
    }

    /// Ends with the owner and the capabilities.
    pub fn reply(self, caps: C) -> (r: Option<WhoIs<N, C>>)
        ensures
            r == Some(WhoIs { node: self.whois.node, cap_map: caps }),
    {
        Some(WhoIs { node: self.whois.node, cap_map: caps })
    }
}

impl<S> Runtime<S> {
    /// Resolve which node owns a tailnet address. `tracker` tells whether the peer tracker is still
    /// there.
    ///
    /// The result also carries the capabilities that traffic from this node (the flow source) to
    /// `addr` (the destination) is granted.
    pub fn whois<E>(&self, addr: SocketAddr, tracker: bool) -> (r: Result<AsksOwner, Error<E>>)
        ensures
            r == (match ask::reachable::<E>(tracker) {
                Err(e) => Err(e),
                Ok(_) => Ok(AsksOwner { addr }),
            }),
    {
        match ask::reach(tracker) {
            Err(e) => Err(e),
            Ok(_) => Ok(AsksOwner { addr }),
        }
    }
}

/// The capabilities are those of the flow from this node to the queried address: the source is this
/// node's own address of the family of the destination, and the attributes that count are those
/// that this node holds. Two nodes that differ in their attributes are told apart.
pub proof fn law_flow_starts_at_this_node<N, C, E>(
    addr: SocketAddr,
    whois: WhoIs<N, C>,
    source: Node,
    cap: Seq<char>,
)
    ensures
        ({
            let owned = (AsksOwner { addr }).after(Ok::<_, E>(Some(whois)));
            let sourced = (owned->Ok_0->Ask_0).after(Ok::<_, E>(Some(source)));
            &&& owned matches Ok(Step::Ask(_))
            &&& sourced matches Ok(Step::Ask(caps)) && caps.dst == addr.spec_ip() && caps.source
                == source && caps.whois == whois && caps.src == (if addr is V6 {
                IpAddr::V6(source.ipv6.addr)
            } else {
                IpAddr::V4(source.ipv4.addr)
            }) && node::holds_attr(caps.source.attrs@, cap) == node::holds_attr(
                source.attrs@,
                cap,
            )
        }),
{
}

/// An address without an owner has no answer, and without a netmap the owner comes without
/// capabilities of its own: neither is an error.
pub proof fn law_whois_without_owner_or_source<N, C, E>(
    asks: AsksOwner,
    next: AsksSelf<N, C>,
)
    ensures
        asks.after::<N, C, E>(Ok(None)) == Ok::<_, Error<E>>(
            Step::<AsksSelf<N, C>, Option<WhoIs<N, C>>>::Done(None),
        ),
        next.after::<E>(Ok(None)) == Ok::<_, Error<E>>(
            Step::<AsksCaps<N, C>, Option<WhoIs<N, C>>>::Done(Some(next.whois)),
        ),
{
}

/// A failed request ends the lookup with its own failure, and the owner comes through unchanged.
pub proof fn law_whois_failures<N, C, E>(asks: AsksOwner, next: AsksSelf<N, C>, e: E, w: WhoIs<N, C>)
    ensures
        asks.after::<N, C, E>(Err(e)) matches Err(f) && f == Error::Ask(e),
        next.after::<E>(Err(e)) matches Err(f) && f == Error::Ask(e),
        asks.after::<N, C, E>(Ok(Some(w))) matches Ok(Step::Ask(found)) && found.whois == w,
{
}

} // verus!
