//! The direct path to a peer: what is known of it, and pinging it.
use core::time::Duration;
use vstd::prelude::*;

use crate::ask;
use crate::ask::Step;
use crate::error::{Error, ErrorKind};
use crate::net::{IpAddr, SocketAddr};
use crate::node::Node;
use crate::runtime::Runtime;

verus! {

/// A confirmed direct path: the endpoint and the round-trip time.
pub type DirectPath = (SocketAddr, Duration);

/// The key by which a path to the peer can be found. No node, or a node without a key, means that
/// no direct path is possible.
pub open spec fn disco_of<E>(reply: Result<Option<Node>, E>) -> Result<Option<[u8; 32]>, Error<E>> {
    match ask::asked(reply) {
        Err(e) => Err(e),
        Ok(None) => Ok(None),
        Ok(Some(node)) => Ok(node.disco_key),
    }
}

fn disco<E>(reply: Result<Option<Node>, E>) -> (r: Result<Option<[u8; 32]>, Error<E>>)
    ensures
        r == disco_of(reply),
{
    match ask::answer(reply) {
        Err(e) => Err(e),
        Ok(None) => Ok(None),
        Ok(Some(node)) => Ok(node.disco_key),
    }
}

/// A request for the direct path that asks the peer tracker which node holds `dst`.
#[derive(Debug, PartialEq, Eq)]
pub struct PathAsksPeer {
    /// The tailnet address.
    pub dst: IpAddr,
}

/// A request for the direct path that asks the manager of direct paths.
#[derive(Debug, PartialEq, Eq)]
pub struct PathAsksLatency {
    /// The key of the peer.
    pub disco: [u8; 32],
}

impl PathAsksPeer {
    /// How the request goes on with the peer that holds the address.
    pub open spec fn after<E>(self, reply: Result<Option<Node>, E>) -> Result<
        Step<PathAsksLatency, Option<DirectPath>>,
        Error<E>,
    > {
        match disco_of(reply) {
            Err(e) => Err(e),
            Ok(None) => Ok(Step::Done(None)),
            Ok(Some(disco)) => Ok(Step::Ask(PathAsksLatency { disco })),
        }
    }

    /// Goes on with the peer that holds the address.
    pub fn reply<E>(self, reply: Result<Option<Node>, E>) -> (r: Result<
        Step<PathAsksLatency, Option<DirectPath>>,
        Error<E>,
    >)
        ensures
            r == self.after(reply),
    {
        match disco(reply) {
            Err(e) => Err(e),
            Ok(None) => Ok(Step::Done(None)),
            Ok(Some(disco)) => Ok(Step::Ask(PathAsksLatency { disco })),
        }
    }
}

impl PathAsksLatency {
    /// Ends with the path.
    pub fn reply<E>(self, reply: Result<Option<DirectPath>, E>) -> (r: Result<
        Option<DirectPath>,
        Error<E>,
    >)
        ensures
            r == ask::asked(reply),
    {
        ask::answer(reply)
    }
}

/// A ping that asks the peer tracker which node holds `dst`.
#[derive(Debug)]
pub struct PingAsksPeer {
    /// The tailnet address.
    pub dst: IpAddr,
    /// How long to wait for the pong.
    pub timeout: Duration,
}

/// A ping that asks the manager of direct paths for a handle on the socket.
#[derive(Debug)]
pub struct PingAsksSocket {
    /// The key of the peer.
    pub disco: [u8; 32],
    /// How long to wait for the pong.
    pub timeout: Duration,
}

/// A ping to be sent over the socket `sock`, away from the mailbox of any actor.
#[derive(Debug)]
pub struct Pings<K> {
    /// The handle on the socket.
    pub sock: K,
    /// The key of the peer.
    pub disco: [u8; 32],
    /// How long to wait for the pong.
    pub timeout: Duration,
}

impl PingAsksPeer {
    /// How the ping goes on with the peer that holds the address.
    pub open spec fn after<E>(self, reply: Result<Option<Node>, E>) -> Result<
        Step<PingAsksSocket, Option<DirectPath>>,
        Error<E>,
    > {
        match disco_of(reply) {
            Err(e) => Err(e),
            Ok(None) => Ok(Step::Done(None)),
            Ok(Some(disco)) => Ok(Step::Ask(PingAsksSocket { disco, timeout: self.timeout })),
        }
    }

    /// Goes on with the peer that holds the address.
    pub fn reply<E>(self, reply: Result<Option<Node>, E>) -> (r: Result<
        Step<PingAsksSocket, Option<DirectPath>>,
        Error<E>,
    >)
        ensures
            r == self.after(reply),
    {
        match disco(reply) {
            Err(e) => Err(e),
            Ok(None) => Ok(Step::Done(None)),
            Ok(Some(disco)) => Ok(Step::Ask(PingAsksSocket { disco, timeout: self.timeout })),
        }
    }
}

impl PingAsksSocket {
    /// How the ping goes on with the socket.
    pub open spec fn after<K, E>(self, reply: Result<Option<K>, E>) -> Result<
        Step<Pings<K>, Option<DirectPath>>,
        Error<E>,
    > {
        match ask::asked(reply) {
            Err(e) => Err(e),
            Ok(None) => Ok(Step::Done(None)),
            Ok(Some(sock)) => Ok(
                Step::Ask(Pings { sock, disco: self.disco, timeout: self.timeout }),
            ),
        }
    }

    /// Goes on with the socket. There is none while no underlay is bound.
    pub fn reply<K, E>(self, reply: Result<Option<K>, E>) -> (r: Result<
        Step<Pings<K>, Option<DirectPath>>,
        Error<E>,
    >)
        ensures
            r == self.after(reply),
    {
        match ask::answer(reply) {
            Err(e) => Err(e),
            Ok(None) => Ok(Step::Done(None)),
            Ok(Some(sock)) => Ok(
                Step::Ask(Pings { sock, disco: self.disco, timeout: self.timeout }),
            ),
        }
    }
}

/// What a ping ends with.
pub open spec fn pong<X, E>(reply: Result<Option<DirectPath>, X>) -> Result<
    Option<DirectPath>,
    Error<E>,
> {
    match reply {
        Ok(path) => Ok(path),
        Err(_) => Err(Error::Runtime(ErrorKind::ReplyErr)),
    }
}

impl<K> Pings<K> {
    /// Ends with the pong. A failure is one of the underlay and not of an actor, so it is surfaced
    /// as [`ErrorKind::ReplyErr`]; a ping that is not answered in time is no error.
    pub fn reply<X, E>(self, reply: Result<Option<DirectPath>, X>) -> (r: Result<
        Option<DirectPath>,
        Error<E>,
    >)
        ensures
            r == pong::<X, E>(reply),
    {
        match reply {
            Ok(path) => Ok(path),
            Err(_) => Err(Error::Runtime(ErrorKind::ReplyErr)),
        }
    }
}

impl<S> Runtime<S> {
    /// The current direct path to the peer holding tailnet IP `dst`: its confirmed direct endpoint
    /// and that path's last-measured round-trip time, or `None` when there is no direct path right
    /// now (the peer is relayed, is unknown, or has no disco key). `tracker` tells whether the peer
    /// tracker is still there.
    pub fn direct_path<E>(&self, dst: IpAddr, tracker: bool) -> (r: Result<PathAsksPeer, Error<E>>)
        ensures
            r == (match ask::reachable::<E>(tracker) {
                Err(e) => Err(e),
                Ok(_) => Ok(PathAsksPeer { dst }),
            }),
    {
        match ask::reach(tracker) {
            Err(e) => Err(e),
            Ok(_) => Ok(PathAsksPeer { dst }),
        }
    }

    /// Send a ping to the peer holding tailnet IP `dst` now and await the pong: the fresh
    /// round-trip time and the endpoint that answered, or `None` if no pong arrives within
    /// `timeout` (or the peer is unknown, has no disco key, or there is no underlay). `tracker`
    /// tells whether the peer tracker is still there.
    pub fn ping_disco<E>(&self, dst: IpAddr, timeout: Duration, tracker: bool) -> (r: Result<
        PingAsksPeer,
        Error<E>,
    >)
        ensures
            r == (match ask::reachable::<E>(tracker) {
                Err(e) => Err(e),
                Ok(_) => Ok(PingAsksPeer { dst, timeout }),
            }),
    {
        match ask::reach(tracker) {
            Err(e) => Err(e),
            Ok(_) => Ok(PingAsksPeer { dst, timeout }),
        }
    }
}

/// A peer that is unknown or has no disco key has no direct path and cannot be pinged; neither is
/// an error, and nobody is asked any further.
pub proof fn law_no_key_no_path<E>(
    path: PathAsksPeer,
    ping: PingAsksPeer,
    reply: Result<Option<Node>, E>,
)
    requires
        reply matches Ok(found) && (found matches Some(node) ==> node.disco_key is None),
    ensures
        path.after(reply) == Ok::<_, Error<E>>(
            Step::<PathAsksLatency, Option<DirectPath>>::Done(None),
        ),
        ping.after(reply) == Ok::<_, Error<E>>(
            Step::<PingAsksSocket, Option<DirectPath>>::Done(None),
        ),
{
}

/// A ping goes to the peer that holds the address, over the socket that was handed out, and waits
/// as long as it was told to; only a failure to send it is an error of its own.
pub proof fn law_ping_reaches_the_peer<K, X, E>(
    ping: PingAsksPeer,
    node: Node,
    sock: K,
    reply: Result<Option<DirectPath>, X>,
)
    requires
        node.disco_key is Some,
    ensures
        ({
            let found = ping.after(Ok::<_, E>(Some(node)));
            let sent = (found->Ok_0->Ask_0).after(Ok::<_, E>(Some(sock)));
            &&& found matches Ok(Step::Ask(_))
            &&& sent matches Ok(Step::Ask(pings)) && pings.sock == sock && Some(pings.disco)
                == node.disco_key && pings.timeout == ping.timeout
            &&& pong::<X, E>(reply) is Err <==> reply is Err
        }),
{
}

/// A failed request ends the lookup of a path or a ping with its own failure; a peer with a key is
/// looked up by exactly that key.
pub proof fn law_path_lookups<K, E>(
    path: PathAsksPeer,
    ping: PingAsksPeer,
    next: PingAsksSocket,
    node: Node,
    e: E,
)
    ensures
        path.after::<E>(Err(e)) matches Err(f) && f == Error::Ask(e),
        ping.after::<E>(Err(e)) matches Err(f) && f == Error::Ask(e),
        next.after::<K, E>(Err(e)) matches Err(f) && f == Error::Ask(e),
        next.after::<K, E>(Ok(None)) == Ok::<_, Error<E>>(
            Step::<Pings<K>, Option<DirectPath>>::Done(None),
        ),
        node.disco_key matches Some(disco) ==> path.after::<E>(Ok(Some(node))) == Ok::<
            _,
            Error<E>,
        >(Step::<PathAsksLatency, Option<DirectPath>>::Ask(PathAsksLatency { disco })),
{
}

/// A pong comes back as it is, also when there is none; a ping that could not be sent is an error of
/// the reply.
pub proof fn law_pongs<X, E>(path: Option<DirectPath>, x: X)
    ensures
        pong::<X, E>(Ok(path)) == Ok::<Option<DirectPath>, Error<E>>(path),
        pong::<X, E>(Err(x)) == Err::<Option<DirectPath>, Error<E>>(
            Error::Runtime(ErrorKind::ReplyErr),
        ),
{
}

} // verus!
