//! The runtime of a tailnet node: the preferences that can be changed while it is up, and the
//! decisions of its operations.
use vstd::prelude::*;

use crate::ask;
use crate::delivery::SendError;
use crate::device_state::DeviceState;
use crate::error::{Error, ErrorKind};
use crate::net::IpNet;
use crate::routes;
use crate::routes::AdvertiseState;

verus! {

/// Which data path carries the application's packets.
#[derive(Debug, Clone, Copy, PartialEq, Eq, Structural)]
pub enum AppPath {
    /// A userspace netstack, with a MagicDNS responder and a registry of fallback TCP handlers.
    Netstack,
    /// A kernel TUN device.
    Tun,
}

/// The runtime of a tailnet node; `S` selects an exit node.
#[derive(Debug)]
pub struct Runtime<S> {
    /// The application data path.
    pub app_path: AppPath,
    /// The selected exit node.
    pub exit_node: Option<S>,
    /// Whether subnet routes of peers are accepted.
    pub accept_routes: bool,
    /// Whether the tailnet's DNS configuration is accepted.
    pub accept_dns: bool,
    /// The stable id of the exit node that traffic egresses through.
    pub active_exit: Option<String>,
    /// The connection state of the device.
    pub state: DeviceState,
    /// The advertised-route preference.
    pub advertise: AdvertiseState,
    /// The stable id of the exit node that was suggested last.
    pub prev_suggestion: Option<String>,
    /// Whether the runtime has been told to shut down.
    pub shutdown: bool,
    /// Whether a reaper of abandoned Taildrop files runs.
    pub taildrop_reaper: bool,
}

/// A change of a preference that is in force, and now wants the peer set to be broadcast again so
/// that everybody recomputes.
#[derive(Debug, PartialEq, Eq)]
pub struct Rebroadcasts;

/// A request to the peer tracker to broadcast the peer set again.
#[derive(Debug, PartialEq, Eq)]
pub struct RepublishState;

impl Rebroadcasts {
    /// Goes on with the peer tracker, where it is still there.
    pub fn tracker<E>(self, tracker: bool) -> (r: Result<RepublishState, Error<E>>)
        ensures
            r == (match ask::reachable::<E>(tracker) {
                Err(e) => Err(e),
                Ok(_) => Ok(RepublishState),
            }),
    {
        match ask::reach(tracker) {
            Err(e) => Err(e),
            Ok(_) => Ok(RepublishState),
        }
    }
}

impl RepublishState {
    /// Ends with the reply.
    pub fn reply<E>(self, reply: Result<(), E>) -> (r: Result<(), Error<E>>)
        ensures
            r == ask::asked(reply),
    {
        ask::answer(reply)
    }
}

/// A request to the forwarder to accept and dial exactly `routes`.
#[derive(Debug)]
pub struct UpdateRoutes {
    /// The advertised set.
    pub routes: Vec<IpNet>,
}

/// A request to the control runner to advertise exactly `routes`.
#[derive(Debug)]
pub struct SetAdvertiseRoutes {
    /// The advertised set.
    pub routes: Vec<IpNet>,
}

impl UpdateRoutes {
    /// How the change goes on with the forwarder's reply.
    pub open spec fn after<E>(self, reply: Result<(), E>) -> Result<SetAdvertiseRoutes, Error<E>> {
        match ask::asked(reply) {
            Err(e) => Err(e),
            Ok(_) => Ok(SetAdvertiseRoutes { routes: self.routes }),
        }
    }

    /// Goes on with control once the forwarder has the set: a prefix is forwarded before control
    /// grants it, never the reverse.
    pub fn reply<E>(self, reply: Result<(), E>) -> (r: Result<SetAdvertiseRoutes, Error<E>>)
        ensures
            r == self.after(reply),
    {
        match ask::answer(reply) {
            Err(e) => Err(e),
            Ok(_) => Ok(SetAdvertiseRoutes { routes: self.routes }),
        }
    }
}

impl SetAdvertiseRoutes {
    /// Ends with the reply.
    pub fn reply<E>(self, reply: Result<(), E>) -> (r: Result<(), Error<E>>)
        ensures
            r == ask::asked(reply),
    {
        ask::answer(reply)
    }
}

/// A request to the peer tracker for the receiver of the peer set.
#[derive(Debug, PartialEq, Eq)]
pub struct WatchNetmap;

/// A subscription to the notification bus with the fields in `mask` up front, which asks the peer
/// tracker for the receiver of the peer set.
#[derive(Debug, PartialEq, Eq)]
pub struct BusAsksPeers<M> {
    /// What is sent up front.
    pub mask: M,
}

/// A subscription to the notification bus that asks the control runner for the receiver of consent
/// URLs.
#[derive(Debug, PartialEq, Eq)]
pub struct BusAsksBrowser<M, P> {
    /// What is sent up front.
    pub mask: M,
    /// The receiver of the peer set.
    pub peers: P,
}

/// What a watcher of the notification bus is made of.
#[derive(Debug, PartialEq, Eq)]
pub struct BusSources<M, P, B> {
    /// What is sent up front.
    pub mask: M,
    /// The receiver of the peer set.
    pub peers: P,
    /// The receiver of consent URLs.
    pub browser: B,
}

impl WatchNetmap {
    /// Ends with the receiver.
    pub fn reply<P, E>(self, reply: Result<P, E>) -> (r: Result<P, Error<E>>)
        ensures
            r == ask::asked(reply),
    {
        ask::answer(reply)
    }
}

impl<M> BusAsksPeers<M> {
    /// Goes on with the receiver of the peer set.
    pub fn reply<P, E>(self, reply: Result<P, E>) -> (r: Result<BusAsksBrowser<M, P>, Error<E>>)
        ensures
            r == (match ask::asked(reply) {
                Err(e) => Err(e),
                Ok(peers) => Ok(BusAsksBrowser { mask: self.mask, peers }),
            }),
    {
        match ask::answer(reply) {
            Err(e) => Err(e),
            Ok(peers) => Ok(BusAsksBrowser { mask: self.mask, peers }),
        }
    }
}

impl<M, P> BusAsksBrowser<M, P> {
    /// Ends with everything that a watcher is made of.
    pub fn reply<B, E>(self, reply: Result<B, E>) -> (r: Result<BusSources<M, P, B>, Error<E>>)
        ensures
            r == (match ask::asked(reply) {
                Err(e) => Err(e),
                Ok(browser) => Ok(BusSources { mask: self.mask, peers: self.peers, browser }),
            }),
    {
        match ask::answer(reply) {
            Err(e) => Err(e),
            Ok(browser) => Ok(BusSources { mask: self.mask, peers: self.peers, browser }),
        }
    }
}

/// A request to the application netstack for its channel.
#[derive(Debug, PartialEq, Eq)]
pub struct GetChannel;

impl GetChannel {
    /// Ends with the channel.
    pub fn reply<C, E>(self, reply: Result<C, E>) -> (r: Result<C, Error<E>>)
        ensures
            r == ask::asked(reply),
    {
        ask::answer(reply)
    }
}

/// A request to the MagicDNS responder to resolve `name`.
#[derive(Debug, PartialEq, Eq)]
pub struct Query {
    /// The name.
    pub name: String,
    /// The raw record type.
    pub qtype: u16,
}

impl Query {
    /// Ends with the result, and with [`ErrorKind::ActorGone`] if the responder has shut down.
    pub fn reply<D, M, E>(self, reply: Result<D, SendError<M, E>>) -> (r: Result<
        D,
        Error<SendError<M, E>>,
    >)
        ensures
            r == ask::delivered(reply),
    {
        ask::deliver(reply)
    }
}

/// A request to the dataplane to install a capture hook, or to clear it.
#[derive(Debug, PartialEq, Eq)]
pub struct InstallCapture<H> {
    /// The hook.
    pub hook: Option<H>,
}

/// A request to the manager of direct paths to re-bind the underlay socket.
#[derive(Debug, PartialEq, Eq)]
pub struct Rebind;

/// A request to the manager of direct paths to learn this node's public address anew.
#[derive(Debug, PartialEq, Eq)]
pub struct ReStun;

impl<H> InstallCapture<H> {
    /// Ends with the reply.
    pub fn reply<E>(reply: Result<(), E>) -> (r: Result<(), Error<E>>)
        ensures
            r == ask::asked(reply),
    {
        ask::answer(reply)
    }
}

impl Rebind {
    /// Ends with the reply.
    pub fn reply<E>(self, reply: Result<(), E>) -> (r: Result<(), Error<E>>)
        ensures
            r == ask::asked(reply),
    {
        ask::answer(reply)
    }
}

impl ReStun {
    /// Ends with the reply.
    pub fn reply<E>(self, reply: Result<(), E>) -> (r: Result<(), Error<E>>)
        ensures
            r == ask::asked(reply),
    {
        ask::answer(reply)
    }
}

/// Whether there is an application netstack to do something with.
pub open spec fn needs_netstack<E>(path: AppPath) -> Result<(), Error<E>> {
    match path {
        AppPath::Netstack => Ok(()),
        AppPath::Tun => Err(Error::Runtime(ErrorKind::UnsupportedInTunMode)),
    }
}

impl<S> Runtime<S> {
    /// This runtime with another exit node selected.
    pub open spec fn with_exit_node(self, selector: Option<S>) -> Runtime<S> {
        Runtime { exit_node: selector, ..self }
    }

    /// This runtime with subnet routes of peers accepted or not.
    pub open spec fn with_accept_routes(self, accept: bool) -> Runtime<S> {
        Runtime { accept_routes: accept, ..self }
    }

    /// This runtime with the tailnet's DNS configuration accepted or not.
    pub open spec fn with_accept_dns(self, accept: bool) -> Runtime<S> {
        Runtime { accept_dns: accept, ..self }
    }

    /// This runtime with other subnet routes to advertise.
    pub open spec fn with_advertised_routes(self, routes: Vec<IpNet>) -> Runtime<S> {
        Runtime {
            advertise: AdvertiseState { routes, exit_node: self.advertise.exit_node },
            ..self
        }
    }

    /// This runtime with the exit-node advertisement turned on or off.
    pub open spec fn with_advertised_exit_node(self, enable: bool) -> Runtime<S> {
        Runtime {
            advertise: AdvertiseState { routes: self.advertise.routes, exit_node: enable },
            ..self
        }
    }

    fn netstack<E>(&self) -> (r: Result<(), Error<E>>)
        ensures
            r == needs_netstack::<E>(self.app_path),
    {
        match self.app_path {
            AppPath::Netstack => Ok(()),
            AppPath::Tun => Err(Error::Runtime(ErrorKind::UnsupportedInTunMode)),
        }
    }

    /// Register a fallback TCP handler `cb`, consulted for every inbound TCP flow that matches no
    /// explicit listener: hands `cb` back for the registry of the application netstack.
    ///
    /// Returns [`ErrorKind::UnsupportedInTunMode`] in TUN transport mode, where there is no
    /// application netstack to attach a fallback handler to.
    pub fn register_fallback_tcp_handler<F, E>(&self, cb: F) -> (r: Result<F, Error<E>>)
        ensures
            r == (match needs_netstack::<E>(self.app_path) {
                Err(e) => Err(e),
                Ok(_) => Ok(cb),
            }),
    {
        match self.netstack() {
            Err(e) => Err(e),
            Ok(_) => Ok(cb),
        }
    }

    /// Get a channel to send commands to the netstack. `alive` tells whether the application
    /// netstack is still there.
    ///
    /// Returns [`ErrorKind::UnsupportedInTunMode`] in TUN transport mode, where there is no
    /// application netstack.
    pub fn channel<E>(&self, alive: bool) -> (r: Result<GetChannel, Error<E>>)
        ensures
            r == (match needs_netstack::<E>(self.app_path) {
                Err(e) => Err(e),
                Ok(_) => match ask::reachable::<E>(alive) {
                    Err(e) => Err(e),
                    Ok(_) => Ok(GetChannel),
                },
            }),
    {
        match self.netstack() {
            Err(e) => Err(e),
            Ok(_) => match ask::reach(alive) {
                Err(e) => Err(e),
                Ok(_) => Ok(GetChannel),
            },
        }
    }

    /// Resolve `name` for `qtype` through the live MagicDNS responder.
    ///
    /// Returns [`ErrorKind::UnsupportedInTunMode`] in TUN transport mode, where MagicDNS is not an
    /// actor that can be queried. A responder that has shut down is reported by [`Query::reply`].
    pub fn query_dns<E>(&self, name: &str, qtype: u16) -> (r: Result<Query, Error<E>>)
        ensures
            match needs_netstack::<E>(self.app_path) {
                Err(e) => r == Err::<Query, Error<E>>(e),
                Ok(_) => r matches Ok(query) && query.name@ == name@ && query.qtype == qtype,
            },
    {
        match self.netstack() {
            Err(e) => Err(e),
            Ok(_) => Ok(Query { name: name.to_owned(), qtype }),
        }
    }

    /// Install (`Some`) or clear (`None`) the debug packet-capture hook on the running dataplane.
    pub fn install_capture<H>(&self, hook: Option<H>) -> (r: InstallCapture<H>)
        ensures
            r == (InstallCapture { hook }),
    {
        InstallCapture { hook }
    }

    /// Re-bind the underlay UDP socket after a network/link change. Peers re-probe over the new
    /// socket and are relayed until a path re-confirms.
    pub fn rebind(&self) -> (r: Rebind)
        ensures
            r == Rebind,
    {
        Rebind
    }

    /// Force an immediate endpoint re-probe without rebinding the underlay socket.
    pub fn re_stun(&self) -> (r: ReStun)
        ensures
            r == ReStun,
    {
        ReStun
    }

    /// Change the selected exit node at runtime. `None` clears it.
    ///
    /// The selection is in force at once; the broadcast that follows makes the route updater and
    /// the source filter re-resolve it immediately.
    pub fn set_exit_node(&mut self, selector: Option<S>) -> (r: Rebroadcasts)
        ensures
            *final(self) == old(self).with_exit_node(selector),
            r == Rebroadcasts,
    {
        self.exit_node = selector;
        Rebroadcasts
    }

    /// The currently-selected exit node, or `None` if none is selected.
    pub fn exit_node(&self) -> (r: &Option<S>)
        ensures
            *r == self.exit_node,
    {
        &self.exit_node
    }

    /// Toggle whether this node accepts peer-advertised subnet routes at runtime. The preference is
    /// purely local: control is never told.
    pub fn set_accept_routes(&mut self, accept: bool) -> (r: Rebroadcasts)
        ensures
            *final(self) == old(self).with_accept_routes(accept),
            r == Rebroadcasts,
    {
        self.accept_routes = accept;
        Rebroadcasts
    }

    /// Whether this node currently accepts peer-advertised subnet routes.
    pub fn accept_routes(&self) -> (r: bool)
        ensures
            r == self.accept_routes,
    {
        self.accept_routes
    }

    /// Toggle whether this node accepts the tailnet's DNS configuration at runtime. The preference
    /// is purely local: control is never told.
    pub fn set_accept_dns(&mut self, accept: bool) -> (r: Rebroadcasts)
        ensures
            *final(self) == old(self).with_accept_dns(accept),
            r == Rebroadcasts,
    {
        self.accept_dns = accept;
        Rebroadcasts
    }

    /// Whether this node currently accepts the tailnet's DNS configuration.
    pub fn accept_dns(&self) -> (r: bool)
        ensures
            r == self.accept_dns,
    {
        self.accept_dns
    }

    /// Change the set of subnet routes this node advertises at runtime. Keeps the exit-node
    /// advertisement; the composed set goes to the forwarder and then to control.
    pub fn set_advertise_routes(&mut self, routes: Vec<IpNet>) -> (r: UpdateRoutes)
        ensures
            *final(self) == old(self).with_advertised_routes(routes),
            r.routes@ == final(self).advertise.advertised(),
    {
        UpdateRoutes { routes: self.advertise.set_routes(routes) }
    }

    /// Advertise (or stop advertising) this node as an exit node. Keeps the subnet routes; the
    /// composed set goes to the forwarder and then to control.
    pub fn set_advertise_exit_node(&mut self, enable: bool) -> (r: UpdateRoutes)
        ensures
            *final(self) == old(self).with_advertised_exit_node(enable),
            r.routes@ == final(self).advertise.advertised(),
    {
        UpdateRoutes { routes: self.advertise.set_exit_node(enable) }
    }

    /// Subscribe to changes of the peer set. `tracker` tells whether the peer tracker is still
    /// there.
    pub fn watch_netmap<E>(&self, tracker: bool) -> (r: Result<WatchNetmap, Error<E>>)
        ensures
            r == (match ask::reachable::<E>(tracker) {
                Err(e) => Err(e),
                Ok(_) => Ok(WatchNetmap),
            }),
    {
        match ask::reach(tracker) {
            Err(e) => Err(e),
            Ok(_) => Ok(WatchNetmap),
        }
    }

    /// Subscribe to the unified notification bus. `mask` selects which current-state fields are
    /// sent up front; `tracker` tells whether the peer tracker is still there.
    pub fn watch_ipn_bus<M, E>(&self, mask: M, tracker: bool) -> (r: Result<
        BusAsksPeers<M>,
        Error<E>,
    >)
        ensures
            r == (match ask::reachable::<E>(tracker) {
                Err(e) => Err(e),
                Ok(_) => Ok(BusAsksPeers { mask }),
            }),
    {
        match ask::reach(tracker) {
            Err(e) => Err(e),
            Ok(_) => Ok(BusAsksPeers { mask }),
        }
    }

    /// The stable id of the exit node traffic is currently egressing through, or `None` if none is
    /// engaged. It differs from the configured [`exit_node`](Self::exit_node) selector, which may
    /// name a peer that is absent.
    pub fn active_exit_node(&self) -> (r: Option<String>)
        ensures
            r == self.active_exit,
    {
        self.active_exit.clone()
    }

    /// The current connection state of the device.
    pub fn device_state(&self) -> (r: DeviceState)
        ensures
            r == self.state,
    {
        self.state.clone()
    }
}

/// A query fails as the application path and the responder have it: it is unsupported in TUN mode,
/// the actor is gone once the responder has shut down, and otherwise the request's own failure
/// comes back.
pub proof fn law_query_failures<D, M, E>(path: AppPath, reply: Result<D, SendError<M, E>>)
    ensures
        needs_netstack::<E>(path) is Err <==> path is Tun,
        path is Tun ==> needs_netstack::<E>(path) == Err::<(), Error<E>>(
            Error::Runtime(ErrorKind::UnsupportedInTunMode),
        ),
        ask::delivered(reply) == Err::<D, Error<SendError<M, E>>>(
            Error::Runtime(ErrorKind::ActorGone),
        ) <==> (reply matches Err(e) && (e is ActorNotRunning || e is ActorStopped)),
        ask::delivered(reply) is Ok <==> reply is Ok,
{
}

/// A preference reads back as it was set last, and setting one leaves the others as they are; a
/// toggle that is turned back leaves no trace.
pub proof fn law_preferences_read_back<S>(
    before: Runtime<S>,
    selector: Option<S>,
    routes: bool,
    dns: bool,
)
    ensures
        ({
            let after = before.with_exit_node(selector).with_accept_routes(routes).with_accept_dns(
                dns,
            );
            &&& after.exit_node == selector
            &&& after.accept_routes == routes
            &&& after.accept_dns == dns
            &&& after == before.with_accept_dns(dns).with_accept_routes(routes).with_exit_node(
                selector,
            )
            &&& after.with_exit_node(before.exit_node).with_accept_routes(
                before.accept_routes,
            ).with_accept_dns(before.accept_dns) == before
        }),
{
}

/// The forwarder and control get the identical set, the forwarder first: control is not asked to
/// advertise what the forwarder has not taken.
pub proof fn law_forwarder_before_control<E>(asks: UpdateRoutes, reply: Result<(), E>)
    ensures
        reply is Ok ==> (asks.after(reply) matches Ok(next) && next.routes == asks.routes),
        reply matches Err(e) ==> asks.after(reply) == Err::<SetAdvertiseRoutes, _>(Error::Ask(e)),
{
}

/// The two advertising preferences compose: whichever is set last, the set that is sent out holds
/// what both ask for.
pub proof fn law_advertising_preferences_compose<S>(
    before: Runtime<S>,
    routes: Vec<IpNet>,
    enable: bool,
    net: IpNet,
)
    ensures
        before.with_advertised_routes(routes).with_advertised_exit_node(enable)
            == before.with_advertised_exit_node(enable).with_advertised_routes(routes),
        before.with_advertised_routes(routes).with_advertised_exit_node(
            enable,
        ).advertise.advertised().contains(net) <==> net is V4 && (routes@.contains(net) || (enable
            && net == routes::default_v4())),
{
    routes::law_advertised_set(routes@, enable);
}

/// Setting one advertising preference leaves what the other contributes as it is.
pub proof fn law_advertising_preferences_are_independent<S>(
    before: Runtime<S>,
    routes: Vec<IpNet>,
    enable: bool,
)
    ensures
        before.with_advertised_routes(routes).advertise.exit_node == before.advertise.exit_node,
        before.with_advertised_exit_node(enable).advertise.routes == before.advertise.routes,
        before.with_advertised_exit_node(enable).with_advertised_exit_node(
            before.advertise.exit_node,
        ) == before,
        before.with_advertised_routes(routes).with_advertised_routes(before.advertise.routes)
            == before,
{
}

/// Setting one preference leaves every other part of the runtime as it is.
pub proof fn law_preferences_touch_one_part<S>(
    before: Runtime<S>,
    selector: Option<S>,
    accept: bool,
    routes: Vec<IpNet>,
)
    ensures
        ({
            let a = before.with_exit_node(selector);
            let b = before.with_accept_routes(accept);
            let c = before.with_accept_dns(accept);
            let d = before.with_advertised_routes(routes);
            let e = before.with_advertised_exit_node(accept);
            &&& a.exit_node == selector && a == (Runtime { exit_node: a.exit_node, ..before })
            &&& b.accept_routes == accept && b == (Runtime {
                accept_routes: b.accept_routes,
                ..before
            })
            &&& c.accept_dns == accept && c == (Runtime { accept_dns: c.accept_dns, ..before })
            &&& d.advertise.routes == routes && d.advertise.exit_node == before.advertise.exit_node
                && d == (Runtime { advertise: d.advertise, ..before })
            &&& e.advertise.exit_node == accept && e.advertise.routes == before.advertise.routes
                && e == (Runtime { advertise: e.advertise, ..before })
        }),
{
}

} // verus!
