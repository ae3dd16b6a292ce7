//! The order in which a runtime comes up.
//!
//! A start is a list of actions, fixed by the configuration and by what the build supports. The
//! caller performs them one by one and reports how each went; the first failure ends the start.
use vstd::prelude::*;

use crate::device_state::DeviceState;
use crate::error::{Error, ErrorKind};
use crate::net::IpNet;
use crate::netstack;
use crate::netstack::{NetstackConfig, TransportMode, TunConfig};
use crate::routes::AdvertiseState;
use crate::runtime::{AppPath, Runtime};

verus! {

/// What this build supports.
#[derive(Debug, Clone, Copy, PartialEq, Eq, Structural)]
pub struct Features {
    /// A kernel TUN device as the application data path.
    pub tun: bool,
    /// The monitor for changes of the network link.
    pub network_monitor: bool,
}

/// What a runtime is started with; `S` selects an exit node.
#[derive(Debug)]
pub struct Config<S> {
    /// The application data path.
    pub transport_mode: TransportMode,
    /// The TCP buffer of the userspace netstacks; `None` keeps their default.
    pub tcp_buffer_size: Option<usize>,
    /// The subnet routes to advertise.
    pub advertise_routes: Vec<IpNet>,
    /// Whether to advertise this node as an exit node.
    pub advertise_exit_node: bool,
    /// The exit node to use.
    pub exit_node: Option<S>,
    /// Whether to accept subnet routes of peers.
    pub accept_routes: bool,
    /// Whether to accept the tailnet's DNS configuration.
    pub accept_dns: bool,
    /// Whether a Taildrop store is configured.
    pub taildrop: bool,
    /// Whether to watch for changes of the network link.
    pub network_monitor: bool,
}

/// One action of a start.
#[derive(Debug, Clone, Copy, PartialEq, Eq, Structural)]
pub enum StartAction {
    /// Spawn the dataplane.
    SpawnDataplane,
    /// Ask the dataplane for the application's overlay transport.
    AskAppTransport,
    /// Ask the dataplane for the forwarder's overlay transport.
    AskForwarderTransport,
    /// Spawn the relay manager.
    SpawnMultiderp,
    /// Spawn the manager of direct paths.
    SpawnDirect,
    /// Spawn the forwarder, with its netstack set up like this.
    SpawnForwarder(NetstackConfig),
    /// Ask the forwarder for its channel. It answers once it forwards.
    AskForwarderChannel,
    /// Spawn the route updater.
    SpawnRouteUpdater,
    /// Spawn the packet-filter updater.
    SpawnPacketFilter,
    /// Spawn the source-filter updater.
    SpawnSourceFilter,
    /// Spawn the peer tracker.
    SpawnPeerTracker,
    /// Spawn the application netstack, set up like this.
    SpawnNetstack(NetstackConfig),
    /// Ask the application netstack for its channel.
    AskNetstackChannel,
    /// Attach the registry of fallback TCP handlers to the application netstack.
    AttachFallbackTcp,
    /// Spawn the MagicDNS responder on the application netstack.
    SpawnMagicDns,
    /// Spawn the TUN device, set up like this.
    SpawnTun(TunConfig),
    /// Spawn the control runner, with an unbounded mailbox.
    SpawnControl,
    /// Spawn the reaper of abandoned Taildrop files.
    SpawnTaildropReaper,
    /// Spawn the supervisor of the network monitor.
    SpawnNetmonSupervisor,
}

/// What an action of a start is handed, beside the environment that every actor shares.
#[derive(Debug, Clone, Copy, PartialEq, Eq, Structural)]
pub enum Handle {
    /// The dataplane.
    Dataplane,
    /// The id of the application's overlay transport.
    AppTransportId,
    /// The two queues of the application's overlay transport.
    AppTransport,
    /// The id of the forwarder's overlay transport.
    ForwarderTransportId,
    /// The two queues of the forwarder's overlay transport.
    ForwarderTransport,
    /// The relay manager.
    Multiderp,
    /// The manager of direct paths.
    Direct,
    /// The forwarder.
    Forwarder,
    /// The channel of the forwarder's netstack.
    ForwarderChannel,
    /// The application netstack.
    Netstack,
    /// The channel of the application netstack.
    NetstackChannel,
    /// The reading side of the cell with the home relay region.
    HomeRegionReader,
    /// The writing side of the cell with the home relay region.
    HomeRegionWriter,
    /// The writing side of the cell with the exit node in use.
    ActiveExitWriter,
    /// The writing side of the cell with the capability grants.
    CapGrantsWriter,
    /// The reading side of the cell with the Tailnet-Lock authority.
    TkaAuthorityReader,
    /// The writing side of the cell with the Tailnet-Lock authority.
    TkaAuthorityWriter,
    /// The writing side of the cell with the connection state.
    StateWriter,
    /// The Taildrop store.
    TaildropStore,
    /// The reading side of the cell that tells everybody to shut down.
    ShutdownReader,
}

impl Handle {
    /// Whether the handle is there from the beginning: the sides of the cells, and the store.
    pub open spec fn is_there(self) -> bool {
        match self {
            Handle::HomeRegionReader => true,
            Handle::HomeRegionWriter => true,
            Handle::ActiveExitWriter => true,
            Handle::CapGrantsWriter => true,
            Handle::TkaAuthorityReader => true,
            Handle::TkaAuthorityWriter => true,
            Handle::StateWriter => true,
            Handle::TaildropStore => true,
            Handle::ShutdownReader => true,
            _ => false,
        }
    }
}

impl StartAction {
    /// What the action is handed.
    pub open spec fn spec_takes(self) -> Seq<Handle> {
        match self {
            StartAction::SpawnDataplane => seq![],
            StartAction::AskAppTransport => seq![Handle::Dataplane],
            StartAction::AskForwarderTransport => seq![Handle::Dataplane],
            StartAction::SpawnMultiderp => seq![Handle::Dataplane, Handle::HomeRegionReader],
            StartAction::SpawnDirect => seq![Handle::Dataplane, Handle::Multiderp],
            StartAction::SpawnForwarder(_) => seq![Handle::ForwarderTransport],
            StartAction::AskForwarderChannel => seq![Handle::Forwarder],
            StartAction::SpawnRouteUpdater => seq![
                Handle::Multiderp,
                Handle::Direct,
                Handle::AppTransportId,
                Handle::ForwarderTransportId,
                Handle::ActiveExitWriter,
            ],
            StartAction::SpawnPacketFilter => seq![Handle::CapGrantsWriter],
            StartAction::SpawnSourceFilter => seq![],
            StartAction::SpawnPeerTracker => seq![Handle::TkaAuthorityReader],
            StartAction::SpawnNetstack(_) => seq![Handle::AppTransport],
            StartAction::AskNetstackChannel => seq![Handle::Netstack],
            StartAction::AttachFallbackTcp => seq![Handle::NetstackChannel],
            StartAction::SpawnMagicDns => seq![Handle::NetstackChannel],
            StartAction::SpawnTun(_) => seq![Handle::AppTransport, Handle::ForwarderChannel],
            StartAction::SpawnControl => seq![
                Handle::StateWriter,
                Handle::TkaAuthorityWriter,
                Handle::HomeRegionWriter,
            ],
            StartAction::SpawnTaildropReaper => seq![Handle::TaildropStore, Handle::ShutdownReader],
            StartAction::SpawnNetmonSupervisor => seq![Handle::Direct],
        }
    }

    /// What the action brings for later ones.
    pub open spec fn gives(self) -> Seq<Handle> {
        match self {
            StartAction::SpawnDataplane => seq![Handle::Dataplane],
            StartAction::AskAppTransport => seq![Handle::AppTransportId, Handle::AppTransport],
            StartAction::AskForwarderTransport => seq![
                Handle::ForwarderTransportId,
                Handle::ForwarderTransport,
            ],
            StartAction::SpawnMultiderp => seq![Handle::Multiderp],
            StartAction::SpawnDirect => seq![Handle::Direct],
            StartAction::SpawnForwarder(_) => seq![Handle::Forwarder],
            StartAction::AskForwarderChannel => seq![Handle::ForwarderChannel],
            StartAction::SpawnNetstack(_) => seq![Handle::Netstack],
            StartAction::AskNetstackChannel => seq![Handle::NetstackChannel],
            _ => seq![],
        }
    }

    /// What the action is handed, in the order of its arguments.
    pub fn takes(&self) -> (r: Vec<Handle>)
        ensures
            r@ == self.spec_takes(),
    {
        let taken: Vec<Handle> = match self {
            StartAction::SpawnDataplane => vec![],
            StartAction::AskAppTransport => vec![Handle::Dataplane],
            StartAction::AskForwarderTransport => vec![Handle::Dataplane],
            StartAction::SpawnMultiderp => vec![Handle::Dataplane, Handle::HomeRegionReader],
            StartAction::SpawnDirect => vec![Handle::Dataplane, Handle::Multiderp],
            StartAction::SpawnForwarder(_) => vec![Handle::ForwarderTransport],
            StartAction::AskForwarderChannel => vec![Handle::Forwarder],
            StartAction::SpawnRouteUpdater => vec![
                Handle::Multiderp,
                Handle::Direct,
                Handle::AppTransportId,
                Handle::ForwarderTransportId,
                Handle::ActiveExitWriter,
            ],
            StartAction::SpawnPacketFilter => vec![Handle::CapGrantsWriter],
            StartAction::SpawnSourceFilter => vec![],
            StartAction::SpawnPeerTracker => vec![Handle::TkaAuthorityReader],
            StartAction::SpawnNetstack(_) => vec![Handle::AppTransport],
            StartAction::AskNetstackChannel => vec![Handle::Netstack],
            StartAction::AttachFallbackTcp => vec![Handle::NetstackChannel],
            StartAction::SpawnMagicDns => vec![Handle::NetstackChannel],
            StartAction::SpawnTun(_) => vec![Handle::AppTransport, Handle::ForwarderChannel],
            StartAction::SpawnControl => vec![
                Handle::StateWriter,
                Handle::TkaAuthorityWriter,
                Handle::HomeRegionWriter,
            ],
            StartAction::SpawnTaildropReaper => vec![Handle::TaildropStore, Handle::ShutdownReader],
            StartAction::SpawnNetmonSupervisor => vec![Handle::Direct],
        };
        assert(taken@ =~= self.spec_takes());
        taken
    }
}

/// The actions that come first in either transport mode.
pub open spec fn base_actions(netstack: NetstackConfig) -> Seq<StartAction> {
    seq![
        StartAction::SpawnDataplane,
        StartAction::AskAppTransport,
        StartAction::AskForwarderTransport,
        StartAction::SpawnMultiderp,
        StartAction::SpawnDirect,
        StartAction::SpawnForwarder(netstack),
        StartAction::AskForwarderChannel,
        StartAction::SpawnRouteUpdater,
        StartAction::SpawnPacketFilter,
        StartAction::SpawnSourceFilter,
        StartAction::SpawnPeerTracker,
    ]
}

/// The actions that set up the application data path.
pub open spec fn app_actions(
    mode: TransportMode,
    netstack: NetstackConfig,
    features: Features,
) -> Seq<StartAction> {
    match mode {
        TransportMode::Netstack => seq![
            StartAction::SpawnNetstack(netstack),
            StartAction::AskNetstackChannel,
            StartAction::AttachFallbackTcp,
            StartAction::SpawnMagicDns,
        ],
        TransportMode::Tun(tun) => if features.tun {
            seq![StartAction::SpawnTun(tun)]
        } else {
            seq![]
        },
    }
}

/// The actions behind the application data path.
pub open spec fn late_actions(taildrop: bool, network_monitor: bool, features: Features) -> Seq<
    StartAction,
> {
    seq![StartAction::SpawnControl] + (if taildrop {
        seq![StartAction::SpawnTaildropReaper]
    } else {
        seq![]
    }) + (if network_monitor && features.network_monitor {
        seq![StartAction::SpawnNetmonSupervisor]
    } else {
        seq![]
    })
}

/// Why a start is refused however its actions go: the configuration asks for something that the
/// build does not have.
pub open spec fn refusal(mode: TransportMode, network_monitor: bool, features: Features) -> Option<
    ErrorKind,
> {
    if mode is Tun && !features.tun {
        Some(ErrorKind::TunUnavailable)
    } else if network_monitor && !features.network_monitor {
        Some(ErrorKind::NetworkMonitorUnavailable)
    } else {
        None
    }
}

impl<S> Config<S> {
    /// How both userspace netstacks are set up.
    pub open spec fn netstack(self) -> NetstackConfig {
        NetstackConfig {
            tcp_buffer_size: match self.tcp_buffer_size {
                Some(n) => n,
                None => 262144,
            },
            mtu: netstack::effective_mtu(self.transport_mode.spec_configured_mtu()) as usize,
        }
    }

    /// The actions of a start, in order. A start without its data path does not get any further.
    pub open spec fn actions(self, features: Features) -> Seq<StartAction> {
        let upto_app = base_actions(self.netstack()) + app_actions(
            self.transport_mode,
            self.netstack(),
            features,
        );
        if self.transport_mode is Tun && !features.tun {
            upto_app
        } else {
            upto_app + late_actions(self.taildrop, self.network_monitor, features)
        }
    }

    /// Whether `runtime` is what a successful start leaves: the preferences as configured, no exit
    /// node engaged, no suggestion made, and the device connecting.
    pub open spec fn started(self, runtime: Runtime<S>) -> bool {
        &&& runtime.app_path == (if self.transport_mode is Tun {
            AppPath::Tun
        } else {
            AppPath::Netstack
        })
        &&& runtime.exit_node == self.exit_node
        &&& runtime.accept_routes == self.accept_routes
        &&& runtime.accept_dns == self.accept_dns
        &&& runtime.advertise.routes == self.advertise_routes
        &&& runtime.advertise.exit_node == self.advertise_exit_node
        &&& runtime.active_exit is None
        &&& runtime.prev_suggestion is None
        &&& runtime.state == DeviceState::Connecting
        &&& !runtime.shutdown
        &&& runtime.taildrop_reaper == self.taildrop
    }
}

/// What a start does next.
#[derive(Debug, Clone, Copy, PartialEq, Eq, Structural)]
pub enum StartStep {
    /// Perform this action.
    Perform(StartAction),
    /// Nothing is left to do: see how the start ended.
    Finish,
}

/// A start under way; `E` is what a request to an actor fails with.
#[derive(Debug)]
pub struct Startup<S, E> {
    config: Config<S>,
    features: Features,
    actions: Vec<StartAction>,
    done: usize,
    failure: Option<E>,
}

impl<S, E> Startup<S, E> {
    /// The configuration.
    pub closed spec fn config(self) -> Config<S> {
        self.config
    }

    /// What the build supports.
    pub closed spec fn features(self) -> Features {
        self.features
    }

    /// How many actions have succeeded.
    pub closed spec fn done(self) -> nat {
        self.done as nat
    }

    /// The failure that ended the start.
    pub closed spec fn failure(self) -> Option<E> {
        self.failure
    }

    /// All actions of this start.
    pub open spec fn actions(self) -> Seq<StartAction> {
        self.config().actions(self.features())
    }

    /// The actions are those of the configuration, and no more of them have succeeded than there
    /// are.
    pub closed spec fn wf(self) -> bool {
        &&& self.actions@ == self.config.actions(self.features)
        &&& self.done <= self.actions.len()
    }

    /// What comes next: the first action that has not been performed, unless one has failed.
    pub open spec fn step(self) -> StartStep {
        if self.failure() is None && self.done() < self.actions().len() {
            StartStep::Perform(self.actions()[self.done() as int])
        } else {
            StartStep::Finish
        }
    }

    /// What comes next.
    pub fn next(&self) -> (r: StartStep)
        requires
            self.wf(),
        ensures
            r == self.step(),
    {
        if self.failure.is_none() && self.done < self.actions.len() {
            StartStep::Perform(self.actions[self.done])
        } else {
            StartStep::Finish
        }
    }

    /// Whether this is where the start stands once the action that came next in `before` has gone
    /// as `reply` says.
    pub open spec fn follows(self, before: Startup<S, E>, reply: Result<(), E>) -> bool {
        &&& self.wf()
        &&& self.config() == before.config()
        &&& self.features() == before.features()
        &&& match reply {
            Ok(_) => self.done() == before.done() + 1 && self.failure() is None,
            Err(e) => self.done() == before.done() && self.failure() == Some(e),
        }
    }

    /// How the start ends: with the failure of an action, with a refusal of what the build does not
    /// have, or with the runtime.
    pub open spec fn outcome(self, r: Result<Runtime<S>, Error<E>>) -> bool {
        match self.failure() {
            Some(e) => r == Err::<Runtime<S>, Error<E>>(Error::Ask(e)),
            None => match refusal(
                self.config().transport_mode,
                self.config().network_monitor,
                self.features(),
            ) {
                Some(kind) => r == Err::<Runtime<S>, Error<E>>(Error::Runtime(kind)),
                None => r matches Ok(runtime) && self.config().started(runtime),
            },
        }
    }

    /// Takes note of how the action that came next went. The first failure ends the start.
    pub fn report(&mut self, reply: Result<(), E>)
        requires
            old(self).wf(),
            old(self).step() is Perform,
        ensures
            final(self).follows(*old(self), reply),
    {
        match reply {
            Ok(_) => {
                self.done += 1;
            },
            Err(e) => {
                self.failure = Some(e);
            },
        }
    }

    /// How the start ended: with the failure of an action, with a refusal of what the build does
    /// not have, or with the runtime.
    pub fn finish(self) -> (r: Result<Runtime<S>, Error<E>>)
        requires
            self.wf(),
            self.step() is Finish,
        ensures
            self.outcome(r),
    {
        if let Some(e) = self.failure {
            return Err(Error::Ask(e));
        }
        let config = self.config;
        let app_path = match config.transport_mode {
            TransportMode::Netstack => AppPath::Netstack,
            TransportMode::Tun(_) => {
                if !self.features.tun {
                    return Err(Error::Runtime(ErrorKind::TunUnavailable));
                }
                AppPath::Tun
            },
        };
        if config.network_monitor && !self.features.network_monitor {
            return Err(Error::Runtime(ErrorKind::NetworkMonitorUnavailable));
        }
        Ok(
            Runtime {
                app_path,
                exit_node: config.exit_node,
                accept_routes: config.accept_routes,
                accept_dns: config.accept_dns,
                active_exit: None,
                state: DeviceState::Connecting,
                advertise: AdvertiseState {
                    routes: config.advertise_routes,
                    exit_node: config.advertise_exit_node,
                },
                prev_suggestion: None,
                shutdown: false,
                taildrop_reaper: config.taildrop,
            },
        )
    }
}

impl<S> Runtime<S> {
    /// Begins the start of a runtime.
    ///
    /// A transport mode or a network monitor that the build does not have is never replaced in
    /// silence: the start then ends in an error.
    pub fn spawn<E>(config: Config<S>, features: Features) -> (r: Startup<S, E>)
        ensures
            r.wf(),
            r.config() == config,
            r.features() == features,
            r.done() == 0,
            r.failure() is None,
    {
        let netstack = netstack::netstack_config_from(
            config.tcp_buffer_size,
            config.transport_mode.configured_mtu(),
        );
        let mut actions: Vec<StartAction> = Vec::new();
        actions.push(StartAction::SpawnDataplane);
        actions.push(StartAction::AskAppTransport);
        actions.push(StartAction::AskForwarderTransport);
        actions.push(StartAction::SpawnMultiderp);
        actions.push(StartAction::SpawnDirect);
        actions.push(StartAction::SpawnForwarder(netstack));
        actions.push(StartAction::AskForwarderChannel);
        actions.push(StartAction::SpawnRouteUpdater);
        actions.push(StartAction::SpawnPacketFilter);
        actions.push(StartAction::SpawnSourceFilter);
        actions.push(StartAction::SpawnPeerTracker);
        assert(actions@ =~= base_actions(netstack));
        let mut has_path: bool = true;
        match config.transport_mode {
            TransportMode::Netstack => {
                actions.push(StartAction::SpawnNetstack(netstack));
                actions.push(StartAction::AskNetstackChannel);
                actions.push(StartAction::AttachFallbackTcp);
                actions.push(StartAction::SpawnMagicDns);
            },
            TransportMode::Tun(tun) => {
                if features.tun {
                    actions.push(StartAction::SpawnTun(tun));
                } else {
                    has_path = false;
                }
            },
        }
        if has_path {
            actions.push(StartAction::SpawnControl);
            if config.taildrop {
                actions.push(StartAction::SpawnTaildropReaper);
            }
            if config.network_monitor && features.network_monitor {
                actions.push(StartAction::SpawnNetmonSupervisor);
            }
        }
        assert(actions@ =~= config.actions(features));
        Startup { config, features, actions, done: 0, failure: None }
    }
}

/// Whether `first` comes before `second` wherever both are among `actions`, and is among them if
/// `second` is.
pub open spec fn precedes(
    actions: Seq<StartAction>,
    first: StartAction,
    second: StartAction,
) -> bool {
    forall|j: int|
        0 <= j < actions.len() && #[trigger] actions[j] == second ==> actions.take(j).contains(
            first,
        )
}

/// Nothing is routed to a manager of direct paths or a forwarder that is not up: both are spawned,
/// and the forwarder has answered, before the route updater is.
pub proof fn law_routes_wait_for_their_targets<S>(config: Config<S>, features: Features)
    ensures
        precedes(
            config.actions(features),
            StartAction::SpawnDirect,
            StartAction::SpawnRouteUpdater,
        ),
        precedes(
            config.actions(features),
            StartAction::SpawnForwarder(config.netstack()),
            StartAction::AskForwarderChannel,
        ),
        precedes(
            config.actions(features),
            StartAction::AskForwarderChannel,
            StartAction::SpawnRouteUpdater,
        ),
        config.actions(features).contains(StartAction::SpawnRouteUpdater),
{
    let actions = config.actions(features);
    assert(actions[4] == StartAction::SpawnDirect);
    assert(actions[5] == StartAction::SpawnForwarder(config.netstack()));
    assert(actions[6] == StartAction::AskForwarderChannel);
    assert(actions[7] == StartAction::SpawnRouteUpdater);
    assert forall|j: int|
        0 <= j < actions.len() && #[trigger] actions[j]
            == StartAction::SpawnRouteUpdater implies actions.take(j).contains(
        StartAction::SpawnDirect,
    ) && actions.take(j).contains(StartAction::AskForwarderChannel) by {
        assert(j == 7);
        assert(actions.take(j)[4] == StartAction::SpawnDirect);
        assert(actions.take(j)[6] == StartAction::AskForwarderChannel);
    }
    assert forall|j: int|
        0 <= j < actions.len() && #[trigger] actions[j]
            == StartAction::AskForwarderChannel implies actions.take(j).contains(
        StartAction::SpawnForwarder(config.netstack()),
    ) by {
        assert(j == 6);
        assert(actions.take(j)[5] == StartAction::SpawnForwarder(config.netstack()));
    }
}

/// The transport mode swaps the application data path and nothing else: TUN mode has no
/// application netstack, no MagicDNS responder and no fallback registry, netstack mode has no TUN
/// device, and the forwarder runs in both.
pub proof fn law_mode_swaps_the_application_path_only<S>(config: Config<S>, features: Features)
    ensures
        config.actions(features).contains(StartAction::SpawnForwarder(config.netstack())),
        config.transport_mode is Tun ==> {
            &&& forall|c: NetstackConfig|
                !(#[trigger] config.actions(features).contains(StartAction::SpawnNetstack(c)))
            &&& !config.actions(features).contains(StartAction::AskNetstackChannel)
            &&& !config.actions(features).contains(StartAction::AttachFallbackTcp)
            &&& !config.actions(features).contains(StartAction::SpawnMagicDns)
        },
        config.transport_mode is Netstack ==> {
            &&& forall|c: TunConfig|
                !(#[trigger] config.actions(features).contains(StartAction::SpawnTun(c)))
            &&& config.actions(features).contains(StartAction::SpawnNetstack(config.netstack()))
            &&& config.actions(features).contains(StartAction::SpawnMagicDns)
        },
{
    let actions = config.actions(features);
    assert(actions[5] == StartAction::SpawnForwarder(config.netstack()));
    if config.transport_mode is Netstack {
        assert(actions[11] == StartAction::SpawnNetstack(config.netstack()));
        assert(actions[14] == StartAction::SpawnMagicDns);
    }
}

/// A build that cannot honor a request fails the start, and never falls back: without TUN support
/// a TUN start ends before the control runner is spawned, and every start that succeeds has spawned
/// what its configuration asks for.
pub proof fn law_unsupported_requests_fail_loudly<S>(config: Config<S>, features: Features)
    ensures
        ({
            let refused = refusal(config.transport_mode, config.network_monitor, features);
            let actions = config.actions(features);
            &&& config.transport_mode is Tun && !features.tun ==> {
                &&& refused == Some(ErrorKind::TunUnavailable)
                &&& !actions.contains(StartAction::SpawnControl)
            }
            &&& config.network_monitor && !features.network_monitor ==> refused is Some
            &&& refused is None ==> {
                &&& config.transport_mode matches TransportMode::Tun(tun) ==> actions.contains(
                    StartAction::SpawnTun(tun),
                )
                &&& config.network_monitor == actions.contains(StartAction::SpawnNetmonSupervisor)
                &&& config.taildrop == actions.contains(StartAction::SpawnTaildropReaper)
                &&& actions.contains(StartAction::SpawnControl)
            }
        }),
{
    let actions = config.actions(features);
    let base = base_actions(config.netstack()) + app_actions(
        config.transport_mode,
        config.netstack(),
        features,
    );
    if refusal(config.transport_mode, config.network_monitor, features) is None {
        assert(actions[base.len() as int] == StartAction::SpawnControl);
        if config.transport_mode is Tun {
            assert(actions[11] == StartAction::SpawnTun(config.transport_mode->Tun_0));
        }
        if config.taildrop {
            assert(actions[base.len() as int + 1] == StartAction::SpawnTaildropReaper);
        }
        if config.network_monitor {
            assert(actions[actions.len() - 1] == StartAction::SpawnNetmonSupervisor);
        }
    }
}

/// Both userspace netstacks are set up alike, and with an MTU that fits the tunnel: the one that a
/// TUN configuration names, or the overlay default.
pub proof fn law_netstacks_agree_with_the_tunnel<S>(config: Config<S>, features: Features)
    ensures
        forall|c: NetstackConfig| #[trigger]
            config.actions(features).contains(StartAction::SpawnForwarder(c)) ==> c
                == config.netstack(),
        forall|c: NetstackConfig| #[trigger]
            config.actions(features).contains(StartAction::SpawnNetstack(c)) ==> c
                == config.netstack(),
        config.transport_mode is Netstack ==> config.netstack().mtu
            == netstack::DEFAULT_OVERLAY_MTU,
        config.transport_mode matches TransportMode::Tun(tun) ==> config.netstack().mtu
            == netstack::effective_mtu(tun.mtu),
{
}

/// Whether one of `actions` brings `handle`.
pub open spec fn brought(actions: Seq<StartAction>, handle: Handle) -> bool {
    exists|i: int| 0 <= i < actions.len() && (#[trigger] actions[i]).gives().contains(handle)
}

/// Every handle is there when it is taken: from the beginning, or brought by an earlier action.
pub proof fn law_handles_are_there_when_taken<S>(
    config: Config<S>,
    features: Features,
    j: int,
    handle: Handle,
)
    requires
        0 <= j < config.actions(features).len(),
        config.actions(features)[j].spec_takes().contains(handle),
    ensures
        handle.is_there() || brought(config.actions(features).take(j), handle),
{
    let actions = config.actions(features);
    let before = actions.take(j);
    if j > 0 {
        assert(before[0] == StartAction::SpawnDataplane);
        assert(before[0].gives()[0] == Handle::Dataplane);
    }
    if j > 2 {
        assert(before[1] == StartAction::AskAppTransport);
        assert(before[1].gives()[0] == Handle::AppTransportId);
        assert(before[1].gives()[1] == Handle::AppTransport);
        assert(before[2] == StartAction::AskForwarderTransport);
        assert(before[2].gives()[0] == Handle::ForwarderTransportId);
        assert(before[2].gives()[1] == Handle::ForwarderTransport);
    }
    if j > 3 {
        assert(before[3] == StartAction::SpawnMultiderp);
        assert(before[3].gives()[0] == Handle::Multiderp);
    }
    if j > 5 {
        assert(before[4] == StartAction::SpawnDirect);
        assert(before[4].gives()[0] == Handle::Direct);
        assert(before[5] == StartAction::SpawnForwarder(config.netstack()));
        assert(before[5].gives()[0] == Handle::Forwarder);
    }
    if j > 6 {
        assert(before[6] == StartAction::AskForwarderChannel);
        assert(before[6].gives()[0] == Handle::ForwarderChannel);
    }
    if j > 11 && config.transport_mode is Netstack {
        assert(before[11] == StartAction::SpawnNetstack(config.netstack()));
        assert(before[11].gives()[0] == Handle::Netstack);
        if j > 12 {
            assert(before[12] == StartAction::AskNetstackChannel);
            assert(before[12].gives()[0] == Handle::NetstackChannel);
        }
    }
}

/// The two overlay transports do not get mixed up: the forwarder's goes to the forwarder alone, the
/// application's to its one data path, netstack or TUN, and the TUN device forwards over the
/// forwarder's channel.
pub proof fn law_transports_have_one_user<S>(
    config: Config<S>,
    features: Features,
    i: int,
    j: int,
)
    requires
        0 <= i < config.actions(features).len(),
        0 <= j < config.actions(features).len(),
    ensures
        ({
            let (a, b) = (config.actions(features)[i], config.actions(features)[j]);
            &&& a.spec_takes().contains(Handle::ForwarderTransport) <==> a is SpawnForwarder
            &&& a.spec_takes().contains(Handle::AppTransport) <==> a is SpawnNetstack
                || a is SpawnTun
            &&& a.spec_takes().contains(Handle::ForwarderChannel) <==> a is SpawnTun
            &&& a.spec_takes().contains(Handle::ForwarderTransport) && b.spec_takes().contains(
                Handle::ForwarderTransport,
            ) ==> i == j
            &&& a.spec_takes().contains(Handle::AppTransport) && b.spec_takes().contains(
                Handle::AppTransport,
            ) ==> i == j
        }),
{
    let (a, b) = (config.actions(features)[i], config.actions(features)[j]);
    if a is SpawnForwarder {
        assert(a.spec_takes()[0] == Handle::ForwarderTransport);
    }
    if a is SpawnNetstack {
        assert(a.spec_takes()[0] == Handle::AppTransport);
    }
    if a is SpawnTun {
        assert(a.spec_takes()[0] == Handle::AppTransport);
        assert(a.spec_takes()[1] == Handle::ForwarderChannel);
    }
}

/// The first failure ends the start: nothing is performed behind it, and it is what the start ends
/// with.
pub proof fn law_first_failure_ends_the_start<S, E>(
    before: Startup<S, E>,
    after: Startup<S, E>,
    e: E,
    r: Result<Runtime<S>, Error<E>>,
)
    requires
        before.wf(),
        before.step() is Perform,
        after.follows(before, Err(e)),
        after.outcome(r),
    ensures
        after.step() is Finish,
        r == Err::<Runtime<S>, Error<E>>(Error::Ask(e)),
{
}

/// A start gets on with every report: it is either over, or one action closer to its end, which it
/// reaches behind its last action and not before.
pub proof fn law_start_comes_to_an_end<S, E>(
    before: Startup<S, E>,
    after: Startup<S, E>,
    reply: Result<(), E>,
)
    requires
        before.wf(),
        before.step() is Perform,
        after.follows(before, reply),
    ensures
        after.done() <= after.actions().len(),
        after.step() is Finish || after.actions().len() - after.done() < before.actions().len()
            - before.done(),
        reply is Ok ==> (after.step() is Finish <==> after.done() == after.actions().len()),
{
}

/// Every netstack of a start has the configured TCP buffer, or 256 KiB where none is configured, in
/// either transport mode; and the MTU of the TUN device, or 1280 where there is none that is
/// usable.
pub proof fn law_netstacks_are_set_up_as_configured<S>(
    config: Config<S>,
    features: Features,
    j: int,
)
    requires
        0 <= j < config.actions(features).len(),
    ensures
        ({
            let set_up = match config.actions(features)[j] {
                StartAction::SpawnForwarder(c) => Some(c),
                StartAction::SpawnNetstack(c) => Some(c),
                _ => None,
            };
            set_up matches Some(c) ==> {
                &&& config.tcp_buffer_size matches Some(n) ==> c.tcp_buffer_size == n
                &&& config.tcp_buffer_size is None ==> c.tcp_buffer_size == 262144
                &&& config.transport_mode is Netstack ==> c.mtu == 1280
                &&& config.transport_mode matches TransportMode::Tun(tun) ==> c.mtu == (
                match tun.mtu {
                    Some(mtu) => if mtu == 0 { 1280 } else { mtu as int },
                    None => 1280,
                })
            }
        }),
{
}

/// How far apart two starts are that differ in their preferences alone: not at all. Only the
/// transport mode, the TCP buffer, the Taildrop store and the network monitor decide what is done.
pub proof fn law_preferences_do_not_change_the_start<S>(
    a: Config<S>,
    b: Config<S>,
    features: Features,
)
    requires
        a.transport_mode == b.transport_mode,
        a.tcp_buffer_size == b.tcp_buffer_size,
        a.taildrop == b.taildrop,
        a.network_monitor == b.network_monitor,
    ensures
        a.actions(features) == b.actions(features),
{
}

/// What is done first, in every start, in this order.
pub proof fn law_start_begins_alike<S>(config: Config<S>, features: Features)
    ensures
        ({
            let actions = config.actions(features);
            &&& actions.len() >= 11
            &&& actions[0] is SpawnDataplane
            &&& actions[1] is AskAppTransport
            &&& actions[2] is AskForwarderTransport
            &&& actions[3] is SpawnMultiderp
            &&& actions[4] is SpawnDirect
            &&& actions[5] is SpawnForwarder
            &&& actions[6] is AskForwarderChannel
            &&& actions[7] is SpawnRouteUpdater
            &&& actions[8] is SpawnPacketFilter
            &&& actions[9] is SpawnSourceFilter
            &&& actions[10] is SpawnPeerTracker
        }),
{
}

/// What is done behind that: the application path of the transport mode, then the control runner,
/// then the Taildrop reaper if there is a store, then the supervisor of the network monitor if it is
/// asked for and can be had; nothing else, and nothing at all behind a TUN device that the build
/// does not have.
pub proof fn law_start_ends_as_configured<S>(config: Config<S>, features: Features)
    ensures
        ({
            let actions = config.actions(features);
            let path: int = if config.transport_mode is Netstack { 4 } else { 1 };
            let reaper: int = if config.taildrop { 1 } else { 0 };
            let monitor: int = if config.network_monitor && features.network_monitor {
                1
            } else {
                0
            };
            &&& config.transport_mode is Tun && !features.tun ==> actions.len() == 11
            &&& !(config.transport_mode is Tun && !features.tun) ==> {
                &&& actions.len() == 11 + path + 1 + reaper + monitor
                &&& actions[11 + path] is SpawnControl
                &&& config.taildrop ==> actions[11 + path + 1] is SpawnTaildropReaper
                &&& monitor == 1 ==> actions[11 + path + 1 + reaper] is SpawnNetmonSupervisor
            }
            &&& config.transport_mode is Netstack ==> {
                &&& actions[11] is SpawnNetstack
                &&& actions[12] is AskNetstackChannel
                &&& actions[13] is AttachFallbackTcp
                &&& actions[14] is SpawnMagicDns
            }
            &&& config.transport_mode matches TransportMode::Tun(tun) ==> (features.tun
                ==> actions[11] == StartAction::SpawnTun(tun))
        }),
{
}

/// A start is refused for a TUN device that the build does not have, else for a network monitor that
/// it does not have, and for nothing else.
pub proof fn law_refusals(mode: TransportMode, network_monitor: bool, features: Features)
    ensures
        refusal(mode, network_monitor, features) == Some(ErrorKind::TunUnavailable) <==> mode is Tun
            && !features.tun,
        refusal(mode, network_monitor, features) == Some(ErrorKind::NetworkMonitorUnavailable) <==> (
        mode is Netstack || features.tun) && network_monitor && !features.network_monitor,
        refusal(mode, network_monitor, features) is None <==> (mode is Netstack || features.tun)
            && (!network_monitor || features.network_monitor),
{
}

/// A runtime that has started has the preferences it was configured with; nothing is in use or
/// remembered yet, and it is not told to shut down.
pub proof fn law_started_as_configured<S>(config: Config<S>, runtime: Runtime<S>)
    requires
        config.started(runtime),
    ensures
        config.transport_mode is Netstack <==> runtime.app_path is Netstack,
        runtime.exit_node == config.exit_node,
        runtime.accept_routes == config.accept_routes,
        runtime.accept_dns == config.accept_dns,
        runtime.advertise.routes@ == config.advertise_routes@,
        runtime.advertise.exit_node == config.advertise_exit_node,
        runtime.active_exit is None,
        runtime.prev_suggestion is None,
        runtime.state is Connecting,
        !runtime.shutdown,
        runtime.taildrop_reaper == config.taildrop,
{
}

/// A start without a failure ends in the runtime exactly if it is not refused, and a refusal is
/// reported as such.
pub proof fn law_start_outcome<S, E>(startup: Startup<S, E>, r: Result<Runtime<S>, Error<E>>)
    requires
        startup.outcome(r),
    ensures
        startup.failure() matches Some(e) ==> r == Err::<Runtime<S>, Error<E>>(Error::Ask(e)),
        startup.failure() is None ==> (r is Ok <==> refusal(
            startup.config().transport_mode,
            startup.config().network_monitor,
            startup.features(),
        ) is None),
        startup.failure() is None ==> (refusal(
            startup.config().transport_mode,
            startup.config().network_monitor,
            startup.features(),
        ) matches Some(kind) ==> r == Err::<Runtime<S>, Error<E>>(Error::Runtime(kind))),
        r matches Ok(runtime) ==> startup.config().started(runtime),
{
}

/// A start performs its actions one by one from the first: it wants the action behind those that
/// have succeeded, and counts each success once.
pub proof fn law_start_goes_one_by_one<S, E>(
    before: Startup<S, E>,
    after: Startup<S, E>,
    reply: Result<(), E>,
)
    requires
        before.wf(),
        before.step() is Perform,
        after.follows(before, reply),
    ensures
        before.step() == StartStep::Perform(before.actions()[before.done() as int]),
        before.failure() is None,
        before.done() < before.actions().len(),
        after.actions() == before.actions(),
        reply is Ok ==> after.done() == before.done() + 1 && after.failure() is None,
        reply matches Err(e) ==> after.done() == before.done() && after.failure() == Some(e),
{
}

/// Who takes what: each handle goes to the actions that need it and to no others.
pub proof fn law_handles_go_where_they_are_needed(action: StartAction)
    ensures
        ({
            let takes = action.spec_takes();
            &&& takes.contains(Handle::Dataplane) <==> action is AskAppTransport
                || action is AskForwarderTransport || action is SpawnMultiderp
                || action is SpawnDirect
            &&& takes.contains(Handle::AppTransportId) <==> action is SpawnRouteUpdater
            &&& takes.contains(Handle::AppTransport) <==> action is SpawnNetstack
                || action is SpawnTun
            &&& takes.contains(Handle::ForwarderTransportId) <==> action is SpawnRouteUpdater
            &&& takes.contains(Handle::ForwarderTransport) <==> action is SpawnForwarder
            &&& takes.contains(Handle::Multiderp) <==> action is SpawnDirect
                || action is SpawnRouteUpdater
            &&& takes.contains(Handle::Direct) <==> action is SpawnRouteUpdater
                || action is SpawnNetmonSupervisor
            &&& takes.contains(Handle::Forwarder) <==> action is AskForwarderChannel
            &&& takes.contains(Handle::ForwarderChannel) <==> action is SpawnTun
            &&& takes.contains(Handle::Netstack) <==> action is AskNetstackChannel
            &&& takes.contains(Handle::NetstackChannel) <==> action is AttachFallbackTcp
                || action is SpawnMagicDns
            &&& takes.contains(Handle::HomeRegionReader) <==> action is SpawnMultiderp
            &&& takes.contains(Handle::HomeRegionWriter) <==> action is SpawnControl
            &&& takes.contains(Handle::ActiveExitWriter) <==> action is SpawnRouteUpdater
            &&& takes.contains(Handle::CapGrantsWriter) <==> action is SpawnPacketFilter
            &&& takes.contains(Handle::TkaAuthorityReader) <==> action is SpawnPeerTracker
            &&& takes.contains(Handle::TkaAuthorityWriter) <==> action is SpawnControl
            &&& takes.contains(Handle::StateWriter) <==> action is SpawnControl
            &&& takes.contains(Handle::TaildropStore) <==> action is SpawnTaildropReaper
            &&& takes.contains(Handle::ShutdownReader) <==> action is SpawnTaildropReaper
            &&& takes.no_duplicates()
        }),
{
    let takes = action.spec_takes();
    if takes.len() > 0 {
        assert(takes.contains(takes[0]));
    }
    if takes.len() > 1 {
        assert(takes.contains(takes[1]));
    }
    if takes.len() > 2 {
        assert(takes.contains(takes[2]));
    }
    if takes.len() > 3 {
        assert(takes.contains(takes[3]));
        assert(takes.contains(takes[4]));
    }
}

} // verus!
