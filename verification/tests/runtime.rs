//! The runtime: its start, its operations and its shutdown.
use std::collections::HashMap;

use core::time::Duration;
use tailnet_runtime::ask::Step;
use tailnet_runtime::control_rpc::{GetCertPair, SetDns, TkaLog};
use tailnet_runtime::delivery::SendError;
use tailnet_runtime::device_state::{
    AwaitsChange, DeviceState, Failure, FailureKind, RegistrationError,
};
use tailnet_runtime::error::{Error, ErrorKind};
use tailnet_runtime::exit_node::{
    next_sticky, ExitNodeCandidate, ExitNodeSuggestion, SuggestExitNodeError,
};
use tailnet_runtime::net::{IpAddr, IpNet, Ipv4Net, Ipv6Net, SocketAddr, SocketAddrV4};
use tailnet_runtime::netstack::{NetstackConfig, TransportMode, TunConfig};
use tailnet_runtime::node::Node;
use tailnet_runtime::runtime::{AppPath, BusSources, InstallCapture, Query, Runtime};
use tailnet_runtime::shutdown::{
    graceful_outcome, try_shutdown, DropAction, RootActor, ShutdownAction,
};
use tailnet_runtime::startup::{Config, Features, Handle, StartAction, StartStep, Startup};
use tailnet_runtime::status::{SelfStatus, Status, StatusNode};
use tailnet_runtime::taildrop::build_file_targets;
use tailnet_runtime::whois::WhoIs;

type E = &'static str;

const ALL: Features = Features { tun: true, network_monitor: true };
const NONE: Features = Features { tun: false, network_monitor: false };

fn subnet() -> IpNet {
    IpNet::V4(Ipv4Net { addr: 0x0a00_0000, prefix_len: 24 })
}

fn default_v4() -> IpNet {
    IpNet::V4(Ipv4Net { addr: 0, prefix_len: 0 })
}

fn config(mode: TransportMode) -> Config<u8> {
    Config {
        transport_mode: mode,
        tcp_buffer_size: None,
        advertise_routes: vec![subnet()],
        advertise_exit_node: false,
        exit_node: Some(7),
        accept_routes: true,
        accept_dns: false,
        taildrop: false,
        network_monitor: false,
    }
}

type Started = Result<Runtime<u8>, Error<E>>;

fn run(config: Config<u8>, features: Features) -> (Vec<StartAction>, Started) {
    let mut startup: Startup<u8, E> = Runtime::spawn(config, features);
    let mut seen = vec![];
    while let StartStep::Perform(action) = startup.next() {
        seen.push(action);
        startup.report(Ok(()));
    }
    (seen, startup.finish())
}

fn up() -> Runtime<u8> {
    run(config(TransportMode::Netstack), NONE).1.unwrap()
}

fn up_tun() -> Runtime<u8> {
    run(config(TransportMode::Tun(TunConfig { mtu: None })), ALL).1.unwrap()
}

fn node(id: &str) -> Node {
    Node {
        stable_id: id.to_string(),
        hostname: id.to_string(),
        fqdn: None,
        tailnet: None,
        user_id: 1,
        ipv4: Ipv4Net { addr: 0x6440_0001, prefix_len: 32 },
        ipv6: Ipv6Net { addr: 0xfd7a, prefix_len: 128 },
        disco_key: None,
        derp_region: None,
        online: None,
        accepted_routes: vec![],
        attrs: vec![],
        can_share_files: false,
        file_sharing_target: false,
        peerapi: false,
    }
}

fn addr(ip: u32) -> SocketAddr {
    SocketAddr::V4(SocketAddrV4 { ip, port: 41641 })
}

fn peer(name: &'static str) -> StatusNode<&'static str> {
    StatusNode { node: name, cur_addr: None, relay: None }
}

#[test]
fn a_netstack_start_goes_through_its_actions_in_order() {
    let netstack = NetstackConfig { tcp_buffer_size: 262144, mtu: 1280 };
    let (seen, runtime) = run(config(TransportMode::Netstack), NONE);
    assert_eq!(
        seen,
        vec![
            StartAction::SpawnDataplane,
            StartAction::AskAppTransport,
            StartAction::AskForwarderTransport,
            StartAction::SpawnMultiderp,
            StartAction::SpawnDirect,
            StartAction::SpawnForwarder(netstack),
            StartAction::AskForwarderChannel,
            StartAction::SpawnRouteUpdater,
            StartAction::SpawnPacketFilter,
            StartAction::SpawnSourceFilter,
            StartAction::SpawnPeerTracker,
            StartAction::SpawnNetstack(netstack),
            StartAction::AskNetstackChannel,
            StartAction::AttachFallbackTcp,
            StartAction::SpawnMagicDns,
            StartAction::SpawnControl,
        ]
    );
    let runtime = runtime.unwrap();
    assert_eq!(runtime.app_path, AppPath::Netstack);
    assert_eq!(runtime.exit_node(), &Some(7));
    assert!(runtime.accept_routes());
    assert!(!runtime.accept_dns());
    assert_eq!(runtime.active_exit_node(), None);
    assert_eq!(runtime.device_state(), DeviceState::Connecting);
    assert_eq!(runtime.advertise.routes, vec![subnet()]);
    assert!(!runtime.advertise.exit_node);
    assert_eq!(runtime.prev_suggestion, None);
    assert!(!runtime.shutdown);
    assert!(!runtime.taildrop_reaper);
}

#[test]
fn a_tun_start_swaps_the_application_path_only() {
    let tun = TunConfig { mtu: Some(1400) };
    let mut cfg = config(TransportMode::Tun(tun));
    cfg.tcp_buffer_size = Some(65536);
    cfg.taildrop = true;
    cfg.network_monitor = true;
    let (seen, runtime) = run(cfg, ALL);
    assert_eq!(
        seen[5],
        StartAction::SpawnForwarder(NetstackConfig { tcp_buffer_size: 65536, mtu: 1400 })
    );
    assert_eq!(
        &seen[11..],
        &[
            StartAction::SpawnTun(tun),
            StartAction::SpawnControl,
            StartAction::SpawnTaildropReaper,
            StartAction::SpawnNetmonSupervisor,
        ]
    );
    let runtime = runtime.unwrap();
    assert_eq!(runtime.app_path, AppPath::Tun);
    assert!(runtime.taildrop_reaper);
}

#[test]
fn actions_take_the_handles_that_are_theirs() {
    let netstack = NetstackConfig { tcp_buffer_size: 262144, mtu: 1280 };
    let tun = TunConfig { mtu: None };
    assert_eq!(StartAction::SpawnForwarder(netstack).takes(), vec![Handle::ForwarderTransport]);
    assert_eq!(StartAction::SpawnNetstack(netstack).takes(), vec![Handle::AppTransport]);
    assert_eq!(
        StartAction::SpawnTun(tun).takes(),
        vec![Handle::AppTransport, Handle::ForwarderChannel]
    );
    assert_eq!(StartAction::SpawnMagicDns.takes(), vec![Handle::NetstackChannel]);
    assert_eq!(
        StartAction::SpawnRouteUpdater.takes(),
        vec![
            Handle::Multiderp,
            Handle::Direct,
            Handle::AppTransportId,
            Handle::ForwarderTransportId,
            Handle::ActiveExitWriter,
        ]
    );
    assert_eq!(StartAction::SpawnDataplane.takes(), vec![]);
    assert_eq!(
        StartAction::SpawnTaildropReaper.takes(),
        vec![Handle::TaildropStore, Handle::ShutdownReader]
    );
}

#[test]
fn a_build_without_tun_never_falls_back() {
    let (seen, runtime) = run(config(TransportMode::Tun(TunConfig { mtu: None })), NONE);
    assert_eq!(seen.len(), 11);
    assert_eq!(seen[10], StartAction::SpawnPeerTracker);
    assert_eq!(runtime.unwrap_err(), Error::Runtime(ErrorKind::TunUnavailable));
}

#[test]
fn a_build_without_network_monitor_fails_loudly() {
    let mut cfg = config(TransportMode::Netstack);
    cfg.network_monitor = true;
    let (seen, runtime) = run(cfg, NONE);
    assert_eq!(seen.last(), Some(&StartAction::SpawnControl));
    assert_eq!(runtime.unwrap_err(), Error::Runtime(ErrorKind::NetworkMonitorUnavailable));
}

#[test]
fn the_first_failed_request_ends_the_start() {
    let mut startup: Startup<u8, E> = Runtime::spawn(config(TransportMode::Netstack), NONE);
    while startup.next() != StartStep::Perform(StartAction::AskForwarderChannel) {
        startup.report(Ok(()));
    }
    startup.report(Err("mailbox closed"));
    assert_eq!(startup.next(), StartStep::Finish);
    assert_eq!(startup.finish().unwrap_err(), Error::Ask("mailbox closed"));
}

#[test]
fn operations_on_the_netstack_are_refused_in_tun_mode() {
    let tun = up_tun();
    let refused: Error<E> = Error::Runtime(ErrorKind::UnsupportedInTunMode);
    assert_eq!(tun.register_fallback_tcp_handler::<_, E>(1), Err(refused));
    assert_eq!(
        tun.channel::<E>(true).unwrap_err(),
        Error::Runtime(ErrorKind::UnsupportedInTunMode)
    );
    assert_eq!(
        tun.query_dns::<E>("host", 1).unwrap_err(),
        Error::Runtime(ErrorKind::UnsupportedInTunMode)
    );

    let runtime = up();
    assert_eq!(runtime.register_fallback_tcp_handler::<_, E>(1), Ok(1));
    assert_eq!(runtime.channel::<E>(false).unwrap_err(), Error::Runtime(ErrorKind::ActorGone));
    assert_eq!(runtime.channel::<E>(true).unwrap().reply::<_, E>(Ok(5)), Ok(5));
    assert_eq!(runtime.channel::<E>(true).unwrap().reply::<u8, E>(Err("x")), Err(Error::Ask("x")));
    let query = runtime.query_dns::<E>("host", 28).unwrap();
    assert_eq!(query, Query { name: "host".to_string(), qtype: 28 });
    assert_eq!(query.reply::<_, u8, E>(Ok(5)), Ok(5));
}

#[test]
fn a_query_to_a_responder_that_has_shut_down_finds_the_actor_gone() {
    let runtime = up();
    let ask = |e: SendError<u8, E>| {
        runtime.query_dns::<E>("host", 1).unwrap().reply::<u8, u8, E>(Err(e)).unwrap_err()
    };
    assert_eq!(ask(SendError::ActorNotRunning(1)), Error::Runtime(ErrorKind::ActorGone));
    assert_eq!(ask(SendError::ActorStopped), Error::Runtime(ErrorKind::ActorGone));
    assert_eq!(ask(SendError::MailboxFull(1)), Error::Ask(SendError::MailboxFull(1)));
    assert_eq!(ask(SendError::ActorRestarting(1)), Error::Ask(SendError::ActorRestarting(1)));
    assert_eq!(ask(SendError::Timeout(None)), Error::Ask(SendError::Timeout(None)));
    assert_eq!(ask(SendError::HandlerError("x")), Error::Ask(SendError::HandlerError("x")));
}

#[test]
fn preferences_are_in_force_whatever_the_broadcast_does() {
    let mut runtime = up();
    let gone = runtime.set_exit_node(None).tracker::<E>(false);
    assert_eq!(gone, Err(Error::Runtime(ErrorKind::ActorGone)));
    assert_eq!(runtime.exit_node(), &None);

    let asked = runtime.set_accept_routes(false).tracker::<E>(true).unwrap();
    assert_eq!(asked.reply(Err("stopped")), Err(Error::Ask("stopped")));
    assert!(!runtime.accept_routes());

    let asked = runtime.set_accept_dns(true).tracker::<E>(true).unwrap();
    assert_eq!(asked.reply::<E>(Ok(())), Ok(()));
    assert!(runtime.accept_dns());
}

#[test]
fn advertised_routes_go_to_the_forwarder_and_then_to_control() {
    let mut runtime = up();
    let update = runtime.set_advertise_exit_node(true);
    assert_eq!(update.routes, vec![subnet(), default_v4()]);
    let wire = update.reply::<E>(Ok(())).unwrap();
    assert_eq!(wire.routes, vec![subnet(), default_v4()]);
    assert_eq!(wire.reply::<E>(Ok(())), Ok(()));

    let update = runtime.set_advertise_routes(vec![]);
    assert_eq!(update.routes, vec![default_v4()]);
    assert_eq!(update.reply::<E>(Err("gone")).unwrap_err(), Error::Ask("gone"));
    assert!(runtime.advertise.exit_node);
    assert!(runtime.advertise.routes.is_empty());
}

#[test]
fn status_joins_each_peer_with_its_path() {
    let mut runtime = up();
    runtime.active_exit = Some("exit".to_string());
    let me = SelfStatus { node: peer("me"), tailnet: Some("net.ts.net".to_string()) };
    let asks = runtime.status().reply::<_, E>(Ok(Some(me)), true).unwrap();
    let asks = asks
        .reply::<E>(Ok(vec![(3, peer("c")), (1, peer("a")), (2, peer("b"))]))
        .unwrap();
    assert_eq!(asks.ids, vec![3, 1, 2]);
    let asks = asks.reply::<E>(Ok(HashMap::from([(1, addr(9))])));
    assert!(asks.asks());
    assert_eq!(asks.relay_ids, vec![3, 2]);
    let codes = HashMap::from([(1, "ams".to_string()), (2, "fra".to_string())]);
    let status = asks.reply::<_, E>(&runtime, Some(Ok(codes)));
    assert_eq!(
        status,
        Status {
            self_node: Some(peer("me")),
            peers: vec![
                peer("c"),
                StatusNode { node: "a", cur_addr: Some(addr(9)), relay: None },
                StatusNode { node: "b", cur_addr: None, relay: Some("fra".to_string()) },
            ],
            active_exit_node: Some("exit".to_string()),
            magic_dns_suffix: Some("net.ts.net".to_string()),
        }
    );
}

#[test]
fn status_does_without_paths_that_cannot_be_had() {
    let runtime = up();
    let asks = runtime.status().reply::<&'static str, E>(Ok(None), true).unwrap();
    let asks = asks.reply::<E>(Ok(vec![(1, peer("a"))])).unwrap();
    let asks = asks.reply::<E>(Err("direct gone"));
    assert_eq!(asks.relay_ids, vec![1]);
    let status = asks.reply::<_, E>(&runtime, Some(Err("derp gone")));
    assert_eq!(status.self_node, None);
    assert_eq!(status.magic_dns_suffix, None);
    assert_eq!(status.peers, vec![peer("a")]);

    let asks = runtime.status().reply::<&'static str, E>(Ok(None), true).unwrap();
    let asks = asks.reply::<E>(Ok(vec![(1, peer("a"))])).unwrap();
    let asks = asks.reply::<E>(Ok(HashMap::from([(1, addr(9))])));
    assert!(!asks.asks());
    let status = asks.reply::<_, E>(&runtime, None);
    assert_eq!(status.peers[0].cur_addr, Some(addr(9)));
}

#[test]
fn status_fails_with_the_first_request_that_does() {
    let runtime = up();
    let e = runtime.status().reply::<u8, E>(Err("control gone"), false).unwrap_err();
    assert_eq!(e, Error::Ask("control gone"));
    let e = runtime.status().reply::<u8, E>(Ok(None), false).unwrap_err();
    assert_eq!(e, Error::Runtime(ErrorKind::ActorGone));
    let asks = runtime.status().reply::<u8, E>(Ok(None), true).unwrap();
    assert_eq!(asks.reply::<E>(Err("gone")).unwrap_err(), Error::Ask("gone"));
}

#[test]
fn candidates_are_projected_from_every_peer() {
    let mut runtime = up();
    runtime.prev_suggestion = Some("old".to_string());
    let mut exit = node("n1");
    exit.fqdn = Some("exit.net.ts.net".to_string());
    exit.derp_region = Some(4);
    exit.online = Some(true);
    exit.accepted_routes =
        vec![subnet(), IpNet::V6(Ipv6Net { addr: 0, prefix_len: 0 })];
    exit.attrs = vec!["funnel".to_string(), "suggest-exit-node".to_string()];
    let asks = runtime.suggest_exit_node().reply::<_, E>(Ok(99), true).unwrap();
    let chooses = asks.reply::<_, E>(&runtime, "suggest-exit-node", Ok(vec![exit, node("n2")])).unwrap();
    assert_eq!(chooses.report, 99);
    assert_eq!(chooses.prev, Some("old".to_string()));
    assert_eq!(
        chooses.candidates,
        vec![
            ExitNodeCandidate {
                stable_id: "n1".to_string(),
                name: "exit.net.ts.net".to_string(),
                derp_region: Some(4),
                online: Some(true),
                advertises_exit_route: true,
                has_suggest_cap: true,
            },
            ExitNodeCandidate {
                stable_id: "n2".to_string(),
                name: "n2".to_string(),
                derp_region: None,
                online: None,
                advertises_exit_route: false,
                has_suggest_cap: false,
            },
        ]
    );
    let suggestion =
        ExitNodeSuggestion { stable_id: "n1".to_string(), name: "exit.net.ts.net".to_string() };
    let outcome = chooses.reply(&mut runtime, Ok(Some(suggestion)));
    assert_eq!(outcome.unwrap().unwrap().stable_id, "n1");
    assert_eq!(runtime.prev_suggestion, Some("n1".to_string()));
}

#[test]
fn stickiness_follows_the_last_choice() {
    let old = Some("old".to_string());
    let new = ExitNodeSuggestion { stable_id: "new".to_string(), name: "n".to_string() };
    assert_eq!(next_sticky(old.clone(), &Ok(Some(new))), Some("new".to_string()));
    assert_eq!(next_sticky(old.clone(), &Ok(None)), None);
    let none_yet = Err(SuggestExitNodeError::NoPreferredDerp);
    assert_eq!(next_sticky(old.clone(), &none_yet), old);
}

#[test]
fn suggestions_fail_with_the_request_that_does() {
    let runtime = up();
    let e = runtime.suggest_exit_node().reply::<u8, E>(Err("gone"), true).unwrap_err();
    assert_eq!(e, Error::Ask("gone"));
    let e = runtime.suggest_exit_node().reply::<u8, E>(Ok(1), false).unwrap_err();
    assert_eq!(e, Error::Runtime(ErrorKind::ActorGone));
    let asks = runtime.suggest_exit_node().reply::<u8, E>(Ok(1), true).unwrap();
    assert_eq!(asks.reply(&runtime, "suggest-exit-node", Err("late")).unwrap_err(), Error::Ask("late"));
}

#[test]
fn file_targets_are_filtered_and_sorted_by_name() {
    let mk = |id: &str, user_id: i64, target: bool, peerapi: bool| {
        let mut n = node(id);
        n.user_id = user_id;
        n.file_sharing_target = target;
        n.peerapi = peerapi;
        n
    };
    let mut named = mk("n5", 1, false, true);
    named.fqdn = Some("b.net.ts.net".to_string());
    let mut twin = mk("n6", 1, false, true);
    twin.fqdn = Some("b.net.ts.net".to_string());
    let found = build_file_targets(
        vec![
            mk("zebra", 1, false, true),
            named,
            mk("other-user", 2, false, true),
            mk("granted", 2, true, true),
            mk("silent", 1, true, false),
            twin,
            mk("ant", 1, false, true),
        ],
        1,
    );
    let ids: Vec<&str> = found.iter().map(|n| n.stable_id.as_str()).collect();
    assert_eq!(ids, vec!["ant", "n5", "n6", "granted", "zebra"]);
}

#[test]
fn file_targets_are_gated_on_this_node() {
    let runtime = up();
    let r = runtime.file_targets().reply::<E>(Ok(None), false).unwrap();
    assert!(matches!(r, Step::Done(v) if v.is_empty()));
    let r = runtime.file_targets().reply::<E>(Ok(Some(node("me"))), false).unwrap();
    assert!(matches!(r, Step::Done(v) if v.is_empty()));
    let mut me = node("me");
    me.can_share_files = true;
    me.user_id = 42;
    let e = runtime.file_targets().reply::<E>(Ok(Some(me)), false).unwrap_err();
    assert_eq!(e, Error::Runtime(ErrorKind::ActorGone));
    let mut me = node("me");
    me.can_share_files = true;
    me.user_id = 42;
    match runtime.file_targets().reply::<E>(Ok(Some(me)), true).unwrap() {
        Step::Ask(asks) => {
            assert_eq!(asks.user_id, 42);
            assert_eq!(asks.reply(Err("gone")).unwrap_err(), Error::Ask("gone"));
        }
        Step::Done(_) => panic!("the peers are to be asked for"),
    }
    let e = runtime.file_targets().reply::<E>(Err("gone"), true).unwrap_err();
    assert_eq!(e, Error::Ask("gone"));
}

#[test]
fn whois_scopes_capabilities_to_the_flow() {
    let runtime = up();
    let owner = || WhoIs { node: "n", cap_map: Vec::<u8>::new() };
    let asks = runtime.whois::<E>(addr(5), true).unwrap();
    let step = asks.reply::<_, _, E>(Ok(Some(owner()))).unwrap();
    let asks = match step {
        Step::Ask(asks) => asks,
        Step::Done(_) => panic!("this node is to be asked for"),
    };
    assert_eq!(asks.dst, IpAddr::V4(5));
    let mut me = node("me");
    me.attrs = vec!["cap/a".to_string(), "cap/b".to_string()];
    let caps = match asks.reply::<E>(Ok(Some(me))).unwrap() {
        Step::Ask(caps) => caps,
        Step::Done(_) => panic!("the capabilities are to be resolved"),
    };
    assert_eq!(caps.src, IpAddr::V4(0x6440_0001));
    assert_eq!(caps.dst, IpAddr::V4(5));
    assert!(caps.source_holds("cap/a"));
    assert!(caps.source_holds("cap/b"));
    assert!(!caps.source_holds("cap"));
    assert!(!caps.source_holds(""));
    assert_eq!(caps.reply(vec![8]), Some(WhoIs { node: "n", cap_map: vec![8] }));
}

#[test]
fn whois_picks_the_source_of_the_destinations_family() {
    let me = node("me");
    assert_eq!(me.addr_towards(IpAddr::V6(1)), IpAddr::V6(0xfd7a));
    assert_eq!(me.addr_towards(IpAddr::V4(1)), IpAddr::V4(0x6440_0001));
}

#[test]
fn whois_without_owner_or_netmap() {
    let runtime = up();
    let e = runtime.whois::<E>(addr(5), false).unwrap_err();
    assert_eq!(e, Error::Runtime(ErrorKind::ActorGone));
    let asks = runtime.whois::<E>(addr(5), true).unwrap();
    assert!(matches!(asks.reply::<u8, u8, E>(Ok(None)), Ok(Step::Done(None))));
    let asks = runtime.whois::<E>(addr(5), true).unwrap();
    assert_eq!(asks.reply::<u8, u8, E>(Err("gone")).unwrap_err(), Error::Ask("gone"));
    let asks = runtime.whois::<E>(addr(5), true).unwrap();
    let owner = WhoIs { node: 1u8, cap_map: 0u8 };
    match asks.reply::<_, _, E>(Ok(Some(owner))).unwrap() {
        Step::Ask(asks) => {
            let r = asks.reply::<E>(Ok(None)).unwrap();
            assert!(matches!(r, Step::Done(Some(w)) if w.node == 1 && w.cap_map == 0));
        }
        Step::Done(_) => panic!("this node is to be asked for"),
    }
}

#[test]
fn direct_paths_need_a_disco_key() {
    let runtime = up();
    let path = (addr(9), Duration::from_millis(12));
    let e = runtime.direct_path::<E>(IpAddr::V4(1), false).unwrap_err();
    assert_eq!(e, Error::Runtime(ErrorKind::ActorGone));
    let asks = runtime.direct_path::<E>(IpAddr::V4(1), true).unwrap();
    assert_eq!(asks.dst, IpAddr::V4(1));
    assert_eq!(asks.reply::<E>(Ok(None)), Ok(Step::Done(None)));
    let asks = runtime.direct_path::<E>(IpAddr::V4(1), true).unwrap();
    assert_eq!(asks.reply::<E>(Ok(Some(node("n")))), Ok(Step::Done(None)));
    let mut keyed = node("n");
    keyed.disco_key = Some([3; 32]);
    let asks = runtime.direct_path::<E>(IpAddr::V4(1), true).unwrap();
    match asks.reply::<E>(Ok(Some(keyed))).unwrap() {
        Step::Ask(asks) => {
            assert_eq!(asks.disco, [3; 32]);
            assert_eq!(asks.reply::<E>(Ok(Some(path))), Ok(Some(path)));
        }
        Step::Done(_) => panic!("the path is to be asked for"),
    }
}

#[test]
fn pings_are_sent_over_the_underlay() {
    let runtime = up();
    let timeout = Duration::from_secs(2);
    let path = (addr(9), Duration::from_millis(12));
    let mut keyed = node("n");
    keyed.disco_key = Some([3; 32]);
    let asks = runtime.ping_disco::<E>(IpAddr::V4(1), timeout, true).unwrap();
    let asks = match asks.reply::<E>(Ok(Some(keyed))).unwrap() {
        Step::Ask(asks) => asks,
        Step::Done(_) => panic!("the socket is to be asked for"),
    };
    let pings = match asks.reply::<_, E>(Ok(Some("sock"))).unwrap() {
        Step::Ask(pings) => pings,
        Step::Done(_) => panic!("the ping is to be sent"),
    };
    assert_eq!((pings.sock, pings.disco, pings.timeout), ("sock", [3; 32], timeout));
    assert_eq!(pings.reply::<u8, E>(Ok(Some(path))), Ok(Some(path)));
}

#[test]
fn pings_end_early_or_fail() {
    let runtime = up();
    let timeout = Duration::from_secs(2);
    let e = runtime.ping_disco::<E>(IpAddr::V4(1), timeout, false).unwrap_err();
    assert_eq!(e, Error::Runtime(ErrorKind::ActorGone));
    let asks = runtime.ping_disco::<E>(IpAddr::V4(1), timeout, true).unwrap();
    assert!(matches!(asks.reply::<E>(Ok(Some(node("n")))), Ok(Step::Done(None))));
    let mut keyed = node("n");
    keyed.disco_key = Some([3; 32]);
    let asks = runtime.ping_disco::<E>(IpAddr::V4(1), timeout, true).unwrap();
    match asks.reply::<E>(Ok(Some(keyed))).unwrap() {
        Step::Ask(asks) => {
            assert!(matches!(asks.reply::<u8, E>(Ok(None)), Ok(Step::Done(None))));
        }
        Step::Done(_) => panic!("the socket is to be asked for"),
    }
    let pings = tailnet_runtime::paths::Pings { sock: 1, disco: [3; 32], timeout };
    assert_eq!(pings.reply::<u8, E>(Err(1)), Err(Error::Runtime(ErrorKind::ReplyErr)));
    let pings = tailnet_runtime::paths::Pings { sock: 1, disco: [3; 32], timeout };
    assert_eq!(pings.reply::<u8, E>(Ok(None)), Ok(None));
}

#[test]
fn watchers_are_made_of_what_the_actors_hold() {
    let runtime = up();
    let e = runtime.watch_netmap::<E>(false).unwrap_err();
    assert_eq!(e, Error::Runtime(ErrorKind::ActorGone));
    assert_eq!(runtime.watch_netmap::<E>(true).unwrap().reply::<_, E>(Ok(1)), Ok(1));
    let e = runtime.watch_ipn_bus::<_, E>(3, false).unwrap_err();
    assert_eq!(e, Error::Runtime(ErrorKind::ActorGone));
    let asks = runtime.watch_ipn_bus::<_, E>(3, true).unwrap();
    let asks = asks.reply::<_, E>(Ok("peers")).unwrap();
    assert_eq!(
        asks.reply::<_, E>(Ok("browser")),
        Ok(BusSources { mask: 3, peers: "peers", browser: "browser" })
    );
    let asks = runtime.watch_ipn_bus::<_, E>(3, true).unwrap();
    assert_eq!(asks.reply::<u8, E>(Err("gone")).unwrap_err(), Error::Ask("gone"));
}

#[test]
fn plain_requests_carry_their_arguments() {
    let runtime = up();
    assert_eq!(runtime.fetch_id_token("aud".to_string()).audience, "aud");
    let dns = runtime.set_dns("n".to_string(), "v".to_string());
    assert_eq!(dns, SetDns { name: "n".to_string(), value: "v".to_string() });
    assert_eq!(runtime.tka_sign([4; 32]).node_key, [4; 32]);
    assert_eq!(runtime.tka_disable(vec![1]).disablement_secret, vec![1]);
    assert_eq!(runtime.tka_init(vec![2]).disablement_secret, vec![2]);
    assert_eq!(runtime.tka_log(9), TkaLog { limit: 9 });
    assert_eq!(runtime.get_certificate("a".to_string()).name, "a");
    let pair = GetCertPair { name: "a".to_string() };
    assert_eq!(runtime.cert_pair("a".to_string(), None), pair);
    assert_eq!(runtime.cert_pair("a".to_string(), Some(Duration::from_secs(1))), pair);
    assert_eq!(runtime.set_hostname("h".to_string()).hostname, "h");
    assert_eq!(runtime.install_capture(Some(1)), InstallCapture { hook: Some(1) });
    assert_eq!(runtime.rebind().reply::<E>(Err("x")), Err(Error::Ask("x")));
    assert_eq!(runtime.re_stun().reply::<E>(Ok(())), Ok(()));
}

#[test]
fn waiting_for_the_device_ends_with_a_typed_outcome() {
    let failed = |kind: FailureKind| {
        DeviceState::Failed(Failure { kind, text: "no".to_string() })
    };
    let mut runtime = up();
    assert_eq!(runtime.wait_until_running(), Step::Ask(AwaitsChange));
    runtime.state = DeviceState::Running;
    assert_eq!(runtime.wait_until_running(), Step::Done(Ok(())));

    let after = |state: DeviceState| AwaitsChange.reply(Some(state));
    assert_eq!(after(DeviceState::Running), Step::Done(Ok(())));
    assert_eq!(
        after(failed(FailureKind::AuthRejected)),
        Step::Done(Err(RegistrationError::AuthRejected))
    );
    assert_eq!(
        after(failed(FailureKind::NetworkUnreachable)),
        Step::Done(Err(RegistrationError::NetworkUnreachable))
    );
    assert_eq!(
        after(DeviceState::NeedsLogin("u".to_string())),
        Step::Done(Err(RegistrationError::NeedsLogin("u".to_string())))
    );
    for waiting in [
        DeviceState::Connecting,
        DeviceState::NeedsMachineAuth,
        DeviceState::Reauthenticating,
        DeviceState::Expired,
        DeviceState::Other("Paused".to_string()),
    ] {
        assert_eq!(after(waiting), Step::Ask(AwaitsChange));
    }
    assert_eq!(AwaitsChange.reply(None), Step::Done(Err(RegistrationError::Timeout)));
}

#[test]
fn graceful_shutdown_stops_the_bus_last_and_the_teardown_kills() {
    let mut cfg = config(TransportMode::Netstack);
    cfg.taildrop = true;
    let mut runtime = run(cfg, NONE).1.unwrap();
    assert_eq!(
        runtime.graceful_shutdown(),
        vec![
            ShutdownAction::StopGracefully(RootActor::Control),
            ShutdownAction::StopGracefully(RootActor::Dataplane),
            ShutdownAction::StopGracefully(RootActor::Bus),
            ShutdownAction::WaitForAll,
        ]
    );
    assert!(runtime.shutdown);
    assert_eq!(
        runtime.on_drop(),
        vec![
            DropAction::AbortReaper,
            DropAction::Kill(RootActor::Control),
            DropAction::Kill(RootActor::Dataplane),
            DropAction::Kill(RootActor::Bus),
        ]
    );
}

#[test]
fn a_dropped_runtime_stops_its_actors() {
    let mut runtime = up();
    assert_eq!(
        runtime.on_drop(),
        vec![
            DropAction::TryShutdown(RootActor::Control),
            DropAction::TryShutdown(RootActor::Dataplane),
            DropAction::TryShutdown(RootActor::Bus),
        ]
    );
    assert!(runtime.shutdown);
    assert_eq!(try_shutdown::<u8>(RootActor::Control, Ok(())), None);
    assert_eq!(
        try_shutdown(RootActor::Bus, Err("full")),
        Some(DropAction::Kill(RootActor::Bus))
    );
}

#[test]
fn only_a_timeout_makes_a_shutdown_late() {
    let timeout = Some(Duration::from_secs(1));
    assert!(graceful_outcome(None, true));
    assert!(graceful_outcome(timeout, true));
    assert!(!graceful_outcome(timeout, false));
}
