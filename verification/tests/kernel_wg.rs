//! The kernel interface: which peers reach it, and how it is configured.
use std::collections::HashMap;

use defguard_wireguard_rs::key::Key;
use tailnet_runtime::dataplane::{
    kernel_peers, mirror, DataplaneActor, KernelSettings, PeerNode, PeerState, StartStep, Tables,
    Topic, WgOp,
};
use tailnet_runtime::kernel_wg::{
    build_config, select_endpoint, sync, IpAddrMask, KernelPeer, SyncStep,
};
use tailnet_runtime::net::{
    IpAddr, IpNet, Ipv4Net, Ipv6Net, SocketAddr, SocketAddrV4, SocketAddrV6,
};

fn endpoint(text: &str) -> SocketAddr {
    match text.parse().unwrap() {
        core::net::SocketAddr::V4(a) => {
            SocketAddr::V4(SocketAddrV4 { ip: (*a.ip()).into(), port: a.port() })
        }
        core::net::SocketAddr::V6(a) => SocketAddr::V6(SocketAddrV6 {
            ip: (*a.ip()).into(),
            port: a.port(),
            flowinfo: a.flowinfo(),
            scope_id: a.scope_id(),
        }),
    }
}

fn cidr(a: [u8; 4], c: u8) -> IpAddrMask {
    IpAddrMask { ip: IpAddr::V4(u32::from_be_bytes(a)), cidr: c }
}

fn node(key: u8, underlay: Vec<SocketAddr>) -> PeerNode {
    PeerNode {
        node_key: [key; 32],
        ipv4: Ipv4Net { addr: u32::from_be_bytes([100, 64, 0, key]), prefix_len: 32 },
        ipv6: Ipv6Net { addr: 0xfd7a_115c_a1e0_u128 << 80 | u128::from(key), prefix_len: 128 },
        accepted_routes: vec![IpNet::V4(Ipv4Net {
            addr: u32::from_be_bytes([10, 0, key, 0]),
            prefix_len: 24,
        })],
        underlay_addresses: underlay,
    }
}

fn change(upserts: Vec<u32>, deletions: Vec<u32>) -> PeerState {
    let mut peers = HashMap::new();
    peers.insert(1, node(1, vec![]));
    peers.insert(2, node(2, vec![endpoint("203.0.113.5:41641"), endpoint("203.0.113.6:41641")]));
    PeerState { upserts, deletions, peers }
}

#[test]
fn select_endpoint_prefers_disco_best_addr_then_falls_back() {
    let underlay = [endpoint("198.51.100.7:41641")];
    let best: SocketAddr = endpoint("203.0.113.9:41641");
    // the verified direct path wins when present
    assert_eq!(select_endpoint(Some(best), &underlay), Some(best));
    // else fall back to the control-distributed candidate
    assert_eq!(select_endpoint(None, &underlay), Some(underlay[0]));
    // relay-only peer: no endpoint at all => excluded from the kernel path
    assert_eq!(select_endpoint(None, &[]), None);
}

#[test]
fn only_direct_endpoint_peers_reach_the_kernel() {
    let peers = vec![
        KernelPeer {
            public_key: [1; 32],
            allowed_ips: vec![cidr([100, 64, 0, 1], 32)],
            endpoint: None,
        },
        KernelPeer {
            public_key: [2; 32],
            allowed_ips: vec![cidr([100, 64, 0, 2], 32)],
            endpoint: Some(endpoint("203.0.113.5:41641")),
        },
    ];
    let cfg = build_config("wg-ts", [7; 32], 51820, &peers);
    assert_eq!(cfg.peers.len(), 1);
    assert_eq!(Key::new(cfg.peers[0].public_key), Key::new([2; 32]));
    assert_eq!(cfg.peers[0].endpoint, Some(endpoint("203.0.113.5:41641")));
}

#[test]
fn config_carries_name_port_key_and_allowed_ips() {
    let peers = vec![KernelPeer {
        public_key: [2; 32],
        allowed_ips: vec![cidr([100, 64, 0, 2], 32), cidr([10, 0, 0, 0], 8)],
        endpoint: Some(endpoint("[2001:db8::1]:41641")),
    }];
    let cfg = build_config("wg-ts", [7; 32], 51820, &peers);
    assert_eq!(cfg.name, "wg-ts");
    assert_eq!(cfg.port, 51820);
    assert!(cfg.addresses.is_empty());
    assert_eq!(cfg.mtu, None);
    assert_eq!(cfg.prvkey, "BwcHBwcHBwcHBwcHBwcHBwcHBwcHBwcHBwcHBwcHBwc=");
    assert_eq!(cfg.peers[0].allowed_ips, vec![cidr([100, 64, 0, 2], 32), cidr([10, 0, 0, 0], 8)]);
    assert_eq!(cfg.peers[0].endpoint, Some(endpoint("[2001:db8::1]:41641")));
}

#[test]
fn private_key_is_standard_base64() {
    let mut key = [0u8; 32];
    for (i, b) in key.iter_mut().enumerate() {
        *b = 255 - (i as u8) * 5;
    }
    let cfg = build_config("wg-ts", key, 51820, &[]);
    assert_eq!(cfg.prvkey, "//r18Ovm4dzX0s3Iw765tK+qpaCblpGMh4J9eHNuaWQ=");
    let zero = build_config("wg-ts", [0; 32], 51820, &[]);
    assert_eq!(zero.prvkey, "AAAAAAAAAAAAAAAAAAAAAAAAAAAAAAAAAAAAAAAAAAA=");
}

#[test]
fn a_failed_creation_does_not_stop_the_configuration() {
    let (cfg, step) = sync::<&str>("wg-ts", [7; 32], 51820, &[]);
    assert_eq!(cfg.name, "wg-ts");
    assert_eq!(step, SyncStep::Open);
    let step = step.next(Ok(()));
    assert_eq!(step, SyncStep::Create);
    let step = step.next(Err("exists"));
    assert_eq!(step, SyncStep::Configure);
    assert_eq!(step.next(Ok(())), SyncStep::Done(Ok(())));
}

#[test]
fn a_failed_open_or_configuration_is_what_the_sync_ends_with() {
    let (_, step) = sync::<&str>("wg-ts", [7; 32], 51820, &[]);
    assert_eq!(step.next(Err("no module")), SyncStep::Done(Err("no module")));
    assert_eq!(SyncStep::Configure.next(Err("denied")), SyncStep::Done(Err("denied")));
    assert_eq!(SyncStep::Done(Err("denied")).next(Ok(())), SyncStep::Done(Err("denied")));
}

#[test]
fn kernel_settings_fall_back_to_their_defaults() {
    let d = KernelSettings::from_env(None, None, None);
    assert_eq!(d.ifname, "wg-ts");
    assert_eq!(d.port, 51820);
    assert_eq!(d.private_key, [0; 32]);

    let s = KernelSettings::from_env(
        Some("wg9".to_string()),
        Some("+41641".to_string()),
        Some(vec![9; 32]),
    );
    assert_eq!(s.ifname, "wg9");
    assert_eq!(s.port, 41641);
    assert_eq!(s.private_key, [9; 32]);
}

#[test]
fn kernel_settings_ignore_what_is_malformed() {
    for bad in ["", "+", "-1", "4 2", "4294967296", "0x10"] {
        assert_eq!(KernelSettings::from_env(None, Some(bad.to_string()), None).port, 51820);
    }
    let max = KernelSettings::from_env(None, Some("4294967295".to_string()), None);
    assert_eq!(max.port, u32::MAX);
    for len in [0, 31, 33] {
        assert_eq!(KernelSettings::from_env(None, None, Some(vec![9; len])).private_key, [0; 32]);
    }
}

#[test]
fn changed_peers_are_projected_onto_the_kernel_path() {
    let peers = kernel_peers(&change(vec![2, 7, 1], vec![]));
    assert_eq!(peers.len(), 2);
    assert_eq!(peers[0].public_key, [2; 32]);
    assert_eq!(peers[0].endpoint, Some(endpoint("203.0.113.5:41641")));
    assert_eq!(
        peers[0].allowed_ips,
        vec![
            cidr([100, 64, 0, 2], 32),
            IpAddrMask { ip: IpAddr::V6(0xfd7a_115c_a1e0_u128 << 80 | 2), cidr: 128 },
            cidr([10, 0, 2, 0], 24),
        ]
    );
    assert_eq!(peers[1].public_key, [1; 32]);
    assert_eq!(peers[1].endpoint, None);
}

#[test]
fn relay_only_peers_are_not_mirrored() {
    let settings = KernelSettings::from_env(None, None, Some(vec![7; 32]));
    let (cfg, step) = mirror::<()>(&settings, &change(vec![1, 2], vec![]));
    assert_eq!(step, SyncStep::Open);
    assert_eq!(cfg.peers.len(), 1);
    assert_eq!(cfg.peers[0].public_key, [2; 32]);
    assert_eq!(cfg.prvkey, "BwcHBwcHBwcHBwcHBwcHBwcHBwcHBwcHBwcHBwcHBwc=");
}

#[test]
fn peer_changes_become_tunnel_operations() {
    let keepalive = Some(core::time::Duration::from_secs(25));
    let (actor, step) = DataplaneActor::on_start::<()>((), keepalive);
    assert_eq!(step, StartStep::Subscribe(Topic::PeerRoutes));
    let ops = actor.handle(&change(vec![1, 9, 2], vec![5, 1]));
    assert_eq!(ops.len(), 4);
    match ops[0] {
        WgOp::Upsert(id, config) => {
            assert_eq!(id, 1);
            assert_eq!(config.key, [1; 32]);
            assert_eq!(config.psk, [0; 32]);
            assert_eq!(config.persistent_keepalive_interval, keepalive);
        }
        WgOp::Remove(_) => panic!("upserts come first"),
    }
    assert!(matches!(ops[1], WgOp::Upsert(2, _)));
    assert!(matches!(ops[2], WgOp::Remove(5)));
    assert!(matches!(ops[3], WgOp::Remove(1)));
}

#[test]
fn one_change_leads_to_the_tunnel_and_then_to_the_kernel() {
    let (actor, _) = DataplaneActor::on_start::<()>((), None);
    let msg = change(vec![1, 2], vec![5]);
    let (ops, mirrored) = actor.handle_peers::<()>(&msg, None);
    assert_eq!(ops.len(), 3);
    assert!(mirrored.is_none());

    let settings = KernelSettings::from_env(None, None, Some(vec![7; 32]));
    let (ops, mirrored) = actor.handle_peers::<()>(&msg, Some(&settings));
    assert!(matches!(ops[0], WgOp::Upsert(1, _)));
    assert!(matches!(ops[1], WgOp::Upsert(2, _)));
    assert!(matches!(ops[2], WgOp::Remove(5)));
    let (cfg, step) = mirrored.unwrap();
    assert_eq!(step, SyncStep::Open);
    assert_eq!(cfg.name, "wg-ts");
    assert_eq!(cfg.port, 51820);
    assert_eq!(cfg.peers.len(), 1);
    assert_eq!(cfg.peers[0].public_key, [2; 32]);
}

#[test]
fn the_packet_loop_runs_behind_five_subscriptions() {
    let (_, mut step) = DataplaneActor::on_start::<&str>((), None);
    let mut topics = vec![];
    while let StartStep::Subscribe(topic) = step {
        topics.push(topic);
        step = StartStep::Subscribe(topic).next(Ok(()));
    }
    assert_eq!(
        topics,
        vec![
            Topic::PeerRoutes,
            Topic::SelfRoutes,
            Topic::PacketFilter,
            Topic::SourceFilter,
            Topic::Peers,
        ]
    );
    assert_eq!(step, StartStep::Run);
    let failed = StartStep::Subscribe(Topic::PacketFilter).next(Err("bus gone"));
    assert_eq!(failed, StartStep::Failed("bus gone"));
    assert_eq!(failed.next(Ok(())), StartStep::Failed("bus gone"));
}

#[test]
fn each_message_replaces_its_own_part_of_the_tables() {
    let tables = Tables {
        overlay_out: 1,
        underlay: 2,
        overlay_in: 3,
        packet_filter: 4,
        src_filter_in: 5,
        capture: None,
    };
    let (mut actor, _) = DataplaneActor::on_start::<()>(tables, None);
    actor.handle_peer_routes(10, 20);
    actor.handle_self_routes(30);
    actor.handle_packet_filter(40);
    actor.handle_source_filter(50);
    actor.install_capture(Some(60));
    assert_eq!(
        actor.dataplane,
        Tables {
            overlay_out: 10,
            underlay: 20,
            overlay_in: 30,
            packet_filter: 40,
            src_filter_in: 50,
            capture: Some(60),
        }
    );
    actor.install_capture(None);
    assert_eq!(actor.dataplane.capture, None);
    assert_eq!(actor.dataplane.overlay_out, 10);
    assert_eq!(actor.persistent_keepalive_interval, None);
}
