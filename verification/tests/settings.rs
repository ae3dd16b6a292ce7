//! Netstack sizing, advertised routes and flattened send errors.
use tailnet_runtime::control_rpc::{
    FetchIdToken, GetCertPair, GetCertificate, Logout, SetDns, SetHostname, TkaDisable, TkaInit,
    TkaLog, TkaSign,
};
use tailnet_runtime::delivery::{
    flatten_cert_send_err, flatten_logout_send_err, flatten_send_err, flatten_set_dns_send_err,
    flatten_tka_send_err, CertError, IdTokenError, IdTokenInternalErrorKind, LogoutError,
    LogoutInternalErrorKind, SendError, SetDnsError, SetDnsInternalErrorKind, TkaSyncError,
};
use tailnet_runtime::error::Error;
use tailnet_runtime::net::{BadPrefixLen, IpNet, Ipv4Net, Ipv6Net};
use tailnet_runtime::netstack::{
    netstack_config_from, NetstackConfig, TransportMode, TunConfig, DEFAULT_OVERLAY_MTU,
};
use tailnet_runtime::routes::{
    compose_advertised_routes, filter_advertise_routes, AdvertiseState,
};

fn net(text: &str) -> IpNet {
    match text.parse::<ipnet::IpNet>().unwrap() {
        ipnet::IpNet::V4(n) => {
            IpNet::V4(Ipv4Net { addr: n.addr().into(), prefix_len: n.prefix_len() })
        }
        ipnet::IpNet::V6(n) => {
            IpNet::V6(Ipv6Net { addr: n.addr().into(), prefix_len: n.prefix_len() })
        }
    }
}

/// `None` must leave the netstack's own default TCP window in place (the 256 KiB throughput
/// default), and must not silently coerce to some other value.
#[test]
fn netstack_config_none_uses_netstack_default() {
    let default = NetstackConfig::default();
    let built = netstack_config_from(None, None);
    assert_eq!(
        built.tcp_buffer_size, default.tcp_buffer_size,
        "None must inherit the netstack default TCP buffer size"
    );
    assert_eq!(built.tcp_buffer_size, 256 * 1024);
}

#[test]
fn netstack_config_mtu_defaults_to_overlay_not_generic_1500() {
    let built = netstack_config_from(None, None);
    assert_eq!(
        built.mtu,
        usize::from(DEFAULT_OVERLAY_MTU),
        "netstack MTU must default to the 1280 overlay MTU, not the 1500 netstack default"
    );
    assert_ne!(built.mtu, 1500, "must not leave the generic 1500 default");
}

#[test]
fn netstack_config_honors_explicit_mtu_and_rejects_zero() {
    // An explicit (control-supplied) MTU is honored verbatim.
    assert_eq!(netstack_config_from(None, Some(1400)).mtu, 1400);
    // A stray 0 is not a usable MTU; fall back to the overlay default (mirrors the TUN).
    assert_eq!(
        netstack_config_from(None, Some(0)).mtu,
        usize::from(DEFAULT_OVERLAY_MTU)
    );
}

#[test]
fn netstack_config_overlay_mtu_matches_tun_default() {
    assert_eq!(
        DEFAULT_OVERLAY_MTU, 1280,
        "overlay MTU must match the TUN device default (tun_config_from_control)"
    );
}

/// `Some(n)` must override the TCP window, reaching the config that both netstacks are built from.
#[test]
fn netstack_config_some_overrides_buffer() {
    let built = netstack_config_from(Some(64 * 1024), None);
    assert_eq!(
        built.tcp_buffer_size,
        64 * 1024,
        "Some(n) must override the TCP buffer size that both netstacks use"
    );
}

#[test]
fn only_a_tun_configures_an_mtu() {
    assert_eq!(TransportMode::Netstack.configured_mtu(), None);
    assert_eq!(TransportMode::Tun(TunConfig { mtu: Some(1400) }).configured_mtu(), Some(1400));
    assert_eq!(TransportMode::Tun(TunConfig { mtu: None }).configured_mtu(), None);
}

#[test]
fn outer_datagram_fits_a_physical_path() {
    assert!(usize::from(DEFAULT_OVERLAY_MTU) + 32 + 8 + 20 <= 1500);
}

/// The wire and the forwarder must be fed the IDENTICAL filtered set: IPv4-only (IPv6 dropped under
/// the IPv6-off posture), deduplicated, order preserved.
#[test]
fn filter_advertise_routes_keeps_v4_dedups_drops_v6() {
    let v4a = net("10.0.0.0/24");
    let v4b = net("192.168.1.0/24");
    let v6 = net("2001:db8::/32");

    // Mixed input with a duplicate v4 and a v6 prefix.
    let out = filter_advertise_routes(vec![v4a, v6, v4b, v4a]);

    assert_eq!(
        out,
        vec![v4a, v4b],
        "v6 dropped, duplicate v4 collapsed, first-occurrence order preserved"
    );
}

/// An all-IPv6 request filters to empty rather than erroring.
#[test]
fn filter_advertise_routes_all_v6_is_empty() {
    let v6 = net("2001:db8::/32");
    assert!(filter_advertise_routes(vec![v6]).is_empty());
}

/// The exit-node `0.0.0.0/0` is folded onto the filtered subnet routes when (and only when) the
/// exit-node flag is set. The two preferences are independent.
#[test]
fn compose_advertised_routes_folds_exit_node() {
    let subnet = net("10.0.0.0/24");
    let default_v4 = net("0.0.0.0/0");

    // Exit node off: just the (filtered) subnet routes.
    assert_eq!(
        compose_advertised_routes(vec![subnet], false),
        vec![subnet],
        "exit-node off => no default route"
    );
    // Exit node on: subnet routes PLUS 0.0.0.0/0.
    assert_eq!(
        compose_advertised_routes(vec![subnet], true),
        vec![subnet, default_v4],
        "exit-node on => 0.0.0.0/0 appended"
    );
    // Exit node on with NO subnet routes: just the default route.
    assert_eq!(
        compose_advertised_routes(vec![], true),
        vec![default_v4],
        "exit-node alone advertises only 0.0.0.0/0"
    );
    // Idempotent: an explicit 0.0.0.0/0 already in the routes isn't duplicated by the fold.
    assert_eq!(
        compose_advertised_routes(vec![default_v4], true),
        vec![default_v4],
        "the exit-node fold dedups against an explicit default route"
    );
}

#[test]
fn host_bits_make_a_different_prefix() {
    let a = net("10.0.0.1/24");
    let b = net("10.0.0.0/24");
    assert_eq!(filter_advertise_routes(vec![a, b, a]), vec![a, b]);
}

#[test]
fn composing_twice_changes_nothing() {
    let once = compose_advertised_routes(
        vec![net("10.0.0.0/24"), net("2001:db8::/32"), net("10.0.0.0/24")],
        true,
    );
    assert_eq!(compose_advertised_routes(once.clone(), true), once);
}

#[test]
fn advertise_setters_compose() {
    let subnet = net("10.0.0.0/24");
    let default_v4 = net("0.0.0.0/0");
    let mut adv = AdvertiseState::default();
    assert_eq!(adv.set_exit_node(true), vec![default_v4]);
    assert_eq!(adv.set_routes(vec![subnet]), vec![subnet, default_v4]);
    assert_eq!(adv.set_exit_node(false), vec![subnet]);
    assert_eq!(adv.set_routes(vec![]), vec![]);
}

#[test]
fn prefix_lengths_end_at_the_width_of_the_address() {
    assert_eq!(Ipv4Net::new(0x0a00_0001, 24), Ok(Ipv4Net { addr: 0x0a00_0001, prefix_len: 24 }));
    assert_eq!(Ipv4Net::new(0, 32), Ok(Ipv4Net { addr: 0, prefix_len: 32 }));
    assert_eq!(Ipv4Net::new(0, 33), Err(BadPrefixLen));
    assert_eq!(Ipv4Net::new(0, 255), Err(BadPrefixLen));
}

/// A `HandlerError` carries the real `IdTokenError` from the RPC handler and must pass through
/// verbatim, not be flattened to a generic network error.
#[test]
fn flatten_send_err_handler_error_passes_through() {
    let inner = IdTokenError::Internal(IdTokenInternalErrorKind::Utf8);
    assert!(matches!(inner, IdTokenError::Internal(_)));
    let e: SendError<FetchIdToken, IdTokenError> = SendError::HandlerError(inner);
    assert_eq!(flatten_send_err(e), inner);
}

/// A non-handler send failure (actor stopped) is a delivery problem, not an RPC result, so it must
/// collapse to a transient `NetworkError`.
#[test]
fn flatten_send_err_actor_stopped_is_network_error() {
    let e: SendError<FetchIdToken, IdTokenError> = SendError::ActorStopped;
    assert_eq!(flatten_send_err(e), IdTokenError::NetworkError);
}

/// `ActorNotRunning` (the message bounces back undelivered) is likewise a delivery failure.
#[test]
fn flatten_send_err_actor_not_running_is_network_error() {
    let e: SendError<FetchIdToken, IdTokenError> = SendError::ActorNotRunning(FetchIdToken {
        audience: "sts.amazonaws.com".to_string(),
    });
    assert_eq!(flatten_send_err(e), IdTokenError::NetworkError);
}

#[test]
fn flatten_logout_send_err_handler_error_passes_through() {
    let inner = LogoutError::Internal(LogoutInternalErrorKind::Http);
    assert!(matches!(inner, LogoutError::Internal(_)));
    let e: SendError<Logout, LogoutError> = SendError::HandlerError(inner);
    assert_eq!(flatten_logout_send_err(e), inner);
}

#[test]
fn flatten_logout_send_err_actor_stopped_is_network_error() {
    let e: SendError<Logout, LogoutError> = SendError::ActorStopped;
    assert_eq!(flatten_logout_send_err(e), LogoutError::NetworkError);
}

#[test]
fn flatten_set_dns_send_err_handler_error_passes_through() {
    let inner = SetDnsError::Internal(SetDnsInternalErrorKind::Http);
    assert!(matches!(inner, SetDnsError::Internal(_)));
    let e: SendError<SetDns, SetDnsError> = SendError::HandlerError(inner);
    assert_eq!(flatten_set_dns_send_err(e), inner);
}

#[test]
fn flatten_set_dns_send_err_actor_stopped_is_network_error() {
    let e: SendError<SetDns, SetDnsError> = SendError::ActorStopped;
    assert_eq!(flatten_set_dns_send_err(e), SetDnsError::NetworkError);
}

#[test]
fn flatten_tka_send_err_handler_error_passes_through() {
    let e: SendError<TkaSign, TkaSyncError> = SendError::HandlerError(TkaSyncError::Unsupported);
    assert_eq!(flatten_tka_send_err(e), TkaSyncError::Unsupported);
}

#[test]
fn flatten_tka_send_err_actor_stopped_is_network_error() {
    let e: SendError<TkaSign, TkaSyncError> = SendError::ActorStopped;
    assert_eq!(flatten_tka_send_err(e), TkaSyncError::NetworkError);
}

/// The same flatten works for the `TkaDisable` message type.
#[test]
fn flatten_tka_send_err_works_for_disable() {
    let e: SendError<TkaDisable, TkaSyncError> = SendError::HandlerError(TkaSyncError::Unsupported);
    assert_eq!(flatten_tka_send_err(e), TkaSyncError::Unsupported);
}

#[test]
fn every_failure_to_deliver_is_a_network_error() {
    let failures: Vec<SendError<u8, IdTokenError>> = vec![
        SendError::ActorNotRunning(1),
        SendError::ActorStopped,
        SendError::ActorRestarting(1),
        SendError::MailboxFull(1),
        SendError::Timeout(None),
        SendError::Timeout(Some(1)),
    ];
    for e in failures {
        assert_eq!(flatten_send_err(e), IdTokenError::NetworkError);
    }
}

#[test]
fn certificate_requests_that_are_not_handled_are_io_errors() {
    let gone: SendError<GetCertificate, CertError> = SendError::ActorStopped;
    assert_eq!(
        flatten_cert_send_err(gone),
        CertError::Io("control runner unavailable for certificate issuance".to_string())
    );
    let own: SendError<GetCertificate, CertError> =
        SendError::HandlerError(CertError::Issuance("501".to_string()));
    assert_eq!(flatten_cert_send_err(own), CertError::Issuance("501".to_string()));
}

#[test]
fn control_requests_answer_with_the_handlers_result() {
    assert_eq!(FetchIdToken::reply(Ok("jwt".to_string())), Ok("jwt".to_string()));
    assert_eq!(
        FetchIdToken::reply(Err(SendError::Timeout(None))),
        Err(IdTokenError::NetworkError)
    );
    assert_eq!(Logout::reply(Ok(())), Ok(()));
    assert_eq!(
        Logout::reply(Err(SendError::MailboxFull(Logout))),
        Err(LogoutError::NetworkError)
    );
    assert_eq!(SetDns::reply(Ok(())), Ok(()));
    assert_eq!(
        SetDns::reply(Err(SendError::HandlerError(SetDnsError::NetworkError))),
        Err(SetDnsError::NetworkError)
    );
    assert_eq!(TkaSign::reply(Ok(())), Ok(()));
    assert_eq!(
        TkaDisable::reply(Err(SendError::HandlerError(TkaSyncError::Unsupported))),
        Err(TkaSyncError::Unsupported)
    );
    assert_eq!(
        TkaInit::reply(Err(SendError::ActorStopped)),
        Err(TkaSyncError::NetworkError)
    );
    assert_eq!(
        GetCertPair::reply(Ok(("crt".to_string(), "key".to_string()))),
        Ok(("crt".to_string(), "key".to_string()))
    );
    assert_eq!(
        GetCertificate::reply::<u8>(Err(SendError::HandlerError(CertError::Io("x".to_string())))),
        Err(CertError::Io("x".to_string()))
    );
    assert_eq!(TkaLog::reply::<_, u8>(Ok(vec![1, 2])), Ok(vec![1, 2]));
    assert_eq!(SetHostname::reply(Err(3)), Err(Error::Ask(3)));
}
