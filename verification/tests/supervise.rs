//! The daemon: what it publishes, and when it starts over.
use tailnet_runtime::device_state::{DeviceState, Failure, FailureKind};
use tailnet_runtime::supervise::{
    created, observed, persistent_node, status_fields, Field, Next, TailnetIps,
};

fn text(fields: &[Field]) -> Vec<(&str, Option<&str>)> {
    fields.iter().map(|f| (f.key, f.value.as_deref())).collect()
}

#[test]
fn a_running_device_publishes_its_addresses() {
    let ips = TailnetIps { ipv4: "100.64.0.1".to_string(), ipv6: None };
    let host = Some("sft1200".to_string());
    let (fields, next) = observed(&DeviceState::Running, Some(ips), &host);
    assert_eq!(
        text(&fields),
        vec![
            ("state", Some("Running")),
            ("ipv4", Some("100.64.0.1")),
            ("ipv6", None),
            ("hostname", Some("sft1200")),
        ]
    );
    assert_eq!(next, Next::Await(20));
}

#[test]
fn addresses_that_cannot_be_had_are_empty() {
    let fields = status_fields(&DeviceState::Running, None, &None);
    assert_eq!(
        text(&fields),
        vec![("state", Some("Running")), ("ipv4", Some("")), ("ipv6", None), ("hostname", None)]
    );
}

#[test]
fn every_state_has_its_status() {
    let plain = [
        (DeviceState::Connecting, "Connecting"),
        (DeviceState::NeedsMachineAuth, "NeedsMachineAuth"),
        (DeviceState::Reauthenticating, "Reauthenticating"),
        (DeviceState::Expired, "Expired"),
        (DeviceState::Other("Paused".to_string()), "Paused"),
    ];
    for (state, name) in plain {
        assert_eq!(text(&status_fields(&state, None, &None)), vec![("state", Some(name))]);
    }
    let login = DeviceState::NeedsLogin("https://login".to_string());
    assert_eq!(
        text(&status_fields(&login, None, &None)),
        vec![("state", Some("NeedsLogin")), ("login_url", Some("https://login"))]
    );
    let failed = DeviceState::Failed(Failure {
        kind: FailureKind::NetworkUnreachable,
        text: "unreachable".to_string(),
    });
    assert_eq!(
        text(&status_fields(&failed, None, &None)),
        vec![("state", Some("Failed")), ("error", Some("unreachable"))]
    );
}

#[test]
fn terminal_states_start_over() {
    let failed = DeviceState::Failed(Failure {
        kind: FailureKind::NetworkUnreachable,
        text: "unreachable".to_string(),
    });
    assert_eq!(observed(&failed, None, &None).1, Next::Recreate(10));
    assert_eq!(observed(&DeviceState::Expired, None, &None).1, Next::Recreate(10));
    assert_eq!(observed(&DeviceState::Connecting, None, &None).1, Next::Await(20));
    let login = DeviceState::NeedsLogin("u".to_string());
    assert_eq!(observed(&login, None, &None).1, Next::Await(20));
    assert_eq!(login.clone(), login);
}

#[test]
fn a_device_that_cannot_be_created_is_tried_again() {
    let (fields, next) = created(Err("no key file".to_string()));
    assert_eq!(
        text(&fields.unwrap()),
        vec![("state", Some("Failed")), ("error", Some("no key file"))]
    );
    assert_eq!(next, Next::Recreate(10));
    assert_eq!(created(Ok(())), (None, Next::Observe));
}

#[test]
fn plain_http_control_allows_plain_key_fetch() {
    let url = |s: &str| Some((format!("{s}://control"), s.to_string()));
    let http = persistent_node(None, url("http"), false);
    assert!(http.allow_http_key_fetch);
    assert!(!http.ephemeral);
    assert_eq!(http.control_url, Some("http://control".to_string()));
    let https = persistent_node(Some("h".to_string()), url("https"), false);
    assert!(!https.allow_http_key_fetch);
    assert_eq!(https.requested_hostname, Some("h".to_string()));
    assert!(persistent_node(None, url("https"), true).allow_http_key_fetch);
    assert!(!persistent_node(None, None, false).allow_http_key_fetch);
}
