//! Supervision of a device by a long-running daemon.
//!
//! The daemon creates a device, publishes its status whenever it changes, and creates it anew once
//! it has reached a state that it will not leave by itself.
use vstd::prelude::*;

use crate::device_state::DeviceState;

verus! {

/// How long to wait before a device is created anew, in seconds.
pub const BACKOFF_SECS: u64 = 10;

/// How long to wait for a change before the status is published again, in seconds.
pub const REFRESH_SECS: u64 = 20;

/// One field of a published status; without a value it is null.
#[derive(Debug, PartialEq, Eq)]
pub struct Field {
    /// The name.
    pub key: &'static str,
    /// The value.
    pub value: Option<String>,
}

/// The values of one field.
#[verifier::ext_equal]
pub struct FieldView {
    /// The name.
    pub key: Seq<char>,
    /// The value.
    pub value: Option<Seq<char>>,
}

impl View for Field {
    type V = FieldView;

    open spec fn view(&self) -> FieldView {
        FieldView { key: self.key@, value: text_of(self.value) }
    }
}

/// The characters of an optional string.
pub open spec fn text_of(s: Option<String>) -> Option<Seq<char>> {
    match s {
        Some(s) => Some(s@),
        None => None,
    }
}

/// The values of a published status.
pub open spec fn field_views(fields: Seq<Field>) -> Seq<FieldView> {
    fields.map_values(|f: Field| f@)
}

/// A field that has a value.
pub open spec fn field(key: Seq<char>, value: Seq<char>) -> FieldView {
    FieldView { key, value: Some(value) }
}

/// The tailnet addresses of a device as text.
#[derive(Debug, PartialEq, Eq)]
pub struct TailnetIps {
    /// The IPv4 address.
    pub ipv4: String,
    /// The IPv6 address, where there is one.
    pub ipv6: Option<String>,
}

/// The name of a state.
pub open spec fn state_name(state: DeviceState) -> Seq<char> {
    match state {
        DeviceState::Connecting => "Connecting"@,
        DeviceState::NeedsLogin(_) => "NeedsLogin"@,
        DeviceState::NeedsMachineAuth => "NeedsMachineAuth"@,
        DeviceState::Reauthenticating => "Reauthenticating"@,
        DeviceState::Expired => "Expired"@,
        DeviceState::Failed(_) => "Failed"@,
        DeviceState::Running => "Running"@,
        DeviceState::Other(name) => name@,
    }
}

/// What is published beside the name of the state: where to log in, why it failed, or how a running
/// device is reached. Addresses that could not be had count as empty.
pub open spec fn details(
    state: DeviceState,
    ips: Option<TailnetIps>,
    hostname: Option<String>,
) -> Seq<FieldView> {
    match state {
        DeviceState::NeedsLogin(url) => seq![field("login_url"@, url@)],
        DeviceState::Failed(failure) => seq![field("error"@, failure.text@)],
        DeviceState::Running => seq![
            field(
                "ipv4"@,
                match ips {
                    Some(ips) => ips.ipv4@,
                    None => seq![],
                },
            ),
            FieldView {
                key: "ipv6"@,
                value: match ips {
                    Some(ips) => text_of(ips.ipv6),
                    None => None,
                },
            },
            FieldView { key: "hostname"@, value: text_of(hostname) },
        ],
        _ => seq![],
    }
}

/// The published status of a state.
pub open spec fn published(
    state: DeviceState,
    ips: Option<TailnetIps>,
    hostname: Option<String>,
) -> Seq<FieldView> {
    seq![field("state"@, state_name(state))] + details(state, ips, hostname)
}

/// What the daemon does once it has published.
#[derive(Debug, Clone, Copy, PartialEq, Eq, Structural)]
pub enum Next {
    /// Look at the state of the device.
    Observe,
    /// Wait for a change of the state, for so many seconds at most, then look again.
    Await(u64),
    /// Drop the device, wait for so many seconds, then create another.
    Recreate(u64),
}

fn name_of(state: &DeviceState) -> (r: String)
    ensures
        r@ == state_name(*state),
{
    match state {
        DeviceState::Connecting => "Connecting".to_owned(),
        DeviceState::NeedsLogin(_) => "NeedsLogin".to_owned(),
        DeviceState::NeedsMachineAuth => "NeedsMachineAuth".to_owned(),
        DeviceState::Reauthenticating => "Reauthenticating".to_owned(),
        DeviceState::Expired => "Expired".to_owned(),
        DeviceState::Failed(_) => "Failed".to_owned(),
        DeviceState::Running => "Running".to_owned(),
        DeviceState::Other(name) => name.clone(),
    }
}

/// The status to publish for a state. `ips` are the addresses of a running device.
pub fn status_fields(state: &DeviceState, ips: Option<TailnetIps>, hostname: &Option<String>) -> (r:
    Vec<Field>)
    ensures
        field_views(r@) == published(*state, ips, *hostname),
{
    let mut fields: Vec<Field> = Vec::new();
    fields.push(Field { key: "state", value: Some(name_of(state)) });
    match state {
        DeviceState::NeedsLogin(url) => {
            fields.push(Field { key: "login_url", value: Some(url.clone()) });
        },
        DeviceState::Failed(failure) => {
            fields.push(Field { key: "error", value: Some(failure.text.clone()) });
        },
        DeviceState::Running => {
            let (ipv4, ipv6) = match ips {
                Some(ips) => (ips.ipv4, ips.ipv6),
                None => (String::new(), None),
            };
            fields.push(Field { key: "ipv4", value: Some(ipv4) });
            fields.push(Field { key: "ipv6", value: ipv6 });
            fields.push(Field { key: "hostname", value: hostname.clone() });
        },
        _ => {},
    }
    assert(field_views(fields@) =~= published(*state, ips, *hostname));
    fields
}

/// What follows the creation of a device: it is looked at, or, where it could not be created, the
/// failure is published and it is tried again.
pub fn created(result: Result<(), String>) -> (r: (Option<Vec<Field>>, Next))
    ensures
        match result {
            Ok(_) => r == (None::<Vec<Field>>, Next::Observe),
            Err(reason) => {
                &&& r.0 matches Some(fields)
                &&& field_views(fields@) == seq![
                    field("state"@, "Failed"@),
                    field("error"@, reason@),
                ]
                &&& r.1 == Next::Recreate(BACKOFF_SECS)
            },
        },
{
    match result {
        Ok(_) => (None, Next::Observe),
        Err(reason) => {
            let mut fields: Vec<Field> = Vec::new();
            fields.push(Field { key: "state", value: Some("Failed".to_owned()) });
            fields.push(Field { key: "error", value: Some(reason) });
            assert(field_views(fields@) =~= seq![
                field("state"@, "Failed"@),
                field("error"@, reason@),
            ]);
            (Some(fields), Next::Recreate(BACKOFF_SECS))
        },
    }
}

/// What follows a state.
pub open spec fn next_after(state: DeviceState) -> Next {
    if state.spec_is_terminal() {
        Next::Recreate(BACKOFF_SECS)
    } else {
        Next::Await(REFRESH_SECS)
    }
}

/// What follows a look at the device: its status is published, and it is created anew once it has
/// reached a terminal state.
pub fn observed(state: &DeviceState, ips: Option<TailnetIps>, hostname: &Option<String>) -> (r: (
    Vec<Field>,
    Next,
))
    ensures
        field_views(r.0@) == published(*state, ips, *hostname),
        r.1 == next_after(*state),
{
    let fields = status_fields(state, ips, hostname);
    if state.is_terminal() {
        (fields, Next::Recreate(BACKOFF_SECS))
    } else {
        (fields, Next::Await(REFRESH_SECS))
    }
}

/// What the daemon sets of a node's configuration.
#[derive(Debug, PartialEq, Eq)]
pub struct NodeSettings {
    /// The host name to request.
    pub requested_hostname: Option<String>,
    /// Whether the node vanishes from its tailnet when the process stops.
    pub ephemeral: bool,
    /// The control server, where it is not the default one.
    pub control_url: Option<String>,
    /// Whether the keys of control may be fetched over plain HTTP.
    pub allow_http_key_fetch: bool,
}

/// The settings of a persistent node: keys may be fetched over plain HTTP if `allow_http` says so,
/// or if a control server is named whose URL has the scheme `http`.
pub fn persistent_node(
    hostname: Option<String>,
    control: Option<(String, String)>,
    allow_http: bool,
) -> (r: NodeSettings)
    ensures
        r.requested_hostname == hostname,
        !r.ephemeral,
        r.control_url == (match control {
            Some((url, scheme)) => Some(url),
            None => None,
        }),
        r.allow_http_key_fetch == (allow_http || (control matches Some((url, scheme)) && scheme@
            == "http"@)),
{
    let mut allow: bool = allow_http;
    let mut control_url: Option<String> = None;
    if let Some((url, scheme)) = control {
        if scheme == "http".to_owned() {
            allow = true;
        }
        control_url = Some(url);
    }
    NodeSettings {
        requested_hostname: hostname,
        ephemeral: false,
        control_url,
        allow_http_key_fetch: allow,
    }
}

/// The daemon never sits in a state that the device will not leave by itself, and never gives up a
/// device that may still come up.
pub proof fn law_daemon_heals_itself(state: DeviceState)
    ensures
        next_after(state) is Recreate <==> state is Failed || state is Expired,
        next_after(state) is Await <==> !(state is Failed || state is Expired),
{
}

/// Every published status says which state it is, first.
pub proof fn law_status_names_its_state(
    state: DeviceState,
    ips: Option<TailnetIps>,
    hostname: Option<String>,
)
    ensures
        published(state, ips, hostname).len() > 0,
        published(state, ips, hostname)[0] == field("state"@, state_name(state)),
{
}

/// What is published of each state, field by field.
pub proof fn law_published_fields(
    state: DeviceState,
    ips: Option<TailnetIps>,
    hostname: Option<String>,
)
    ensures
        ({
            let fields = published(state, ips, hostname);
            &&& fields[0].key == "state"@
            &&& state is Connecting ==> fields.len() == 1 && fields[0].value == Some(
                "Connecting"@,
            )
            &&& state matches DeviceState::NeedsLogin(url) ==> {
                &&& fields.len() == 2
                &&& fields[0].value == Some("NeedsLogin"@)
                &&& fields[1].key == "login_url"@
                &&& fields[1].value == Some(url@)
            }
            &&& state is NeedsMachineAuth ==> fields.len() == 1 && fields[0].value == Some(
                "NeedsMachineAuth"@,
            )
            &&& state is Reauthenticating ==> fields.len() == 1 && fields[0].value == Some(
                "Reauthenticating"@,
            )
            &&& state is Expired ==> fields.len() == 1 && fields[0].value == Some("Expired"@)
            &&& state matches DeviceState::Failed(failure) ==> {
                &&& fields.len() == 2
                &&& fields[0].value == Some("Failed"@)
                &&& fields[1].key == "error"@
                &&& fields[1].value == Some(failure.text@)
            }
            &&& state is Running ==> {
                &&& fields.len() == 4
                &&& fields[0].value == Some("Running"@)
                &&& fields[1].key == "ipv4"@
                &&& ips matches Some(ips) ==> fields[1].value == Some(ips.ipv4@)
                &&& ips is None ==> fields[1].value == Some(Seq::<char>::empty())
                &&& fields[2].key == "ipv6"@
                &&& ips matches Some(ips) ==> (ips.ipv6 matches Some(ipv6) ==> fields[2].value
                    == Some(ipv6@))
                &&& ips matches Some(ips) ==> (ips.ipv6 is None ==> fields[2].value is None)
                &&& ips is None ==> fields[2].value is None
                &&& fields[3].key == "hostname"@
                &&& hostname matches Some(name) ==> fields[3].value == Some(name@)
                &&& hostname is None ==> fields[3].value is None
            }
            &&& state matches DeviceState::Other(name) ==> fields.len() == 1 && fields[0].value
                == Some(name@)
        }),
{
}

/// The values of a field are those of the field, and a list has those of its fields, one for one.
pub proof fn law_field_values_are_the_fields(field: Field, fields: Seq<Field>)
    ensures
        field@.key == field.key@,
        field.value matches Some(value) ==> field@.value == Some(value@),
        field.value is None ==> field@.value is None,
        field_views(fields).len() == fields.len(),
        forall|i: int| 0 <= i < fields.len() ==> #[trigger] field_views(fields)[i] == fields[i]@,
{
}

/// A device that is down for good is created anew after ten seconds; any other is looked at again
/// after twenty at most.
pub proof fn law_daemon_pace(state: DeviceState)
    ensures
        state is Failed || state is Expired ==> next_after(state) == Next::Recreate(10),
        !(state is Failed || state is Expired) ==> next_after(state) == Next::Await(20),
{
}

} // verus!
