//! The connection state of a device, and waiting for it to come up.
use vstd::prelude::*;

use crate::ask::Step;
use crate::runtime::Runtime;

verus! {

/// What kind of failure ended a registration.
#[derive(Debug, Clone, Copy, PartialEq, Eq, Structural)]
pub enum FailureKind {
    /// The auth key is bad, expired or unknown. Permanent: the node has to be paired anew.
    AuthRejected,
    /// Control is unreachable. Transient: a retry may succeed.
    NetworkUnreachable,
}

/// Why a registration failed.
#[derive(Debug, PartialEq, Eq)]
pub struct Failure {
    /// The kind of failure.
    pub kind: FailureKind,
    /// What a user is told.
    pub text: String,
}

/// Why a device did not come up.
#[derive(Debug, PartialEq, Eq)]
pub enum RegistrationError {
    /// The auth key is bad, expired or unknown.
    AuthRejected,
    /// A user has to authorize the node at this URL. The device comes up once they have.
    NeedsLogin(String),
    /// Control is unreachable.
    NetworkUnreachable,
    /// The node key has expired.
    KeyExpired,
    /// No settled state was reached in time.
    Timeout,
}

/// The connection state of a device.
#[derive(Debug, PartialEq, Eq)]
pub enum DeviceState {
    /// Registration is under way.
    Connecting,
    /// A user has to authorize the node at this URL.
    NeedsLogin(String),
    /// An admin has to approve the machine.
    NeedsMachineAuth,
    /// The node renews its key.
    Reauthenticating,
    /// The node key has expired.
    Expired,
    /// Registration failed.
    Failed(Failure),
    /// The node is part of its tailnet.
    Running,
    /// A state without a meaning of its own here, by its name.
    Other(String),
}

impl Clone for DeviceState {
    fn clone(&self) -> (r: DeviceState)
        ensures
            r == *self,
    {
        match self {
            DeviceState::Connecting => DeviceState::Connecting,
            DeviceState::NeedsLogin(url) => DeviceState::NeedsLogin(url.clone()),
            DeviceState::NeedsMachineAuth => DeviceState::NeedsMachineAuth,
            DeviceState::Reauthenticating => DeviceState::Reauthenticating,
            DeviceState::Expired => DeviceState::Expired,
            DeviceState::Failed(failure) => DeviceState::Failed(
                Failure { kind: failure.kind, text: failure.text.clone() },
            ),
            DeviceState::Running => DeviceState::Running,
            DeviceState::Other(name) => DeviceState::Other(name.clone()),
        }
    }
}

impl DeviceState {
    /// Whether the device will never leave this state by itself.
    pub open spec fn spec_is_terminal(self) -> bool {
        self is Failed || self is Expired
    }

    /// Whether the device will never leave this state by itself: it has failed, or its key has
    /// expired.
    pub fn is_terminal(&self) -> (r: bool)
        ensures
            r == self.spec_is_terminal(),
    {
        match self {
            DeviceState::Failed(_) => true,
            DeviceState::Expired => true,
            _ => false,
        }
    }

    /// How a wait for the device to come up ends in this state, if it does.
    pub open spec fn settled(self) -> Option<Result<(), RegistrationError>> {
        match self {
            DeviceState::Running => Some(Ok(())),
            DeviceState::NeedsLogin(url) => Some(Err(RegistrationError::NeedsLogin(url))),
            DeviceState::Failed(failure) => Some(
                Err(
                    match failure.kind {
                        FailureKind::AuthRejected => RegistrationError::AuthRejected,
                        FailureKind::NetworkUnreachable => RegistrationError::NetworkUnreachable,
                    },
                ),
            ),
            _ => None,
        }
    }

    /// How a wait for the device to come up goes on in this state.
    pub open spec fn wait_step(self) -> Step<AwaitsChange, Result<(), RegistrationError>> {
        match self.settled() {
            Some(result) => Step::Done(result),
            None => Step::Ask(AwaitsChange),
        }
    }

    fn wait(&self) -> (r: Step<AwaitsChange, Result<(), RegistrationError>>)
        ensures
            r == self.wait_step(),
    {
        match self {
            DeviceState::Running => Step::Done(Ok(())),
            DeviceState::NeedsLogin(url) => Step::Done(
                Err(RegistrationError::NeedsLogin(url.clone())),
            ),
            DeviceState::Failed(failure) => match failure.kind {
                FailureKind::AuthRejected => Step::Done(Err(RegistrationError::AuthRejected)),
                FailureKind::NetworkUnreachable => Step::Done(
                    Err(RegistrationError::NetworkUnreachable),
                ),
            },
            _ => Step::Ask(AwaitsChange),
        }
    }
}

/// A wait for the device to come up that wants to see the next state.
#[derive(Debug, PartialEq, Eq)]
pub struct AwaitsChange;

impl AwaitsChange {
    /// How the wait goes on with the next state, or with none in time.
    pub open spec fn after(self, change: Option<DeviceState>) -> Step<
        AwaitsChange,
        Result<(), RegistrationError>,
    > {
        match change {
            Some(state) => state.wait_step(),
            None => Step::Done(Err(RegistrationError::Timeout)),
        }
    }

    /// Goes on with the next state, or ends where none came in time.
    pub fn reply(self, change: Option<DeviceState>) -> (r: Step<
        AwaitsChange,
        Result<(), RegistrationError>,
    >)
        ensures
            r == self.after(change),
    {
        match change {
            Some(state) => state.wait(),
            None => Step::Done(Err(RegistrationError::Timeout)),
        }
    }
}

impl<S> Runtime<S> {
    /// Wait until the device finishes registering.
    ///
    /// Ends with `Ok(())` once the device is running, and with a typed error otherwise: a rejected
    /// auth key, an interactive login that has to be made (the URL is returned eagerly rather than
    /// waited for), an unreachable control, or no settled state in time. Every other state is
    /// waited out.
    pub fn wait_until_running(&self) -> (r: Step<AwaitsChange, Result<(), RegistrationError>>)
        ensures
            r == self.state.wait_step(),
    {
        self.state.wait()
    }
}

/// The wait succeeds in exactly one state, and never reports an expired key: a key expires only
/// after the device has come up.
pub proof fn law_wait_outcomes(state: DeviceState)
    ensures
        state.wait_step() == Step::<AwaitsChange, Result<(), RegistrationError>>::Done(Ok(()))
            <==> state is Running,
        state.wait_step() is Ask <==> !(state is Running || state is NeedsLogin
            || state is Failed),
        state.wait_step() matches Step::Done(Err(e)) ==> !(e is KeyExpired) && !(e is Timeout),
{
}

/// A wait that no settled state ends in time times out, and no other does.
pub proof fn law_wait_times_out(change: Option<DeviceState>)
    ensures
        AwaitsChange.after(change) == Step::<AwaitsChange, Result<(), RegistrationError>>::Done(
            Err(RegistrationError::Timeout),
        ) <==> change is None,
{
}

/// How each settled state ends the wait: with success, with the URL of the login as it is, or with
/// the kind of failure.
pub proof fn law_settled_states(url: String, text: String)
    ensures
        DeviceState::Running.settled() == Some(Ok::<(), RegistrationError>(())),
        DeviceState::NeedsLogin(url).settled() == Some(
            Err::<(), _>(RegistrationError::NeedsLogin(url)),
        ),
        DeviceState::Failed(Failure { kind: FailureKind::AuthRejected, text }).settled() == Some(
            Err::<(), _>(RegistrationError::AuthRejected),
        ),
        DeviceState::Failed(Failure { kind: FailureKind::NetworkUnreachable, text }).settled()
            == Some(Err::<(), _>(RegistrationError::NetworkUnreachable)),
        DeviceState::Connecting.settled() is None,
        DeviceState::NeedsMachineAuth.settled() is None,
        DeviceState::Reauthenticating.settled() is None,
        DeviceState::Expired.settled() is None,
        DeviceState::Other(text).settled() is None,
{
}

/// The wait ends in a state exactly as that state is settled, at once and after a change alike.
pub proof fn law_wait_follows_the_state(state: DeviceState, waits: AwaitsChange)
    ensures
        state.settled() matches Some(result) ==> state.wait_step() == Step::<
            AwaitsChange,
            Result<(), RegistrationError>,
        >::Done(result),
        state.settled() is None ==> state.wait_step() is Ask,
        waits.after(Some(state)) == state.wait_step(),
        state.spec_is_terminal() <==> state is Failed || state is Expired,
{
}

} // verus!
