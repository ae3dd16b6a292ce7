//! Failed requests to actors, and what a caller of a control RPC gets to see of them.
use vstd::prelude::*;

verus! {

/// Why a request of type `M` to an actor, whose handler fails with `E`, brought no answer.
#[derive(Debug, PartialEq, Eq)]
pub enum SendError<M, E> {
    /// The actor isn't running.
    ActorNotRunning(M),
    /// The actor panicked or was stopped before it replied.
    ActorStopped,
    /// The actor was restarting and never handled the request.
    ActorRestarting(M),
    /// The actor's mailbox is full.
    MailboxFull(M),
    /// The handler ran and failed.
    HandlerError(E),
    /// No reply came in time.
    Timeout(Option<M>),
}

impl<M, E> SendError<M, E> {
    /// What the handler failed with, or `otherwise` where the request never got that far.
    pub open spec fn flattened(self, otherwise: E) -> E {
        match self {
            SendError::HandlerError(err) => err,
            _ => otherwise,
        }
    }

    /// What the handler failed with, or `otherwise` where the request never got that far.
    pub fn flatten(self, otherwise: E) -> (r: E)
        ensures
            r == self.flattened(otherwise),
    {
        match self {
            SendError::HandlerError(err) => err,
            _ => otherwise,
        }
    }
}

/// Why an id-token request failed inside the client.
#[derive(Debug, Clone, Copy, PartialEq, Eq, Structural)]
pub enum IdTokenInternalErrorKind {
    /// The HTTP exchange failed.
    Http,
    /// The reply is not UTF-8.
    Utf8,
}

/// Why an id-token request failed.
#[derive(Debug, Clone, Copy, PartialEq, Eq, Structural)]
pub enum IdTokenError {
    /// Control could not be reached; try again later.
    NetworkError,
    /// An error inside the client.
    Internal(IdTokenInternalErrorKind),
}

/// Why a logout request failed inside the client.
#[derive(Debug, Clone, Copy, PartialEq, Eq, Structural)]
pub enum LogoutInternalErrorKind {
    /// The HTTP exchange failed.
    Http,
}

/// Why a logout request failed.
#[derive(Debug, Clone, Copy, PartialEq, Eq, Structural)]
pub enum LogoutError {
    /// Control could not be reached; try again later.
    NetworkError,
    /// An error inside the client.
    Internal(LogoutInternalErrorKind),
}

/// Why a set-dns request failed inside the client.
#[derive(Debug, Clone, Copy, PartialEq, Eq, Structural)]
pub enum SetDnsInternalErrorKind {
    /// The HTTP exchange failed.
    Http,
}

/// Why a set-dns request failed.
#[derive(Debug, Clone, Copy, PartialEq, Eq, Structural)]
pub enum SetDnsError {
    /// Control could not be reached; try again later.
    NetworkError,
    /// An error inside the client.
    Internal(SetDnsInternalErrorKind),
}

/// Why a Tailnet-Lock request failed.
#[derive(Debug, Clone, Copy, PartialEq, Eq, Structural)]
pub enum TkaSyncError {
    /// Control could not be reached; try again later.
    NetworkError,
    /// The request asks for something that is not supported.
    Unsupported,
}

/// Why a certificate could not be issued.
#[derive(Debug, PartialEq, Eq)]
pub enum CertError {
    /// An I/O error.
    Io(String),
    /// The issuance itself failed.
    Issuance(String),
}

/// Flatten a failed id-token request into the RPC's own error. A handler error is surfaced
/// verbatim; any other failure is a delivery problem rather than an RPC result, so it collapses to
/// the transient [`IdTokenError::NetworkError`].
pub fn flatten_send_err<M>(e: SendError<M, IdTokenError>) -> (r: IdTokenError)
    ensures
        r == e.flattened(IdTokenError::NetworkError),
{
    e.flatten(IdTokenError::NetworkError)
}

/// Flatten a failed logout request. A handler error is surfaced verbatim; any other failure
/// collapses to the transient [`LogoutError::NetworkError`] (logout is idempotent, so a retry after
/// a delivery failure is safe).
pub fn flatten_logout_send_err<M>(e: SendError<M, LogoutError>) -> (r: LogoutError)
    ensures
        r == e.flattened(LogoutError::NetworkError),
{
    e.flatten(LogoutError::NetworkError)
}

/// Flatten a failed set-dns request. A handler error is surfaced verbatim; any other failure
/// collapses to the transient [`SetDnsError::NetworkError`].
pub fn flatten_set_dns_send_err<M>(e: SendError<M, SetDnsError>) -> (r: SetDnsError)
    ensures
        r == e.flattened(SetDnsError::NetworkError),
{
    e.flatten(SetDnsError::NetworkError)
}

/// Flatten a failed Tailnet-Lock request. A handler error is surfaced verbatim; any other failure
/// collapses to the transient [`TkaSyncError::NetworkError`].
pub fn flatten_tka_send_err<M>(e: SendError<M, TkaSyncError>) -> (r: TkaSyncError)
    ensures
        r == e.flattened(TkaSyncError::NetworkError),
{
    e.flatten(TkaSyncError::NetworkError)
}

/// What a caller reads when a certificate request was never handled.
pub open spec fn cert_unavailable() -> Seq<char> {
    "control runner unavailable for certificate issuance"@
}

/// Whether `err` is what the caller of a certificate request sees of `e`.
pub open spec fn cert_flattened<M>(e: SendError<M, CertError>, err: CertError) -> bool {
    match e {
        SendError::HandlerError(own) => err == own,
        _ => err matches CertError::Io(message) && message@ == cert_unavailable(),
    }
}

/// Flatten a failed certificate request. A handler error is surfaced verbatim. [`CertError`] has no
/// transient-network variant, so any other failure collapses to a [`CertError::Io`].
pub fn flatten_cert_send_err<M>(e: SendError<M, CertError>) -> (r: CertError)
    ensures
        cert_flattened(e, r),
{
    match e {
        SendError::HandlerError(err) => err,
        _ => CertError::Io("control runner unavailable for certificate issuance".to_owned()),
    }
}

/// A handler's own error is never replaced, and a failure to deliver never passes for one.
pub proof fn law_flatten_separates_delivery_from_result<M, E>(
    e: SendError<M, E>,
    otherwise: E,
    other: E,
)
    ensures
        e is HandlerError ==> e.flattened(otherwise) == e.flattened(other),
        !(e is HandlerError) ==> e.flattened(otherwise) == otherwise,
{
}

/// A handler's error comes through as it is, and every other failure is the one that stands for it.
pub proof fn law_flatten<M, E>(e: SendError<M, E>, otherwise: E, own: E)
    ensures
        SendError::<M, E>::HandlerError(own).flattened(otherwise) == own,
        e is ActorNotRunning || e is ActorStopped || e is ActorRestarting || e is MailboxFull
            || e is Timeout ==> e.flattened(otherwise) == otherwise,
{
}

/// The caller of a certificate request sees the handler's own error as it is, and of every other
/// failure an I/O error that says so.
pub proof fn law_certificate_failures<M>(e: SendError<M, CertError>, err: CertError)
    requires
        cert_flattened(e, err),
    ensures
        e matches SendError::HandlerError(own) ==> err == own,
        !(e is HandlerError) ==> (err matches CertError::Io(message) && message@
            == "control runner unavailable for certificate issuance"@),
{
}

} // verus!
