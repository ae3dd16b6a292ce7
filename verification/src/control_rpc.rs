//! Requests to the control runner, and what the caller is answered.
//!
//! Each operation hands out the request to make. Its reply is given back to the request: where the
//! handler failed, the caller sees the handler's own error; where the request never got that far,
//! an error of the same type that stands for it.
use core::time::Duration;
use vstd::prelude::*;

use crate::ask;
use crate::delivery;
use crate::delivery::{
    CertError, IdTokenError, LogoutError, SendError, SetDnsError, TkaSyncError,
};
use crate::error::Error;
use crate::runtime::Runtime;

verus! {

/// The result that a caller sees, with `otherwise` for a request that was never handled.
pub open spec fn settled<T, M, E>(reply: Result<T, SendError<M, E>>, otherwise: E) -> Result<T, E> {
    match reply {
        Ok(value) => Ok(value),
        Err(e) => Err(e.flattened(otherwise)),
    }
}

/// A request for an OIDC ID token scoped to `audience`.
#[derive(Debug, PartialEq, Eq)]
pub struct FetchIdToken {
    /// Whom the token is for.
    pub audience: String,
}

/// A request to log this node out.
#[derive(Debug, PartialEq, Eq)]
pub struct Logout;

/// A request to publish a `TXT` record.
#[derive(Debug, PartialEq, Eq)]
pub struct SetDns {
    /// The name of the record.
    pub name: String,
    /// The text of the record.
    pub value: String,
}

/// A request to sign a node key with this node's network-lock key.
#[derive(Debug, PartialEq, Eq)]
pub struct TkaSign {
    /// The node key.
    pub node_key: [u8; 32],
}

/// A request to disable Tailnet Lock.
#[derive(Debug, PartialEq, Eq)]
pub struct TkaDisable {
    /// The disablement secret.
    pub disablement_secret: Vec<u8>,
}

/// A request to initialize Tailnet Lock.
#[derive(Debug, PartialEq, Eq)]
pub struct TkaInit {
    /// The disablement secret.
    pub disablement_secret: Vec<u8>,
}

/// A request for entries of the Tailnet-Lock log.
#[derive(Debug, PartialEq, Eq)]
pub struct TkaLog {
    /// How many entries to read at most.
    pub limit: usize,
}

/// A request for a certificate.
#[derive(Debug, PartialEq, Eq)]
pub struct GetCertificate {
    /// The MagicDNS name.
    pub name: String,
}

/// A request for a certificate and its key, both as PEM text.
#[derive(Debug, PartialEq, Eq)]
pub struct GetCertPair {
    /// The MagicDNS name.
    pub name: String,
}

/// A request to report another host name.
#[derive(Debug, PartialEq, Eq)]
pub struct SetHostname {
    /// The host name.
    pub hostname: String,
}

impl FetchIdToken {
    /// The signed token, or why there is none.
    pub fn reply(reply: Result<String, SendError<FetchIdToken, IdTokenError>>) -> (r: Result<
        String,
        IdTokenError,
    >)
        ensures
            r == settled(reply, IdTokenError::NetworkError),
    {
        match reply {
            Ok(token) => Ok(token),
            Err(e) => Err(delivery::flatten_send_err(e)),
        }
    }
}

impl Logout {
    /// Whether the node is logged out.
    pub fn reply(reply: Result<(), SendError<Logout, LogoutError>>) -> (r: Result<(), LogoutError>)
        ensures
            r == settled(reply, LogoutError::NetworkError),
    {
        match reply {
            Ok(_) => Ok(()),
            Err(e) => Err(delivery::flatten_logout_send_err(e)),
        }
    }
}

impl SetDns {
    /// Whether the record is published.
    pub fn reply(reply: Result<(), SendError<SetDns, SetDnsError>>) -> (r: Result<(), SetDnsError>)
        ensures
            r == settled(reply, SetDnsError::NetworkError),
    {
        match reply {
            Ok(_) => Ok(()),
            Err(e) => Err(delivery::flatten_set_dns_send_err(e)),
        }
    }
}

impl TkaSign {
    /// Whether the signature was submitted.
    pub fn reply(reply: Result<(), SendError<TkaSign, TkaSyncError>>) -> (r: Result<
        (),
        TkaSyncError,
    >)
        ensures
            r == settled(reply, TkaSyncError::NetworkError),
    {
        match reply {
            Ok(_) => Ok(()),
            Err(e) => Err(delivery::flatten_tka_send_err(e)),
        }
    }
}

impl TkaDisable {
    /// Whether the disablement was submitted.
    pub fn reply(reply: Result<(), SendError<TkaDisable, TkaSyncError>>) -> (r: Result<
        (),
        TkaSyncError,
    >)
        ensures
            r == settled(reply, TkaSyncError::NetworkError),
    {
        match reply {
            Ok(_) => Ok(()),
            Err(e) => Err(delivery::flatten_tka_send_err(e)),
        }
    }
}

impl TkaInit {
    /// Whether the initialization was submitted.
    pub fn reply(reply: Result<(), SendError<TkaInit, TkaSyncError>>) -> (r: Result<
        (),
        TkaSyncError,
    >)
        ensures
            r == settled(reply, TkaSyncError::NetworkError),
    {
        match reply {
            Ok(_) => Ok(()),
            Err(e) => Err(delivery::flatten_tka_send_err(e)),
        }
    }
}

impl TkaLog {
    /// The entries. The log is a local read, so a failure can only be one of the request.
    pub fn reply<L, E>(reply: Result<L, E>) -> (r: Result<L, Error<E>>)
        ensures
            r == ask::asked(reply),
    {
        ask::answer(reply)
    }
}

impl GetCertificate {
    /// The certificate, or why there is none.
    pub fn reply<K>(reply: Result<K, SendError<GetCertificate, CertError>>) -> (r: Result<
        K,
        CertError,
    >)
        ensures
            match reply {
                Ok(key) => r == Ok::<K, CertError>(key),
                Err(e) => r matches Err(err) && delivery::cert_flattened(e, err),
            },
    {
        match reply {
            Ok(key) => Ok(key),
            Err(e) => Err(delivery::flatten_cert_send_err(e)),
        }
    }
}

impl GetCertPair {
    /// The certificate chain and the key, or why there are none.
    pub fn reply(reply: Result<(String, String), SendError<GetCertPair, CertError>>) -> (r: Result<
        (String, String),
        CertError,
    >)
        ensures
            match reply {
                Ok(pair) => r == Ok::<(String, String), CertError>(pair),
                Err(e) => r matches Err(err) && delivery::cert_flattened(e, err),
            },
    {
        match reply {
            Ok(pair) => Ok(pair),
            Err(e) => Err(delivery::flatten_cert_send_err(e)),
        }
    }
}

impl SetHostname {
    /// Whether the host name was taken.
    pub fn reply<E>(reply: Result<(), E>) -> (r: Result<(), Error<E>>)
        ensures
            r == ask::asked(reply),
    {
        ask::answer(reply)
    }
}

impl<S> Runtime<S> {
    /// Request an OIDC ID token from control scoped to `audience`.
    pub fn fetch_id_token(&self, audience: String) -> (r: FetchIdToken)
        ensures
            r == (FetchIdToken { audience }),
    {
        FetchIdToken { audience }
    }

    /// Log this node out of the tailnet: deregister it by expiring its current node key. This does
    /// not shut the runtime down.
    pub fn logout(&self) -> (r: Logout)
        ensures
            r == Logout,
    {
        Logout
    }

    /// Publish a `TXT` DNS record for this node.
    pub fn set_dns(&self, name: String, value: String) -> (r: SetDns)
        ensures
            r == (SetDns { name, value }),
    {
        SetDns { name, value }
    }

    /// Sign `node_key` with this node's network-lock key and submit the signature to control.
    pub fn tka_sign(&self, node_key: [u8; 32]) -> (r: TkaSign)
        ensures
            r == (TkaSign { node_key }),
    {
        TkaSign { node_key }
    }

    /// Disable Tailnet Lock by presenting the `disablement_secret` to control.
    pub fn tka_disable(&self, disablement_secret: Vec<u8>) -> (r: TkaDisable)
        ensures
            r == (TkaDisable { disablement_secret }),
    {
        TkaDisable { disablement_secret }
    }

    /// Initialize Tailnet Lock with this node as the sole initial trusted key, gated by
    /// `disablement_secret`.
    pub fn tka_init(&self, disablement_secret: Vec<u8>) -> (r: TkaInit)
        ensures
            r == (TkaInit { disablement_secret }),
    {
        TkaInit { disablement_secret }
    }

    /// Read up to `limit` entries of the Tailnet-Lock log, head-first.
    pub fn tka_log(&self, limit: usize) -> (r: TkaLog)
        ensures
            r == (TkaLog { limit }),
    {
        TkaLog { limit }
    }

    /// Issue a certificate for this node's MagicDNS `name`.
    pub fn get_certificate(&self, name: String) -> (r: GetCertificate)
        ensures
            r == (GetCertificate { name }),
    {
        GetCertificate { name }
    }

    /// Issue a certificate for this node's MagicDNS `name` and return it with its key as PEM text.
    ///
    /// There is no certificate cache: every call issues a fresh certificate, whose full lifetime
    /// satisfies any `min_validity`.
    pub fn cert_pair(&self, name: String, min_validity: Option<Duration>) -> (r: GetCertPair)
        ensures
            r == (GetCertPair { name }),
    {
        let _ = min_validity;
        GetCertPair { name }
    }

    /// Change this node's hostname at runtime, re-reporting it to control.
    pub fn set_hostname(&self, hostname: String) -> (r: SetHostname)
        ensures
            r == (SetHostname { hostname }),
    {
        SetHostname { hostname }
    }
}

/// What the caller of a control RPC sees: a success as it is, the handler's own error as it is, and
/// for every failure to deliver the one error that stands for it.
pub proof fn law_callers_see_the_handlers_answer<T, M, E>(
    reply: Result<T, SendError<M, E>>,
    otherwise: E,
)
    ensures
        reply is Ok <==> settled(reply, otherwise) is Ok,
        reply matches Ok(value) ==> settled(reply, otherwise) == Ok::<T, E>(value),
        reply matches Err(SendError::HandlerError(e)) ==> settled(reply, otherwise) == Err::<T, E>(
            e,
        ),
        reply matches Err(e) && !(e is HandlerError) ==> settled(reply, otherwise) == Err::<T, E>(
            otherwise,
        ),
{
}

} // verus!
