//! Operations as chains of requests to actors.
//!
//! An operation hands out a value for each request that it makes. The caller makes the request and
//! gives the reply back to that value, which holds what comes next.
use vstd::prelude::*;

use crate::delivery::SendError;
use crate::error::{Error, ErrorKind};

verus! {

/// How an operation goes on: with another request, or with its result.
#[derive(Debug, PartialEq, Eq)]
pub enum Step<A, T> {
    /// A request is to be made.
    Ask(A),
    /// The operation is over.
    Done(T),
}

/// The result of an operation that ends with a request to an actor.
pub open spec fn asked<T, E>(reply: Result<T, E>) -> Result<T, Error<E>> {
    match reply {
        Ok(value) => Ok(value),
        Err(e) => Err(Error::Ask(e)),
    }
}

/// The result of an operation that ends with a request to an actor: its reply, or the failure of
/// the request.
pub fn answer<T, E>(reply: Result<T, E>) -> (r: Result<T, Error<E>>)
    ensures
        r == asked(reply),
{
    match reply {
        Ok(value) => Ok(value),
        Err(e) => Err(Error::Ask(e)),
    }
}

/// The result of an operation that ends with a request to an actor that may have shut down.
pub open spec fn delivered<T, M, E>(reply: Result<T, SendError<M, E>>) -> Result<
    T,
    Error<SendError<M, E>>,
> {
    match reply {
        Ok(value) => Ok(value),
        Err(SendError::ActorNotRunning(_)) => Err(Error::Runtime(ErrorKind::ActorGone)),
        Err(SendError::ActorStopped) => Err(Error::Runtime(ErrorKind::ActorGone)),
        Err(e) => Err(Error::Ask(e)),
    }
}

/// The result of an operation that ends with a request to an actor that may have shut down: its
/// reply, [`ErrorKind::ActorGone`] where the actor was not running or stopped before it replied, or
/// any other failure of the request.
pub fn deliver<T, M, E>(reply: Result<T, SendError<M, E>>) -> (r: Result<
    T,
    Error<SendError<M, E>>,
>)
    ensures
        r == delivered(reply),
{
    match reply {
        Ok(value) => Ok(value),
        Err(SendError::ActorNotRunning(_)) => Err(Error::Runtime(ErrorKind::ActorGone)),
        Err(SendError::ActorStopped) => Err(Error::Runtime(ErrorKind::ActorGone)),
        Err(e) => Err(Error::Ask(e)),
    }
}

/// Whether an actor that is only held weakly can still be asked.
pub open spec fn reachable<E>(alive: bool) -> Result<(), Error<E>> {
    if alive {
        Ok(())
    } else {
        Err(Error::Runtime(ErrorKind::ActorGone))
    }
}

/// Whether an actor that is only held weakly can still be asked: [`ErrorKind::ActorGone`] once it
/// has shut down.
pub fn reach<E>(alive: bool) -> (r: Result<(), Error<E>>)
    ensures
        r == reachable::<E>(alive),
{
    if alive {
        Ok(())
    } else {
        Err(Error::Runtime(ErrorKind::ActorGone))
    }
}

/// A reply comes back as it is, a failed request as its own failure, and an actor that is gone as
/// such; nothing else is an error.
pub proof fn law_replies_come_back<T, E>(reply: Result<T, E>, alive: bool)
    ensures
        reply matches Ok(value) ==> asked(reply) == Ok::<T, Error<E>>(value),
        reply matches Err(e) ==> asked(reply) == Err::<T, Error<E>>(Error::Ask(e)),
        reachable::<E>(true) == Ok::<(), Error<E>>(()),
        reachable::<E>(false) == Err::<(), Error<E>>(Error::Runtime(ErrorKind::ActorGone)),
{
}

/// A request to an actor that may have shut down: a reply comes back as it is, an actor that was
/// not running or stopped is gone, and every other failure comes back as itself.
pub proof fn law_delivery<T, M, E>(value: T, e: SendError<M, E>)
    ensures
        delivered::<T, M, E>(Ok(value)) == Ok::<T, Error<SendError<M, E>>>(value),
        e is ActorNotRunning || e is ActorStopped ==> delivered::<T, M, E>(Err(e)) == Err::<
            T,
            Error<SendError<M, E>>,
        >(Error::Runtime(ErrorKind::ActorGone)),
        !(e is ActorNotRunning || e is ActorStopped) ==> delivered::<T, M, E>(Err(e)) == Err::<
            T,
            Error<SendError<M, E>>,
        >(Error::Ask(e)),
{
}

} // verus!
