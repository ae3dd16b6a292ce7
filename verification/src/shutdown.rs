//! How a runtime goes down.
//!
//! Most actors are only held by the message bus, so it is enough to bring down the control runner,
//! the dataplane and the bus: the rest goes with them.
use core::time::Duration;
use vstd::prelude::*;

use crate::runtime::Runtime;

verus! {

/// An actor that has to be stopped for the runtime to go down.
#[derive(Debug, Clone, Copy, PartialEq, Eq, Structural)]
pub enum RootActor {
    /// The control runner.
    Control,
    /// The dataplane.
    Dataplane,
    /// The message bus, which holds the rest of the actors.
    Bus,
}

/// One action of a graceful shutdown.
#[derive(Debug, Clone, Copy, PartialEq, Eq, Structural)]
pub enum ShutdownAction {
    /// Ask an actor to stop once it has handled what it was sent. A failure does not matter.
    StopGracefully(RootActor),
    /// Wait until all of them are down.
    WaitForAll,
}

/// One action of the final teardown.
#[derive(Debug, Clone, Copy, PartialEq, Eq, Structural)]
pub enum DropAction {
    /// Abort the reaper of abandoned Taildrop files.
    AbortReaper,
    /// Send an actor the signal to stop; see [`try_shutdown`] for how it goes on.
    TryShutdown(RootActor),
    /// Kill an actor.
    Kill(RootActor),
}

/// The actions of a graceful shutdown.
pub open spec fn graceful_plan() -> Seq<ShutdownAction> {
    seq![
        ShutdownAction::StopGracefully(RootActor::Control),
        ShutdownAction::StopGracefully(RootActor::Dataplane),
        ShutdownAction::StopGracefully(RootActor::Bus),
        ShutdownAction::WaitForAll,
    ]
}

/// The actions of the final teardown.
pub open spec fn drop_plan(reaper: bool, shutdown: bool) -> Seq<DropAction> {
    (if reaper {
        seq![DropAction::AbortReaper]
    } else {
        seq![]
    }) + (if shutdown {
        seq![
            DropAction::Kill(RootActor::Control),
            DropAction::Kill(RootActor::Dataplane),
            DropAction::Kill(RootActor::Bus),
        ]
    } else {
        seq![
            DropAction::TryShutdown(RootActor::Control),
            DropAction::TryShutdown(RootActor::Dataplane),
            DropAction::TryShutdown(RootActor::Bus),
        ]
    })
}

/// What a shutdown reports.
pub open spec fn in_time(timeout: Option<Duration>, finished: bool) -> bool {
    timeout is None || finished
}

/// What a shutdown reports: false if it timed out. `finished` tells whether its actions came to an
/// end within `timeout`; without one they are waited for.
pub fn graceful_outcome(timeout: Option<Duration>, finished: bool) -> (r: bool)
    ensures
        r == in_time(timeout, finished),
{
    match timeout {
        Some(_) => finished,
        None => true,
    }
}

/// What follows once the signal to stop has been sent: an actor that could not be sent it is
/// killed.
pub fn try_shutdown<X>(actor: RootActor, sent: Result<(), X>) -> (r: Option<DropAction>)
    ensures
        r == (if sent is Err {
            Some(DropAction::Kill(actor))
        } else {
            None
        }),
{
    match sent {
        Ok(_) => None,
        Err(_) => Some(DropAction::Kill(actor)),
    }
}

impl<S> Runtime<S> {
    /// Attempt to shut down the runtime gracefully: everybody is told, and the actions are handed
    /// out. The runtime is to be torn down behind them, whether or not they came to an end in time.
    pub fn graceful_shutdown(&mut self) -> (r: Vec<ShutdownAction>)
        ensures
            *final(self) == (Runtime { shutdown: true, ..*old(self) }),
            r@ == graceful_plan(),
    {
        self.shutdown = true;
        let mut plan: Vec<ShutdownAction> = Vec::new();
        plan.push(ShutdownAction::StopGracefully(RootActor::Control));
        plan.push(ShutdownAction::StopGracefully(RootActor::Dataplane));
        plan.push(ShutdownAction::StopGracefully(RootActor::Bus));
        plan.push(ShutdownAction::WaitForAll);
        assert(plan@ =~= graceful_plan());
        plan
    }

    /// The final teardown. After a graceful shutdown the actors are killed: on the happy path this
    /// does nothing, but if it timed out they must not be leaked. Otherwise everybody is told, and
    /// the actors are sent the signal to stop, the bus last.
    pub fn on_drop(&mut self) -> (r: Vec<DropAction>)
        ensures
            *final(self) == (Runtime { shutdown: true, taildrop_reaper: false, ..*old(self) }),
            r@ == drop_plan(old(self).taildrop_reaper, old(self).shutdown),
    {
        let mut plan: Vec<DropAction> = Vec::new();
        if self.taildrop_reaper {
            self.taildrop_reaper = false;
            plan.push(DropAction::AbortReaper);
        }
        if self.shutdown {
            plan.push(DropAction::Kill(RootActor::Control));
            plan.push(DropAction::Kill(RootActor::Dataplane));
            plan.push(DropAction::Kill(RootActor::Bus));
        } else {
            self.shutdown = true;
            plan.push(DropAction::TryShutdown(RootActor::Control));
            plan.push(DropAction::TryShutdown(RootActor::Dataplane));
            plan.push(DropAction::TryShutdown(RootActor::Bus));
        }
        assert(plan@ =~= drop_plan(old(self).taildrop_reaper, old(self).shutdown));
        plan
    }
}

/// No actor outlives its runtime: the teardown kills each of them or sends it the signal to stop,
/// and a reaper is aborted whenever there is one.
pub proof fn law_nothing_outlives_the_runtime(reaper: bool, shutdown: bool, actor: RootActor)
    ensures
        shutdown ==> drop_plan(reaper, shutdown).contains(DropAction::Kill(actor)),
        !shutdown ==> drop_plan(reaper, shutdown).contains(DropAction::TryShutdown(actor)),
        drop_plan(reaper, shutdown).contains(DropAction::AbortReaper) <==> reaper,
{
    let plan = drop_plan(reaper, shutdown);
    let at: int = if reaper { 1 } else { 0 };
    if reaper {
        assert(plan[0] == DropAction::AbortReaper);
    }
    if shutdown {
        assert(plan[at] == DropAction::Kill(RootActor::Control));
        assert(plan[at + 1] == DropAction::Kill(RootActor::Dataplane));
        assert(plan[at + 2] == DropAction::Kill(RootActor::Bus));
    } else {
        assert(plan[at] == DropAction::TryShutdown(RootActor::Control));
        assert(plan[at + 1] == DropAction::TryShutdown(RootActor::Dataplane));
        assert(plan[at + 2] == DropAction::TryShutdown(RootActor::Bus));
    }
}

/// The bus goes last: in a graceful shutdown and in the teardown, the actors that the runtime holds
/// itself are stopped before the bus is.
pub proof fn law_bus_goes_last(reaper: bool, shutdown: bool)
    ensures
        graceful_plan()[2] == ShutdownAction::StopGracefully(RootActor::Bus),
        graceful_plan()[3] == ShutdownAction::WaitForAll,
        graceful_plan().len() == 4,
        drop_plan(reaper, shutdown).last() == (if shutdown {
            DropAction::Kill(RootActor::Bus)
        } else {
            DropAction::TryShutdown(RootActor::Bus)
        }),
{
}

/// A graceful shutdown asks the three actors to stop, control first and the bus last, and then
/// waits; the teardown has one action for each of them, and one for a reaper.
pub proof fn law_shutdown_order(reaper: bool, shutdown: bool)
    ensures
        graceful_plan().len() == 4,
        graceful_plan()[0] == ShutdownAction::StopGracefully(RootActor::Control),
        graceful_plan()[1] == ShutdownAction::StopGracefully(RootActor::Dataplane),
        graceful_plan()[2] == ShutdownAction::StopGracefully(RootActor::Bus),
        graceful_plan()[3] == ShutdownAction::WaitForAll,
        ({
            let plan = drop_plan(reaper, shutdown);
            let at: int = if reaper { 1 } else { 0 };
            &&& plan.len() == at + 3
            &&& reaper ==> plan[0] == DropAction::AbortReaper
            &&& shutdown ==> plan[at] == DropAction::Kill(RootActor::Control) && plan[at + 1]
                == DropAction::Kill(RootActor::Dataplane) && plan[at + 2] == DropAction::Kill(
                RootActor::Bus,
            )
            &&& !shutdown ==> plan[at] == DropAction::TryShutdown(RootActor::Control)
                && plan[at + 1] == DropAction::TryShutdown(RootActor::Dataplane) && plan[at + 2]
                == DropAction::TryShutdown(RootActor::Bus)
        }),
{
}

/// A shutdown is late only if it had a timeout and did not finish within it.
pub proof fn law_late_shutdowns(timeout: Duration, finished: bool)
    ensures
        in_time(None, finished),
        in_time(Some(timeout), finished) <==> finished,
{
}

} // verus!
