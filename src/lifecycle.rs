use vstd::prelude::*;

use crate::channel::{new_broadcaster, send_to_all, subscribe};
use crate::error::{WalleError, WalleResult};

verus! {

/// One of the two handler roles that the coordinator starts.
#[derive(Clone, Copy, Debug, PartialEq, Eq, Structural)]
pub enum Role {
    Action,
    Event,
}

/// The order in which the two roles are started.
#[derive(Clone, Copy, Debug, PartialEq, Eq, Structural)]
pub struct StartOrder {
    pub first: Role,
    pub second: Role,
}

/// The order that `start` hands back for a given `ah_first`.
pub open spec fn start_order_of(ah_first: bool) -> StartOrder {
    if ah_first {
        StartOrder { first: Role::Action, second: Role::Event }
    } else {
        StartOrder { first: Role::Event, second: Role::Action }
    }
}

/// What `start` returns on an instance that is started (`true`) or stopped (`false`).
pub open spec fn start_result(started: bool, ah_first: bool) -> WalleResult<StartOrder> {
    if started {
        Err(WalleError::AlreadyRunning)
    } else {
        Ok(start_order_of(ah_first))
    }
}

/// What `shutdown` returns on an instance that is started or stopped.
pub open spec fn shutdown_result(started: bool) -> WalleResult<()> {
    if started {
        Ok(())
    } else {
        Err(WalleError::NotRunning)
    }
}

/// Whether `get_signal_rx` succeeds on an instance that is started or stopped.
pub open spec fn signal_rx_ok(started: bool) -> bool {
    started
}

/// The lifecycle coordinator: one action handler, one event handler and a
/// cooperative shutdown signal, which is present exactly while the instance runs.
pub struct OneBot<AH, EH, const V: u8> {
    pub action_handler: AH,
    pub event_handler: EH,
    pub signal: Option<tokio::sync::broadcast::Sender<()>>,
}

impl<AH, EH, const V: u8> OneBot<AH, EH, V> {
    /// Whether the instance is started, as a mathematical value.
    pub open spec fn is_started(&self) -> bool {
        self.signal is Some
    }

    /// How `shutdown` relates the instance before and after it to its result.
    pub open spec fn shutdown_post(before: Self, after: Self, r: WalleResult<()>) -> bool {
        &&& r == shutdown_result(before.is_started())
        &&& !after.is_started()
        &&& after.action_handler == before.action_handler
        &&& after.event_handler == before.event_handler
    }

    /// How `start` relates the instance before and after it to its result.
    pub open spec fn start_post(
        before: Self,
        after: Self,
        ah_first: bool,
        r: WalleResult<StartOrder>,
    ) -> bool {
        &&& r == start_result(before.is_started(), ah_first)
        &&& after.is_started()
        &&& r is Err ==> after == before
        &&& after.action_handler == before.action_handler
        &&& after.event_handler == before.event_handler
    }

    pub fn new(action_handler: AH, event_handler: EH) -> (r: Self)
        ensures
            !r.is_started(),
            r.action_handler == action_handler,
            r.event_handler == event_handler,
    {
        OneBot { action_handler, event_handler, signal: None }
    }

    /// Marks the instance as started with a fresh shutdown signal, and says in which
    /// order the two roles are to be started. Fails, changing nothing, when the
    /// instance is already started.
    pub fn start(&mut self, ah_first: bool) -> (r: WalleResult<StartOrder>)
        ensures
            Self::start_post(*old(self), *final(self), ah_first, r),
    {
        if self.signal.is_some() {
            return Err(WalleError::AlreadyRunning);
        }
        self.signal = Some(new_broadcaster(1));
        if ah_first {
            Ok(StartOrder { first: Role::Action, second: Role::Event })
        } else {
            Ok(StartOrder { first: Role::Event, second: Role::Action })
        }
    }

    /// Appends the task handles of a role that was started after the ones already
    /// collected, so that the list keeps the start order.
    pub fn collect_tasks<T>(tasks: &mut Vec<T>, started: Vec<T>)
        ensures
            final(tasks)@ == old(tasks)@ + started@,
    {
        let mut started = started;
        tasks.append(&mut started);
    }

    pub fn started(&self) -> (r: bool)
        ensures
            r == self.is_started(),
    {
        self.signal.is_some()
    }

    /// A receiver of the shutdown signal; fails when the instance is not started.
    pub fn get_signal_rx(&self) -> (r: WalleResult<tokio::sync::broadcast::Receiver<()>>)
        ensures
            r is Ok <==> signal_rx_ok(self.is_started()),
            r is Err ==> r->Err_0 == WalleError::NotRunning,
    {
        match &self.signal {
            Some(tx) => Ok(subscribe(tx)),
            None => Err(WalleError::NotRunning),
        }
    }

    /// Stops the instance and sends the shutdown signal once to its subscribers;
    /// fails when the instance is not started.
    pub fn shutdown(&mut self) -> (r: WalleResult<()>)
        ensures
            Self::shutdown_post(*old(self), *final(self), r),
    {
        match self.signal.take() {
            Some(tx) => {
                let _ = send_to_all(&tx, ());
                Ok(())
            },
            None => Err(WalleError::NotRunning),
        }
    }
}

/// Shutting down an instance that was never started, or is stopped, fails with
/// `NotRunning`.
pub proof fn lemma_shutdown_unstarted_fails<AH, EH, const V: u8>(
    before: OneBot<AH, EH, V>,
    after: OneBot<AH, EH, V>,
    r: WalleResult<()>,
)
    requires
        !before.is_started(),
        OneBot::shutdown_post(before, after, r),
    ensures
        r == Err::<(), WalleError>(WalleError::NotRunning),
{
}

/// Once an instance has been shut down, whether that shutdown succeeded or not,
/// subscribing to its shutdown signal fails with `NotRunning` until it is started
/// again.
pub proof fn lemma_no_signal_after_shutdown<AH, EH, const V: u8>(
    before: OneBot<AH, EH, V>,
    after: OneBot<AH, EH, V>,
    r: WalleResult<()>,
)
    requires
        OneBot::shutdown_post(before, after, r),
    ensures
        !signal_rx_ok(after.is_started()),
{
}

} // verus!
