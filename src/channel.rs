use vstd::prelude::*;

verus! {

#[verifier::external_type_specification]
#[verifier::external_body]
#[verifier::reject_recursive_types(T)]
pub struct ExSender<T>(tokio::sync::broadcast::Sender<T>);

#[verifier::external_type_specification]
#[verifier::external_body]
#[verifier::reject_recursive_types(T)]
pub struct ExReceiver<T>(tokio::sync::broadcast::Receiver<T>);

/// Relies on tokio::sync::broadcast::channel: makes a bounded broadcast channel and
/// keeps its sending half. It panics on a capacity of zero or above `usize::MAX / 2`,
/// which `requires` leaves out.
#[verifier::external_body]
pub(crate) fn new_broadcaster<T: Clone>(capacity: usize) -> (r: tokio::sync::broadcast::Sender<T>)
    requires
        0 < capacity <= usize::MAX / 2,
{
    tokio::sync::broadcast::channel(capacity).0
}

/// Relies on tokio::sync::broadcast::Sender::send: with no receiver it hands the
/// value back; otherwise it reports how many receivers the value was queued for,
/// which is at least one.
#[verifier::external_body]
pub(crate) fn send_to_all<T>(tx: &tokio::sync::broadcast::Sender<T>, value: T) -> (r: Result<
    usize,
    T,
>)
    ensures
        r is Ok ==> r->Ok_0 >= 1,
        r is Err ==> r->Err_0 == value,
{
    tx.send(value).map_err(|e| e.0)
}

/// Relies on tokio::sync::broadcast::Sender::subscribe: a new receiver of the values
/// sent after this call. tokio panics once `usize::MAX >> 2` receivers of one
/// channel are alive at the same time, a count that no caller here comes near.
#[verifier::external_body]
pub(crate) fn subscribe<T>(tx: &tokio::sync::broadcast::Sender<T>) -> (r:
    tokio::sync::broadcast::Receiver<T>) {
    tx.subscribe()
}

} // verus!
