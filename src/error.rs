use vstd::prelude::*;

verus! {

/// The two lifecycle errors that an operation can report to its caller.
#[derive(Clone, Copy, Debug, PartialEq, Eq, Structural)]
pub enum WalleError {
    /// A start was attempted while the instance is active.
    AlreadyRunning,
    /// A shutdown or a signal subscription was attempted while the instance is inactive.
    NotRunning,
}

pub type WalleResult<T> = Result<T, WalleError>;

} // verus!
