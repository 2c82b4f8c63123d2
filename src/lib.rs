use vstd::prelude::*;

pub mod channel;
pub mod config;
pub mod error;
pub mod event;
pub mod lifecycle;
pub mod message;
pub mod reconnect;
pub mod runtime;

verus! {

} // verus!
