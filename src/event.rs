use vstd::prelude::*;

use crate::message::Message;

verus! {

/// The envelope of every event: who emitted it, when, and its content.
#[derive(Clone, Debug)]
pub struct BaseEvent<E> {
    pub id: String,
    pub impl_name: String,
    pub platform: String,
    pub self_id: String,
    pub time: u64,
    pub content: E,
}

/// `good` mirrors the running flag, `online` the transports' connectivity.
#[derive(Clone, Copy, Debug, PartialEq, Eq, Structural)]
pub struct StatusContent {
    pub good: bool,
    pub online: bool,
}

/// The content of a heartbeat meta-event.
#[derive(Clone, Debug)]
pub struct HeartbeatContent {
    pub interval: u64,
    pub status: StatusContent,
    pub sub_type: String,
}

/// Where a message was sent: to the bot alone, or in a group.
#[derive(Clone, Debug)]
pub enum MessageEventType {
    Private,
    Group { group_id: String },
}

/// The content of a message event.
#[derive(Clone, Debug)]
pub struct MessageContent {
    pub ty: MessageEventType,
    pub message_id: String,
    pub message: Message,
    pub user_id: String,
    pub sub_type: String,
}

} // verus!
