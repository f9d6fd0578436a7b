use crate::topic::TopicError;
use vstd::prelude::*;

verus! {

/// Why an actor gives up for good.
#[derive(Clone, Copy, Debug, PartialEq, Eq)]
pub enum Fatal {
    /// The broker could not be reached when the actor started.
    ConnectFailed,
    /// The broker turned the first subscription down.
    SubscribeFailed,
    /// The configuration names no topic for the actor.
    MissingTopic,
    /// The topic template lacks a placeholder.
    BadTemplate(TopicError),
    /// A payload that should hold a number holds none.
    UnreadablePayload,
    /// Something happened that the actor was not waiting for.
    OutOfTurn,
}

} // verus!
