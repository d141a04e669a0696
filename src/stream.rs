//! The reconnect policy of the live traffic stream: from the consumer's state
//! and what just happened on the connection, the next state, the sample to
//! publish if any, and what to do next. The caller owns the connection and
//! the hand-off channel.

use vstd::prelude::*;
use crate::model::Traffic;

verus! {

/// How long, in milliseconds, the consumer waits before it reconnects.
pub const RETRY_DELAY_MS: u64 = 3000;

#[derive(Clone, Copy, Debug, PartialEq, Eq, Structural)]
pub enum StreamState {
    /// No connection; the next step is to open one.
    Disconnected,
    /// Connected and reading messages.
    Streaming,
    /// Waiting out the retry delay.
    Waiting,
}

#[derive(Clone, Copy, Debug, PartialEq, Eq, Structural)]
pub enum StreamEvent {
    /// The connection was opened.
    Connected,
    /// The connection could not be opened.
    ConnectFailed,
    /// A message arrived: the sample that it decodes to, if it is a text or
    /// binary message holding one.
    Message(Option<Traffic>),
    /// Reading failed or the stream closed.
    ReadFailed,
    /// The retry delay is over.
    Slept,
}

#[derive(Clone, Copy, Debug, PartialEq, Eq, Structural)]
pub enum StreamAction {
    Connect,
    Read,
    Sleep(u64),
}

/// One step of the consumer.
#[derive(Clone, Copy, Debug, PartialEq, Eq, Structural)]
pub struct StreamStep {
    pub state: StreamState,
    /// The sample to hand to the interactive side.
    pub publish: Option<Traffic>,
    pub action: StreamAction,
}

/// The consumer's policy: read while connected, publish every decoded
/// sample, wait a flat delay after any failure and then reconnect, forever.
/// An event that cannot happen in a state starts over with a new connection.
pub open spec fn stream_policy(state: StreamState, event: StreamEvent) -> StreamStep {
    match (state, event) {
        (StreamState::Disconnected, StreamEvent::Connected) => StreamStep {
            state: StreamState::Streaming,
            publish: None,
            action: StreamAction::Read,
        },
        (StreamState::Disconnected, StreamEvent::ConnectFailed) | (
            StreamState::Streaming,
            StreamEvent::ReadFailed,
        ) => StreamStep {
            state: StreamState::Waiting,
            publish: None,
            action: StreamAction::Sleep(RETRY_DELAY_MS),
        },
        (StreamState::Streaming, StreamEvent::Message(sample)) => StreamStep {
            state: StreamState::Streaming,
            publish: sample,
            action: StreamAction::Read,
        },
        _ => StreamStep { state: StreamState::Disconnected, publish: None, action: StreamAction::Connect },
    }
}

/// The first step of a consumer: open the connection.
pub fn stream_start() -> (r: StreamStep)
    ensures
        r == (StreamStep { state: StreamState::Disconnected, publish: None, action: StreamAction::Connect }),
{
    StreamStep { state: StreamState::Disconnected, publish: None, action: StreamAction::Connect }
}

/// The consumer's next step after `event` in `state`.
pub fn stream_next(state: StreamState, event: StreamEvent) -> (r: StreamStep)
    ensures
        r == stream_policy(state, event),
{
    match (state, event) {
        (StreamState::Disconnected, StreamEvent::Connected) => StreamStep {
            state: StreamState::Streaming,
            publish: None,
            action: StreamAction::Read,
        },
        (StreamState::Disconnected, StreamEvent::ConnectFailed) | (
            StreamState::Streaming,
            StreamEvent::ReadFailed,
        ) => StreamStep {
            state: StreamState::Waiting,
            publish: None,
            action: StreamAction::Sleep(RETRY_DELAY_MS),
        },
        (StreamState::Streaming, StreamEvent::Message(sample)) => StreamStep {
            state: StreamState::Streaming,
            publish: sample,
            action: StreamAction::Read,
        },
        _ => StreamStep { state: StreamState::Disconnected, publish: None, action: StreamAction::Connect },
    }
}

} // verus!
