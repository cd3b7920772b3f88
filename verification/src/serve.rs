//! The serve loop as a state machine: the loop itself waits on the
//! transport and hands over what came; the decisions are made here.

use vstd::prelude::*;
use crate::dispatch::{dispatch_spec, IncomingCall, IncomingCallView};
use crate::reply::{respond_spec, Response, ResponseView};
use crate::service::{Tree, TreeView};

verus! {

/// How long the loop waits on the transport at most, in milliseconds.
pub const WAIT_TIMEOUT_MS: u32 = 1000;

/// Where the serve loop stands.
#[derive(Clone, Copy, Debug, PartialEq, Eq, Structural)]
pub enum ServeState {
    /// Waiting for the transport.
    Idle,
    /// Taking the messages that are there, one after the other.
    Processing,
}

/// What the loop is to do next.
#[derive(Clone, Copy, Debug, PartialEq, Eq, Structural)]
pub enum ServeAction {
    /// Block on the transport until something arrives, but no longer than
    /// this many milliseconds.
    Wait { timeout_ms: u32 },
    /// Take the next message that is there, without blocking.
    TakeMessage,
}

/// What the loop reports back.
#[derive(Clone, Debug, PartialEq, Eq)]
pub enum ServeEvent {
    /// The wait is over: something arrived, or the time ran out.
    Woke,
    /// This message was taken.
    Message(IncomingCall),
    /// No message is left to take.
    QueueEmpty,
}

/// What a `ServeEvent` is, over views.
pub ghost enum ServeEventView {
    Woke,
    Message(IncomingCallView),
    QueueEmpty,
}

impl View for ServeEvent {
    type V = ServeEventView;

    open spec fn view(&self) -> ServeEventView {
        match self {
            ServeEvent::Woke => ServeEventView::Woke,
            ServeEvent::Message(call) => ServeEventView::Message(call@),
            ServeEvent::QueueEmpty => ServeEventView::QueueEmpty,
        }
    }
}

/// The action that belongs to a state: to wait while idle, to take a
/// message while processing.
pub open spec fn action_in(state: ServeState) -> ServeAction {
    match state {
        ServeState::Idle => ServeAction::Wait { timeout_ms: WAIT_TIMEOUT_MS },
        ServeState::Processing => ServeAction::TakeMessage,
    }
}

/// The state after an event. A wake-up begins the processing, a message
/// keeps it going, and the end of the messages brings the loop back to
/// waiting. A message that comes while the loop is idle counts as its
/// wake-up.
pub open spec fn state_after(state: ServeState, event: ServeEventView) -> ServeState {
    match event {
        ServeEventView::Woke => ServeState::Processing,
        ServeEventView::Message(_) => ServeState::Processing,
        ServeEventView::QueueEmpty => ServeState::Idle,
    }
}

/// What is owed to the transport after an event: the response to the
/// message, if the event is one.
pub open spec fn response_to(event: ServeEventView, tree: TreeView) -> Option<ResponseView> {
    match event {
        ServeEventView::Message(call) => Some(
            respond_spec(call, dispatch_spec(call, tree.registry, tree.interface)),
        ),
        _ => None,
    }
}

/// The view of a response that may be absent.
pub open spec fn response_view(response: Option<Response>) -> Option<ResponseView> {
    match response {
        Some(r) => Some(r@),
        None => None,
    }
}

/// The loop waits on the transport again exactly when the messages have
/// run out: after every other event it goes on to take a message, so that
/// all that are there have been taken before it blocks.
pub proof fn waits_only_after_an_empty_queue(state: ServeState, event: ServeEventView)
    ensures
        action_in(state_after(state, event)) is Wait <==> event is QueueEmpty,
        action_in(state_after(state, event)) is TakeMessage <==> !(event is QueueEmpty),
{
}

/// What the loop is to do in `state`.
pub fn next_action(state: ServeState) -> (action: ServeAction)
    ensures
        action == action_in(state),
{
    match state {
        ServeState::Idle => ServeAction::Wait { timeout_ms: WAIT_TIMEOUT_MS },
        ServeState::Processing => ServeAction::TakeMessage,
    }
}

/// Takes one event in: gives the state that follows and, for a message,
/// the response to it. A message is dispatched to its end before the next
/// event is looked at.
pub fn step(state: ServeState, event: ServeEvent, tree: &Tree) -> (next: (
    ServeState,
    Option<Response>,
))
    ensures
        next.0 == state_after(state, event@),
        response_view(next.1) == response_to(event@, tree@),
{
    match event {
        ServeEvent::Woke => (ServeState::Processing, None),
        ServeEvent::Message(call) => {
            let response = tree.handle(&call);
            (ServeState::Processing, Some(response))
        },
        ServeEvent::QueueEmpty => (ServeState::Idle, None),
    }
}

} // verus!
