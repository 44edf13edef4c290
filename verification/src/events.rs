use vstd::prelude::*;

use crate::json::JsonValue;

verus! {

/// The closed set of event kinds the protocol knows.
#[derive(Debug, Clone, Copy, PartialEq, Eq, Structural)]
pub enum EventKind {
    Request,
    Ready,
    Item,
    Next,
    Reject,
    Fail,
    Done,
    Cancel,
    Suspended,
}

/// One protocol message: a kind and an optional structured payload.
#[derive(Debug, PartialEq)]
pub struct Event {
    pub event: EventKind,
    pub data: Option<JsonValue>,
}

impl Event {
    /// Whether this event terminates the interaction (`Done`, `Fail` or
    /// `Reject`).
    pub fn is_terminated(&self) -> (r: bool)
        ensures
            r == (self.event is Done || self.event is Fail || self.event is Reject),
    {
        match self.event {
            EventKind::Done | EventKind::Fail | EventKind::Reject => true,
            _ => false,
        }
    }

    /// Whether this event is the server's `Ready` signal.
    pub fn is_ready(&self) -> (r: bool)
        ensures
            r == (self.event is Ready),
    {
        match self.event {
            EventKind::Ready => true,
            _ => false,
        }
    }

    /// An event of the given kind with no payload.
    pub fn empty(kind: EventKind) -> (r: Self)
        ensures
            r.event == kind,
            r.data is None,
    {
        Event { event: kind, data: None }
    }
}

/// The body of the initial `Request` event: the service and action to invoke,
/// and the action's named arguments.
#[derive(Debug, PartialEq)]
pub struct InteractionRequest {
    pub service: String,
    pub action: String,
    pub payload: Vec<(String, JsonValue)>,
}

/// An action invocation without the service name; the form a service sees
/// once the request has been routed.
#[derive(Debug, PartialEq)]
pub struct Request {
    pub action: String,
    pub payload: Vec<(String, JsonValue)>,
}

} // verus!
