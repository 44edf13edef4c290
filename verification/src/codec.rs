use vstd::prelude::*;

use crate::errors::ProtocolError;
use crate::events::{Event, EventKind};
use crate::json::JsonValue;

verus! {

/// The canonical wire spelling of an event kind.
pub open spec fn kind_str(k: EventKind) -> Seq<char> {
    match k {
        EventKind::Request => "request"@,
        EventKind::Ready => "ready"@,
        EventKind::Item => "item"@,
        EventKind::Next => "next"@,
        EventKind::Reject => "reject"@,
        EventKind::Fail => "fail"@,
        EventKind::Done => "done"@,
        EventKind::Cancel => "cancel"@,
        EventKind::Suspended => "suspended"@,
    }
}

/// The event kind a wire string stands for; `None` for any string outside the
/// closed set.
pub open spec fn kind_of_str(s: Seq<char>) -> Option<EventKind> {
    if s == "request"@ {
        Some(EventKind::Request)
    } else if s == "ready"@ {
        Some(EventKind::Ready)
    } else if s == "item"@ {
        Some(EventKind::Item)
    } else if s == "next"@ {
        Some(EventKind::Next)
    } else if s == "reject"@ {
        Some(EventKind::Reject)
    } else if s == "fail"@ {
        Some(EventKind::Fail)
    } else if s == "done"@ {
        Some(EventKind::Done)
    } else if s == "cancel"@ {
        Some(EventKind::Cancel)
    } else if s == "suspended"@ {
        Some(EventKind::Suspended)
    } else {
        None
    }
}

/// String equality by content.
fn str_eq(a: &str, b: &str) -> (r: bool)
    ensures
        r == (a@ == b@),
{
    let x: String = a.to_owned();
    let y: String = b.to_owned();
    x == y
}

/// The canonical string of a kind, as an owned value.
pub fn kind_to_str(k: EventKind) -> (r: String)
    ensures
        r@ == kind_str(k),
{
    match k {
        EventKind::Request => "request".to_owned(),
        EventKind::Ready => "ready".to_owned(),
        EventKind::Item => "item".to_owned(),
        EventKind::Next => "next".to_owned(),
        EventKind::Reject => "reject".to_owned(),
        EventKind::Fail => "fail".to_owned(),
        EventKind::Done => "done".to_owned(),
        EventKind::Cancel => "cancel".to_owned(),
        EventKind::Suspended => "suspended".to_owned(),
    }
}

/// Parse a wire string back into a kind; any string outside the closed set is
/// refused.
pub fn kind_from_str(s: &str) -> (r: Option<EventKind>)
    ensures
        r == kind_of_str(s@),
{
    if str_eq(s, "request") {
        Some(EventKind::Request)
    } else if str_eq(s, "ready") {
        Some(EventKind::Ready)
    } else if str_eq(s, "item") {
        Some(EventKind::Item)
    } else if str_eq(s, "next") {
        Some(EventKind::Next)
    } else if str_eq(s, "reject") {
        Some(EventKind::Reject)
    } else if str_eq(s, "fail") {
        Some(EventKind::Fail)
    } else if str_eq(s, "done") {
        Some(EventKind::Done)
    } else if str_eq(s, "cancel") {
        Some(EventKind::Cancel)
    } else if str_eq(s, "suspended") {
        Some(EventKind::Suspended)
    } else {
        None
    }
}

/// The kind-to-string map round-trips: parsing the canonical spelling of any
/// kind gives that kind back, so the map is injective and total on the closed
/// set.
pub proof fn lemma_kind_round_trip(k: EventKind)
    ensures
        kind_of_str(kind_str(k)) == Some(k),
{
    reveal_strlit("request");
    reveal_strlit("ready");
    reveal_strlit("item");
    reveal_strlit("next");
    reveal_strlit("reject");
    reveal_strlit("fail");
    reveal_strlit("done");
    reveal_strlit("cancel");
    reveal_strlit("suspended");
    assert("request"@.len() == 7);
    assert("ready"@.len() == 5);
    assert("item"@.len() == 4);
    assert("next"@.len() == 4);
    assert("reject"@.len() == 6);
    assert("fail"@.len() == 4);
    assert("done"@.len() == 4);
    assert("cancel"@.len() == 6);
    assert("suspended"@.len() == 9);
    assert("item"@[0] == 'i');
    assert("next"@[0] == 'n');
    assert("fail"@[0] == 'f');
    assert("done"@[0] == 'd');
    assert("reject"@[0] == 'r');
    assert("cancel"@[0] == 'c');
    match k {
        EventKind::Request => assert(kind_of_str(kind_str(k)) == Some(EventKind::Request)),
        EventKind::Ready => assert(kind_of_str(kind_str(k)) == Some(EventKind::Ready)),
        EventKind::Item => assert(kind_of_str(kind_str(k)) == Some(EventKind::Item)),
        EventKind::Next => assert(kind_of_str(kind_str(k)) == Some(EventKind::Next)),
        EventKind::Reject => assert(kind_of_str(kind_str(k)) == Some(EventKind::Reject)),
        EventKind::Fail => assert(kind_of_str(kind_str(k)) == Some(EventKind::Fail)),
        EventKind::Done => assert(kind_of_str(kind_str(k)) == Some(EventKind::Done)),
        EventKind::Cancel => assert(kind_of_str(kind_str(k)) == Some(EventKind::Cancel)),
        EventKind::Suspended => assert(kind_of_str(kind_str(k)) == Some(EventKind::Suspended)),
    }
}

/// An event in its wire shape: the kind by its canonical string, the payload
/// as it stands. The surrounding text encoding (one JSON object with an
/// `event` field and an optional `data` field) is applied outside this crate.
#[derive(Debug, PartialEq)]
pub struct WireEvent {
    pub event: String,
    pub data: Option<JsonValue>,
}

/// Encode an event for the wire. The payload passes through unchanged.
pub fn encode_event(e: Event) -> (r: WireEvent)
    ensures
        r.event@ == kind_str(e.event),
        r.data == e.data,
{
    WireEvent { event: kind_to_str(e.event), data: e.data }
}

/// Decode a wire event. An unknown kind string is a decoding error; the
/// payload passes through unchanged.
pub fn decode_event(w: WireEvent) -> (r: Result<Event, ProtocolError>)
    ensures
        match kind_of_str(w.event@) {
            Some(k) => r matches Ok(e) && e.event == k && e.data == w.data,
            None => r matches Err(pe) && pe is UnexpectedFormat,
        },
{
    match kind_from_str(w.event.as_str()) {
        Some(k) => Ok(Event { event: k, data: w.data }),
        None => Err(ProtocolError::UnexpectedFormat),
    }
}

/// Round trip: a wire event that encodes `e` decodes to an event equal to `e`.
pub proof fn lemma_event_round_trip(e: Event, w: WireEvent)
    requires
        w.event@ == kind_str(e.event),
        w.data == e.data,
    ensures
        kind_of_str(w.event@) == Some(e.event),
{
    lemma_kind_round_trip(e.event);
}

/// One message of the underlying channel, as the transport classifies it.
#[derive(Debug, PartialEq)]
pub enum Frame {
    /// A text message; the only frame shape the protocol accepts.
    Text(String),
    /// A binary message.
    Binary(Vec<u8>),
    /// Any other frame of the underlying channel.
    Control,
}

/// Admit only text frames: the body of a text frame is handed on, every other
/// frame shape is an `UnexpectedFormat` error.
pub fn frame_text(f: Frame) -> (r: Result<String, ProtocolError>)
    ensures
        match f {
            Frame::Text(s) => r matches Ok(t) && t == s,
            _ => r matches Err(pe) && pe is UnexpectedFormat,
        },
{
    match f {
        Frame::Text(s) => Ok(s),
        _ => Err(ProtocolError::UnexpectedFormat),
    }
}

} // verus!
