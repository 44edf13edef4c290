use mould_client::driver::{request_to_json, Action, Driver};
use mould_client::errors::ProtocolError;
use mould_client::events::{Event, EventKind, InteractionRequest};
use mould_client::json::JsonValue;

fn req() -> InteractionRequest {
    InteractionRequest {
        service: "chat".to_string(),
        action: "list".to_string(),
        payload: vec![],
    }
}

/// Drive a whole interaction synchronously: the fold is applied as soon as it
/// is started, as a runner with an immediately-ready computation would.
fn run(
    server: Vec<Event>,
    close_at_end: bool,
    init: i64,
    fold: &dyn Fn(i64, &JsonValue) -> Result<(i64, Option<JsonValue>), ()>,
) -> (Vec<Event>, Result<i64, ProtocolError>) {
    let mut sent: Vec<Event> = Vec::new();
    let d = Driver::new(init, req());
    let (d, first) = d.take_request();
    let mut d = d;
    sent.push(first.expect("a fresh driver owes the request event"));
    for ev in server {
        let (nd, a) = d.on_event(ev);
        d = nd;
        match a {
            Action::Send(e) => sent.push(e),
            Action::StartFold(acc, v) => match fold(acc, &v) {
                Ok((nacc, reply)) => {
                    let (nd, a2) = d.on_fold_resolved(nacc, reply);
                    d = nd;
                    match a2 {
                        Action::Send(e) => sent.push(e),
                        Action::Finish(acc) => return (sent, Ok(acc)),
                        Action::Fail(e) => return (sent, Err(e)),
                        _ => {}
                    }
                }
                Err(()) => {
                    let (_nd, a2) = d.on_fold_failed();
                    match a2 {
                        Action::Fail(e) => return (sent, Err(e)),
                        _ => panic!("a failed fold must fail the interaction"),
                    }
                }
            },
            Action::Finish(acc) => return (sent, Ok(acc)),
            Action::Fail(e) => return (sent, Err(e)),
            Action::Continue => {}
        }
    }
    assert!(close_at_end, "server script ran out without closing");
    let (_nd, a) = d.on_end_of_stream();
    match a {
        Action::Finish(acc) => (sent, Ok(acc)),
        Action::Fail(e) => (sent, Err(e)),
        _ => panic!("end of stream must settle the interaction"),
    }
}

fn kinds_of(sent: &[Event]) -> Vec<EventKind> {
    sent.iter().map(|e| e.event).collect()
}

#[test]
fn request_event_carries_the_encoded_request() {
    let d: Driver<i64> = Driver::new(0, req());
    let (_d, first) = d.take_request();
    let first = first.unwrap();
    assert_eq!(first.event, EventKind::Request);
    assert_eq!(
        first.data,
        Some(JsonValue::Obj(vec![
            ("service".to_string(), JsonValue::Str("chat".to_string())),
            ("action".to_string(), JsonValue::Str("list".to_string())),
            ("payload".to_string(), JsonValue::Obj(vec![])),
        ]))
    );
}

#[test]
fn request_encoding_keeps_the_payload() {
    let r = InteractionRequest {
        service: "s".to_string(),
        action: "a".to_string(),
        payload: vec![("key".to_string(), JsonValue::Bool(true))],
    };
    assert_eq!(
        request_to_json(r),
        JsonValue::Obj(vec![
            ("service".to_string(), JsonValue::Str("s".to_string())),
            ("action".to_string(), JsonValue::Str("a".to_string())),
            (
                "payload".to_string(),
                JsonValue::Obj(vec![("key".to_string(), JsonValue::Bool(true))])
            ),
        ])
    );
}

#[test]
fn empty_interaction_returns_initial_accumulator() {
    let server = vec![Event::empty(EventKind::Ready), Event::empty(EventKind::Done)];
    let (sent, out) = run(server, false, 7, &|_, _| panic!("fold must never run"));
    assert_eq!(out, Ok(7));
    assert_eq!(kinds_of(&sent), vec![EventKind::Request, EventKind::Next]);
    assert_eq!(sent[1].data, None);
}

#[test]
fn three_items_are_summed_and_each_reply_is_sent() {
    let server = vec![
        Event::empty(EventKind::Ready),
        Event { event: EventKind::Item, data: Some(JsonValue::Int(1)) },
        Event::empty(EventKind::Ready),
        Event { event: EventKind::Item, data: Some(JsonValue::Int(2)) },
        Event::empty(EventKind::Ready),
        Event { event: EventKind::Item, data: Some(JsonValue::Int(3)) },
        Event::empty(EventKind::Ready),
        Event::empty(EventKind::Done),
    ];
    let fold = |acc: i64, v: &JsonValue| -> Result<(i64, Option<JsonValue>), ()> {
        match v {
            JsonValue::Int(x) => Ok((acc + x, Some(JsonValue::Int(acc + x)))),
            _ => Err(()),
        }
    };
    let (sent, out) = run(server, false, 0, &fold);
    assert_eq!(out, Ok(6));
    assert_eq!(
        kinds_of(&sent),
        vec![
            EventKind::Request,
            EventKind::Next,
            EventKind::Next,
            EventKind::Next,
            EventKind::Next,
        ]
    );
    assert_eq!(sent[1].data, None);
    assert_eq!(sent[2].data, Some(JsonValue::Int(1)));
    assert_eq!(sent[3].data, Some(JsonValue::Int(3)));
    assert_eq!(sent[4].data, Some(JsonValue::Int(6)));
}

#[test]
fn rejection_before_ready_sends_only_the_request() {
    let server = vec![Event {
        event: EventKind::Reject,
        data: Some(JsonValue::Str("forbidden".to_string())),
    }];
    let (sent, out) = run(server, false, 0, &|_, _| panic!("fold must never run"));
    assert_eq!(out, Err(ProtocolError::ActionRejected("forbidden".to_string())));
    assert_eq!(kinds_of(&sent), vec![EventKind::Request]);
}

#[test]
fn failure_after_items_discards_the_accumulator() {
    let server = vec![
        Event::empty(EventKind::Ready),
        Event {
            event: EventKind::Item,
            data: Some(JsonValue::Obj(vec![("v".to_string(), JsonValue::Int(1))])),
        },
        Event::empty(EventKind::Ready),
        Event { event: EventKind::Fail, data: Some(JsonValue::Str("db down".to_string())) },
    ];
    let fold = |acc: i64, _v: &JsonValue| -> Result<(i64, Option<JsonValue>), ()> {
        Ok((acc + 1, None))
    };
    let (_sent, out) = run(server, false, 0, &fold);
    assert_eq!(out, Err(ProtocolError::ActionFailed("db down".to_string())));
}

#[test]
fn fold_error_interrupts_the_interaction() {
    let server = vec![
        Event::empty(EventKind::Ready),
        Event { event: EventKind::Item, data: Some(JsonValue::Str("a".to_string())) },
        Event::empty(EventKind::Ready),
        Event { event: EventKind::Item, data: Some(JsonValue::Str("b".to_string())) },
    ];
    let fold = |acc: i64, v: &JsonValue| -> Result<(i64, Option<JsonValue>), ()> {
        match v {
            JsonValue::Str(s) if s == "b" => Err(()),
            _ => Ok((acc, None)),
        }
    };
    let (_sent, out) = run(server, false, 0, &fold);
    assert_eq!(out, Err(ProtocolError::Interrupted));
}

#[test]
fn item_before_ready_is_an_unexpected_kind() {
    let server = vec![Event { event: EventKind::Item, data: Some(JsonValue::Int(1)) }];
    let (sent, out) = run(server, false, 0, &|_, _| panic!("fold must never run"));
    assert_eq!(out, Err(ProtocolError::UnexpectedKind("item".to_string())));
    assert_eq!(kinds_of(&sent), vec![EventKind::Request]);
}

#[test]
fn done_before_ready_is_an_unexpected_kind() {
    let server = vec![Event::empty(EventKind::Done)];
    let (_sent, out) = run(server, false, 0, &|_, _| panic!("fold must never run"));
    assert_eq!(out, Err(ProtocolError::UnexpectedKind("done".to_string())));
}

#[test]
fn suspended_while_streaming_is_an_unexpected_kind() {
    let server = vec![Event::empty(EventKind::Ready), Event::empty(EventKind::Suspended)];
    let (_sent, out) = run(server, false, 0, &|_, _| panic!("fold must never run"));
    assert_eq!(out, Err(ProtocolError::UnexpectedKind("suspended".to_string())));
}

#[test]
fn item_without_payload_is_no_data_provided() {
    let server = vec![Event::empty(EventKind::Ready), Event::empty(EventKind::Item)];
    let (_sent, out) = run(server, false, 0, &|_, _| panic!("fold must never run"));
    assert_eq!(out, Err(ProtocolError::NoDataProvided));
}

#[test]
fn undecodable_item_is_unexpected_format() {
    let d = Driver::new(0i64, req());
    let (d, _first) = d.take_request();
    let (d, a) = d.on_event(Event::empty(EventKind::Ready));
    assert!(matches!(a, Action::Send(_)));
    let (d, a) = d.on_event(Event { event: EventKind::Item, data: Some(JsonValue::Null) });
    assert!(matches!(a, Action::StartFold(0, JsonValue::Null)));
    let (d, a) = d.on_item_undecodable();
    assert_eq!(a, Action::Fail(ProtocolError::UnexpectedFormat));
    assert!(d.finished);
}

#[test]
fn clean_close_without_pending_fold_succeeds() {
    let server = vec![
        Event::empty(EventKind::Ready),
        Event { event: EventKind::Item, data: Some(JsonValue::Int(5)) },
    ];
    let fold = |acc: i64, v: &JsonValue| -> Result<(i64, Option<JsonValue>), ()> {
        match v {
            JsonValue::Int(x) => Ok((acc + x, None)),
            _ => Err(()),
        }
    };
    let (sent, out) = run(server, true, 1, &fold);
    assert_eq!(out, Ok(6));
    assert_eq!(kinds_of(&sent), vec![EventKind::Request, EventKind::Next, EventKind::Next]);
}

#[test]
fn clean_close_with_pending_fold_is_interrupted() {
    let d = Driver::new(0i64, req());
    let (d, _first) = d.take_request();
    let (d, _a) = d.on_event(Event::empty(EventKind::Ready));
    let (d, a) = d.on_event(Event { event: EventKind::Item, data: Some(JsonValue::Int(1)) });
    assert!(matches!(a, Action::StartFold(..)));
    let (d, a) = d.on_end_of_stream();
    assert_eq!(a, Action::Fail(ProtocolError::Interrupted));
    assert!(d.finished);
}

#[test]
fn done_while_fold_pending_drains_and_discards_the_reply() {
    let d = Driver::new(0i64, req());
    let (d, _first) = d.take_request();
    let (d, _a) = d.on_event(Event::empty(EventKind::Ready));
    let (d, a) = d.on_event(Event { event: EventKind::Item, data: Some(JsonValue::Int(2)) });
    assert!(matches!(a, Action::StartFold(0, JsonValue::Int(2))));
    let (d, a) = d.on_event(Event::empty(EventKind::Done));
    assert_eq!(a, Action::Continue);
    assert!(d.is_done && !d.finished);
    let (d, a) = d.on_fold_resolved(2, Some(JsonValue::Int(2)));
    assert_eq!(a, Action::Finish(2));
    assert!(d.finished);
}

#[test]
fn fold_failure_while_draining_is_interrupted() {
    let d = Driver::new(0i64, req());
    let (d, _first) = d.take_request();
    let (d, _a) = d.on_event(Event::empty(EventKind::Ready));
    let (d, _a) = d.on_event(Event { event: EventKind::Item, data: Some(JsonValue::Int(2)) });
    let (d, _a) = d.on_event(Event::empty(EventKind::Done));
    let (d, a) = d.on_fold_failed();
    assert_eq!(a, Action::Fail(ProtocolError::Interrupted));
    assert!(d.finished);
}

#[test]
fn ready_while_streaming_is_quiet() {
    let d = Driver::new(0i64, req());
    let (d, _first) = d.take_request();
    let (d, _a) = d.on_event(Event::empty(EventKind::Ready));
    let (d, a) = d.on_event(Event::empty(EventKind::Ready));
    assert_eq!(a, Action::Continue);
    assert!(!d.need_next && !d.finished);
}

#[test]
fn reject_with_non_string_payload_uses_the_sentinel() {
    let server = vec![Event { event: EventKind::Reject, data: Some(JsonValue::Int(3)) }];
    let (_sent, out) = run(server, false, 0, &|_, _| panic!("fold must never run"));
    assert_eq!(out, Err(ProtocolError::ActionRejected("<no reject reason>".to_string())));
}

#[test]
fn fail_without_payload_uses_the_sentinel() {
    let server = vec![Event::empty(EventKind::Fail)];
    let (_sent, out) = run(server, false, 0, &|_, _| panic!("fold must never run"));
    assert_eq!(out, Err(ProtocolError::ActionFailed("<no fail reason>".to_string())));
}

#[test]
fn fold_reply_of_none_sends_a_payload_free_next() {
    let server = vec![
        Event::empty(EventKind::Ready),
        Event { event: EventKind::Item, data: Some(JsonValue::Int(1)) },
        Event::empty(EventKind::Ready),
        Event::empty(EventKind::Done),
    ];
    let fold = |acc: i64, _v: &JsonValue| -> Result<(i64, Option<JsonValue>), ()> {
        Ok((acc, None))
    };
    let (sent, out) = run(server, false, 4, &fold);
    assert_eq!(out, Ok(4));
    assert_eq!(kinds_of(&sent), vec![EventKind::Request, EventKind::Next, EventKind::Next]);
    assert_eq!(sent[2].data, None);
}
