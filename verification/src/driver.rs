use vstd::prelude::*;

use crate::codec::kind_str;
use crate::codec::kind_to_str;
use crate::errors::ProtocolError;
use crate::events::{Event, EventKind, InteractionRequest};
use crate::json::JsonValue;

verus! {

/// The JSON shape of an encoded interaction request: an object with the
/// `service`, `action` and `payload` fields, in that order.
pub open spec fn request_json(req: InteractionRequest, v: JsonValue) -> bool {
    &&& v matches JsonValue::Obj(fields)
    &&& fields@.len() == 3
    &&& fields@[0].0@ == "service"@
    &&& fields@[0].1 == JsonValue::Str(req.service)
    &&& fields@[1].0@ == "action"@
    &&& fields@[1].1 == JsonValue::Str(req.action)
    &&& fields@[2].0@ == "payload"@
    &&& fields@[2].1 == JsonValue::Obj(req.payload)
}

/// Encode an interaction request as the payload of the initial `Request`
/// event.
pub fn request_to_json(req: InteractionRequest) -> (v: JsonValue)
    ensures
        request_json(req, v),
{
    let mut fields: Vec<(String, JsonValue)> = Vec::new();
    fields.push(("service".to_owned(), JsonValue::Str(req.service)));
    fields.push(("action".to_owned(), JsonValue::Str(req.action)));
    fields.push(("payload".to_owned(), JsonValue::Obj(req.payload)));
    JsonValue::Obj(fields)
}

/// What the driver asks its runner to do after a step.
#[derive(Debug, PartialEq)]
pub enum Action<T> {
    /// Enqueue this event on the transport, then flush.
    Send(Event),
    /// Invoke the fold on the accumulator and this item payload; report the
    /// outcome through `on_fold_resolved`, `on_fold_failed` or
    /// `on_item_undecodable`.
    StartFold(T, JsonValue),
    /// The interaction succeeded: hand the accumulator and the transport back
    /// to the caller.
    Finish(T),
    /// The interaction failed; release the transport.
    Fail(ProtocolError),
    /// Nothing to do; keep polling.
    Continue,
}

/// The state of one interaction, driven forward step by step.
///
/// The runner owns the transport and the outstanding fold computation; the
/// driver owns the protocol: it decides, for each incoming event or fold
/// outcome, what is sent, when the fold runs, and when the interaction ends.
#[derive(Debug, PartialEq)]
pub struct Driver<T> {
    /// The initial `Request` event, present until it has been handed out for
    /// sending; while it is present nothing has been sent.
    pub pending_request: Option<Event>,
    /// The accumulator, present except while lent to the fold.
    pub accumulator: Option<T>,
    /// True until the first `Ready` has been answered with the bootstrap
    /// `Next`.
    pub need_next: bool,
    /// Latched when `Done` arrives; governs what a resolving fold leads to.
    pub is_done: bool,
    /// Whether a fold invocation is outstanding.
    pub fold_pending: bool,
    /// Whether the interaction has ended, in success or failure.
    pub finished: bool,
}

impl<T> Driver<T> {
    /// The driver's well-formedness: the accumulator is either held or lent
    /// (never both, never neither) while the interaction runs, the request is
    /// only pending before anything else has happened, and `Done` without a
    /// resolved fold is the only state that outlives it.
    pub open spec fn wf(self) -> bool {
        &&& !self.finished ==> (self.fold_pending <==> self.accumulator is None)
        &&& self.pending_request matches Some(e) ==> {
            &&& e.event is Request
            &&& self.need_next
            &&& !self.is_done
            &&& !self.fold_pending
            &&& !self.finished
        }
        &&& self.is_done ==> !self.need_next
        &&& self.is_done && !self.finished ==> self.fold_pending
        &&& self.fold_pending ==> !self.need_next
    }

    /// The state after a step that ends the interaction.
    pub open spec fn halted(self) -> Driver<T> {
        Driver { finished: true, ..self }
    }

    /// A fresh driver: the request is encoded and queued, the accumulator
    /// held, and the first `Ready` still owed its bootstrap `Next`.
    pub fn new(init: T, req: InteractionRequest) -> (d: Driver<T>)
        ensures
            d.wf(),
            ({
                &&& d.pending_request matches Some(e)
                &&& e.event is Request
                &&& e.data matches Some(v)
                &&& request_json(req, v)
            }),
            d.accumulator == Some(init),
            d.need_next,
            !d.is_done,
            !d.fold_pending,
            !d.finished,
    {
        let v = request_to_json(req);
        Driver {
            pending_request: Some(Event { event: EventKind::Request, data: Some(v) }),
            accumulator: Some(init),
            need_next: true,
            is_done: false,
            fold_pending: false,
            finished: false,
        }
    }

    /// Hand out the initial `Request` event, exactly once. The runner must
    /// send it before reading anything: every other step requires the request
    /// to be gone, so the `Request` is always the first event sent.
    pub fn take_request(self) -> (r: (Driver<T>, Option<Event>))
        requires
            self.wf(),
        ensures
            r.0.wf(),
            r.1 == self.pending_request,
            r.0 == (Driver { pending_request: None::<Event>, ..self }),
    {
        let Driver { pending_request, accumulator, need_next, is_done, fold_pending, finished } =
            self;
        (
            Driver {
                pending_request: None,
                accumulator,
                need_next,
                is_done,
                fold_pending,
                finished,
            },
            pending_request,
        )
    }
}

/// The reason string of a `Reject` or `Fail` event: the payload verbatim when
/// it is a string scalar, the given sentinel otherwise.
pub open spec fn reason_view(data: Option<JsonValue>, sentinel: Seq<char>) -> Seq<char> {
    match data {
        Some(JsonValue::Str(s)) => s@,
        _ => sentinel,
    }
}

impl<T> Driver<T> {
    /// The transition relation for one incoming event, from `pre` to `post`
    /// with action `a`. It is total and deterministic over the states
    /// `on_event` admits, so each step of a run is pinned by this predicate.
    pub open spec fn event_step(pre: Driver<T>, ev: Event, post: Driver<T>, a: Action<T>) -> bool {
        if pre.need_next {
            // Awaiting the first `Ready`: only `Ready`, `Reject` and `Fail`
            // are admissible here.
            match ev.event {
                EventKind::Ready => {
                    &&& a == Action::<T>::Send(Event { event: EventKind::Next, data: None })
                    &&& post == (Driver { need_next: false, ..pre })
                },
                EventKind::Reject => Self::rejected_step(pre, ev, post, a),
                EventKind::Fail => Self::failed_step(pre, ev, post, a),
                _ => Self::unexpected_step(pre, ev, post, a),
            }
        } else {
            // Streaming.
            match ev.event {
                EventKind::Ready => {
                    // The server's backpressure signal: the pending reply, if
                    // resolved, goes out through the fold-outcome step.
                    &&& a is Continue
                    &&& post == pre
                },
                EventKind::Item => {
                    match ev.data {
                        Some(v) => {
                            if pre.fold_pending {
                                // An item that arrives while a fold is still
                                // outstanding is dropped; a conforming
                                // server's strict alternation never sends one.
                                &&& a is Continue
                                &&& post == pre
                            } else {
                                &&& a == Action::<T>::StartFold(pre.accumulator->0, v)
                                &&& post == (Driver {
                                    accumulator: None::<T>,
                                    fold_pending: true,
                                    ..pre
                                })
                            }
                        },
                        None => {
                            &&& a == Action::<T>::Fail(ProtocolError::NoDataProvided)
                            &&& post == pre.halted()
                        },
                    }
                },
                EventKind::Reject => Self::rejected_step(pre, ev, post, a),
                EventKind::Fail => Self::failed_step(pre, ev, post, a),
                EventKind::Done => {
                    if pre.fold_pending {
                        // Draining: the fold's resolution will finish the
                        // interaction.
                        &&& a is Continue
                        &&& post == (Driver { is_done: true, ..pre })
                    } else {
                        &&& a == Action::<T>::Finish(pre.accumulator->0)
                        &&& post == (Driver {
                            accumulator: None::<T>,
                            is_done: true,
                            finished: true,
                            ..pre
                        })
                    }
                },
                _ => Self::unexpected_step(pre, ev, post, a),
            }
        }
    }

    /// A `Reject` ends the interaction with `ActionRejected` carrying the
    /// payload's string form, or the sentinel reason.
    pub open spec fn rejected_step(pre: Driver<T>, ev: Event, post: Driver<T>, a: Action<T>) -> bool {
        &&& a matches Action::Fail(ProtocolError::ActionRejected(m))
        &&& m@ == reason_view(ev.data, "<no reject reason>"@)
        &&& post == pre.halted()
    }

    /// A `Fail` ends the interaction with `ActionFailed` carrying the
    /// payload's string form, or the sentinel reason.
    pub open spec fn failed_step(pre: Driver<T>, ev: Event, post: Driver<T>, a: Action<T>) -> bool {
        &&& a matches Action::Fail(ProtocolError::ActionFailed(m))
        &&& m@ == reason_view(ev.data, "<no fail reason>"@)
        &&& post == pre.halted()
    }

    /// A kind that the current state forbids ends the interaction with
    /// `UnexpectedKind` carrying the kind's canonical string.
    pub open spec fn unexpected_step(pre: Driver<T>, ev: Event, post: Driver<T>, a: Action<T>) -> bool {
        &&& a matches Action::Fail(ProtocolError::UnexpectedKind(m))
        &&& m@ == kind_str(ev.event)
        &&& post == pre.halted()
    }

    /// Extract the reason of a `Reject` or `Fail` payload, with the sentinel
    /// for any payload that is not a string scalar.
    fn reason_of(data: Option<JsonValue>, sentinel: &str) -> (r: String)
        ensures
            r@ == reason_view(data, sentinel@),
    {
        match data {
            Some(JsonValue::Str(s)) => s,
            _ => sentinel.to_owned(),
        }
    }

    /// Process one incoming event.
    ///
    /// The runner must have sent the initial request (`take_request`) first,
    /// and must stop reading once the interaction has finished or `Done` has
    /// arrived.
    pub fn on_event(self, ev: Event) -> (r: (Driver<T>, Action<T>))
        requires
            self.wf(),
            self.pending_request is None,
            !self.finished,
            !self.is_done,
        ensures
            r.0.wf(),
            Self::event_step(self, ev, r.0, r.1),
    {
        let Event { event, data } = ev;
        if self.need_next {
            match event {
                EventKind::Ready => {
                    let post = Driver { need_next: false, ..self };
                    (post, Action::Send(Event { event: EventKind::Next, data: None }))
                },
                EventKind::Reject => {
                    let reason = Self::reason_of(data, "<no reject reason>");
                    (self.halt(), Action::Fail(ProtocolError::ActionRejected(reason)))
                },
                EventKind::Fail => {
                    let reason = Self::reason_of(data, "<no fail reason>");
                    (self.halt(), Action::Fail(ProtocolError::ActionFailed(reason)))
                },
                _ => {
                    let name = kind_to_str(event);
                    (self.halt(), Action::Fail(ProtocolError::UnexpectedKind(name)))
                },
            }
        } else {
            match event {
                EventKind::Ready => (self, Action::Continue),
                EventKind::Item => {
                    match data {
                        Some(v) => {
                            if self.fold_pending {
                                (self, Action::Continue)
                            } else {
                                let Driver {
                                    pending_request,
                                    accumulator,
                                    need_next,
                                    is_done,
                                    fold_pending,
                                    finished,
                                } = self;
                                let acc = accumulator.unwrap();
                                let post = Driver {
                                    pending_request,
                                    accumulator: None,
                                    need_next,
                                    is_done,
                                    fold_pending: true,
                                    finished,
                                };
                                (post, Action::StartFold(acc, v))
                            }
                        },
                        None => (self.halt(), Action::Fail(ProtocolError::NoDataProvided)),
                    }
                },
                EventKind::Reject => {
                    let reason = Self::reason_of(data, "<no reject reason>");
                    (self.halt(), Action::Fail(ProtocolError::ActionRejected(reason)))
                },
                EventKind::Fail => {
                    let reason = Self::reason_of(data, "<no fail reason>");
                    (self.halt(), Action::Fail(ProtocolError::ActionFailed(reason)))
                },
                EventKind::Done => {
                    if self.fold_pending {
                        let post = Driver { is_done: true, ..self };
                        (post, Action::Continue)
                    } else {
                        let Driver {
                            pending_request,
                            accumulator,
                            need_next,
                            is_done,
                            fold_pending,
                            finished,
                        } = self;
                        let acc = accumulator.unwrap();
                        let post = Driver {
                            pending_request,
                            accumulator: None,
                            need_next,
                            is_done: true,
                            fold_pending,
                            finished: true,
                        };
                        (post, Action::Finish(acc))
                    }
                },
                _ => {
                    let name = kind_to_str(event);
                    (self.halt(), Action::Fail(ProtocolError::UnexpectedKind(name)))
                },
            }
        }
    }

    /// The same state with the interaction marked over.
    fn halt(self) -> (r: Driver<T>)
        ensures
            r == self.halted(),
    {
        Driver { finished: true, ..self }
    }
}

/// The transition for a fold that resolved with the new accumulator and an
/// optional reply: before `Done`, the reply goes out as one `Next` (its
/// payload absent when the fold returned none) and the accumulator comes
/// home; after `Done`, the reply is discarded and the interaction succeeds.
pub open spec fn fold_step<T>(
    pre: Driver<T>,
    acc: T,
    reply: Option<JsonValue>,
    post: Driver<T>,
    a: Action<T>,
) -> bool {
    if pre.is_done {
        &&& a == Action::<T>::Finish(acc)
        &&& post == (Driver { fold_pending: false, finished: true, ..pre })
    } else {
        &&& a == Action::<T>::Send(Event { event: EventKind::Next, data: reply })
        &&& post == (Driver { accumulator: Some(acc), fold_pending: false, ..pre })
    }
}

impl<T> Driver<T> {
    /// Take the outcome of a resolved fold.
    pub fn on_fold_resolved(self, acc: T, reply: Option<JsonValue>) -> (r: (Driver<T>, Action<T>))
        requires
            self.wf(),
            self.fold_pending,
            !self.finished,
        ensures
            r.0.wf(),
            fold_step(self, acc, reply, r.0, r.1),
    {
        let Driver { pending_request, accumulator, need_next, is_done, fold_pending, finished } =
            self;
        if is_done {
            let post = Driver {
                pending_request,
                accumulator,
                need_next,
                is_done,
                fold_pending: false,
                finished: true,
            };
            (post, Action::Finish(acc))
        } else {
            let post = Driver {
                pending_request,
                accumulator: Some(acc),
                need_next,
                is_done,
                fold_pending: false,
                finished,
            };
            (post, Action::Send(Event { event: EventKind::Next, data: reply }))
        }
    }

    /// The fold computation failed: the interaction ends with `Interrupted`.
    pub fn on_fold_failed(self) -> (r: (Driver<T>, Action<T>))
        requires
            self.wf(),
            self.fold_pending,
            !self.finished,
        ensures
            r.0.wf(),
            r.0 == self.halted(),
            r.1 == Action::<T>::Fail(ProtocolError::Interrupted),
    {
        (self.halt(), Action::Fail(ProtocolError::Interrupted))
    }

    /// The item payload handed out with `StartFold` was not decodable as the
    /// fold's input type: the interaction ends with `UnexpectedFormat`.
    pub fn on_item_undecodable(self) -> (r: (Driver<T>, Action<T>))
        requires
            self.wf(),
            self.fold_pending,
            !self.finished,
        ensures
            r.0.wf(),
            r.0 == self.halted(),
            r.1 == Action::<T>::Fail(ProtocolError::UnexpectedFormat),
    {
        (self.halt(), Action::Fail(ProtocolError::UnexpectedFormat))
    }

    /// Send inventory of the event steps: the only event a running
    /// interaction ever sends in answer to an incoming event is the bootstrap
    /// `Next`, payload-free, in answer to the first `Ready`. In particular no
    /// event step sends a `Request`: the `Request` handed out by
    /// `take_request` is the first and only one, and it precedes every step.
    pub proof fn lemma_event_step_sends(pre: Driver<T>, ev: Event, post: Driver<T>, a: Action<T>)
        requires
            pre.wf(),
            Self::event_step(pre, ev, post, a),
        ensures
            a matches Action::Send(e) ==> {
                &&& e.event is Next
                &&& e.data is None
                &&& pre.need_next
                &&& ev.event is Ready
            },
    {
    }

    /// The bootstrap reply happens exactly once: the first `Ready` is
    /// answered with one payload-free `Next` and clears `need_next`; once
    /// cleared, `need_next` never comes back, and no later `Ready` is
    /// answered by an event step.
    pub proof fn lemma_bootstrap_next(pre: Driver<T>, ev: Event, post: Driver<T>, a: Action<T>)
        requires
            pre.wf(),
            Self::event_step(pre, ev, post, a),
        ensures
            pre.need_next && ev.event is Ready ==> a == Action::<T>::Send(
                Event { event: EventKind::Next, data: None },
            ) && !post.need_next,
            !pre.need_next ==> !post.need_next,
            !pre.need_next && ev.event is Ready ==> a is Continue,
    {
    }

    /// After a terminating event the driver sends nothing further: `Reject`
    /// and `Fail` end the interaction at once, and `Done` either ends it or
    /// leaves only the drain of the outstanding fold, whose resolution
    /// finishes without sending (`lemma_drain_discards_reply`). Finished
    /// states admit no step at all.
    pub proof fn lemma_terminal_halts(pre: Driver<T>, ev: Event, post: Driver<T>, a: Action<T>)
        requires
            pre.wf(),
            Self::event_step(pre, ev, post, a),
            ev.event is Done || ev.event is Reject || ev.event is Fail,
        ensures
            !(a is Send),
            !(a is StartFold),
            ev.event is Reject || ev.event is Fail ==> post.finished,
            ev.event is Done && !pre.need_next ==> post.finished || (post.is_done
                && post.fold_pending),
    {
    }

    /// A fold that resolves after `Done` finishes the interaction with the
    /// fold's accumulator; its reply is discarded and nothing is sent.
    pub proof fn lemma_drain_discards_reply(
        pre: Driver<T>,
        acc: T,
        reply: Option<JsonValue>,
        post: Driver<T>,
        a: Action<T>,
    )
        requires
            pre.wf(),
            pre.is_done,
            fold_step(pre, acc, reply, post, a),
        ensures
            a == Action::<T>::Finish(acc),
            post.finished,
    {
    }

    /// One `Next` per accepted item, carrying the fold's reply verbatim, and
    /// the accumulator threads through untouched: an accepted item lends the
    /// current accumulator to exactly one fold invocation, and the fold's
    /// resolution before `Done` sends exactly one `Next` whose payload is the
    /// fold's reply (absent when the fold returned none) while the fold's
    /// accumulator becomes the current one.
    pub proof fn lemma_item_reply(
        pre: Driver<T>,
        ev: Event,
        post: Driver<T>,
        a: Action<T>,
        pre2: Driver<T>,
        acc: T,
        reply: Option<JsonValue>,
        post2: Driver<T>,
        a2: Action<T>,
    )
        requires
            pre.wf(),
            Self::event_step(pre, ev, post, a),
            !pre.need_next,
            !pre.fold_pending,
            ev.event is Item,
            ev.data is Some,
            pre2.wf(),
            !pre2.is_done,
            fold_step(pre2, acc, reply, post2, a2),
        ensures
            a == Action::<T>::StartFold(pre.accumulator->0, ev.data->0),
            post.fold_pending && post.accumulator is None,
            a2 == Action::<T>::Send(Event { event: EventKind::Next, data: reply }),
            post2.accumulator == Some(acc) && !post2.fold_pending,
    {
    }

    /// On success the returned accumulator is the fold chain's last output:
    /// every way the interaction can finish returns either the accumulator
    /// the driver holds (which `lemma_item_reply` shows is always the latest
    /// fold output, or the initial value before any fold) or, while draining,
    /// the resolving fold's own output.
    pub proof fn lemma_success_returns_accumulator(
        pre: Driver<T>,
        ev: Event,
        post: Driver<T>,
        a: Action<T>,
    )
        requires
            pre.wf(),
            !pre.finished,
            Self::event_step(pre, ev, post, a),
        ensures
            a matches Action::Finish(acc) ==> {
                &&& ev.event is Done
                &&& !pre.fold_pending
                &&& Some(acc) == pre.accumulator
            },
    {
    }

    /// The transition for a clean close of the channel before `Done`: a
    /// tolerant close. The interaction succeeds with the current accumulator
    /// if and only if no fold is outstanding; otherwise it ends with
    /// `Interrupted`.
    pub open spec fn eos_step(pre: Driver<T>, post: Driver<T>, a: Action<T>) -> bool {
        if pre.fold_pending {
            &&& post == pre.halted()
            &&& a == Action::<T>::Fail(ProtocolError::Interrupted)
        } else {
            &&& post == (Driver { accumulator: None::<T>, finished: true, ..pre })
            &&& a == Action::<T>::Finish(pre.accumulator->0)
        }
    }

    /// The channel closed cleanly before `Done`.
    pub fn on_end_of_stream(self) -> (r: (Driver<T>, Action<T>))
        requires
            self.wf(),
            self.pending_request is None,
            !self.finished,
            !self.is_done,
        ensures
            r.0.wf(),
            Self::eos_step(self, r.0, r.1),
    {
        let Driver { pending_request, accumulator, need_next, is_done, fold_pending, finished } =
            self;
        if fold_pending {
            let post = Driver {
                pending_request,
                accumulator,
                need_next,
                is_done,
                fold_pending,
                finished: true,
            };
            (post, Action::Fail(ProtocolError::Interrupted))
        } else {
            let acc = accumulator.unwrap();
            let post = Driver {
                pending_request,
                accumulator: None,
                need_next,
                is_done,
                fold_pending,
                finished: true,
            };
            (post, Action::Finish(acc))
        }
    }
}


} // verus!
