use vstd::prelude::*;

use crate::driver::{fold_step, Action, Driver};
use crate::events::Event;
use crate::json::JsonValue;

verus! {

/// One input a runner can feed the driver after the request has been handed
/// out: an incoming event, a clean close, or the outcome of the outstanding
/// fold.
pub enum StepInput<T> {
    FromServer(Event),
    Closed,
    FoldOk(T, Option<JsonValue>),
    FoldErr,
    Undecodable,
}

/// One recorded step of a run: the input fed to the driver, the state it
/// moved to, and the action it answered with.
pub struct Step<T> {
    pub input: StepInput<T>,
    pub post: Driver<T>,
    pub action: Action<T>,
}

/// When a runner may feed an input: exactly the preconditions of the
/// driver's step functions.
pub open spec fn step_allowed<T>(pre: Driver<T>, i: StepInput<T>) -> bool {
    match i {
        StepInput::FromServer(_) => pre.pending_request is None && !pre.finished
            && !pre.is_done,
        StepInput::Closed => pre.pending_request is None && !pre.finished && !pre.is_done,
        StepInput::FoldOk(_, _) => pre.fold_pending && !pre.finished,
        StepInput::FoldErr => pre.fold_pending && !pre.finished,
        StepInput::Undecodable => pre.fold_pending && !pre.finished,
    }
}

/// The driver's whole transition relation, one arm per step function.
pub open spec fn step_rel<T>(pre: Driver<T>, i: StepInput<T>, post: Driver<T>, a: Action<T>) -> bool {
    match i {
        StepInput::FromServer(ev) => Driver::<T>::event_step(pre, ev, post, a),
        StepInput::Closed => Driver::<T>::eos_step(pre, post, a),
        StepInput::FoldOk(acc, reply) => fold_step(pre, acc, reply, post, a),
        StepInput::FoldErr => post == pre.halted() && a matches Action::Fail(
            crate::errors::ProtocolError::Interrupted,
        ),
        StepInput::Undecodable => post == pre.halted() && a matches Action::Fail(
            crate::errors::ProtocolError::UnexpectedFormat,
        ),
    }
}

/// A run: every step was allowed in the state it met and follows the
/// transition relation, each from the state the previous step produced.
pub open spec fn run_ok<T>(d0: Driver<T>, steps: Seq<Step<T>>) -> bool
    decreases steps.len(),
{
    steps.len() == 0 || {
        &&& step_allowed(d0, steps[0].input)
        &&& step_rel(d0, steps[0].input, steps[0].post, steps[0].action)
        &&& run_ok(steps[0].post, steps.drop_first())
    }
}

/// The events a run sends, in order.
pub open spec fn sends_of<T>(steps: Seq<Step<T>>) -> Seq<Event>
    decreases steps.len(),
{
    if steps.len() == 0 {
        Seq::empty()
    } else {
        let rest = sends_of(steps.drop_first());
        match steps[0].action {
            Action::Send(e) => seq![e] + rest,
            _ => rest,
        }
    }
}

/// How many steps of a run answer a first `Ready` with the bootstrap `Next`.
pub open spec fn bootstrap_sends<T>(d0: Driver<T>, steps: Seq<Step<T>>) -> nat
    decreases steps.len(),
{
    if steps.len() == 0 {
        0
    } else {
        let here: nat = if d0.need_next && (steps[0].input matches StepInput::FromServer(ev)
            && ev.event is Ready) {
            1
        } else {
            0
        };
        here + bootstrap_sends(steps[0].post, steps.drop_first())
    }
}

/// How many steps of a run resolve a fold before `Done` — the steps that owe
/// the server a reply `Next`.
pub open spec fn live_fold_resolutions<T>(d0: Driver<T>, steps: Seq<Step<T>>) -> nat
    decreases steps.len(),
{
    if steps.len() == 0 {
        0
    } else {
        let here: nat = if !d0.is_done && steps[0].input is FoldOk {
            1
        } else {
            0
        };
        here + live_fold_resolutions(steps[0].post, steps.drop_first())
    }
}

/// The accumulator a run has arrived at: the output of the last fold that
/// resolved, or the starting value when none did — the composition of the
/// fold chain over the items received so far.
pub open spec fn last_fold_output<T>(a0: T, steps: Seq<Step<T>>) -> T
    decreases steps.len(),
{
    if steps.len() == 0 {
        a0
    } else {
        let next = match steps[0].input {
            StepInput::FoldOk(acc, _) => acc,
            _ => a0,
        };
        last_fold_output(next, steps.drop_first())
    }
}

/// Every step of a run preserves the driver's well-formedness.
pub proof fn lemma_step_preserves_wf<T>(
    pre: Driver<T>,
    i: StepInput<T>,
    post: Driver<T>,
    a: Action<T>,
)
    requires
        pre.wf(),
        step_allowed(pre, i),
        step_rel(pre, i, post, a),
    ensures
        post.wf(),
{
}

/// Nothing can step while the request is still pending: the `Request` handed
/// out by `take_request` precedes every step of every run, so it is the
/// first event the driver ever sends.
pub proof fn lemma_nothing_before_request<T>(d0: Driver<T>, steps: Seq<Step<T>>)
    requires
        d0.wf(),
        d0.pending_request is Some,
        run_ok(d0, steps),
    ensures
        steps.len() == 0,
{
}

/// A finished driver admits no step: after the interaction ends, in success
/// or failure, the driver sends nothing further.
pub proof fn lemma_finished_run_is_empty<T>(d0: Driver<T>, steps: Seq<Step<T>>)
    requires
        d0.finished,
        run_ok(d0, steps),
    ensures
        steps.len() == 0,
{
}

/// Once the bootstrap `Next` has been sent, `need_next` never comes back, so
/// no later run answers a `Ready` with a bootstrap again.
pub proof fn lemma_no_bootstrap_after_first<T>(d0: Driver<T>, steps: Seq<Step<T>>)
    requires
        d0.wf(),
        !d0.need_next,
        run_ok(d0, steps),
    ensures
        bootstrap_sends(d0, steps) == 0,
    decreases steps.len(),
{
    if steps.len() > 0 {
        let s = steps[0];
        lemma_step_preserves_wf(d0, s.input, s.post, s.action);
        lemma_no_bootstrap_after_first(s.post, steps.drop_first());
    }
}

/// The driver sends the bootstrap `Next` at most once in any run, and never
/// once it has been sent.
pub proof fn lemma_bootstrap_at_most_once<T>(d0: Driver<T>, steps: Seq<Step<T>>)
    requires
        d0.wf(),
        run_ok(d0, steps),
    ensures
        bootstrap_sends(d0, steps) <= 1,
        !d0.need_next ==> bootstrap_sends(d0, steps) == 0,
    decreases steps.len(),
{
    if steps.len() > 0 {
        let s = steps[0];
        lemma_step_preserves_wf(d0, s.input, s.post, s.action);
        if d0.need_next && (s.input matches StepInput::FromServer(ev) && ev.event is Ready) {
            lemma_no_bootstrap_after_first(s.post, steps.drop_first());
        } else {
            lemma_bootstrap_at_most_once(s.post, steps.drop_first());
        }
    }
}

/// After `Done` has been latched the driver sends nothing: every run from a
/// state with `is_done` emits no `Send` at all. Together with
/// `lemma_finished_run_is_empty` this covers every way `Done`, `Reject` or
/// `Fail` can end the stream of outgoing events.
pub proof fn lemma_no_sends_after_done<T>(d0: Driver<T>, steps: Seq<Step<T>>)
    requires
        d0.wf(),
        d0.is_done,
        run_ok(d0, steps),
    ensures
        sends_of(steps).len() == 0,
    decreases steps.len(),
{
    if steps.len() > 0 {
        let s = steps[0];
        lemma_step_preserves_wf(d0, s.input, s.post, s.action);
        lemma_no_sends_after_done(s.post, steps.drop_first());
    }
}

/// On success the returned accumulator is the fold chain applied to the
/// starting value: a run can only finish on its last step, and the value it
/// finishes with is the last resolved fold's output, or the starting
/// accumulator when no fold ever resolved.
pub proof fn lemma_success_returns_fold_chain<T>(a0: T, d0: Driver<T>, steps: Seq<Step<T>>)
    requires
        d0.wf(),
        !d0.finished,
        !d0.fold_pending ==> d0.accumulator == Some(a0),
        run_ok(d0, steps),
        steps.len() > 0,
        steps.last().action is Finish,
    ensures
        steps.last().action == Action::<T>::Finish(last_fold_output(a0, steps)),
    decreases steps.len(),
{
    let s = steps[0];
    lemma_step_preserves_wf(d0, s.input, s.post, s.action);
    let next = match s.input {
        StepInput::FoldOk(acc, _) => acc,
        _ => a0,
    };
    assert(last_fold_output(a0, steps) == last_fold_output(next, steps.drop_first()));
    if steps.len() == 1 {
        assert(steps.last() == s);
        assert(steps.drop_first().len() == 0);
        assert(last_fold_output(a0, steps) == next);
    } else {
        if s.post.finished {
            lemma_finished_run_is_empty(s.post, steps.drop_first());
        }
        lemma_success_returns_fold_chain(next, s.post, steps.drop_first());
        assert(steps.drop_first().last() == steps.last());
    }
}

/// The complete send inventory of a run: every event sent is either the one
/// bootstrap `Next` or the one reply `Next` of a fold that resolved before
/// `Done` — one per accepted item — and there are no others.
pub proof fn lemma_send_inventory<T>(d0: Driver<T>, steps: Seq<Step<T>>)
    requires
        d0.wf(),
        run_ok(d0, steps),
    ensures
        sends_of(steps).len() == bootstrap_sends(d0, steps) + live_fold_resolutions(d0, steps),
    decreases steps.len(),
{
    if steps.len() > 0 {
        let s = steps[0];
        lemma_step_preserves_wf(d0, s.input, s.post, s.action);
        lemma_send_inventory(s.post, steps.drop_first());
    }
}

} // verus!
