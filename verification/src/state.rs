//! Screens and the event loop that drives them.
//!
//! A [`State`] is one interactive unit: it consumes one key press at a time
//! and answers with a [`Signal`] — continue with a (possibly replaced) screen,
//! return a final value, or cancel. Every screen carries a ghost model, and
//! its step is specified as a function on models; [`run_events`] folds a
//! sequence of input events through a screen exactly as the interactive loop
//! does: key presses are dispatched, other events are ignored, and the first
//! terminal signal ends the run. The interactive front end performs one draw
//! before each blocking read and feeds the events to the same per-event step,
//! so what is proved about [`spec_run`] is what the interactive loop does
//! between draws.

use vstd::prelude::*;
use crate::context::Context;
use crate::key::Event;
use crate::key::KeyEvent;
use crate::result_like::ResultLike;

verus! {

/// What a screen answers after one input event: keep running as `T` (ownership
/// of the screen passes back to the loop), finish with a value of the outcome
/// type `O`, or cancel.
pub enum Signal<T, O> {
    Continue(T),
    Return(O),
    Cancelled,
}

/// One screen of the application: its model, its outcome type, and how it
/// consumes one key press.
///
/// `Res` is the shape of the per-step outcome (see [`ResultLike`]): a bare
/// `Signal<Self, Out>` for screens that cannot fail, an optional one to fail
/// without detail, or a result to fail with one. The screen's behaviour is
/// pinned by `spec_input`, a function on the screen's ghost model.
pub trait State: Sized {
    /// What the screen hands back when it finishes.
    type Out;

    /// The type of the application-defined global inside the [`Context`] the
    /// screen expects to run with.
    type Global;

    /// The ghost model of the screen.
    type Model;

    /// The ghost model of the outcome.
    type OutModel;

    /// The result shape of one step.
    type Res: ResultLike<Signal<Self, Self::Out>>;

    /// The model of this screen value.
    spec fn model(&self) -> Self::Model;

    /// The model of an outcome value.
    spec fn out_model(o: Self::Out) -> Self::OutModel;

    /// The model of [`State::input`]: the step taken and the new global.
    spec fn spec_input(m: Self::Model, key: KeyEvent, g: Self::Global) -> (StepModel<
        Self::Model,
        Self::OutModel,
        <Self::Res as ResultLike<Signal<Self, Self::Out>>>::Error,
    >, Self::Global);

    /// Consumes one key press. The screen is taken by value and, when it keeps
    /// running, handed back through `Signal::Continue`.
    fn input(self, key: KeyEvent, ctx: &mut Context<Self::Global>) -> (r: Self::Res)
        ensures
            ({
                let (sm, g2) = Self::spec_input(self.model(), key, old(ctx).global);
                final(ctx).global == g2 && match r.to_result_spec() {
                    Result::Err(e) => sm is Failed && sm->Failed_0 == e,
                    Result::Ok(sig) => match sig {
                        Signal::Continue(s2) => sm is Continue && s2.model() == sm->Continue_0,
                        Signal::Return(v) => sm is Return && Self::out_model(v) == sm->Return_0,
                        Signal::Cancelled => sm is Cancelled,
                    },
                }
            }),
            final(ctx).env() == old(ctx).env(),
    ;
}

/// The error type of a screen's step shape.
pub type StateError<S> = <<S as State>::Res as ResultLike<Signal<S, <S as State>::Out>>>::Error;

/// The model of one step: what the signal did, at the level of models: keep
/// running with model `M`, return an outcome of model `OM`, cancel, or fail
/// with an error `E`.
pub enum StepModel<M, OM, E> {
    Continue(M),
    Return(OM),
    Cancelled,
    Failed(E),
}

/// The step model type of a screen.
pub type StateStep<S> = StepModel<
    <S as State>::Model,
    <S as State>::OutModel,
    StateError<S>,
>;

/// How a run over a finite event sequence ended.
pub enum RunResult<S: State> {
    /// A step produced `Signal::Return` with this value.
    Returned(S::Out),
    /// A step produced `Signal::Cancelled`.
    Cancelled,
    /// The events ran out first; the screen is handed back unfinished.
    Pending(S),
    /// A step failed; the failure is propagated unchanged.
    Failed(StateError<S>),
}

/// The model of how a run ended: with an outcome of model `OM`, cancelled,
/// still pending as model `M`, or failed with an error `E`.
pub enum RunModel<M, OM, E> {
    Returned(OM),
    Cancelled,
    Pending(M),
    Failed(E),
}

/// The run model type of a screen.
pub type StateRun<S> = RunModel<<S as State>::Model, <S as State>::OutModel, StateError<S>>;

/// Whether a run outcome `r` realises the run model `m`.
pub open spec fn run_matches<S: State>(r: RunResult<S>, m: StateRun<S>) -> bool {
    match r {
        RunResult::Returned(v) => m is Returned && S::out_model(v) == m->Returned_0,
        RunResult::Cancelled => m is Cancelled,
        RunResult::Pending(s) => m is Pending && s.model() == m->Pending_0,
        RunResult::Failed(e) => m is Failed && m->Failed_0 == e,
    }
}

/// The model of [`run_events`]: folds the events through the screen's model,
/// ignoring non-key events, until a terminal signal, a failure, or the end of
/// input.
pub open spec fn spec_run<S: State>(m: S::Model, events: Seq<Event>, g: S::Global) -> (StateRun<
    S>, S::Global)
    decreases events.len(),
{
    if events.len() == 0 {
        (RunModel::Pending(m), g)
    } else {
        match events[0] {
            Event::Other => spec_run::<S>(m, events.drop_first(), g),
            Event::Key(k) => {
                let (sm, g2) = S::spec_input(m, k, g);
                match sm {
                    StepModel::Failed(e) => (RunModel::Failed(e), g2),
                    StepModel::Return(om) => (RunModel::Returned(om), g2),
                    StepModel::Cancelled => (RunModel::Cancelled, g2),
                    StepModel::Continue(m2) => spec_run::<S>(m2, events.drop_first(), g2),
                }
            },
        }
    }
}

/// Runs a screen over a sequence of already-read input events: key presses are
/// dispatched to the screen, other events are ignored, and the first terminal
/// signal ends the run. Events after that signal are not consumed.
pub fn run_events<S: State>(s: S, events: &Vec<Event>, ctx: &mut Context<S::Global>) -> (r:
    RunResult<S>)
    ensures
        ({
            let (rm, g) = spec_run::<S>(s.model(), events@, old(ctx).global);
            run_matches::<S>(r, rm) && final(ctx).global == g
        }),
        final(ctx).env() == old(ctx).env(),
{
    let ghost g0 = ctx.global;
    let mut cur = s;
    let mut i: usize = 0;
    proof {
        assert(events@.skip(0) =~= events@);
    }
    while i < events.len()
        invariant
            i <= events.len(),
            g0 == old(ctx).global,
            spec_run::<S>(cur.model(), events@.skip(i as int), ctx.global) == spec_run::<S>(
                s.model(),
                events@,
                g0,
            ),
            ctx.env() == old(ctx).env(),
        decreases events.len() - i,
    {
        proof {
            assert(events@.skip(i as int).drop_first() =~= events@.skip(i as int + 1));
            assert(events@.skip(i as int)[0] == events@[i as int]);
        }
        match events[i] {
            Event::Other => {},
            Event::Key(k) => {
                let ghost pre_m = cur.model();
                let ghost pre_g = ctx.global;
                let res = cur.input(k, ctx);
                proof {
                    let (sm, g2) = S::spec_input(pre_m, k, pre_g);
                    assert(spec_run::<S>(pre_m, events@.skip(i as int), pre_g) == (match sm {
                        StepModel::Failed(e) => (RunModel::<
                            S::Model,
                            S::OutModel,
                            StateError<S>,
                        >::Failed(e), g2),
                        StepModel::Return(om) => (RunModel::Returned(om), g2),
                        StepModel::Cancelled => (RunModel::Cancelled, g2),
                        StepModel::Continue(m2) => spec_run::<S>(
                            m2,
                            events@.skip(i as int).drop_first(),
                            g2,
                        ),
                    }));
                }
                match res.into_result() {
                    Result::Err(e) => {
                        return RunResult::Failed(e);
                    },
                    Result::Ok(sig) => match sig {
                        Signal::Return(v) => {
                            return RunResult::Returned(v);
                        },
                        Signal::Cancelled => {
                            return RunResult::Cancelled;
                        },
                        Signal::Continue(s2) => {
                            cur = s2;
                        },
                    },
                }
            },
        }
        i = i + 1;
    }
    RunResult::Pending(cur)
}

/// Once a run over some prefix of the events has ended — by a `Return`, a
/// `Cancelled` or a failure — the events after that prefix change nothing: the
/// loop consumes no further input.
pub proof fn lemma_run_ignores_events_after_terminal<S: State>(
    m: S::Model,
    events: Seq<Event>,
    g: S::Global,
    i: int,
)
    requires
        0 <= i <= events.len(),
        !(spec_run::<S>(m, events.take(i), g).0 is Pending),
    ensures
        spec_run::<S>(m, events, g) == spec_run::<S>(m, events.take(i), g),
    decreases i,
{
    if i == 0 {
        assert(events.take(0).len() == 0);
    } else {
        assert(events.take(i)[0] == events[0]);
        assert(events.take(i).drop_first() =~= events.drop_first().take(i - 1));
        match events[0] {
            Event::Other => {
                lemma_run_ignores_events_after_terminal::<S>(m, events.drop_first(), g, i - 1);
            },
            Event::Key(k) => {
                let (sm, g2) = S::spec_input(m, k, g);
                match sm {
                    StepModel::Continue(m2) => {
                        lemma_run_ignores_events_after_terminal::<S>(
                            m2,
                            events.drop_first(),
                            g2,
                            i - 1,
                        );
                    },
                    _ => {},
                }
            },
        }
    }
}

/// A step that signals `Return` with a value of model `om` ends the run with
/// exactly that value, whatever events follow.
pub proof fn lemma_run_stops_at_return<S: State>(
    m: S::Model,
    events: Seq<Event>,
    g: S::Global,
    k: KeyEvent,
    om: S::OutModel,
)
    requires
        events.len() >= 1,
        events[0] == Event::Key(k),
        S::spec_input(m, k, g).0 == StepModel::<S::Model, S::OutModel, StateError<S>>::Return(om),
    ensures
        spec_run::<S>(m, events, g).0 == RunModel::<S::Model, S::OutModel, StateError<S>>::Returned(om),
        spec_run::<S>(m, events, g).1 == S::spec_input(m, k, g).1,
{
}

/// A step that signals `Cancelled` ends the run with no value, whatever events
/// follow.
pub proof fn lemma_run_stops_at_cancel<S: State>(
    m: S::Model,
    events: Seq<Event>,
    g: S::Global,
    k: KeyEvent,
)
    requires
        events.len() >= 1,
        events[0] == Event::Key(k),
        S::spec_input(m, k, g).0 is Cancelled,
    ensures
        spec_run::<S>(m, events, g).0 is Cancelled,
        spec_run::<S>(m, events, g).1 == S::spec_input(m, k, g).1,
{
}

/// The dummy screen: `()` draws nothing and returns on the first key press.
/// It serves where a screen is expected but not used, as when a dialog is
/// shown without a background.
impl State for () {
    type Out = ();

    type Global = ();

    type Model = ();

    type OutModel = ();

    type Res = Signal<(), ()>;

    open spec fn model(&self) -> () {
        ()
    }

    open spec fn out_model(o: ()) -> () {
        ()
    }

    open spec fn spec_input(m: (), key: KeyEvent, g: ()) -> (StepModel<
        (),
        (),
        crate::result_like::NoFailure,
    >, ()) {
        (StepModel::Return(()), g)
    }

    fn input(self, key: KeyEvent, ctx: &mut Context<()>) -> (r: Signal<(), ()>) {
        Signal::Return(())
    }
}

} // verus!
