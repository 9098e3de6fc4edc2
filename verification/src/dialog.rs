//! Modal dialogs: content displayed in a box over a background screen.
//!
//! A [`Dialog`] is narrower than a [`State`]: it produces a [`DrawInfo`]
//! describing its box and consumes one key press at a time. The [`Container`]
//! adapter composes a dialog with a read-only reference to a background screen
//! and implements [`State`], mapping the dialog's completion signal onto the
//! screen protocol; the adapter always runs with the unit global.

use vstd::prelude::*;
use vstd::pervasive::unreached;
use crate::context::Context;
use crate::key::Event;
use crate::key::KeyEvent;
use crate::result_like::ResultLike;
use crate::state::RunModel;
use crate::state::RunResult;
use crate::state::StepModel;
use crate::state::Signal;
use crate::state::State;
use crate::state::run_events;
use crate::state::spec_run;
use crate::text::Color;
use crate::text::SpanView;
use crate::text::Text;

verus! {

/// Whether and how a dialog body is wrapped to the box width.
#[derive(Clone, Copy, Debug, PartialEq, Eq, Structural)]
pub struct WrapMode {
    /// Whether leading whitespace of wrapped lines is trimmed.
    pub trim: bool,
}

/// The ghost value of a [`DrawInfo`].
pub ghost struct DrawInfoView {
    pub title: Seq<char>,
    pub color: Color,
    pub body: Seq<Seq<SpanView>>,
    pub hint: Seq<char>,
    pub inner_margin_x: u16,
    pub inner_margin_y: u16,
    pub width_percentage: u8,
    pub wrap: Option<WrapMode>,
}

/// Everything needed to draw one dialog box: recomputed from the dialog's
/// current state every frame, and interpreted by the compositor's layout and
/// the front end's renderer.
#[derive(Debug)]
pub struct DrawInfo {
    /// User-visible title of the dialog box.
    pub title: String,
    /// Colour of the whole dialog.
    pub color: Color,
    /// The dialog payload.
    pub body: Text,
    /// Line displayed at the bottom in italics, typically the key binds.
    pub hint: String,
    /// Horizontal margin between the border and the body.
    pub inner_margin_x: u16,
    /// Vertical margin between the border and the body.
    pub inner_margin_y: u16,
    /// Width of the dialog as a percentage of the frame width, at most 100.
    pub width_percentage: u8,
    /// Wrap settings for the body; `None` disables wrapping.
    pub wrap: Option<WrapMode>,
}

impl View for DrawInfo {
    type V = DrawInfoView;

    open spec fn view(&self) -> DrawInfoView {
        DrawInfoView {
            title: self.title@,
            color: self.color,
            body: self.body@,
            hint: self.hint@,
            inner_margin_x: self.inner_margin_x,
            inner_margin_y: self.inner_margin_y,
            width_percentage: self.width_percentage,
            wrap: self.wrap,
        }
    }
}

/// The ghost value of the default draw description: untitled, cyan, empty body
/// and hint, margins of three columns and one row, half the frame wide, with
/// trimming wrap.
pub open spec fn spec_default_draw_info() -> DrawInfoView {
    DrawInfoView {
        title: Seq::empty(),
        color: Color::Cyan,
        body: Seq::empty(),
        hint: Seq::empty(),
        inner_margin_x: 3,
        inner_margin_y: 1,
        width_percentage: 50,
        wrap: Option::Some(WrapMode { trim: true }),
    }
}

impl Default for DrawInfo {
    /// The default draw description; dialogs start from it and set what they
    /// need.
    fn default() -> (r: DrawInfo)
        ensures
            r@ == spec_default_draw_info(),
    {
        let r = DrawInfo {
            title: String::new(),
            color: Color::Cyan,
            body: Text::empty(),
            hint: String::new(),
            inner_margin_x: 3,
            inner_margin_y: 1,
            width_percentage: 50,
            wrap: Option::Some(WrapMode { trim: true }),
        };
        proof {
            assert(r@.title =~= Seq::<char>::empty());
            assert(r@.body =~= Seq::<Seq<SpanView>>::empty());
            assert(r@.hint =~= Seq::<char>::empty());
        }
        r
    }
}

/// What a dialog answers after one key press: keep running as `T`, finish with
/// a value of the outcome type `O`, or cancel.
pub enum DialogSignal<T, O> {
    Running(T),
    Done(O),
    Cancelled,
}

/// The model of one dialog step: keep running with a new model, finish with
/// an outcome of the given model, or cancel.
pub enum DialogStep<M, OM> {
    Running(M),
    Done(OM),
    Cancelled,
}

/// The content shown inside a dialog box: how to describe its drawing and how
/// it consumes one key press. Adapted into a [`State`] by [`Container`]. The
/// dialog's behaviour is pinned by `spec_input`, a function on the dialog's
/// ghost model.
pub trait Dialog: Sized {
    /// What the dialog hands back when it finishes.
    type Out;

    /// The ghost model of the dialog.
    type Model;

    /// The ghost model of the outcome.
    type OutModel;

    /// The model of this dialog value.
    spec fn model(&self) -> Self::Model;

    /// The model of an outcome value.
    spec fn out_model(o: Self::Out) -> Self::OutModel;

    /// The model of [`Dialog::format`].
    spec fn spec_format(m: Self::Model) -> DrawInfoView;

    /// The model of [`Dialog::input`].
    spec fn spec_input(m: Self::Model, key: KeyEvent) -> DialogStep<Self::Model, Self::OutModel>;

    /// Describes how to draw the dialog, from its current state.
    fn format(&self) -> (d: DrawInfo)
        ensures
            d@ == Self::spec_format(self.model()),
    ;

    /// Consumes one key press.
    fn input(self, key: KeyEvent) -> (s: DialogSignal<Self, Self::Out>)
        ensures
            ({
                let sm = Self::spec_input(self.model(), key);
                match s {
                    DialogSignal::Running(d) => sm is Running && d.model() == sm->Running_0,
                    DialogSignal::Done(v) => sm is Done && Self::out_model(v) == sm->Done_0,
                    DialogSignal::Cancelled => sm is Cancelled,
                }
            }),
    ;
}

/// The adapter that makes a [`Dialog`] a [`State`]: it pairs the content with
/// a read-only reference to the background screen. The background is used only
/// for drawing underneath the box and is never touched by the dialog; input
/// goes to the content alone.
pub struct Container<'a, T, U> {
    /// The dialog content.
    pub content: T,
    /// The background screen, borrowed for the whole run.
    pub background: &'a U,
}

impl<'a, T: Dialog, U: State> State for Container<'a, T, U> {
    type Out = T::Out;

    type Global = ();

    type Model = T::Model;

    type OutModel = T::OutModel;

    type Res = Signal<Container<'a, T, U>, T::Out>;

    open spec fn model(&self) -> T::Model {
        self.content.model()
    }

    open spec fn out_model(o: T::Out) -> T::OutModel {
        T::out_model(o)
    }

    open spec fn spec_input(m: T::Model, key: KeyEvent, g: ()) -> (StepModel<
        T::Model,
        T::OutModel,
        crate::result_like::NoFailure,
    >, ()) {
        (
            match T::spec_input(m, key) {
                DialogStep::Running(m2) => StepModel::Continue(m2),
                DialogStep::Done(om) => StepModel::Return(om),
                DialogStep::Cancelled => StepModel::Cancelled,
            },
            g,
        )
    }

    fn input(self, key: KeyEvent, ctx: &mut Context<()>) -> (r: Signal<
        Container<'a, T, U>,
        T::Out,
    >) {
        match self.content.input(key) {
            DialogSignal::Running(c) => Signal::Continue(
                Container { content: c, background: self.background },
            ),
            DialogSignal::Done(v) => Signal::Return(v),
            DialogSignal::Cancelled => Signal::Cancelled,
        }
    }
}

/// How a dialog run over a finite event sequence ended.
pub enum DialogOutcome<T: Dialog> {
    /// The dialog finished with this value.
    Done(T::Out),
    /// The dialog was cancelled.
    Cancelled,
    /// The events ran out; the dialog is handed back still running.
    Pending(T),
}

/// A dialog adapted over a background never fails a step: its step shape is a
/// bare signal.
pub proof fn lemma_container_run_never_fails<'a, T: Dialog, U: State + 'a>(
    m: T::Model,
    events: Seq<Event>,
    g: (),
)
    ensures
        !(spec_run::<Container<'a, T, U>>(m, events, g).0 is Failed),
    decreases events.len(),
{
    if events.len() > 0 {
        match events[0] {
            Event::Other => {
                lemma_container_run_never_fails::<T, U>(m, events.drop_first(), g);
            },
            Event::Key(k) => {
                let (sm, g2) = <Container<'a, T, U> as State>::spec_input(m, k, g);
                match sm {
                    StepModel::Continue(m2) => {
                        lemma_container_run_never_fails::<T, U>(m2, events.drop_first(), g2);
                    },
                    _ => {},
                }
            },
        }
    }
}

/// Runs a dialog over a background screen, feeding it the given events: the
/// content is wrapped in a [`Container`] and driven by the event loop under a
/// chained context whose global is stripped to unit. The dialog's completion
/// maps to `Done`, its cancellation to `Cancelled`; if the events run out the
/// still-running dialog is handed back.
pub fn run_over<'a, T: Dialog, U: State, G>(
    dialog: T,
    background: &'a U,
    ctx: &mut Context<G>,
    events: &Vec<Event>,
) -> (r: DialogOutcome<T>)
    ensures
        ({
            let (rm, _) = spec_run::<Container<'a, T, U>>(dialog.model(), events@, ());
            match rm {
                RunModel::Returned(om) => r is Done && T::out_model(r->Done_0) == om,
                RunModel::Cancelled => r is Cancelled,
                RunModel::Pending(m2) => r is Pending && (r->Pending_0).model() == m2,
                RunModel::Failed(_) => false,
            }
        }),
        final(ctx).global == old(ctx).global,
        final(ctx).env() == old(ctx).env(),
{
    proof {
        lemma_container_run_never_fails::<T, U>(dialog.model(), events@, ());
    }
    let container = Container { content: dialog, background };
    let mut sub = ctx.chain_without_global();
    match run_events(container, events, &mut sub) {
        RunResult::Returned(v) => DialogOutcome::Done(v),
        RunResult::Cancelled => DialogOutcome::Cancelled,
        RunResult::Pending(c) => DialogOutcome::Pending(c.content),
        RunResult::Failed(_) => unreached(),
    }
}

} // verus!
