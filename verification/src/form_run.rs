//! Running a form to completion: the submission and validation retry loop.
//!
//! The form edits until enter or escape. On enter every field is re-validated
//! — any verdict not freshly evaluated since the last change is recomputed,
//! never trusted stale — and, if all pass, the whole-form validator runs over
//! the values; on success the values are handed out, on any failure the
//! failure is displayed as an error dialog over the form and editing resumes
//! when the next key dismisses it. On escape the form is abandoned at once:
//! no validator, field or whole-form, runs after that.

use vstd::prelude::*;
use vstd::pervasive::unreached;
use crate::context::Context;
use crate::dialog::Dialog;
use crate::dialog::DialogSignal;
use crate::dialog::DialogStep;
use crate::form::Check;
use crate::form::EntryModel;
use crate::form::FieldValue;
use crate::form::FieldValueModel;
use crate::form::Form;
use crate::form::FormEntry;
use crate::form::FormModel;
use crate::form::check_kind_model;
use crate::form::clone_string;
use crate::form::field_value_model;
use crate::form::form_model;
use crate::form::entry_model;
use crate::form::format_control_error;
use crate::form::spec_check_fires;
use crate::form::spec_error_messages;
use crate::form::spec_field_name;
use crate::form::spec_field_value;
use crate::form::spec_form_input;
use crate::form::spec_form_values;
use crate::form::spec_join_lines;
use crate::form::spec_refresh;
use crate::form::spec_result_views;
use crate::key::Event;
use crate::key::KeyCode;
use crate::key::KeyEvent;
use crate::state::State;

verus! {

/// The whole-form validation step: a function over the values of all fields,
/// passing or failing with a message.
pub trait Validator: Sized {
    /// The model of [`Validator::validate`]: `None` passes, `Some` fails with
    /// the message.
    spec fn spec_validate(&self, values: Seq<FieldValueModel>) -> Option<Seq<char>>;

    /// Validates the values of all fields, in field order.
    fn validate(&self, values: &Vec<FieldValue>) -> (r: Option<String>)
        ensures
            ({
                let sv = self.spec_validate(
                    values@.map_values(|v: FieldValue| field_value_model(v)),
                );
                match r {
                    Option::None => sv is None,
                    Option::Some(msg) => sv is Some && msg@ == sv->0,
                }
            }),
    ;
}

/// The validator that accepts every combination of values.
#[derive(Debug)]
pub struct AcceptAll;

impl Validator for AcceptAll {
    open spec fn spec_validate(&self, values: Seq<FieldValueModel>) -> Option<Seq<char>> {
        Option::None
    }

    fn validate(&self, values: &Vec<FieldValue>) -> (r: Option<String>) {
        Option::None
    }
}

/// A whole-form rule: one error condition applied to the value of the field
/// at the given index; values of other fields pass it freely.
#[derive(Debug)]
pub struct FieldRule {
    /// Which field's value the rule inspects.
    pub index: usize,
    /// The error condition and its message.
    pub check: Check,
}

impl Validator for FieldRule {
    open spec fn spec_validate(&self, values: Seq<FieldValueModel>) -> Option<Seq<char>> {
        if self.index < values.len() && spec_check_fires(
            check_kind_model(self.check.kind),
            values[self.index as int],
        ) {
            Option::Some(self.check.message@)
        } else {
            Option::None
        }
    }

    fn validate(&self, values: &Vec<FieldValue>) -> (r: Option<String>) {
        if self.index < values.len() {
            if crate::form::check_fires(&self.check.kind, &values[self.index]) {
                Option::Some(clone_string(&self.check.message))
            } else {
                Option::None
            }
        } else {
            Option::None
        }
    }
}

/// Where a running form stands: editing its fields, or showing a validation
/// failure over them until a key dismisses it.
#[verifier::ext_equal]
pub ghost enum FormPhase {
    Editing(FormModel),
    ShowingError(FormModel, Seq<char>),
}

/// How a form run over a finite event sequence ended: still pending in some
/// phase, submitted with the values of all fields, or abandoned.
#[verifier::ext_equal]
pub ghost enum FormRunState {
    Pending(FormPhase),
    Submitted(Seq<FieldValueModel>),
    Abandoned,
}

/// The form with every field's verdict made known: verdicts still unknown are
/// computed against the current value, fresh verdicts stand.
pub open spec fn spec_refresh_form(m: FormModel) -> FormModel {
    FormModel {
        entries: Seq::new(
            m.entries.len(),
            |i: int|
                EntryModel {
                    field: m.entries[i].field,
                    control: crate::form::ControlModel {
                        checks: m.entries[i].control.checks,
                        state: spec_refresh(
                            m.entries[i].control,
                            spec_field_value(m.entries[i].field),
                        ),
                    },
                },
        ),
        ..m
    }
}

/// The named verdicts of a form's entries, as handed to the error report.
pub open spec fn spec_entry_views(entries: Seq<EntryModel>) -> Seq<
    (Seq<char>, Option<Seq<char>>),
> {
    entries.map_values(
        |e: EntryModel|
            (
                spec_field_name(e.field),
                match e.control.state {
                    crate::form::ControlStateModel::Failed(msg) => Option::Some(msg),
                    _ => Option::<Seq<char>>::None,
                },
            ),
    )
}

/// One key press on a running form. A shown error is dismissed by any key;
/// while editing, escape abandons, enter submits — re-validating every field
/// and then the whole form, showing the first failure instead of finishing —
/// and every other key edits the fields.
pub open spec fn spec_form_step<V: Validator>(v: V, phase: FormPhase, key: KeyEvent) -> FormRunState {
    match phase {
        FormPhase::ShowingError(fm, msg) => FormRunState::Pending(FormPhase::Editing(fm)),
        FormPhase::Editing(fm) => match key.code {
            KeyCode::Esc => FormRunState::Abandoned,
            KeyCode::Enter => {
                let fm2 = spec_refresh_form(fm);
                let report = spec_error_messages(spec_entry_views(fm2.entries));
                if report.len() > 0 {
                    FormRunState::Pending(
                        FormPhase::ShowingError(fm2, spec_join_lines(report)),
                    )
                } else {
                    match v.spec_validate(spec_form_values(fm2)) {
                        Option::None => FormRunState::Submitted(spec_form_values(fm2)),
                        Option::Some(msg) => FormRunState::Pending(
                            FormPhase::ShowingError(fm2, msg),
                        ),
                    }
                }
            },
            _ => match spec_form_input(fm, key) {
                DialogStep::Running(fm2) => FormRunState::Pending(FormPhase::Editing(fm2)),
                _ => FormRunState::Pending(FormPhase::Editing(fm)),
            },
        },
    }
}

/// The model of [`run_form`]: folds the events through the running form,
/// ignoring non-key events, until submission, abandonment, or the end of
/// input.
pub open spec fn spec_run_form<V: Validator>(v: V, phase: FormPhase, events: Seq<Event>) -> FormRunState
    decreases events.len(),
{
    if events.len() == 0 {
        FormRunState::Pending(phase)
    } else {
        match events[0] {
            Event::Other => spec_run_form(v, phase, events.drop_first()),
            Event::Key(k) => match spec_form_step(v, phase, k) {
                FormRunState::Pending(p2) => spec_run_form(v, p2, events.drop_first()),
                FormRunState::Submitted(vals) => FormRunState::Submitted(vals),
                FormRunState::Abandoned => FormRunState::Abandoned,
            },
        }
    }
}

/// Runs a form over a sequence of already-read input events, with the given
/// whole-form validator, as one dialog over the background screen. Returns the
/// values of all fields when the form was submitted and every validation
/// passed; `None` when it was abandoned with escape or the events ran out.
///
/// The background only matters for drawing, which the interactive front end
/// performs; the decision logic here never touches it or the context.
pub fn run_form<V: Validator, U: State, G>(
    form: Form,
    validate: &V,
    background: &U,
    ctx: &mut Context<G>,
    events: &Vec<Event>,
) -> (r: Option<Vec<FieldValue>>)
    ensures
        ({
            let st = spec_run_form(*validate, FormPhase::Editing(form_model(form)), events@);
            match st {
                FormRunState::Submitted(vals) => r is Some && (r->0)@.map_values(
                    |x: FieldValue| field_value_model(x),
                ) == vals,
                FormRunState::Abandoned => r is None,
                FormRunState::Pending(_) => r is None,
            }
        }),
        final(ctx).global == old(ctx).global,
        final(ctx).env() == old(ctx).env(),
{
    let ghost m0 = form_model(form);
    let ghost all = spec_run_form(*validate, FormPhase::Editing(m0), events@);
    let mut cur = form;
    let mut showing_error = false;
    let ghost mut phase = FormPhase::Editing(form_model(cur));
    let mut i: usize = 0;
    proof {
        assert(events@.skip(0) =~= events@);
    }
    while i < events.len()
        invariant
            i <= events.len(),
            m0 == form_model(form),
            all == spec_run_form(*validate, FormPhase::Editing(m0), events@),
            spec_run_form(*validate, phase, events@.skip(i as int)) == all,
            match phase {
                FormPhase::Editing(fm) => !showing_error && form_model(cur) == fm,
                FormPhase::ShowingError(fm, _) => showing_error && form_model(cur) == fm,
            },
        decreases events.len() - i,
    {
        proof {
            assert(events@.skip(i as int).drop_first() =~= events@.skip(i as int + 1));
            assert(events@.skip(i as int)[0] == events@[i as int]);
        }
        match events[i] {
            Event::Other => {},
            Event::Key(k) => {
                if showing_error {
                    showing_error = false;
                    proof {
                        phase = FormPhase::Editing(form_model(cur));
                    }
                } else {
                    match k.code {
                        KeyCode::Esc => {
                            proof {
                                assert(spec_run_form(*validate, phase, events@.skip(i as int))
                                    == FormRunState::Abandoned);
                            }
                            return Option::None;
                        },
                        KeyCode::Enter => {
                            let ghost fm = form_model(cur);
                            let ghost fm2 = spec_refresh_form(fm);
                            let mut results: Vec<(String, Result<(), String>)> = Vec::new();
                            let mut rebuilt: Vec<FormEntry> = Vec::new();
                            let mut src: Vec<FormEntry> = Vec::new();
                            core::mem::swap(&mut src, &mut cur.entries);
                            let mut j: usize = 0;
                            let n = src.len();
                            proof {
                                assert(rebuilt@.map_values(|e: FormEntry| entry_model(e))
                                    =~= fm2.entries.take(0));
                                assert(src@.map_values(|e: FormEntry| entry_model(e))
                                    =~= fm.entries.skip(0));
                                assert(spec_result_views(results@) =~= spec_entry_views(
                                    fm2.entries.take(0),
                                ));
                            }
                            while j < n
                                invariant
                                    j <= n,
                                    n == fm.entries.len(),
                                    fm2 == spec_refresh_form(fm),
                                    fm2.entries.len() == n,
                                    src@.map_values(|e: FormEntry| entry_model(e)) == fm.entries
                                        .skip(j as int),
                                    rebuilt@.map_values(|e: FormEntry| entry_model(e))
                                        == fm2.entries.take(j as int),
                                    spec_result_views(results@) == spec_entry_views(
                                        fm2.entries.take(j as int),
                                    ),
                                decreases n - j,
                            {
                                let ghost pre_src = src@.map_values(|e: FormEntry| entry_model(e));
                                let ghost pre_rebuilt = rebuilt@.map_values(
                                    |e: FormEntry| entry_model(e),
                                );
                                let ghost pre_views = spec_result_views(results@);
                                proof {
                                    assert(pre_src.len() == src@.len());
                                    assert(pre_src.len() == fm.entries.skip(j as int).len());
                                }
                                let mut entry = src.remove(0);
                                proof {
                                    assert(src@.map_values(|e: FormEntry| entry_model(e))
                                        =~= pre_src.drop_first());
                                    assert(pre_src.drop_first() =~= fm.entries.skip(j as int + 1));
                                    assert(entry_model(entry) == fm.entries.skip(j as int)[0]);
                                    assert(fm.entries.skip(j as int)[0] == fm.entries[j as int]);
                                }
                                let value = entry.field.current_value();
                                let res = entry.control.updated_result(&value);
                                let name = clone_string(entry.field.name());
                                results.push((name, res));
                                proof {
                                    assert(fm2.entries[j as int].field == fm.entries[
                                        j as int].field);
                                    assert(entry_model(entry) =~= fm2.entries[j as int]);
                                }
                                rebuilt.push(entry);
                                proof {
                                    assert(rebuilt@.map_values(|e: FormEntry| entry_model(e))
                                        =~= pre_rebuilt.push(fm2.entries[j as int]));
                                    assert(fm2.entries.take(j as int + 1) =~= fm2.entries.take(
                                        j as int,
                                    ).push(fm2.entries[j as int]));
                                    assert(spec_entry_views(fm2.entries.take(j as int + 1))
                                        =~= spec_entry_views(fm2.entries.take(j as int)).push(
                                        spec_entry_views(fm2.entries)[j as int],
                                    ));
                                    assert(spec_result_views(results@) =~= spec_entry_views(
                                        fm2.entries.take(j as int + 1),
                                    ));
                                }
                                j = j + 1;
                            }
                            cur.entries = rebuilt;
                            proof {
                                assert(fm2.entries.take(n as int) =~= fm2.entries);
                                assert(cur.entries@.map_values(|e: FormEntry| entry_model(e))
                                    =~= fm2.entries);
                                assert(form_model(cur) =~= fm2);
                                assert(spec_result_views(results@) =~= spec_entry_views(
                                    fm2.entries,
                                ));
                            }
                            match format_control_error(&results) {
                                Result::Ok(_) => {
                                    let values = cur.values();
                                    match validate.validate(&values) {
                                        Option::None => {
                                            proof {
                                                assert(spec_run_form(
                                                    *validate,
                                                    phase,
                                                    events@.skip(i as int),
                                                ) == FormRunState::Submitted(
                                                    spec_form_values(fm2),
                                                ));
                                            }
                                            return Option::Some(cur.into_values());
                                        },
                                        Option::Some(msg) => {
                                            showing_error = true;
                                            proof {
                                                phase = FormPhase::ShowingError(fm2, msg@);
                                            }
                                        },
                                    }
                                },
                                Result::Err(e) => {
                                    showing_error = true;
                                    proof {
                                        phase = FormPhase::ShowingError(
                                            fm2,
                                            spec_join_lines(
                                                spec_error_messages(
                                                    spec_entry_views(fm2.entries),
                                                ),
                                            ),
                                        );
                                    }
                                },
                            }
                        },
                        _ => {
                            match cur.input(k) {
                                DialogSignal::Running(f2) => {
                                    cur = f2;
                                    proof {
                                        phase = FormPhase::Editing(form_model(cur));
                                    }
                                },
                                DialogSignal::Done(_) => {
                                    return unreached();
                                },
                                DialogSignal::Cancelled => {
                                    return unreached();
                                },
                            }
                        },
                    }
                }
            },
        }
        i = i + 1;
    }
    Option::None
}

/// Refreshing the verdicts changes no field, so the values after a refresh are
/// the values entered.
pub proof fn lemma_refresh_preserves_values(m: FormModel)
    ensures
        spec_form_values(spec_refresh_form(m)) == spec_form_values(m),
{
    assert(spec_form_values(spec_refresh_form(m)) =~= spec_form_values(m));
}

/// Feeding a run in two stages is feeding it in one: a terminal outcome
/// absorbs any further events, a pending one continues from its phase.
pub proof fn lemma_run_form_append<V: Validator>(
    v: V,
    phase: FormPhase,
    a: Seq<Event>,
    b: Seq<Event>,
)
    ensures
        spec_run_form(v, phase, a + b) == (match spec_run_form(v, phase, a) {
            FormRunState::Pending(p2) => spec_run_form(v, p2, b),
            FormRunState::Submitted(vals) => FormRunState::Submitted(vals),
            FormRunState::Abandoned => FormRunState::Abandoned,
        }),
    decreases a.len(),
{
    if a.len() == 0 {
        assert(a + b =~= b);
    } else {
        assert((a + b)[0] == a[0]);
        assert((a + b).drop_first() =~= a.drop_first() + b);
        match a[0] {
            Event::Other => {
                lemma_run_form_append(v, phase, a.drop_first(), b);
            },
            Event::Key(k) => {
                match spec_form_step(v, phase, k) {
                    FormRunState::Pending(p2) => {
                        lemma_run_form_append(v, p2, a.drop_first(), b);
                    },
                    _ => {},
                }
            },
        }
    }
}

/// Pressing escape while editing abandons the form — whatever the fields
/// hold, whatever validator is installed, and whatever events follow: neither
/// a field check nor the whole-form validator is consulted at or after the
/// escape.
pub proof fn lemma_form_escape_abandons<V: Validator>(
    v: V,
    fm: FormModel,
    events: Seq<Event>,
    i: int,
)
    requires
        0 <= i < events.len(),
        events[i] is Key && (events[i]->Key_0).code == KeyCode::Esc,
        forall|j: int|
            0 <= j < i ==> (events[j] is Key ==> (events[j]->Key_0).code != KeyCode::Enter
                && (events[j]->Key_0).code != KeyCode::Esc),
    ensures
        spec_run_form(v, FormPhase::Editing(fm), events) == FormRunState::Abandoned,
    decreases i,
{
    if i == 0 {
    } else {
        match events[0] {
            Event::Other => {
                lemma_form_escape_abandons(v, fm, events.drop_first(), i - 1);
            },
            Event::Key(k) => {
                match spec_form_step(v, FormPhase::Editing(fm), k) {
                    FormRunState::Pending(p2) => {
                        match p2 {
                            FormPhase::Editing(fm2) => {
                                lemma_form_escape_abandons(v, fm2, events.drop_first(), i - 1);
                            },
                            FormPhase::ShowingError(_, _) => {
                                assert(false);
                            },
                        }
                    },
                    _ => {
                        assert(false);
                    },
                }
            },
        }
    }
}

/// Pressing enter on a form whose every field passes its checks and whose
/// values pass the whole-form validator submits the form with exactly the
/// values entered so far, whatever events follow.
pub proof fn lemma_form_submit_accepts<V: Validator>(
    v: V,
    fm: FormModel,
    fm2: FormModel,
    events: Seq<Event>,
    i: int,
)
    requires
        0 <= i < events.len(),
        spec_run_form(v, FormPhase::Editing(fm), events.take(i)) == FormRunState::Pending(
            FormPhase::Editing(fm2),
        ),
        events[i] is Key && (events[i]->Key_0).code == KeyCode::Enter,
        spec_error_messages(spec_entry_views(spec_refresh_form(fm2).entries)).len() == 0,
        v.spec_validate(spec_form_values(fm2)) is None,
    ensures
        spec_run_form(v, FormPhase::Editing(fm), events) == FormRunState::Submitted(
            spec_form_values(fm2),
        ),
{
    lemma_refresh_preserves_values(fm2);
    assert(events =~= events.take(i) + events.skip(i));
    lemma_run_form_append(v, FormPhase::Editing(fm), events.take(i), events.skip(i));
    assert(events.skip(i)[0] == events[i]);
}

/// Whether the form underneath a phase is well-formed.
pub open spec fn phase_wf(p: FormPhase) -> bool {
    match p {
        FormPhase::Editing(fm) => fm.wf(),
        FormPhase::ShowingError(fm, _) => fm.wf(),
    }
}

/// The focus invariant holds of every reachable state: however many events a
/// well-formed form consumes, as long as it is still running its focus points
/// at one of its fields.
pub proof fn lemma_run_form_preserves_wf<V: Validator>(v: V, p: FormPhase, events: Seq<Event>)
    requires
        phase_wf(p),
    ensures
        (spec_run_form(v, p, events) is Pending ==> phase_wf(
            spec_run_form(v, p, events)->Pending_0,
        )),
    decreases events.len(),
{
    if events.len() > 0 {
        match events[0] {
            Event::Other => {
                lemma_run_form_preserves_wf(v, p, events.drop_first());
            },
            Event::Key(k) => {
                match spec_form_step(v, p, k) {
                    FormRunState::Pending(p2) => {
                        lemma_form_step_preserves_wf(v, p, k);
                        lemma_run_form_preserves_wf(v, p2, events.drop_first());
                    },
                    _ => {},
                }
            },
        }
    }
}

/// One step of a running form keeps the form underneath it well-formed.
pub proof fn lemma_form_step_preserves_wf<V: Validator>(v: V, p: FormPhase, key: KeyEvent)
    requires
        phase_wf(p),
    ensures
        (spec_form_step(v, p, key) is Pending ==> phase_wf(spec_form_step(v, p, key)->Pending_0)),
{
    match p {
        FormPhase::ShowingError(_, _) => {},
        FormPhase::Editing(fm) => {
            match key.code {
                KeyCode::Esc => {},
                KeyCode::Enter => {
                    assert(spec_refresh_form(fm).entries.len() == fm.entries.len());
                },
                _ => {
                    lemma_form_focus_clamped(fm, key);
                },
            }
        },
    }
}

/// While a well-formed form edits, its focus stays within the fields: a step
/// keeps one entry per field and the focus in range, and `Up` at the first
/// field or `Down` at the last leaves the focus where it was.
pub proof fn lemma_form_focus_clamped(m: FormModel, key: KeyEvent)
    requires
        m.wf(),
    ensures
        ({
            match spec_form_input(m, key) {
                DialogStep::Running(m2) => {
                    &&& m2.entries.len() == m.entries.len()
                    &&& m2.wf()
                    &&& (key.code == KeyCode::Up && m.focus == 0 ==> m2.focus == 0)
                    &&& (key.code == KeyCode::Down && m.focus == m.entries.len() - 1
                        ==> m2.focus == m.focus)
                },
                DialogStep::Done(m2) => m2 == m,
                DialogStep::Cancelled => true,
            }
        }),
{
}

} // verus!
