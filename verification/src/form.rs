//! Forms: a fixed, ordered set of named input fields run as one dialog.
//!
//! A form tracks which field holds the focus, routes `Up` and `Down` to focus
//! movement unless the focused field consumes them itself, routes every other
//! key to the focused field, and keeps a per-field validation state that is
//! recomputed on every value change and on submission, never trusted stale.
//! Submission and the retry loop around validation live with the form
//! runner.

use vstd::prelude::*;
use crate::checkbox::Checkbox;
use crate::checkbox::CheckboxModel;
use crate::dialog::Dialog;
use crate::dialog::DialogSignal;
use crate::dialog::DialogStep;
use crate::dialog::DrawInfo;
use crate::dialog::DrawInfoView;
use crate::field::Field;
use crate::field::InputResult;
use crate::key::KeyCode;
use crate::key::KeyEvent;
use crate::radio::Radio;
use crate::radio::RadioModel;
use crate::slider::Slider;
use crate::slider::SliderModel;
use crate::text::Line;
use crate::text::Span;
use crate::text::SpanView;
use crate::text::Style;
use crate::text::Text;
use crate::text::chars_vec;
use crate::text::clone_chars;
use crate::text::spaces;
use crate::textbox::Textbox;
use crate::textbox::TextboxModel;
use crate::toggle::Bits;
use crate::toggle::Toggle;
use crate::toggle::ToggleModel;
use crate::toggle::spec_count_true;
use crate::toggle::toggle_bits;

verus! {

/// The value one form field yields.
#[derive(Debug)]
pub enum FieldValue {
    Bool(bool),
    Index(usize),
    Num(u64),
    Text(Vec<char>),
    Bits(Bits),
}

/// The ghost model of a [`FieldValue`].
#[verifier::ext_equal]
pub ghost enum FieldValueModel {
    Bool(bool),
    Index(int),
    Num(int),
    Text(Seq<char>),
    Bits(Seq<bool>),
}

/// The model of a field value.
pub open spec fn field_value_model(v: FieldValue) -> FieldValueModel {
    match v {
        FieldValue::Bool(b) => FieldValueModel::Bool(b),
        FieldValue::Index(i) => FieldValueModel::Index(i as int),
        FieldValue::Num(n) => FieldValueModel::Num(n as int),
        FieldValue::Text(t) => FieldValueModel::Text(t@),
        FieldValue::Bits(b) => FieldValueModel::Bits(toggle_bits(b)),
    }
}

/// One field of a form: the concrete field types as peers of one enum,
/// dispatched by pattern match.
#[derive(Debug)]
pub enum FormField {
    Checkbox(Checkbox),
    Radio(Radio),
    Slider(Slider<u64>),
    Textbox(Textbox),
    Toggle(Toggle),
}

/// The ghost model of a [`FormField`].
#[verifier::ext_equal]
pub ghost enum FieldModel {
    Checkbox(CheckboxModel),
    Radio(RadioModel),
    Slider(SliderModel),
    Textbox(TextboxModel),
    Toggle(ToggleModel),
}

/// The model of a form field.
pub open spec fn form_field_model(f: FormField) -> FieldModel {
    match f {
        FormField::Checkbox(c) => FieldModel::Checkbox(c.model()),
        FormField::Radio(r) => FieldModel::Radio(r.model()),
        FormField::Slider(s) => FieldModel::Slider(s.model()),
        FormField::Textbox(t) => FieldModel::Textbox(t.model()),
        FormField::Toggle(t) => FieldModel::Toggle(t.model()),
    }
}

/// The name of a form field, read off its model.
pub open spec fn spec_field_name(m: FieldModel) -> Seq<char> {
    match m {
        FieldModel::Checkbox(c) => c.name,
        FieldModel::Radio(r) => r.name,
        FieldModel::Slider(s) => s.name,
        FieldModel::Textbox(t) => t.name,
        FieldModel::Toggle(t) => t.name,
    }
}

/// One key press on a form field, at the level of models.
pub open spec fn spec_field_input(m: FieldModel, key: KeyEvent) -> (FieldModel, InputResult) {
    match m {
        FieldModel::Checkbox(c) => {
            let (c2, r) = crate::checkbox::spec_checkbox_input(c, key);
            (FieldModel::Checkbox(c2), r)
        },
        FieldModel::Radio(rm) => {
            let (r2, r) = crate::radio::spec_radio_input(rm, key);
            (FieldModel::Radio(r2), r)
        },
        FieldModel::Slider(s) => {
            let (s2, r) = crate::slider::spec_slider_input(s, key);
            (FieldModel::Slider(s2), r)
        },
        FieldModel::Textbox(t) => {
            let (t2, r) = crate::textbox::spec_textbox_input(t, key);
            (FieldModel::Textbox(t2), r)
        },
        FieldModel::Toggle(t) => {
            let (t2, r) = crate::toggle::spec_toggle_input(t, key);
            (FieldModel::Toggle(t2), r)
        },
    }
}

/// The rendering of a form field, at the level of models.
pub open spec fn spec_field_format(m: FieldModel, focused: bool) -> Seq<Seq<SpanView>> {
    match m {
        FieldModel::Checkbox(c) => <Checkbox as Field>::spec_format(c, focused),
        FieldModel::Radio(r) => <Radio as Field>::spec_format(r, focused),
        FieldModel::Slider(s) => <Slider<u64> as Field>::spec_format(s, focused),
        FieldModel::Textbox(t) => <Textbox as Field>::spec_format(t, focused),
        FieldModel::Toggle(t) => <Toggle as Field>::spec_format(t, focused),
    }
}

/// The value of a form field, at the level of models.
pub open spec fn spec_field_value(m: FieldModel) -> FieldValueModel {
    match m {
        FieldModel::Checkbox(c) => FieldValueModel::Bool(c.value),
        FieldModel::Radio(r) => FieldValueModel::Index(r.selected),
        FieldModel::Slider(s) => FieldValueModel::Num(s.value),
        FieldModel::Textbox(t) => FieldValueModel::Text(t.value),
        FieldModel::Toggle(t) => FieldValueModel::Bits(t.values),
    }
}

impl FormField {
    /// The user-visible name of the field.
    pub fn name(&self) -> (r: &String)
        ensures
            r@ == spec_field_name(form_field_model(*self)),
    {
        match self {
            FormField::Checkbox(c) => c.name(),
            FormField::Radio(r) => r.name(),
            FormField::Slider(s) => s.name(),
            FormField::Textbox(t) => t.name(),
            FormField::Toggle(t) => t.name(),
        }
    }

    /// Consumes one key press, handing the field back along with what the key
    /// did.
    pub fn input(self, key: KeyEvent) -> (r: (FormField, InputResult))
        ensures
            (form_field_model(r.0), r.1) == spec_field_input(form_field_model(self), key),
    {
        match self {
            FormField::Checkbox(mut c) => {
                let res = c.input(key);
                (FormField::Checkbox(c), res)
            },
            FormField::Radio(mut f) => {
                let res = f.input(key);
                (FormField::Radio(f), res)
            },
            FormField::Slider(mut s) => {
                let res = s.input(key);
                (FormField::Slider(s), res)
            },
            FormField::Textbox(mut t) => {
                let res = t.input(key);
                (FormField::Textbox(t), res)
            },
            FormField::Toggle(mut t) => {
                let res = t.input(key);
                (FormField::Toggle(t), res)
            },
        }
    }

    /// Renders the field, marking it focused or not.
    pub fn format(&self, focused: bool) -> (t: Text)
        ensures
            t@ == spec_field_format(form_field_model(*self), focused),
    {
        match self {
            FormField::Checkbox(c) => c.format(focused),
            FormField::Radio(r) => r.format(focused),
            FormField::Slider(s) => s.format(focused),
            FormField::Textbox(t) => t.format(focused),
            FormField::Toggle(t) => t.format(focused),
        }
    }

    /// A copy of the value entered so far.
    pub fn current_value(&self) -> (r: FieldValue)
        ensures
            field_value_model(r) == spec_field_value(form_field_model(*self)),
    {
        match self {
            FormField::Checkbox(c) => FieldValue::Bool(*c.value()),
            FormField::Radio(r) => FieldValue::Index(*r.value()),
            FormField::Slider(s) => FieldValue::Num(*s.value()),
            FormField::Textbox(t) => FieldValue::Text(clone_chars(t.value())),
            FormField::Toggle(t) => FieldValue::Bits(t.value().duplicate()),
        }
    }

    /// Consumes the field, handing out the entered value.
    pub fn into_value(self) -> (r: FieldValue)
        ensures
            field_value_model(r) == spec_field_value(form_field_model(self)),
    {
        match self {
            FormField::Checkbox(c) => FieldValue::Bool(c.into_value()),
            FormField::Radio(r) => FieldValue::Index(r.into_value()),
            FormField::Slider(s) => FieldValue::Num(s.into_value()),
            FormField::Textbox(t) => FieldValue::Text(t.into_value()),
            FormField::Toggle(t) => FieldValue::Bits(t.into_value()),
        }
    }
}

/// One per-field validation rule: an error condition over the field's value.
/// The rule *fires* when the condition holds, and the field is then invalid.
#[derive(Debug)]
pub enum CheckKind {
    /// Fires when a text value is empty.
    TextEmpty,
    /// Fires when a text value equals the given one.
    TextEquals(Vec<char>),
    /// Fires when a numeric value equals the given one.
    NumEquals(u64),
    /// Fires when a numeric value is below the given one.
    NumBelow(u64),
    /// Fires when a numeric value is above the given one.
    NumAbove(u64),
    /// Fires when a choice value equals the given index.
    IndexEquals(usize),
    /// Fires when a boolean value equals the given one.
    BoolIs(bool),
    /// Fires when the number of toggled items is exactly the given count.
    CountExactly(usize),
    /// Fires when the number of toggled items is not exactly the given count.
    CountNotExactly(usize),
    /// Fires when the number of toggled items is below the given count.
    CountLessThan(usize),
    /// Fires when the number of toggled items is above the given count.
    CountMoreThan(usize),
    /// Fires when the number of toggled items falls outside the range.
    CountOutsideRange(usize, usize),
}

/// The ghost model of a [`CheckKind`].
#[verifier::ext_equal]
pub ghost enum CheckKindModel {
    TextEmpty,
    TextEquals(Seq<char>),
    NumEquals(int),
    NumBelow(int),
    NumAbove(int),
    IndexEquals(int),
    BoolIs(bool),
    CountExactly(int),
    CountNotExactly(int),
    CountLessThan(int),
    CountMoreThan(int),
    CountOutsideRange(int, int),
}

/// The model of a check kind.
pub open spec fn check_kind_model(k: CheckKind) -> CheckKindModel {
    match k {
        CheckKind::TextEmpty => CheckKindModel::TextEmpty,
        CheckKind::TextEquals(t) => CheckKindModel::TextEquals(t@),
        CheckKind::NumEquals(n) => CheckKindModel::NumEquals(n as int),
        CheckKind::NumBelow(n) => CheckKindModel::NumBelow(n as int),
        CheckKind::NumAbove(n) => CheckKindModel::NumAbove(n as int),
        CheckKind::IndexEquals(i) => CheckKindModel::IndexEquals(i as int),
        CheckKind::BoolIs(b) => CheckKindModel::BoolIs(b),
        CheckKind::CountExactly(n) => CheckKindModel::CountExactly(n as int),
        CheckKind::CountNotExactly(n) => CheckKindModel::CountNotExactly(n as int),
        CheckKind::CountLessThan(n) => CheckKindModel::CountLessThan(n as int),
        CheckKind::CountMoreThan(n) => CheckKindModel::CountMoreThan(n as int),
        CheckKind::CountOutsideRange(a, b) => CheckKindModel::CountOutsideRange(a as int, b as int),
    }
}

/// Whether an error condition fires on a value. A condition over another kind
/// of value than the one given never fires.
pub open spec fn spec_check_fires(k: CheckKindModel, v: FieldValueModel) -> bool {
    match (k, v) {
        (CheckKindModel::TextEmpty, FieldValueModel::Text(t)) => t.len() == 0,
        (CheckKindModel::TextEquals(e), FieldValueModel::Text(t)) => t == e,
        (CheckKindModel::NumEquals(n), FieldValueModel::Num(x)) => x == n,
        (CheckKindModel::NumBelow(n), FieldValueModel::Num(x)) => x < n,
        (CheckKindModel::NumAbove(n), FieldValueModel::Num(x)) => x > n,
        (CheckKindModel::IndexEquals(n), FieldValueModel::Index(x)) => x == n,
        (CheckKindModel::BoolIs(b), FieldValueModel::Bool(x)) => x == b,
        (CheckKindModel::CountExactly(n), FieldValueModel::Bits(s)) => spec_count_true(s) == n,
        (CheckKindModel::CountNotExactly(n), FieldValueModel::Bits(s)) => spec_count_true(s) != n,
        (CheckKindModel::CountLessThan(n), FieldValueModel::Bits(s)) => spec_count_true(s) < n,
        (CheckKindModel::CountMoreThan(n), FieldValueModel::Bits(s)) => spec_count_true(s) > n,
        (CheckKindModel::CountOutsideRange(a, b), FieldValueModel::Bits(s)) => spec_count_true(s)
            < a || spec_count_true(s) > b,
        _ => false,
    }
}

/// Whether an error condition fires on a value.
pub fn check_fires(k: &CheckKind, v: &FieldValue) -> (r: bool)
    ensures
        r == spec_check_fires(check_kind_model(*k), field_value_model(*v)),
{
    match (k, v) {
        (CheckKind::TextEmpty, FieldValue::Text(t)) => t.len() == 0,
        (CheckKind::TextEquals(e), FieldValue::Text(t)) => chars_equal(e, t),
        (CheckKind::NumEquals(n), FieldValue::Num(x)) => *x == *n,
        (CheckKind::NumBelow(n), FieldValue::Num(x)) => *x < *n,
        (CheckKind::NumAbove(n), FieldValue::Num(x)) => *x > *n,
        (CheckKind::IndexEquals(n), FieldValue::Index(x)) => *x == *n,
        (CheckKind::BoolIs(b), FieldValue::Bool(x)) => *x == *b,
        (CheckKind::CountExactly(n), FieldValue::Bits(s)) => crate::toggle::exactly(s, *n),
        (CheckKind::CountNotExactly(n), FieldValue::Bits(s)) => crate::toggle::not_exactly(s, *n),
        (CheckKind::CountLessThan(n), FieldValue::Bits(s)) => crate::toggle::less_than(s, *n),
        (CheckKind::CountMoreThan(n), FieldValue::Bits(s)) => crate::toggle::more_than(s, *n),
        (CheckKind::CountOutsideRange(a, b), FieldValue::Bits(s)) => crate::toggle::outside_range(
            s,
            *a,
            *b,
        ),
        _ => false,
    }
}

/// Whether two character vectors hold the same characters.
pub fn chars_equal(a: &Vec<char>, b: &Vec<char>) -> (r: bool)
    ensures
        r == (a@ == b@),
{
    if a.len() != b.len() {
        proof {
            assert(a@.len() != b@.len());
        }
        return false;
    }
    let mut i: usize = 0;
    while i < a.len()
        invariant
            a@.len() == b@.len(),
            i <= a@.len(),
            forall|j: int| 0 <= j < i ==> a@[j] == b@[j],
        decreases a@.len() - i,
    {
        if a[i] != b[i] {
            return false;
        }
        i = i + 1;
    }
    proof {
        assert(a@ =~= b@);
    }
    true
}

/// One control statement: an error condition and the message shown when it
/// fires.
#[derive(Debug)]
pub struct Check {
    pub kind: CheckKind,
    pub message: String,
}

/// The ghost model of a [`Check`].
#[verifier::ext_equal]
pub ghost struct CheckModel {
    pub kind: CheckKindModel,
    pub message: Seq<char>,
}

/// The model of a check.
pub open spec fn check_model(c: Check) -> CheckModel {
    CheckModel { kind: check_kind_model(c.kind), message: c.message@ }
}

/// The last known validation verdict of one field: never checked yet, known
/// good, or known bad with a message. A bad verdict is sticky until the
/// field's value changes and passes again.
#[derive(Debug)]
pub enum ControlState {
    /// The value was never checked.
    Unknown,
    /// The last check passed.
    Passed,
    /// The last check failed with this message.
    Failed(String),
}

/// The ghost model of a [`ControlState`].
#[verifier::ext_equal]
pub ghost enum ControlStateModel {
    Unknown,
    Passed,
    Failed(Seq<char>),
}

/// The model of a control state.
pub open spec fn control_state_model(s: ControlState) -> ControlStateModel {
    match s {
        ControlState::Unknown => ControlStateModel::Unknown,
        ControlState::Passed => ControlStateModel::Passed,
        ControlState::Failed(m) => ControlStateModel::Failed(m@),
    }
}

/// The verdict of running a list of checks over a value: the message of the
/// first condition that fires, or a pass.
pub open spec fn spec_run_checks(checks: Seq<CheckModel>, v: FieldValueModel) -> ControlStateModel
    decreases checks.len(),
{
    if checks.len() == 0 {
        ControlStateModel::Passed
    } else if spec_check_fires(checks[0].kind, v) {
        ControlStateModel::Failed(checks[0].message)
    } else {
        spec_run_checks(checks.drop_first(), v)
    }
}

/// The validation bookkeeping of one field: its control statements and the
/// last known verdict.
#[derive(Debug)]
pub struct Control {
    pub checks: Vec<Check>,
    pub state: ControlState,
}

/// The ghost model of a [`Control`].
#[verifier::ext_equal]
pub ghost struct ControlModel {
    pub checks: Seq<CheckModel>,
    pub state: ControlStateModel,
}

/// The model of a control.
pub open spec fn control_model(c: Control) -> ControlModel {
    ControlModel {
        checks: c.checks@.map_values(|k: Check| check_model(k)),
        state: control_state_model(c.state),
    }
}

impl Control {
    /// A control with the given statements and no verdict yet.
    pub fn new(checks: Vec<Check>) -> (r: Control)
        ensures
            control_model(r) == (ControlModel {
                checks: checks@.map_values(|k: Check| check_model(k)),
                state: ControlStateModel::Unknown,
            }),
    {
        Control { checks, state: ControlState::Unknown }
    }

    /// Re-runs the checks against the given value, replacing the verdict.
    pub fn update(&mut self, value: &FieldValue)
        ensures
            control_model(*final(self)) == (ControlModel {
                state: spec_run_checks(
                    control_model(*old(self)).checks,
                    field_value_model(*value),
                ),
                ..control_model(*old(self))
            }),
    {
        let ghost cm = control_model(*self).checks;
        let mut i: usize = 0;
        proof {
            assert(cm.skip(0) =~= cm);
        }
        while i < self.checks.len()
            invariant
                i <= self.checks@.len(),
                cm == self.checks@.map_values(|k: Check| check_model(k)),
                self.checks == old(self).checks,
                spec_run_checks(cm.skip(i as int), field_value_model(*value)) == spec_run_checks(
                    cm,
                    field_value_model(*value),
                ),
            decreases self.checks@.len() - i,
        {
            proof {
                assert(cm.skip(i as int).drop_first() =~= cm.skip(i as int + 1));
                assert(cm.skip(i as int)[0] == cm[i as int]);
            }
            if check_fires(&self.checks[i].kind, value) {
                let message = clone_string(&self.checks[i].message);
                self.state = ControlState::Failed(message);
                return ;
            }
            i = i + 1;
        }
        self.state = ControlState::Passed;
    }

    /// Makes sure the field has been validated — running the checks now if the
    /// verdict is still unknown — and returns the verdict.
    pub fn updated_result(&mut self, value: &FieldValue) -> (r: Result<(), String>)
        ensures
            control_model(*final(self)) == (ControlModel {
                state: spec_refresh(control_model(*old(self)), field_value_model(*value)),
                ..control_model(*old(self))
            }),
            match control_model(*final(self)).state {
                ControlStateModel::Passed => r is Ok,
                ControlStateModel::Failed(msg) => r is Err && (r->Err_0)@ == msg,
                ControlStateModel::Unknown => false,
            },
    {
        let unknown = match &self.state {
            ControlState::Unknown => true,
            _ => false,
        };
        if unknown {
            self.update(value);
            proof {
                lemma_run_checks_known(
                    control_model(*old(self)).checks,
                    field_value_model(*value),
                );
            }
        }
        match &self.state {
            ControlState::Unknown => {
                proof {
                    assert(false);
                }
                Result::Ok(())
            },
            ControlState::Passed => Result::Ok(()),
            ControlState::Failed(e) => Result::Err(clone_string(e)),
        }
    }

    /// Whether the field is known to be invalid.
    pub fn is_err(&self) -> (r: bool)
        ensures
            r == (control_model(*self).state is Failed),
    {
        match &self.state {
            ControlState::Failed(_) => true,
            _ => false,
        }
    }
}

/// The verdict after making sure a control has been evaluated: checks are run
/// when the verdict is unknown, and the last verdict stands otherwise.
pub open spec fn spec_refresh(cm: ControlModel, v: FieldValueModel) -> ControlStateModel {
    if cm.state is Unknown {
        spec_run_checks(cm.checks, v)
    } else {
        cm.state
    }
}

/// Running checks never yields an unknown verdict.
pub proof fn lemma_run_checks_known(checks: Seq<CheckModel>, v: FieldValueModel)
    ensures
        !(spec_run_checks(checks, v) is Unknown),
    decreases checks.len(),
{
    if checks.len() > 0 && !spec_check_fires(checks[0].kind, v) {
        lemma_run_checks_known(checks.drop_first(), v);
    }
}

/// Clones a string.
pub fn clone_string(s: &String) -> (r: String)
    ensures
        r@ == s@,
{
    s.clone()
}


/// One row of a form: a field and its validation bookkeeping. The field's own
/// name labels the row.
#[derive(Debug)]
pub struct FormEntry {
    pub field: FormField,
    pub control: Control,
}

/// The ghost model of a [`FormEntry`].
#[verifier::ext_equal]
pub ghost struct EntryModel {
    pub field: FieldModel,
    pub control: ControlModel,
}

/// The model of a form entry.
pub open spec fn entry_model(e: FormEntry) -> EntryModel {
    EntryModel { field: form_field_model(e.field), control: control_model(e.control) }
}

/// One key press on a form entry, at the level of models: the field consumes
/// the key, and when the value changed the checks are re-run at once.
pub open spec fn spec_input_dispatch(em: EntryModel, key: KeyEvent) -> (EntryModel, InputResult) {
    let (f2, res) = spec_field_input(em.field, key);
    let c2 = if res is Updated {
        ControlModel {
            state: spec_run_checks(em.control.checks, spec_field_value(f2)),
            ..em.control
        }
    } else {
        em.control
    };
    (EntryModel { field: f2, control: c2 }, res)
}

/// Delegates one key press to a field and refreshes its validation state
/// whenever the value changed.
pub fn input_dispatch(field: FormField, control: &mut Control, key: KeyEvent) -> (r: (
    FormField,
    InputResult,
))
    ensures
        ({
            let (em2, res) = spec_input_dispatch(
                (EntryModel {
                    field: form_field_model(field),
                    control: control_model(*old(control)),
                }),
                key,
            );
            form_field_model(r.0) == em2.field && control_model(*final(control)) == em2.control
                && r.1 == res
        }),
{
    let (field2, res) = field.input(key);
    match res {
        InputResult::Updated => {
            let value = field2.current_value();
            control.update(&value);
        },
        _ => {},
    }
    (field2, res)
}

/// A form: its title, an optional message above the fields, the ordered
/// entries, and the index of the focused entry.
#[derive(Debug)]
pub struct Form {
    /// The user-visible title of the dialog box.
    pub title: String,
    /// A line of text shown above the fields; empty for none.
    pub message: String,
    /// The fields with their validation bookkeeping, in display order.
    pub entries: Vec<FormEntry>,
    /// The index of the focused entry.
    pub focus: usize,
}

/// The ghost model of a [`Form`].
#[verifier::ext_equal]
pub ghost struct FormModel {
    pub title: Seq<char>,
    pub message: Seq<char>,
    pub entries: Seq<EntryModel>,
    pub focus: int,
}

/// The model of a form.
pub open spec fn form_model(f: Form) -> FormModel {
    FormModel {
        title: f.title@,
        message: f.message@,
        entries: f.entries@.map_values(|e: FormEntry| entry_model(e)),
        focus: f.focus as int,
    }
}

impl FormModel {
    /// A form is well-formed when it has entries and the focus points at one.
    pub open spec fn wf(&self) -> bool {
        &&& self.entries.len() > 0
        &&& 0 <= self.focus < self.entries.len()
    }
}

/// One key press on a form, at the level of models: escape abandons, enter
/// hands the form over for submission, and any other key goes to the focused
/// field — after which `Up` and `Down` move the focus, clamped at the first
/// and last field, exactly when the field itself ignored them.
pub open spec fn spec_form_input(m: FormModel, key: KeyEvent) -> DialogStep<FormModel, FormModel> {
    match key.code {
        KeyCode::Esc => DialogStep::Cancelled,
        KeyCode::Enter => DialogStep::Done(m),
        _ => if 0 <= m.focus < m.entries.len() {
            let (em2, res) = spec_input_dispatch(m.entries[m.focus], key);
            let m2 = FormModel { entries: m.entries.update(m.focus, em2), ..m };
            let focus2: int = match (res, key.code) {
                (InputResult::Ignored, KeyCode::Up) => if m.focus > 0 {
                    m.focus - 1
                } else {
                    0
                },
                (InputResult::Ignored, KeyCode::Down) => if m.focus + 1 < m.entries.len() {
                    m.focus + 1
                } else {
                    m.focus
                },
                _ => m.focus,
            };
            DialogStep::Running(FormModel { focus: focus2, ..m2 })
        } else {
            DialogStep::Running(m)
        },
    }
}

/// The values of a form's fields, in order, at the level of models.
pub open spec fn spec_form_values(m: FormModel) -> Seq<FieldValueModel> {
    Seq::new(m.entries.len(), |i: int| spec_field_value(m.entries[i].field))
}

/// The greatest name length among a form's entries.
pub open spec fn spec_max_name_len(entries: Seq<EntryModel>) -> int
    decreases entries.len(),
{
    if entries.len() == 0 {
        0
    } else {
        let rest = spec_max_name_len(entries.drop_last());
        let last = spec_field_name(entries.last().field).len() as int;
        if last >= rest {
            last
        } else {
            rest
        }
    }
}

/// The rendering of one named field row: the first line carries the padded
/// name — emboldened when focused, red when known invalid — and a colon
/// delimiter when focused, a bar otherwise; continuation lines are indented
/// under a bar.
pub open spec fn spec_format_field(
    name: Seq<char>,
    body: Seq<Seq<SpanView>>,
    focused: bool,
    align_to: int,
    error: bool,
) -> Seq<Seq<SpanView>> {
    let body1 = if body.len() == 0 {
        seq![Seq::<SpanView>::empty()]
    } else {
        body
    };
    let name_style = Style {
        bold: focused,
        fg: if error {
            crate::text::Color::Red
        } else {
            crate::text::Color::Plain
        },
        italic: false,
        reversed: false,
    };
    let delim: Seq<char> = if focused {
        seq![' ', ':', ' ']
    } else {
        seq![' ', '\u{2502}', ' ']
    };
    let pad_len: nat = if align_to >= name.len() {
        (align_to - name.len()) as nat
    } else {
        0
    };
    let pad: Seq<char> = Seq::new(pad_len, |i: int| ' ');
    let indent: Seq<char> = Seq::new(
        if align_to >= 0 {
            align_to as nat
        } else {
            0
        },
        |i: int| ' ',
    ) + seq![' ', '\u{2502}', ' '];
    Seq::new(
        body1.len(),
        |i: int|
            if i == 0 {
                seq![
                    (SpanView { content: pad, style: Style::spec_plain() }),
                    (SpanView { content: name, style: name_style }),
                    (SpanView { content: delim, style: Style::spec_plain() }),
                ] + body1[0]
            } else {
                seq![(SpanView { content: indent, style: Style::spec_plain() })] + body1[i]
            },
    )
}

/// Renders one named field row for use in a form.
pub fn format_field(name: &str, body: Text, focused: bool, align_to: usize, error: bool) -> (t:
    Text)
    ensures
        t@ == spec_format_field(name@, body@, focused, align_to as int, error),
{
    let ghost spec_out = spec_format_field(name@, body@, focused, align_to as int, error);
    let mut body = body;
    if body.lines.len() == 0 {
        body.push_line(Line::empty());
    }
    let ghost body1 = body@;
    proof {
        assert(spec_out =~= spec_format_field(name@, body1, focused, align_to as int, error));
        assert(spec_out.len() == body1.len());
    }
    let name_chars = chars_vec(name);
    let name_len = name_chars.len();
    let name_style = Style {
        bold: focused,
        fg: if error {
            crate::text::Color::Red
        } else {
            crate::text::Color::Plain
        },
        italic: false,
        reversed: false,
    };
    let mut out = Text::empty();
    let mut rest = body.lines;
    let mut i: usize = 0;
    let n = rest.len();
    while i < n
        invariant
            n == body1.len(),
            rest@.map_values(|l: Line| l@) == body1.skip(i as int),
            out@ == spec_out.take(i as int),
            spec_out == spec_format_field(name@, body1, focused, align_to as int, error),
            name_chars@ == name@,
            name_len == name@.len(),
            name_style == (Style {
                bold: focused,
                fg: if error {
                    crate::text::Color::Red
                } else {
                    crate::text::Color::Plain
                },
                italic: false,
                reversed: false,
            }),
            i <= n,
        decreases n - i,
    {
        let ghost pre = rest@.map_values(|l: Line| l@);
        proof {
            assert(pre.len() == rest@.len());
            assert(pre.len() == body1.skip(i as int).len());
        }
        let mut line = rest.remove(0);
        proof {
            assert(rest@.map_values(|l: Line| l@) =~= pre.drop_first());
            assert(pre.drop_first() =~= body1.skip(i as int + 1));
            assert(line@ == body1.skip(i as int)[0]);
            assert(body1.skip(i as int)[0] == body1[i as int]);
        }
        if i == 0 {
            let mut delim: Vec<char> = Vec::new();
            delim.push(' ');
            if focused {
                delim.push(':');
            } else {
                delim.push('\u{2502}');
            }
            delim.push(' ');
            let pad = spaces(if align_to >= name_len {
                align_to - name_len
            } else {
                0
            });
            line.insert_front(Span::plain(delim));
            line.insert_front(Span::new(clone_chars(&name_chars), name_style));
            line.insert_front(Span::plain(pad));
            proof {
                assert(line@ =~~= spec_out[0]);
            }
        } else {
            let mut indent = spaces(align_to);
            indent.push(' ');
            indent.push('\u{2502}');
            indent.push(' ');
            line.insert_front(Span::plain(indent));
            proof {
                assert(line@ =~~= spec_out[i as int]);
            }
        }
        out.push_line(line);
        proof {
            assert(out@ =~~= spec_out.take(i as int + 1));
        }
        i = i + 1;
    }
    proof {
        assert(spec_out.take(n as int) =~= spec_out);
    }
    out
}

/// The lines of a sequence of texts, one after another.
pub open spec fn spec_concat_texts(ts: Seq<Seq<Seq<SpanView>>>) -> Seq<Seq<SpanView>>
    decreases ts.len(),
{
    if ts.len() == 0 {
        Seq::empty()
    } else {
        spec_concat_texts(ts.drop_last()) + ts.last()
    }
}

/// The draw description of a form dialog: the message (when there is one)
/// above a blank line, then every rendered field row; no wrapping, so rows
/// keep their alignment.
pub open spec fn spec_format_dialog(
    texts: Seq<Seq<Seq<SpanView>>>,
    message: Seq<char>,
    title: Seq<char>,
) -> DrawInfoView {
    let fields_body = spec_concat_texts(texts);
    let body = if message.len() == 0 {
        fields_body
    } else {
        seq![
            seq![(SpanView { content: message, style: Style::spec_plain() })],
            Seq::<SpanView>::empty(),
        ] + fields_body
    };
    DrawInfoView {
        title,
        color: crate::text::Color::Cyan,
        body,
        hint: "Press (enter) to submit, (esc) to cancel..."@,
        inner_margin_x: 3,
        inner_margin_y: 1,
        width_percentage: 50,
        wrap: Option::None,
    }
}

/// Builds the form dialog's draw description from the rendered field rows.
pub fn format_dialog(fields: Vec<Text>, message: &str, title: &str) -> (d: DrawInfo)
    ensures
        d@ == spec_format_dialog(
            fields@.map_values(|t: Text| t@),
            message@,
            title@,
        ),
{
    let ghost texts = fields@.map_values(|t: Text| t@);
    let mut body = Text::empty();
    if !message.is_empty() {
        body.push_line(Line::of_span(Span::plain(chars_vec(message))));
        body.push_line(Line::empty());
    }
    let ghost lead = body@;
    let mut rest = fields;
    let mut i: usize = 0;
    let n = rest.len();
    while i < n
        invariant
            n == texts.len(),
            rest@.map_values(|t: Text| t@) == texts.skip(i as int),
            body@ == lead + spec_concat_texts(texts.take(i as int)),
            i <= n,
        decreases n - i,
    {
        let ghost pre = rest@.map_values(|t: Text| t@);
        proof {
            assert(pre.len() == rest@.len());
            assert(pre.len() == texts.skip(i as int).len());
        }
        let part = rest.remove(0);
        proof {
            assert(rest@.map_values(|t: Text| t@) =~= pre.drop_first());
            assert(pre.drop_first() =~= texts.skip(i as int + 1));
            assert(part@ == texts.skip(i as int)[0]);
            assert(texts.skip(i as int)[0] == texts[i as int]);
        }
        body.append(part);
        proof {
            assert(texts.take(i as int + 1).drop_last() =~= texts.take(i as int));
            assert(texts.take(i as int + 1).last() == texts[i as int]);
            assert(body@ =~= lead + spec_concat_texts(texts.take(i as int + 1)));
        }
        i = i + 1;
    }
    proof {
        assert(texts.take(n as int) =~= texts);
    }
    let d = DrawInfo {
        title: title.to_owned(),
        color: crate::text::Color::Cyan,
        body,
        hint: "Press (enter) to submit, (esc) to cancel...".to_owned(),
        wrap: Option::None,
        ..Default::default()
    };
    proof {
        assert(d@.body =~~= spec_format_dialog(texts, message@, title@).body);
        assert(d@ =~= spec_format_dialog(texts, message@, title@));
    }
    d
}

/// The rendered rows of a form, one text per entry, at the level of models.
pub open spec fn spec_form_rows(m: FormModel) -> Seq<Seq<Seq<SpanView>>> {
    Seq::new(
        m.entries.len(),
        |i: int|
            spec_format_field(
                spec_field_name(m.entries[i].field),
                spec_field_format(m.entries[i].field, i == m.focus),
                i == m.focus,
                spec_max_name_len(m.entries),
                m.entries[i].control.state is Failed,
            ),
    )
}

impl Form {
    /// A form with the given title and message and no entries yet.
    pub fn new(title: &str, message: &str) -> (r: Form)
        ensures
            form_model(r) == (FormModel {
                title: title@,
                message: message@,
                entries: Seq::empty(),
                focus: 0,
            }),
    {
        let r = Form { title: title.to_owned(), message: message.to_owned(), entries: Vec::new(), focus: 0 };
        proof {
            assert(form_model(r).entries =~= Seq::<EntryModel>::empty());
            assert(form_model(r) =~= (FormModel {
                title: title@,
                message: message@,
                entries: Seq::empty(),
                focus: 0,
            }));
        }
        r
    }

    /// Appends a field with its control statements; its validation state
    /// starts unknown.
    pub fn push_field(&mut self, field: FormField, checks: Vec<Check>)
        ensures
            form_model(*final(self)) == (FormModel {
                entries: form_model(*old(self)).entries.push(
                    (EntryModel {
                        field: form_field_model(field),
                        control: ControlModel {
                            checks: checks@.map_values(|k: Check| check_model(k)),
                            state: ControlStateModel::Unknown,
                        },
                    }),
                ),
                ..form_model(*old(self))
            }),
    {
        let ghost before = form_model(*self);
        let ghost fm = form_field_model(field);
        let ghost cm = checks@.map_values(|k: Check| check_model(k));
        self.entries.push(FormEntry { field, control: Control::new(checks) });
        proof {
            assert(form_model(*self).entries =~= before.entries.push(
                (EntryModel {
                    field: fm,
                    control: ControlModel { checks: cm, state: ControlStateModel::Unknown },
                }),
            ));
        }
    }

    /// Copies of the values of all fields, in order.
    pub fn values(&self) -> (r: Vec<FieldValue>)
        ensures
            r@.map_values(|v: FieldValue| field_value_model(v)) == spec_form_values(
                form_model(*self),
            ),
    {
        let ghost m = form_model(*self);
        let mut out: Vec<FieldValue> = Vec::new();
        let mut i: usize = 0;
        let n = self.entries.len();
        while i < n
            invariant
                n == self.entries@.len(),
                m == form_model(*self),
                i <= n,
                out@.map_values(|v: FieldValue| field_value_model(v)) == spec_form_values(
                    m,
                ).take(i as int),
            decreases n - i,
        {
            let ghost pre = out@.map_values(|v: FieldValue| field_value_model(v));
            out.push(self.entries[i].field.current_value());
            proof {
                assert(out@.map_values(|v: FieldValue| field_value_model(v)) =~= pre.push(
                    spec_field_value(m.entries[i as int].field),
                ));
                assert(spec_form_values(m).take(i as int + 1) =~= spec_form_values(m).take(
                    i as int,
                ).push(spec_field_value(m.entries[i as int].field)));
            }
            i = i + 1;
        }
        proof {
            assert(spec_form_values(m).take(n as int) =~= spec_form_values(m));
        }
        out
    }

    /// Consumes the form, handing out the values of all fields, in order.
    pub fn into_values(self) -> (r: Vec<FieldValue>)
        ensures
            r@.map_values(|v: FieldValue| field_value_model(v)) == spec_form_values(
                form_model(self),
            ),
    {
        let ghost m = form_model(self);
        let mut out: Vec<FieldValue> = Vec::new();
        let mut rest = self.entries;
        let mut i: usize = 0;
        let n = rest.len();
        while i < n
            invariant
                n == m.entries.len(),
                rest@.map_values(|e: FormEntry| entry_model(e)) == m.entries.skip(i as int),
                out@.map_values(|v: FieldValue| field_value_model(v)) == spec_form_values(
                    m,
                ).take(i as int),
                i <= n,
            decreases n - i,
        {
            let ghost pre_rest = rest@.map_values(|e: FormEntry| entry_model(e));
            let ghost pre = out@.map_values(|v: FieldValue| field_value_model(v));
            proof {
                assert(pre_rest.len() == rest@.len());
                assert(pre_rest.len() == m.entries.skip(i as int).len());
            }
            let entry = rest.remove(0);
            proof {
                assert(rest@.map_values(|e: FormEntry| entry_model(e)) =~= pre_rest.drop_first());
                assert(pre_rest.drop_first() =~= m.entries.skip(i as int + 1));
                assert(entry_model(entry) == m.entries.skip(i as int)[0]);
                assert(m.entries.skip(i as int)[0] == m.entries[i as int]);
            }
            out.push(entry.field.into_value());
            proof {
                assert(out@.map_values(|v: FieldValue| field_value_model(v)) =~= pre.push(
                    spec_field_value(m.entries[i as int].field),
                ));
                assert(spec_form_values(m).take(i as int + 1) =~= spec_form_values(m).take(
                    i as int,
                ).push(spec_field_value(m.entries[i as int].field)));
            }
            i = i + 1;
        }
        proof {
            assert(spec_form_values(m).take(n as int) =~= spec_form_values(m));
        }
        out
    }

    /// The greatest name length among the entries.
    fn max_name_len(&self) -> (r: usize)
        ensures
            r == spec_max_name_len(form_model(*self).entries),
    {
        let ghost ems = form_model(*self).entries;
        let mut best: usize = 0;
        let mut i: usize = 0;
        let n = self.entries.len();
        proof {
            assert(ems.take(0) =~= Seq::<EntryModel>::empty());
        }
        while i < n
            invariant
                n == ems.len(),
                ems == form_model(*self).entries,
                i <= n,
                best == spec_max_name_len(ems.take(i as int)),
            decreases n - i,
        {
            let name_len = chars_vec(self.entries[i].field.name().as_str()).len();
            proof {
                assert(ems.take(i as int + 1).drop_last() =~= ems.take(i as int));
                assert(ems.take(i as int + 1).last() == ems[i as int]);
            }
            if name_len > best {
                best = name_len;
            }
            i = i + 1;
        }
        proof {
            assert(ems.take(n as int) =~= ems);
        }
        best
    }
}

impl Dialog for Form {
    type Out = Form;

    type Model = FormModel;

    type OutModel = FormModel;

    open spec fn model(&self) -> FormModel {
        form_model(*self)
    }

    open spec fn out_model(o: Form) -> FormModel {
        form_model(o)
    }

    open spec fn spec_format(m: FormModel) -> DrawInfoView {
        spec_format_dialog(spec_form_rows(m), m.message, m.title)
    }

    open spec fn spec_input(m: FormModel, key: KeyEvent) -> DialogStep<FormModel, FormModel> {
        spec_form_input(m, key)
    }

    fn format(&self) -> (d: DrawInfo) {
        let ghost m = form_model(*self);
        let align = self.max_name_len();
        let mut rows: Vec<Text> = Vec::new();
        let mut i: usize = 0;
        let n = self.entries.len();
        while i < n
            invariant
                n == m.entries.len(),
                m == form_model(*self),
                align == spec_max_name_len(m.entries),
                i <= n,
                rows@.map_values(|t: Text| t@) == spec_form_rows(m).take(i as int),
            decreases n - i,
        {
            let ghost pre = rows@.map_values(|t: Text| t@);
            let focused = i == self.focus;
            let entry = &self.entries[i];
            let row = format_field(
                entry.field.name().as_str(),
                entry.field.format(focused),
                focused,
                align,
                entry.control.is_err(),
            );
            rows.push(row);
            proof {
                assert(rows@.map_values(|t: Text| t@) =~= pre.push(
                    spec_form_rows(m)[i as int],
                ));
                assert(spec_form_rows(m).take(i as int + 1) =~= spec_form_rows(m).take(
                    i as int,
                ).push(spec_form_rows(m)[i as int]));
            }
            i = i + 1;
        }
        proof {
            assert(spec_form_rows(m).take(n as int) =~= spec_form_rows(m));
        }
        format_dialog(rows, self.message.as_str(), self.title.as_str())
    }

    fn input(self, key: KeyEvent) -> (s: DialogSignal<Form, Form>) {
        let ghost m = form_model(self);
        match key.code {
            KeyCode::Esc => DialogSignal::Cancelled,
            KeyCode::Enter => DialogSignal::Done(self),
            _ => {
                let mut form = self;
                if form.focus >= form.entries.len() {
                    return DialogSignal::Running(form);
                }
                let focus = form.focus;
                let entry = form.entries.remove(focus);
                let FormEntry { field, mut control } = entry;
                let (field2, res) = input_dispatch(field, &mut control, key);
                form.entries.insert(focus, FormEntry { field: field2, control });
                proof {
                    let (em2, sres) = spec_input_dispatch(m.entries[focus as int], key);
                    assert(form.entries@.map_values(|e: FormEntry| entry_model(e)) =~= m.entries
                        .update(focus as int, em2));
                }
                match (res, key.code) {
                    (InputResult::Ignored, KeyCode::Up) => {
                        if form.focus > 0 {
                            form.focus = form.focus - 1;
                        }
                    },
                    (InputResult::Ignored, KeyCode::Down) => {
                        if form.focus + 1 < form.entries.len() {
                            form.focus = form.focus + 1;
                        }
                    },
                    _ => {},
                }
                proof {
                    assert(form_model(form) =~= (match spec_form_input(m, key) {
                        DialogStep::Running(m2) => m2,
                        _ => form_model(form),
                    }));
                }
                DialogSignal::Running(form)
            },
        }
    }
}

/// Builds one error report from named per-field verdicts: `Ok` when every
/// verdict passed, otherwise the failing rows as `name: message` lines joined
/// by line feeds.
pub fn format_control_error(results: &Vec<(String, Result<(), String>)>) -> (r: Result<
    (),
    String,
>)
    ensures
        r is Ok <==> spec_error_messages(spec_result_views(results@)).len() == 0,
        r is Err ==> (r->Err_0)@ == spec_join_lines(
            spec_error_messages(spec_result_views(results@)),
        ),
{
    let ghost views = spec_result_views(results@);
    let mut messages: Vec<String> = Vec::new();
    let mut i: usize = 0;
    let n = results.len();
    proof {
        assert(views.take(0) =~= Seq::<(Seq<char>, Option<Seq<char>>)>::empty());
        assert(messages@.map_values(|s: String| s@) =~= spec_error_messages(views.take(0)));
    }
    while i < n
        invariant
            n == results@.len(),
            views == spec_result_views(results@),
            i <= n,
            messages@.map_values(|s: String| s@) == spec_error_messages(views.take(i as int)),
        decreases n - i,
    {
        proof {
            reveal_strlit(": ");
            assert(views.take(i as int + 1).drop_last() =~= views.take(i as int));
            assert(views.take(i as int + 1).last() == views[i as int]);
        }
        let ghost pre = messages@.map_values(|s: String| s@);
        match &results[i].1 {
            Result::Ok(_) => {},
            Result::Err(e) => {
                let mut line = clone_string(&results[i].0);
                line.append(": ");
                line.append(e.as_str());
                messages.push(line);
                proof {
                    assert(messages@.map_values(|s: String| s@) =~= pre.push(
                        views[i as int].0 + ": "@ + views[i as int].1->0,
                    ));
                }
            },
        }
        i = i + 1;
    }
    proof {
        assert(views.take(n as int) =~= views);
    }
    if messages.len() == 0 {
        Result::Ok(())
    } else {
        let mut joined = clone_string(&messages[0]);
        let mut j: usize = 1;
        let ghost msgs = messages@.map_values(|s: String| s@);
        proof {
            assert(msgs.take(1).drop_last() =~= Seq::<Seq<char>>::empty());
            assert(joined@ =~= spec_join_lines(msgs.take(1)));
        }
        while j < messages.len()
            invariant
                1 <= j <= messages@.len(),
                msgs == messages@.map_values(|s: String| s@),
                msgs.len() >= 1,
                joined@ == spec_join_lines(msgs.take(j as int)),
            decreases messages@.len() - j,
        {
            proof {
                reveal_strlit("\n");
                assert(msgs.take(j as int + 1).drop_last() =~= msgs.take(j as int));
                assert(msgs.take(j as int + 1).last() == msgs[j as int]);
            }
            joined.append("\n");
            joined.append(messages[j].as_str());
            proof {
                assert(joined@ =~= spec_join_lines(msgs.take(j as int + 1)));
            }
            j = j + 1;
        }
        proof {
            assert(msgs.take(messages@.len() as int) =~= msgs);
        }
        Result::Err(joined)
    }
}

/// The views of named verdicts: each name's characters with the failure
/// message's characters, if any.
pub open spec fn spec_result_views(results: Seq<(String, Result<(), String>)>) -> Seq<
    (Seq<char>, Option<Seq<char>>),
> {
    results.map_values(
        |p: (String, Result<(), String>)|
            (
                p.0@,
                match p.1 {
                    Result::Ok(_) => Option::<Seq<char>>::None,
                    Result::Err(e) => Option::Some(e@),
                },
            ),
    )
}

/// The failing rows of named verdicts, each as `name: message`.
pub open spec fn spec_error_messages(views: Seq<(Seq<char>, Option<Seq<char>>)>) -> Seq<Seq<char>>
    decreases views.len(),
{
    if views.len() == 0 {
        Seq::empty()
    } else {
        let rest = spec_error_messages(views.drop_last());
        match views.last().1 {
            Option::Some(msg) => rest.push(views.last().0 + ": "@ + msg),
            Option::None => rest,
        }
    }
}

/// Lines joined by line feeds.
pub open spec fn spec_join_lines(msgs: Seq<Seq<char>>) -> Seq<char>
    decreases msgs.len(),
{
    if msgs.len() == 0 {
        Seq::empty()
    } else if msgs.len() == 1 {
        msgs[0]
    } else {
        spec_join_lines(msgs.drop_last()) + seq!['\n'] + msgs.last()
    }
}

} // verus!
