//! An input field for entering a boolean value.

use vstd::prelude::*;
use crate::field::Build;
use crate::field::Field;
use crate::field::InputResult;
use crate::key::KeyCode;
use crate::key::KeyEvent;
use crate::text::Line;
use crate::text::Span;
use crate::text::SpanView;
use crate::text::Style;
use crate::text::Text;

verus! {

/// A boolean field. Any key toggles the value, except `Up` and `Down`, which
/// are left to the form for focus navigation.
#[derive(Debug)]
pub struct Checkbox {
    /// The user-visible name displayed by the input field.
    pub name: String,
    /// The current user-entered value.
    pub value: bool,
}

/// The ghost model of a [`Checkbox`].
#[verifier::ext_equal]
pub ghost struct CheckboxModel {
    pub name: Seq<char>,
    pub value: bool,
}

/// The single character a checkbox renders as.
pub open spec fn spec_checkbox_char(value: bool) -> char {
    if value {
        '\u{2713}'
    } else {
        '\u{10102}'
    }
}

/// The model of one key press on a checkbox.
pub open spec fn spec_checkbox_input(m: CheckboxModel, key: KeyEvent) -> (CheckboxModel,
    InputResult) {
    match key.code {
        KeyCode::Up | KeyCode::Down => (m, InputResult::Ignored),
        _ => (CheckboxModel { value: !m.value, ..m }, InputResult::Updated),
    }
}

impl Field for Checkbox {
    type Value = bool;

    type Builder = Builder<false>;

    type Model = CheckboxModel;

    type ValueModel = bool;

    open spec fn model(&self) -> CheckboxModel {
        CheckboxModel { name: self.name@, value: self.value }
    }

    open spec fn value_model(v: bool) -> bool {
        v
    }

    open spec fn spec_name(m: CheckboxModel) -> Seq<char> {
        m.name
    }

    open spec fn spec_input(m: CheckboxModel, key: KeyEvent) -> (CheckboxModel, InputResult) {
        spec_checkbox_input(m, key)
    }

    open spec fn spec_format(m: CheckboxModel, focused: bool) -> Seq<Seq<SpanView>> {
        seq![
            seq![
                (SpanView {
                    content: seq![spec_checkbox_char(m.value)],
                    style: Style::spec_plain(),
                }),
            ],
        ]
    }

    open spec fn spec_value(m: CheckboxModel) -> bool {
        m.value
    }

    fn name(&self) -> (r: &String) {
        &self.name
    }

    fn input(&mut self, key: KeyEvent) -> (r: InputResult) {
        match key.code {
            KeyCode::Up | KeyCode::Down => InputResult::Ignored,
            _ => {
                self.value = !self.value;
                InputResult::Updated
            },
        }
    }

    fn format(&self, focused: bool) -> (t: Text) {
        let mut content: Vec<char> = Vec::new();
        if self.value {
            content.push('\u{2713}');
        } else {
            content.push('\u{10102}');
        }
        let t = Text::of_line(Line::of_span(Span::plain(content)));
        proof {
            assert(t@ =~~= Self::spec_format(self.model(), focused));
        }
        t
    }

    fn value(&self) -> (r: &bool) {
        &self.value
    }

    fn into_value(self) -> (r: bool) {
        self.value
    }

    fn builder() -> (r: Builder<false>) {
        Builder(Checkbox { name: String::new(), value: false })
    }
}

/// Constructs a [`Checkbox`]. The name must be given before the field can be
/// built; the type parameter records whether it has been.
#[derive(Debug)]
pub struct Builder<const NAME: bool>(pub Checkbox);

impl Default for Builder<false> {
    /// A builder with an empty name and an unticked box.
    fn default() -> (r: Builder<false>)
        ensures
            r.0.name@ == Seq::<char>::empty(),
            r.0.value == false,
    {
        let r = Builder(Checkbox { name: String::new(), value: false });
        proof {
            assert(r.0.name@ =~= Seq::<char>::empty());
        }
        r
    }
}

impl<const NAME: bool> Builder<NAME> {
    /// The user-visible name displayed by the input field.
    pub fn name(self, name: &str) -> (r: Builder<true>)
        ensures
            r.0.name@ == name@,
            r.0.value == self.0.value,
    {
        Builder(Checkbox { name: name.to_owned(), value: self.0.value })
    }

    /// The initial value.
    pub fn value(self, value: bool) -> (r: Builder<NAME>)
        ensures
            r.0.name@ == self.0.name@,
            r.0.value == value,
    {
        Builder(Checkbox { value, ..self.0 })
    }
}

impl Build for Builder<true> {
    type Output = Checkbox;

    open spec fn spec_build(self) -> CheckboxModel {
        self.0.model()
    }

    fn build(self) -> (r: Checkbox) {
        self.0
    }
}

} // verus!
