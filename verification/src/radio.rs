//! An input field for selecting one item among a set.
//!
//! The value is the index of the selected item. `Up` and `Down` move an
//! internal focus over the items, clamped at the ends (so a form regains those
//! keys exactly at the boundary); `Left` and `Right` cycle the selected item
//! directly; any other key selects the focused item.

use vstd::prelude::*;
use crate::field::Build;
use crate::field::Field;
use crate::field::InputResult;
use crate::key::KeyCode;
use crate::key::KeyEvent;
use crate::text::Line;
use crate::text::Span;
use crate::text::SpanView;
use crate::text::Style;
use crate::text::Text;
use crate::text::chars_vec;

verus! {

/// A single-choice field over a fixed list of items.
#[derive(Debug)]
pub struct Radio {
    /// The user-visible name displayed by the input field.
    pub name: String,
    /// The user-visible names of the items that can be chosen between.
    pub items: Vec<String>,
    /// Index of the currently selected item.
    pub selected: usize,
    /// Index of the currently focused item, moved by `Up` and `Down`.
    pub focus: usize,
}

/// The ghost model of a [`Radio`].
#[verifier::ext_equal]
pub ghost struct RadioModel {
    pub name: Seq<char>,
    pub items: Seq<Seq<char>>,
    pub selected: int,
    pub focus: int,
}

impl Radio {
    /// A radio is well-formed when it has items and both indices point at one.
    pub open spec fn wf(&self) -> bool {
        &&& self.items@.len() > 0
        &&& self.selected < self.items@.len()
        &&& self.focus < self.items@.len()
    }

    /// Maximum possible index of the selected item. Defined for explicitness.
    pub fn max_selected(&self) -> (r: usize)
        requires
            self.items@.len() > 0,
        ensures
            r == self.items@.len() - 1,
    {
        self.items.len() - 1
    }
}

/// The model of one key press on a radio; a radio without items ignores every
/// key.
pub open spec fn spec_radio_input(m: RadioModel, key: KeyEvent) -> (RadioModel, InputResult) {
    if m.items.len() == 0 {
        (m, InputResult::Ignored)
    } else {
        let max = m.items.len() - 1;
        match key.code {
            KeyCode::Up => if m.focus > 0 {
                (RadioModel { focus: m.focus - 1, ..m }, InputResult::Consumed)
            } else {
                (m, InputResult::Ignored)
            },
            KeyCode::Down => if m.focus < max {
                (RadioModel { focus: m.focus + 1, ..m }, InputResult::Consumed)
            } else {
                (m, InputResult::Ignored)
            },
            KeyCode::Left => if m.selected == 0 {
                (RadioModel { selected: max, ..m }, InputResult::Updated)
            } else {
                (RadioModel { selected: m.selected - 1, ..m }, InputResult::Updated)
            },
            KeyCode::Right => if m.selected >= max {
                (RadioModel { selected: 0, ..m }, InputResult::Updated)
            } else {
                (RadioModel { selected: m.selected + 1, ..m }, InputResult::Updated)
            },
            _ => (RadioModel { selected: m.focus, ..m }, InputResult::Updated),
        }
    }
}

impl Field for Radio {
    type Value = usize;

    type Builder = Builder<false, false>;

    type Model = RadioModel;

    type ValueModel = int;

    open spec fn model(&self) -> RadioModel {
        RadioModel {
            name: self.name@,
            items: self.items@.map_values(|s: String| s@),
            selected: self.selected as int,
            focus: self.focus as int,
        }
    }

    open spec fn value_model(v: usize) -> int {
        v as int
    }

    open spec fn spec_name(m: RadioModel) -> Seq<char> {
        m.name
    }

    open spec fn spec_input(m: RadioModel, key: KeyEvent) -> (RadioModel, InputResult) {
        spec_radio_input(m, key)
    }

    open spec fn spec_format(m: RadioModel, focused: bool) -> Seq<Seq<SpanView>> {
        let shown: Seq<char> = if 0 <= m.selected < m.items.len() {
            m.items[m.selected]
        } else {
            Seq::empty()
        };
        seq![
            seq![
                (SpanView { content: seq!['<'], style: Style::spec_plain() }),
                (SpanView {
                    content: shown,
                    style: Style { bold: focused, ..Style::spec_plain() },
                }),
                (SpanView { content: seq!['>'], style: Style::spec_plain() }),
            ],
        ]
    }

    open spec fn spec_value(m: RadioModel) -> int {
        m.selected
    }

    fn name(&self) -> (r: &String) {
        &self.name
    }

    fn input(&mut self, key: KeyEvent) -> (r: InputResult) {
        if self.items.len() == 0 {
            return InputResult::Ignored;
        }
        let max = self.items.len() - 1;
        match key.code {
            KeyCode::Up => if self.focus > 0 {
                self.focus = self.focus - 1;
                InputResult::Consumed
            } else {
                InputResult::Ignored
            },
            KeyCode::Down => if self.focus < max {
                self.focus = self.focus + 1;
                InputResult::Consumed
            } else {
                InputResult::Ignored
            },
            KeyCode::Left => {
                if self.selected == 0 {
                    self.selected = max;
                } else {
                    self.selected = self.selected - 1;
                }
                InputResult::Updated
            },
            KeyCode::Right => {
                if self.selected >= max {
                    self.selected = 0;
                } else {
                    self.selected = self.selected + 1;
                }
                InputResult::Updated
            },
            _ => {
                self.selected = self.focus;
                InputResult::Updated
            },
        }
    }

    fn format(&self, focused: bool) -> (t: Text) {
        let shown: Vec<char> = if self.selected < self.items.len() {
            chars_vec(self.items[self.selected].as_str())
        } else {
            Vec::new()
        };
        let mut open_mark: Vec<char> = Vec::new();
        open_mark.push('<');
        let mut close_mark: Vec<char> = Vec::new();
        close_mark.push('>');
        let mut line = Line::of_span(Span::plain(open_mark));
        line.push_span(Span::new(shown, Style::plain().bold_if(focused)));
        line.push_span(Span::plain(close_mark));
        let t = Text::of_line(line);
        proof {
            assert(t@ =~~= Self::spec_format(self.model(), focused));
        }
        t
    }

    fn value(&self) -> (r: &usize) {
        &self.selected
    }

    fn into_value(self) -> (r: usize) {
        self.selected
    }

    fn builder() -> (r: Builder<false, false>) {
        Builder(Radio { name: String::new(), items: Vec::new(), selected: 0, focus: 0 })
    }
}

/// Constructs a [`Radio`]. Both the name and a non-empty item list must be
/// given before the field can be built; the type parameters record which have
/// been.
#[derive(Debug)]
pub struct Builder<const NAME: bool, const ITEMS: bool>(pub Radio);

impl Default for Builder<false, false> {
    /// A builder with an empty name and no items.
    fn default() -> (r: Builder<false, false>)
        ensures
            r.0.name@ == Seq::<char>::empty(),
            r.0.items@.len() == 0,
            r.0.selected == 0,
            r.0.focus == 0,
    {
        let r = Builder(Radio { name: String::new(), items: Vec::new(), selected: 0, focus: 0 });
        proof {
            assert(r.0.name@ =~= Seq::<char>::empty());
        }
        r
    }
}

impl<const NAME: bool, const ITEMS: bool> Builder<NAME, ITEMS> {
    /// The user-visible name displayed by the input field.
    pub fn name(self, name: &str) -> (r: Builder<true, ITEMS>)
        ensures
            r.0.name@ == name@,
            r.0.items == self.0.items,
            r.0.selected == self.0.selected,
            r.0.focus == self.0.focus,
    {
        Builder(Radio { name: name.to_owned(), ..self.0 })
    }

    /// The user-visible names of all items that can be chosen between. There
    /// must be at least one.
    pub fn items(self, items: Vec<String>) -> (r: Builder<NAME, true>)
        requires
            items@.len() > 0,
        ensures
            r.0.name == self.0.name,
            r.0.items == items,
            r.0.selected == self.0.selected,
            r.0.focus == self.0.focus,
    {
        Builder(Radio { items, ..self.0 })
    }
}

impl<const NAME: bool> Builder<NAME, true> {
    /// The index of the initially selected item; the internal focus starts
    /// there too.
    pub fn selected(self, index: usize) -> (r: Builder<NAME, true>)
        requires
            index < self.0.items@.len(),
        ensures
            r.0 == (Radio { selected: index, focus: index, ..self.0 }),
    {
        Builder(Radio { selected: index, focus: index, ..self.0 })
    }
}

impl Build for Builder<true, true> {
    type Output = Radio;

    open spec fn spec_build(self) -> RadioModel {
        self.0.model()
    }

    fn build(self) -> (r: Radio) {
        self.0
    }
}

} // verus!
