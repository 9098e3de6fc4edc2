//! An input field for toggling a set of items on and off.
//!
//! The value is a bit box — one bit per item — saying which items are toggled.
//! `Up` and `Down` move the focused item, clamped at the ends (so a form
//! regains those keys exactly at the boundary); any other key toggles the
//! focused item. Count predicates are provided for limiting the number of
//! toggled items through field validation.

use vstd::prelude::*;
use bitvec::boxed::BitBox;
use crate::field::Build;
use crate::field::Field;
use crate::field::InputResult;
use crate::key::KeyCode;
use crate::key::KeyEvent;
use crate::text::Line;
use crate::text::Span;
use crate::text::SpanView;
use crate::text::Style;
use crate::text::Text;
use crate::text::chars_vec;

verus! {

/// A box of bits, one per item: the bitvec crate's bit box behind an opaque
/// struct, since the box's own trait bounds cannot be declared to the
/// verifier. Its contents are named by [`toggle_bits`], and every operation on
/// it is a trusted wrapper around one bitvec call.
#[verifier::external_body]
#[derive(Debug)]
pub struct Bits {
    inner: BitBox,
}

/// The bits a bit box holds, in index order.
pub uninterp spec fn toggle_bits(b: Bits) -> Seq<bool>;

/// The number of set bits in a bit sequence.
pub open spec fn spec_count_true(s: Seq<bool>) -> nat
    decreases s.len(),
{
    if s.len() == 0 {
        0
    } else {
        (if s[0] {
            1 as nat
        } else {
            0 as nat
        }) + spec_count_true(s.drop_first())
    }
}

impl Bits {
    /// Relies on bitvec's `BitVec::repeat` (and `into_boxed_bitslice`): a box
    /// of `len` bits, all clear.
    #[verifier::external_body]
    pub fn new(len: usize) -> (r: Bits)
        ensures
            toggle_bits(r) == Seq::new(len as nat, |i: int| false),
    {
        Bits { inner: bitvec::vec::BitVec::repeat(false, len).into_boxed_bitslice() }
    }

    /// Relies on bitvec's `BitSlice::len`: the number of bits held.
    #[verifier::external_body]
    pub fn len(&self) -> (n: usize)
        ensures
            n == toggle_bits(*self).len(),
    {
        self.inner.len()
    }

    /// Relies on bitvec's `BitSlice::get`: reads the bit at `i`.
    #[verifier::external_body]
    pub fn get(&self, i: usize) -> (r: bool)
        requires
            i < toggle_bits(*self).len(),
        ensures
            r == toggle_bits(*self)[i as int],
    {
        *self.inner.get(i).unwrap()
    }

    /// Relies on bitvec's `BitSlice::set`: writes the bit at `i`.
    #[verifier::external_body]
    fn set(&mut self, i: usize, v: bool)
        requires
            i < toggle_bits(*old(self)).len(),
        ensures
            toggle_bits(*final(self)) == toggle_bits(*old(self)).update(i as int, v),
    {
        self.inner.set(i, v);
    }

    /// Relies on bitvec's `BitSlice::count_ones`: the number of set bits.
    #[verifier::external_body]
    pub fn count_ones(&self) -> (n: usize)
        ensures
            n == spec_count_true(toggle_bits(*self)),
    {
        self.inner.count_ones()
    }

    /// Relies on bitvec's `Clone` for `BitBox`: the copy holds the same bits.
    #[verifier::external_body]
    pub fn duplicate(&self) -> (r: Bits)
        ensures
            toggle_bits(r) == toggle_bits(*self),
    {
        Bits { inner: self.inner.clone() }
    }
}

/// A multi-choice field over a fixed list of items.
#[derive(Debug)]
pub struct Toggle {
    /// The user-visible name displayed by the input field.
    pub name: String,
    /// The user-visible names of the items that can be toggled.
    pub items: Vec<String>,
    /// Index of the currently focused item.
    pub focus: usize,
    /// Whether the item at each index is toggled.
    pub values: Bits,
}

/// The ghost model of a [`Toggle`].
#[verifier::ext_equal]
pub ghost struct ToggleModel {
    pub name: Seq<char>,
    pub items: Seq<Seq<char>>,
    pub focus: int,
    pub values: Seq<bool>,
}

/// The model of one key press on a toggle; a toggle whose focus points at no
/// bit ignores the toggling keys.
pub open spec fn spec_toggle_input(m: ToggleModel, key: KeyEvent) -> (ToggleModel, InputResult) {
    match key.code {
        KeyCode::Up => if m.focus > 0 {
            (ToggleModel { focus: m.focus - 1, ..m }, InputResult::Consumed)
        } else {
            (m, InputResult::Ignored)
        },
        KeyCode::Down => if m.focus + 1 < m.items.len() {
            (ToggleModel { focus: m.focus + 1, ..m }, InputResult::Consumed)
        } else {
            (m, InputResult::Ignored)
        },
        _ => if 0 <= m.focus < m.values.len() {
            (
                ToggleModel { values: m.values.update(m.focus, !m.values[m.focus]), ..m },
                InputResult::Updated,
            )
        } else {
            (m, InputResult::Ignored)
        },
    }
}

impl Toggle {
    /// A toggle is well-formed when it has items, one bit per item, and the
    /// focus points at an item.
    pub open spec fn wf(&self) -> bool {
        &&& self.items@.len() > 0
        &&& toggle_bits(self.values).len() == self.items@.len()
        &&& (self.focus as int) < self.items@.len()
    }

    /// Sets the user-visible names of all items that can be toggled; all
    /// values are cleared. There must be at least one item.
    pub fn set_items(&mut self, items: Vec<String>)
        requires
            items@.len() > 0,
        ensures
            final(self).model() == (ToggleModel {
                items: items@.map_values(|s: String| s@),
                values: Seq::new(items@.len(), |i: int| false),
                ..old(self).model()
            }),
    {
        let n = items.len();
        self.items = items;
        self.values = Bits::new(n);
    }

    /// Sets the values at the given indices; every index must be in range.
    pub fn set_indices(&mut self, indices: &Vec<usize>)
        requires
            forall|j: int|
                0 <= j < indices@.len() ==> indices@[j] < toggle_bits(old(self).values).len(),
        ensures
            final(self).model() == (ToggleModel {
                values: spec_set_all(toggle_bits(old(self).values), indices@),
                ..old(self).model()
            }),
    {
        let ghost bits0 = toggle_bits(self.values);
        let mut j: usize = 0;
        proof {
            assert(indices@.take(0) =~= Seq::<usize>::empty());
            assert(spec_set_all(bits0, indices@.take(0)) =~= bits0);
        }
        while j < indices.len()
            invariant
                j <= indices@.len(),
                forall|k: int| 0 <= k < indices@.len() ==> indices@[k] < bits0.len(),
                self.name == old(self).name,
                self.items == old(self).items,
                self.focus == old(self).focus,
                bits0 == toggle_bits(old(self).values),
                toggle_bits(self.values) == spec_set_all(bits0, indices@.take(j as int)),
            decreases indices@.len() - j,
        {
            proof {
                lemma_set_all_len(bits0, indices@.take(j as int));
                assert(indices@.take(j as int + 1).drop_last() =~= indices@.take(j as int));
                assert(indices@.take(j as int + 1).last() == indices@[j as int]);
            }
            self.values.set(indices[j], true);
            j = j + 1;
        }
        proof {
            assert(indices@.take(indices@.len() as int) =~= indices@);
        }
    }

    /// The names of the items that can be toggled.
    pub fn items(&self) -> (r: &Vec<String>)
        ensures
            r@.map_values(|s: String| s@) == self.model().items,
    {
        &self.items
    }
}

/// The bits after setting every listed index, in order.
pub open spec fn spec_set_all(bits: Seq<bool>, indices: Seq<usize>) -> Seq<bool>
    decreases indices.len(),
{
    if indices.len() == 0 {
        bits
    } else {
        spec_set_all(bits, indices.drop_last()).update(indices.last() as int, true)
    }
}

/// Setting in-range indices keeps the length of the bits.
pub proof fn lemma_set_all_len(bits: Seq<bool>, indices: Seq<usize>)
    requires
        forall|j: int| 0 <= j < indices.len() ==> indices[j] < bits.len(),
    ensures
        spec_set_all(bits, indices).len() == bits.len(),
    decreases indices.len(),
{
    if indices.len() > 0 {
        lemma_set_all_len(bits, indices.drop_last());
        assert(spec_set_all(bits, indices) == spec_set_all(bits, indices.drop_last()).update(
            indices.last() as int,
            true,
        ));
    }
}

impl Field for Toggle {
    type Value = Bits;

    type Builder = Builder<false, false>;

    type Model = ToggleModel;

    type ValueModel = Seq<bool>;

    open spec fn model(&self) -> ToggleModel {
        ToggleModel {
            name: self.name@,
            items: self.items@.map_values(|s: String| s@),
            focus: self.focus as int,
            values: toggle_bits(self.values),
        }
    }

    open spec fn value_model(v: Bits) -> Seq<bool> {
        toggle_bits(v)
    }

    open spec fn spec_name(m: ToggleModel) -> Seq<char> {
        m.name
    }

    open spec fn spec_input(m: ToggleModel, key: KeyEvent) -> (ToggleModel, InputResult) {
        spec_toggle_input(m, key)
    }

    open spec fn spec_format(m: ToggleModel, focused: bool) -> Seq<Seq<SpanView>> {
        Seq::new(
            spec_row_count(m),
            |i: int|
                {
                    let sym: Seq<char> = if 0 <= i < m.values.len() && m.values[i] {
                        seq!['\u{2713}']
                    } else {
                        seq![' ']
                    };
                    if focused && i == m.focus {
                        seq![
                            (SpanView {
                                content: seq!['<'],
                                style: Style { bold: true, ..Style::spec_plain() },
                            }),
                            (SpanView { content: sym, style: Style::spec_plain() }),
                            (SpanView {
                                content: seq!['>', ' '],
                                style: Style { bold: true, ..Style::spec_plain() },
                            }),
                            (SpanView { content: m.items[i], style: Style::spec_plain() }),
                        ]
                    } else {
                        seq![
                            (SpanView {
                                content: seq!['('] + sym + seq![')', ' '] + m.items[i],
                                style: Style::spec_plain(),
                            }),
                        ]
                    }
                },
        )
    }

    open spec fn spec_value(m: ToggleModel) -> Seq<bool> {
        m.values
    }

    fn name(&self) -> (r: &String) {
        &self.name
    }

    fn input(&mut self, key: KeyEvent) -> (r: InputResult) {
        let ghost m0 = self.model();
        let n = self.items.len();
        match key.code {
            KeyCode::Up => if self.focus > 0 {
                self.focus = self.focus - 1;
                proof {
                    assert(self.model() =~= spec_toggle_input(m0, key).0);
                }
                InputResult::Consumed
            } else {
                InputResult::Ignored
            },
            KeyCode::Down => if self.focus < n && self.focus + 1 < n {
                self.focus = self.focus + 1;
                proof {
                    assert(self.model() =~= spec_toggle_input(m0, key).0);
                }
                InputResult::Consumed
            } else {
                InputResult::Ignored
            },
            _ => {
                if self.focus < self.values.len() {
                    let cur = self.values.get(self.focus);
                    self.values.set(self.focus, !cur);
                    proof {
                        assert(self.model() =~= spec_toggle_input(m0, key).0);
                    }
                    InputResult::Updated
                } else {
                    InputResult::Ignored
                }
            },
        }
    }

    fn format(&self, focused: bool) -> (t: Text) {
        let ghost m = self.model();
        let n = row_count(self);
        let mut t = Text::empty();
        let mut i: usize = 0;
        while i < n
            invariant
                n == spec_row_count(m),
                m == self.model(),
                i <= n,
                t@ == Self::spec_format(m, focused).take(i as int),
            decreases n - i,
        {
            proof {
                assert(i < m.items.len());
                assert(i < m.values.len());
            }
            let set_here = self.values.get(i);
            let mut sym: Vec<char> = Vec::new();
            if set_here {
                sym.push('\u{2713}');
            } else {
                sym.push(' ');
            }
            let line: Line;
            if focused && i == self.focus {
                let mut open_mark: Vec<char> = Vec::new();
                open_mark.push('<');
                let mut close_mark: Vec<char> = Vec::new();
                close_mark.push('>');
                close_mark.push(' ');
                let bold = Style { bold: true, ..Style::plain() };
                let mut l = Line::of_span(Span::new(open_mark, bold));
                l.push_span(Span::plain(sym));
                l.push_span(Span::new(close_mark, bold));
                l.push_span(Span::plain(chars_vec(self.items[i].as_str())));
                line = l;
            } else {
                let mut content: Vec<char> = Vec::new();
                content.push('(');
                content.push(if set_here {
                    '\u{2713}'
                } else {
                    ' '
                });
                content.push(')');
                content.push(' ');
                let mut item = chars_vec(self.items[i].as_str());
                content.append(&mut item);
                line = Line::of_span(Span::plain(content));
            }
            t.push_line(line);
            proof {
                assert(t@.last() =~~= Self::spec_format(m, focused)[i as int]);
                assert(t@ =~~= Self::spec_format(m, focused).take(i as int + 1));
            }
            i = i + 1;
        }
        proof {
            assert(Self::spec_format(m, focused).take(n as int) =~= Self::spec_format(m, focused));
        }
        t
    }

    fn value(&self) -> (r: &Bits) {
        &self.values
    }

    fn into_value(self) -> (r: Bits) {
        self.values
    }

    fn builder() -> (r: Builder<false, false>) {
        Builder(Toggle { name: String::new(), items: Vec::new(), focus: 0, values: Bits::new(0) })
    }
}

/// The number of rows a toggle renders: one per item with a bit.
pub open spec fn spec_row_count(m: ToggleModel) -> nat {
    if m.items.len() <= m.values.len() {
        m.items.len()
    } else {
        m.values.len()
    }
}

/// The number of rows a toggle renders.
fn row_count(f: &Toggle) -> (n: usize)
    ensures
        n == spec_row_count(f.model()),
{
    let b = f.values.len();
    if f.items.len() <= b {
        f.items.len()
    } else {
        b
    }
}

/// Whether the number of toggled items is exactly `n`. Defined for use as a
/// field-validation error condition for [`Toggle`].
pub fn exactly(bits: &Bits, n: usize) -> (r: bool)
    ensures
        r == (spec_count_true(toggle_bits(*bits)) == n),
{
    bits.count_ones() == n
}

/// Whether the number of toggled items is not exactly `n`. Defined for use as
/// a field-validation error condition for [`Toggle`].
pub fn not_exactly(bits: &Bits, n: usize) -> (r: bool)
    ensures
        r == (spec_count_true(toggle_bits(*bits)) != n),
{
    bits.count_ones() != n
}

/// Whether the number of toggled items is less than `n`. Defined for use as a
/// field-validation error condition for [`Toggle`].
pub fn less_than(bits: &Bits, n: usize) -> (r: bool)
    ensures
        r == (spec_count_true(toggle_bits(*bits)) < n),
{
    bits.count_ones() < n
}

/// Whether the number of toggled items is more than `n`. Defined for use as a
/// field-validation error condition for [`Toggle`].
pub fn more_than(bits: &Bits, n: usize) -> (r: bool)
    ensures
        r == (spec_count_true(toggle_bits(*bits)) > n),
{
    bits.count_ones() > n
}

/// Whether the number of toggled items falls outside `[low, high_inclusive]`.
/// Defined for use as a field-validation error condition for [`Toggle`].
pub fn outside_range(bits: &Bits, low: usize, high_inclusive: usize) -> (r: bool)
    ensures
        r == {
            let count = spec_count_true(toggle_bits(*bits));
            count < low || count > high_inclusive
        },
{
    let count = bits.count_ones();
    count < low || count > high_inclusive
}

/// Constructs a [`Toggle`]. Both the name and a non-empty item list must be
/// given before the field can be built; the type parameters record which have
/// been.
#[derive(Debug)]
pub struct Builder<const NAME: bool, const ITEMS: bool>(pub Toggle);

impl Default for Builder<false, false> {
    /// A builder with an empty name and no items.
    fn default() -> (r: Builder<false, false>)
        ensures
            r.0.name@ == Seq::<char>::empty(),
            r.0.items@.len() == 0,
            r.0.focus == 0,
            toggle_bits(r.0.values).len() == 0,
    {
        let r = Builder(
            Toggle { name: String::new(), items: Vec::new(), focus: 0, values: Bits::new(0) },
        );
        proof {
            assert(r.0.name@ =~= Seq::<char>::empty());
        }
        r
    }
}

impl<const NAME: bool, const ITEMS: bool> Builder<NAME, ITEMS> {
    /// The user-visible name displayed by the input field.
    pub fn name(self, name: &str) -> (r: Builder<true, ITEMS>)
        ensures
            r.0.name@ == name@,
            r.0.items == self.0.items,
            r.0.focus == self.0.focus,
            r.0.values == self.0.values,
    {
        Builder(Toggle { name: name.to_owned(), ..self.0 })
    }

    /// The user-visible names of all items that can be toggled; all values
    /// start clear. There must be at least one item.
    pub fn items(self, items: Vec<String>) -> (r: Builder<NAME, true>)
        requires
            items@.len() > 0,
        ensures
            r.0.name@ == self.0.name@,
            r.0.focus == self.0.focus,
            r.0.model().items == items@.map_values(|s: String| s@),
            r.0.model().values == Seq::new(items@.len(), |i: int| false),
    {
        let mut inner = self.0;
        inner.set_items(items);
        Builder(inner)
    }
}

impl<const NAME: bool> Builder<NAME, true> {
    /// Sets the values at the given indices; every index must be in range.
    pub fn set(self, indices: &Vec<usize>) -> (r: Builder<NAME, true>)
        requires
            forall|j: int|
                0 <= j < indices@.len() ==> indices@[j] < toggle_bits(self.0.values).len(),
        ensures
            r.0.name@ == self.0.name@,
            r.0.model().items == self.0.model().items,
            r.0.focus == self.0.focus,
            r.0.model().values == spec_set_all(toggle_bits(self.0.values), indices@),
    {
        let mut inner = self.0;
        inner.set_indices(indices);
        Builder(inner)
    }
}

impl Build for Builder<true, true> {
    type Output = Toggle;

    open spec fn spec_build(self) -> ToggleModel {
        self.0.model()
    }

    fn build(self) -> (r: Toggle) {
        self.0
    }
}

} // verus!
