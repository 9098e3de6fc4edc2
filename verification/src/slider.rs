//! An input field for entering a numerical value within a range.
//!
//! `Left` and `Right` move the value one step, clamped to the range. With any
//! modifier held, the value snaps to the nearest anchor in that direction,
//! the anchors being the range start, the default value and the range end, in
//! order. The rule is: a modified `Left` goes to the default when the value is
//! above it and to the range start otherwise; a modified `Right` goes to the
//! default when the value is below it and to the range end otherwise.

use vstd::prelude::*;
use crate::field::Build;
use crate::field::Field;
use crate::field::InputResult;
use crate::key::KeyCode;
use crate::key::KeyEvent;
use crate::text::Line;
use crate::text::Span;
use crate::text::SpanView;
use crate::text::Style;
use crate::text::Text;

verus! {

/// The numeric capability a slider needs of its value type: a mathematical
/// value, bounds, and guarded arithmetic. Implemented for the unsigned
/// integer types.
pub trait SliderValue: Sized + Copy {
    /// The mathematical value.
    spec fn as_int(self) -> int;

    /// The largest mathematical value of the type.
    spec fn max_int() -> int;

    /// The value with the given mathematical value.
    spec fn spec_from_int(n: int) -> Self;

    /// Every value lies between zero and the type's maximum.
    proof fn lemma_bounds(self)
        ensures
            0 <= self.as_int() <= Self::max_int(),
    ;

    /// Within bounds, the mathematical value of `spec_from_int(n)` is `n`.
    proof fn lemma_to_from(n: int)
        requires
            0 <= n <= Self::max_int(),
        ensures
            Self::spec_from_int(n).as_int() == n,
    ;

    /// Returns zero.
    fn zero() -> (r: Self)
        ensures
            r == Self::spec_from_int(0),
            r.as_int() == 0,
    ;

    /// Returns one.
    fn one() -> (r: Self)
        ensures
            r == Self::spec_from_int(1),
            r.as_int() == 1,
    ;

    /// Returns the smallest value of the type.
    fn min_value() -> (r: Self)
        ensures
            r.as_int() == 0,
    ;

    /// Returns the largest value of the type.
    fn max_value() -> (r: Self)
        ensures
            r.as_int() == Self::max_int(),
    ;

    /// Guarded addition.
    fn plus(self, other: Self) -> (r: Self)
        requires
            self.as_int() + other.as_int() <= Self::max_int(),
        ensures
            r == Self::spec_from_int(self.as_int() + other.as_int()),
            r.as_int() == self.as_int() + other.as_int(),
    ;

    /// Guarded subtraction.
    fn minus(self, other: Self) -> (r: Self)
        requires
            other.as_int() <= self.as_int(),
        ensures
            r == Self::spec_from_int(self.as_int() - other.as_int()),
            r.as_int() == self.as_int() - other.as_int(),
    ;

    /// Strict comparison.
    fn lt(self, other: Self) -> (r: bool)
        ensures
            r == (self.as_int() < other.as_int()),
    ;

    /// Non-strict comparison.
    fn le(self, other: Self) -> (r: bool)
        ensures
            r == (self.as_int() <= other.as_int()),
    ;

    /// The value widened for display.
    fn to_u64(self) -> (r: u64)
        ensures
            r == self.as_int(),
    ;
}

/// A numeric field over an inclusive range.
#[derive(Debug)]
pub struct Slider<T> {
    /// The user-visible name displayed by the input field.
    pub name: String,
    /// The current user-entered value.
    pub value: T,
    /// The smallest value that can be entered.
    pub min: T,
    /// The largest value that can be entered.
    pub max: T,
    /// The step size: the value is moved by this amount.
    pub step: T,
    /// The default value, the middle anchor for modified movement.
    pub default: T,
}

/// The ghost model of a [`Slider`]: its quantities as mathematical integers.
#[verifier::ext_equal]
pub ghost struct SliderModel {
    pub name: Seq<char>,
    pub value: int,
    pub min: int,
    pub max: int,
    pub step: int,
    pub default: int,
}

/// The model of one key press on a slider.
pub open spec fn spec_slider_input(m: SliderModel, key: KeyEvent) -> (SliderModel, InputResult) {
    let modified = !key.modifiers.spec_is_empty();
    match key.code {
        KeyCode::Left => if m.value <= m.min {
            (m, InputResult::Ignored)
        } else if modified {
            if m.default < m.value {
                (SliderModel { value: m.default, ..m }, InputResult::Updated)
            } else {
                (SliderModel { value: m.min, ..m }, InputResult::Updated)
            }
        } else {
            if m.step <= m.value - m.min {
                (SliderModel { value: m.value - m.step, ..m }, InputResult::Updated)
            } else {
                (SliderModel { value: m.min, ..m }, InputResult::Updated)
            }
        },
        KeyCode::Right => if m.max <= m.value {
            (m, InputResult::Ignored)
        } else if modified {
            if m.value < m.default {
                (SliderModel { value: m.default, ..m }, InputResult::Updated)
            } else {
                (SliderModel { value: m.max, ..m }, InputResult::Updated)
            }
        } else {
            if m.step <= m.max - m.value {
                (SliderModel { value: m.value + m.step, ..m }, InputResult::Updated)
            } else {
                (SliderModel { value: m.max, ..m }, InputResult::Updated)
            }
        },
        _ => (m, InputResult::Ignored),
    }
}

/// The digit character of one decimal digit.
pub open spec fn spec_digit(d: int) -> char {
    if d == 0 {
        '0'
    } else if d == 1 {
        '1'
    } else if d == 2 {
        '2'
    } else if d == 3 {
        '3'
    } else if d == 4 {
        '4'
    } else if d == 5 {
        '5'
    } else if d == 6 {
        '6'
    } else if d == 7 {
        '7'
    } else if d == 8 {
        '8'
    } else {
        '9'
    }
}

/// The decimal digits of a number, most significant first.
pub open spec fn spec_decimal(n: nat) -> Seq<char>
    decreases n,
{
    if n < 10 {
        seq![spec_digit(n as int)]
    } else {
        spec_decimal(n / 10).push(spec_digit((n % 10) as int))
    }
}

/// One decimal digit as a character.
fn digit_char(d: u64) -> (c: char)
    requires
        d < 10,
    ensures
        c == spec_digit(d as int),
{
    match d {
        0 => '0',
        1 => '1',
        2 => '2',
        3 => '3',
        4 => '4',
        5 => '5',
        6 => '6',
        7 => '7',
        8 => '8',
        _ => '9',
    }
}

/// The decimal digits of a number, most significant first.
pub fn decimal_chars(n: u64) -> (r: Vec<char>)
    ensures
        r@ == spec_decimal(n as nat),
    decreases n,
{
    if n < 10 {
        let mut r: Vec<char> = Vec::new();
        r.push(digit_char(n));
        proof {
            assert(r@ =~= spec_decimal(n as nat));
        }
        r
    } else {
        let mut r = decimal_chars(n / 10);
        r.push(digit_char(n % 10));
        proof {
            assert(r@ =~= spec_decimal(n as nat));
        }
        r
    }
}

impl<T: SliderValue> Field for Slider<T> {
    type Value = T;

    type Builder = Builder<T, false>;

    type Model = SliderModel;

    type ValueModel = int;

    open spec fn model(&self) -> SliderModel {
        SliderModel {
            name: self.name@,
            value: self.value.as_int(),
            min: self.min.as_int(),
            max: self.max.as_int(),
            step: self.step.as_int(),
            default: self.default.as_int(),
        }
    }

    open spec fn value_model(v: T) -> int {
        v.as_int()
    }

    open spec fn spec_name(m: SliderModel) -> Seq<char> {
        m.name
    }

    open spec fn spec_input(m: SliderModel, key: KeyEvent) -> (SliderModel, InputResult) {
        spec_slider_input(m, key)
    }

    open spec fn spec_format(m: SliderModel, focused: bool) -> Seq<Seq<SpanView>> {
        seq![
            seq![
                (SpanView {
                    content: seq!['<'],
                    style: Style { bold: m.value != m.min, ..Style::spec_plain() },
                }),
                (SpanView {
                    content: spec_decimal(
                        (if m.value >= 0 {
                            m.value
                        } else {
                            0
                        }) as nat,
                    ),
                    style: Style { bold: focused, ..Style::spec_plain() },
                }),
                (SpanView {
                    content: seq!['>'],
                    style: Style { bold: m.value != m.max, ..Style::spec_plain() },
                }),
            ],
        ]
    }

    open spec fn spec_value(m: SliderModel) -> int {
        m.value
    }

    fn name(&self) -> (r: &String) {
        &self.name
    }

    fn input(&mut self, key: KeyEvent) -> (r: InputResult) {
        let modified = !key.modifiers.is_empty();
        match key.code {
            KeyCode::Left => {
                if !self.min.lt(self.value) {
                    return InputResult::Ignored;
                }
                if modified {
                    if self.default.lt(self.value) {
                        self.value = self.default;
                    } else {
                        self.value = self.min;
                    }
                } else {
                    let room = self.value.minus(self.min);
                    if self.step.le(room) {
                        proof {
                            self.min.lemma_bounds();
                        }
                        self.value = self.value.minus(self.step);
                    } else {
                        self.value = self.min;
                    }
                }
                InputResult::Updated
            },
            KeyCode::Right => {
                if !self.value.lt(self.max) {
                    return InputResult::Ignored;
                }
                if modified {
                    if self.value.lt(self.default) {
                        self.value = self.default;
                    } else {
                        self.value = self.max;
                    }
                } else {
                    let room = self.max.minus(self.value);
                    if self.step.le(room) {
                        proof {
                            self.value.lemma_bounds();
                            self.max.lemma_bounds();
                        }
                        self.value = self.value.plus(self.step);
                    } else {
                        self.value = self.max;
                    }
                }
                InputResult::Updated
            },
            _ => InputResult::Ignored,
        }
    }

    fn format(&self, focused: bool) -> (t: Text) {
        let mut open_mark: Vec<char> = Vec::new();
        open_mark.push('<');
        let mut close_mark: Vec<char> = Vec::new();
        close_mark.push('>');
        proof {
            self.value.lemma_bounds();
        }
        let digits = decimal_chars(self.value.to_u64());
        let at_min = !self.min.lt(self.value) && !self.value.lt(self.min);
        let at_max = !self.max.lt(self.value) && !self.value.lt(self.max);
        let mut line = Line::of_span(Span::new(open_mark, Style::plain().bold_if(!at_min)));
        line.push_span(Span::new(digits, Style::plain().bold_if(focused)));
        line.push_span(Span::new(close_mark, Style::plain().bold_if(!at_max)));
        let t = Text::of_line(line);
        proof {
            assert(t@ =~~= Self::spec_format(self.model(), focused));
        }
        t
    }

    fn value(&self) -> (r: &T) {
        &self.value
    }

    fn into_value(self) -> (r: T) {
        self.value
    }

    fn builder() -> (r: Builder<T, false>) {
        Builder(
            Slider {
                name: String::new(),
                value: T::zero(),
                min: T::min_value(),
                max: T::max_value(),
                step: T::one(),
                default: T::zero(),
            },
        )
    }
}

/// Constructs a [`Slider`]. The name must be given before the field can be
/// built; the type parameter records whether it has been.
#[derive(Debug)]
pub struct Builder<T, const NAME: bool>(pub Slider<T>);

impl<T: SliderValue> Default for Builder<T, false> {
    /// A builder with an empty name, a zero value and default, the type's full
    /// range, and a step of one.
    fn default() -> (r: Builder<T, false>)
        ensures
            r.0.name@ == Seq::<char>::empty(),
            r.0.value.as_int() == 0,
            r.0.min.as_int() == 0,
            r.0.max.as_int() == T::max_int(),
            r.0.step.as_int() == 1,
            r.0.default.as_int() == 0,
    {
        let r = Builder(
            Slider {
                name: String::new(),
                value: T::zero(),
                min: T::min_value(),
                max: T::max_value(),
                step: T::one(),
                default: T::zero(),
            },
        );
        proof {
            assert(r.0.name@ =~= Seq::<char>::empty());
        }
        r
    }
}

impl<T: SliderValue, const NAME: bool> Builder<T, NAME> {
    /// The user-visible name displayed by the input field.
    pub fn name(self, name: &str) -> (r: Builder<T, true>)
        ensures
            r.0.name@ == name@,
            r.0.value == self.0.value,
            r.0.min == self.0.min,
            r.0.max == self.0.max,
            r.0.step == self.0.step,
            r.0.default == self.0.default,
    {
        Builder(Slider { name: name.to_owned(), ..self.0 })
    }

    /// The initial value, which becomes the default anchor as well.
    pub fn value(self, value: T) -> (r: Builder<T, NAME>)
        ensures
            r.0 == (Slider { value, default: value, ..self.0 }),
    {
        Builder(Slider { value, default: value, ..self.0 })
    }

    /// The allowed range. Clamps the value and the default anchor into it.
    pub fn range(self, min: T, max: T) -> (r: Builder<T, NAME>)
        requires
            min.as_int() <= max.as_int(),
        ensures
            r.0.name == self.0.name,
            r.0.min == min,
            r.0.max == max,
            r.0.step == self.0.step,
            r.0.value == spec_clamp(self.0.value, min, max),
            r.0.default == spec_clamp(self.0.default, min, max),
    {
        let value = clamp(self.0.value, min, max);
        let default = clamp(self.0.default, min, max);
        Builder(Slider { min, max, value, default, ..self.0 })
    }

    /// The amount added to or subtracted from the value by one step.
    pub fn step(self, step: T) -> (r: Builder<T, NAME>)
        ensures
            r.0 == (Slider { step, ..self.0 }),
    {
        Builder(Slider { step, ..self.0 })
    }
}

/// A value clamped into an inclusive range.
pub open spec fn spec_clamp<T: SliderValue>(v: T, min: T, max: T) -> T {
    if v.as_int() < min.as_int() {
        min
    } else if max.as_int() < v.as_int() {
        max
    } else {
        v
    }
}

/// Clamps a value into an inclusive range.
fn clamp<T: SliderValue>(v: T, min: T, max: T) -> (r: T)
    ensures
        r == spec_clamp(v, min, max),
{
    if v.lt(min) {
        min
    } else if max.lt(v) {
        max
    } else {
        v
    }
}

impl<T: SliderValue> Build for Builder<T, true> {
    type Output = Slider<T>;

    open spec fn spec_build(self) -> SliderModel {
        self.0.model()
    }

    fn build(self) -> (r: Slider<T>) {
        self.0
    }
}


impl SliderValue for u8 {
    open spec fn as_int(self) -> int {
        self as int
    }

    open spec fn max_int() -> int {
        u8::MAX as int
    }

    open spec fn spec_from_int(n: int) -> u8 {
        n as u8
    }

    proof fn lemma_bounds(self) {
    }

    proof fn lemma_to_from(n: int) {
    }

    fn zero() -> (r: u8) {
        0
    }

    fn one() -> (r: u8) {
        1
    }

    fn min_value() -> (r: u8) {
        0
    }

    fn max_value() -> (r: u8) {
        u8::MAX
    }

    fn plus(self, other: u8) -> (r: u8) {
        self + other
    }

    fn minus(self, other: u8) -> (r: u8) {
        self - other
    }

    fn lt(self, other: u8) -> (r: bool) {
        self < other
    }

    fn le(self, other: u8) -> (r: bool) {
        self <= other
    }

    fn to_u64(self) -> (r: u64) {
        self as u64
    }
}

impl SliderValue for u16 {
    open spec fn as_int(self) -> int {
        self as int
    }

    open spec fn max_int() -> int {
        u16::MAX as int
    }

    open spec fn spec_from_int(n: int) -> u16 {
        n as u16
    }

    proof fn lemma_bounds(self) {
    }

    proof fn lemma_to_from(n: int) {
    }

    fn zero() -> (r: u16) {
        0
    }

    fn one() -> (r: u16) {
        1
    }

    fn min_value() -> (r: u16) {
        0
    }

    fn max_value() -> (r: u16) {
        u16::MAX
    }

    fn plus(self, other: u16) -> (r: u16) {
        self + other
    }

    fn minus(self, other: u16) -> (r: u16) {
        self - other
    }

    fn lt(self, other: u16) -> (r: bool) {
        self < other
    }

    fn le(self, other: u16) -> (r: bool) {
        self <= other
    }

    fn to_u64(self) -> (r: u64) {
        self as u64
    }
}

impl SliderValue for u32 {
    open spec fn as_int(self) -> int {
        self as int
    }

    open spec fn max_int() -> int {
        u32::MAX as int
    }

    open spec fn spec_from_int(n: int) -> u32 {
        n as u32
    }

    proof fn lemma_bounds(self) {
    }

    proof fn lemma_to_from(n: int) {
    }

    fn zero() -> (r: u32) {
        0
    }

    fn one() -> (r: u32) {
        1
    }

    fn min_value() -> (r: u32) {
        0
    }

    fn max_value() -> (r: u32) {
        u32::MAX
    }

    fn plus(self, other: u32) -> (r: u32) {
        self + other
    }

    fn minus(self, other: u32) -> (r: u32) {
        self - other
    }

    fn lt(self, other: u32) -> (r: bool) {
        self < other
    }

    fn le(self, other: u32) -> (r: bool) {
        self <= other
    }

    fn to_u64(self) -> (r: u64) {
        self as u64
    }
}

impl SliderValue for u64 {
    open spec fn as_int(self) -> int {
        self as int
    }

    open spec fn max_int() -> int {
        u64::MAX as int
    }

    open spec fn spec_from_int(n: int) -> u64 {
        n as u64
    }

    proof fn lemma_bounds(self) {
    }

    proof fn lemma_to_from(n: int) {
    }

    fn zero() -> (r: u64) {
        0
    }

    fn one() -> (r: u64) {
        1
    }

    fn min_value() -> (r: u64) {
        0
    }

    fn max_value() -> (r: u64) {
        u64::MAX
    }

    fn plus(self, other: u64) -> (r: u64) {
        self + other
    }

    fn minus(self, other: u64) -> (r: u64) {
        self - other
    }

    fn lt(self, other: u64) -> (r: bool) {
        self < other
    }

    fn le(self, other: u64) -> (r: bool) {
        self <= other
    }

    fn to_u64(self) -> (r: u64) {
        self as u64
    }
}

impl SliderValue for usize {
    open spec fn as_int(self) -> int {
        self as int
    }

    open spec fn max_int() -> int {
        usize::MAX as int
    }

    open spec fn spec_from_int(n: int) -> usize {
        n as usize
    }

    proof fn lemma_bounds(self) {
    }

    proof fn lemma_to_from(n: int) {
    }

    fn zero() -> (r: usize) {
        0
    }

    fn one() -> (r: usize) {
        1
    }

    fn min_value() -> (r: usize) {
        0
    }

    fn max_value() -> (r: usize) {
        usize::MAX
    }

    fn plus(self, other: usize) -> (r: usize) {
        self + other
    }

    fn minus(self, other: usize) -> (r: usize) {
        self - other
    }

    fn lt(self, other: usize) -> (r: bool) {
        self < other
    }

    fn le(self, other: usize) -> (r: bool) {
        self <= other
    }

    fn to_u64(self) -> (r: u64) {
        self as u64
    }
}

} // verus!
