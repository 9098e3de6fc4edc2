//! An input field for entering a single-line string.
//!
//! The value is a vector of characters with a caret: an index between zero and
//! the length, the position where the next character is inserted. `Left` and
//! `Right` move the caret one character, or one word with control held; `Home`
//! and `End` jump to the ends; `Backspace` and `Delete` remove one character
//! to the left or right, or one word with control held (`w` and `d` with
//! control do the same); a plain character key inserts at the caret. A hidden
//! textbox renders every character as a bullet and treats the whole value as
//! one word.
//!
//! A word boundary is the first whitespace character that follows a
//! non-whitespace one, reading in the direction of the movement; whitespace
//! here means space, tab, carriage return or line feed.

use vstd::prelude::*;
use crate::field::Build;
use crate::field::Field;
use crate::field::InputResult;
use crate::key::KeyCode;
use crate::key::KeyEvent;
use crate::text::Line;
use crate::text::Span;
use crate::text::SpanView;
use crate::text::Style;
use crate::text::Text;
use crate::text::chars_vec;

verus! {

/// The whitespace characters that bound words.
pub open spec fn spec_is_ws(c: char) -> bool {
    c == ' ' || c == '\t' || c == '\r' || c == '\n'
}

/// Whether a character bounds words.
pub fn is_ws(c: char) -> (r: bool)
    ensures
        r == spec_is_ws(c),
{
    c == ' ' || c == '\t' || c == '\r' || c == '\n'
}

/// A single-line string field.
#[derive(Debug)]
pub struct Textbox {
    /// The user-visible name displayed by the input field.
    pub name: String,
    /// Whether the value is rendered as bullets.
    pub hidden: bool,
    /// The characters entered so far.
    pub value: Vec<char>,
    /// The caret: where the next character is inserted, between zero and the
    /// length of the value.
    pub caret: usize,
}

/// The ghost model of a [`Textbox`].
#[verifier::ext_equal]
pub ghost struct TextboxModel {
    pub name: Seq<char>,
    pub hidden: bool,
    pub value: Seq<char>,
    pub caret: int,
}

/// Scans leftward from position `i` for the first whitespace character that
/// follows a non-whitespace one; zero when there is none. `prev_ws` is whether
/// the character just right of `i` was whitespace.
pub open spec fn spec_scan_left(v: Seq<char>, i: int, prev_ws: bool) -> int
    decreases i + 1,
{
    if i < 0 || i >= v.len() {
        0
    } else if !prev_ws && spec_is_ws(v[i]) {
        i
    } else {
        spec_scan_left(v, i - 1, spec_is_ws(v[i]))
    }
}

/// Scans rightward from position `p` for the first whitespace character that
/// follows a non-whitespace one; the length when there is none. `prev_ws` is
/// whether the character just left of `p` was whitespace.
pub open spec fn spec_scan_right(v: Seq<char>, p: int, prev_ws: bool) -> int
    decreases v.len() - p,
{
    if p < 0 || p >= v.len() {
        v.len() as int
    } else if !prev_ws && spec_is_ws(v[p]) {
        p
    } else {
        spec_scan_right(v, p + 1, spec_is_ws(v[p]))
    }
}

/// The left scan never moves right of where it starts, and stays within the
/// value.
pub proof fn lemma_scan_left_bounds(v: Seq<char>, i: int, prev_ws: bool)
    ensures
        0 <= spec_scan_left(v, i, prev_ws),
        spec_scan_left(v, i, prev_ws) <= (if i >= 0 {
            i
        } else {
            0
        }),
    decreases i + 1,
{
    if !(i < 0 || i >= v.len()) && !(!prev_ws && spec_is_ws(v[i])) {
        lemma_scan_left_bounds(v, i - 1, spec_is_ws(v[i]));
    }
}

/// The right scan never moves left of where it starts, and stays within the
/// value.
pub proof fn lemma_scan_right_bounds(v: Seq<char>, p: int, prev_ws: bool)
    ensures
        spec_scan_right(v, p, prev_ws) <= v.len(),
        p <= spec_scan_right(v, p, prev_ws) || p < 0 || p > v.len(),
    decreases v.len() - p,
{
    if !(p < 0 || p >= v.len()) && !(!prev_ws && spec_is_ws(v[p])) {
        lemma_scan_right_bounds(v, p + 1, spec_is_ws(v[p]));
    }
}

/// The caret after a word movement left from caret `c`: zero for a hidden
/// textbox, the left word boundary otherwise.
pub open spec fn spec_word_left(m: TextboxModel, c: int) -> int {
    if m.hidden {
        0
    } else {
        spec_scan_left(m.value, c - 1, true)
    }
}

/// The caret after a word movement right from caret `c`: the length for a
/// hidden textbox, the right word boundary otherwise.
pub open spec fn spec_word_right(m: TextboxModel, c: int) -> int {
    if m.hidden {
        m.value.len() as int
    } else {
        spec_scan_right(
            m.value,
            c + 1,
            if 0 <= c < m.value.len() {
                spec_is_ws(m.value[c])
            } else {
                false
            },
        )
    }
}

/// The model of one key press on a textbox. The caret is first clamped to the
/// value's length, so the step is total; every constructor already keeps it in
/// range.
pub open spec fn spec_textbox_input(m: TextboxModel, key: KeyEvent) -> (TextboxModel,
    InputResult) {
    let n = m.value.len() as int;
    let c = if 0 <= m.caret <= n {
        m.caret
    } else {
        n
    };
    let ctrl = key.modifiers.control;
    match key.code {
        KeyCode::Left => if ctrl {
            (TextboxModel { caret: spec_word_left(m, c), ..m }, InputResult::Consumed)
        } else {
            (
                TextboxModel {
                    caret: if c > 0 {
                        c - 1
                    } else {
                        0
                    },
                    ..m
                },
                InputResult::Consumed,
            )
        },
        KeyCode::Right => if ctrl {
            (TextboxModel { caret: spec_word_right(m, c), ..m }, InputResult::Consumed)
        } else {
            (
                TextboxModel {
                    caret: if c < n {
                        c + 1
                    } else {
                        c
                    },
                    ..m
                },
                InputResult::Consumed,
            )
        },
        KeyCode::Home => (TextboxModel { caret: 0, ..m }, InputResult::Consumed),
        KeyCode::End => (TextboxModel { caret: n, ..m }, InputResult::Consumed),
        KeyCode::Backspace => if c > 0 {
            if ctrl {
                let end = spec_word_left(m, c);
                (
                    TextboxModel { value: m.value.take(end) + m.value.skip(c), caret: end, ..m },
                    InputResult::Updated,
                )
            } else {
                (
                    TextboxModel { value: m.value.remove(c - 1), caret: c - 1, ..m },
                    InputResult::Updated,
                )
            }
        } else {
            (m, InputResult::Ignored)
        },
        KeyCode::Delete => if c < n {
            if ctrl {
                let end = spec_word_right(m, c);
                (
                    TextboxModel { value: m.value.take(c) + m.value.skip(end), caret: c, ..m },
                    InputResult::Updated,
                )
            } else {
                (TextboxModel { value: m.value.remove(c), caret: c, ..m }, InputResult::Updated)
            }
        } else {
            (m, InputResult::Ignored)
        },
        KeyCode::Char(ch) => if ctrl {
            if ch == 'w' && c > 0 {
                let end = spec_word_left(m, c);
                (
                    TextboxModel { value: m.value.take(end) + m.value.skip(c), caret: end, ..m },
                    InputResult::Updated,
                )
            } else if ch == 'd' && c < n {
                let end = spec_word_right(m, c);
                (
                    TextboxModel { value: m.value.take(c) + m.value.skip(end), caret: c, ..m },
                    InputResult::Updated,
                )
            } else {
                (m, InputResult::Ignored)
            }
        } else {
            (
                TextboxModel { value: m.value.insert(c, ch), caret: c + 1, ..m },
                InputResult::Updated,
            )
        },
        _ => (m, InputResult::Ignored),
    }
}

/// The value as shown: the characters themselves, or one bullet per character
/// when hidden.
pub open spec fn spec_visible(value: Seq<char>, hidden: bool) -> Seq<char> {
    if hidden {
        Seq::new(value.len(), |i: int| '\u{2022}')
    } else {
        value
    }
}

/// The rendering of a textbox: unfocused, one span of the visible value;
/// focused, the part before the caret, the character under the caret (a space
/// at the end) shown reversed, and the part after it.
pub open spec fn spec_textbox_format(m: TextboxModel, focused: bool) -> Seq<Seq<SpanView>> {
    let n = m.value.len() as int;
    let c = if 0 <= m.caret <= n {
        m.caret
    } else {
        n
    };
    let vis = spec_visible(m.value, m.hidden);
    if focused {
        seq![
            seq![
                (SpanView { content: vis.take(c), style: Style::spec_plain() }),
                (SpanView {
                    content: if c < n {
                        seq![vis[c]]
                    } else {
                        seq![' ']
                    },
                    style: Style { reversed: true, ..Style::spec_plain() },
                }),
                (SpanView {
                    content: if c < n {
                        vis.skip(c + 1)
                    } else {
                        Seq::empty()
                    },
                    style: Style::spec_plain(),
                }),
            ],
        ]
    } else {
        seq![seq![(SpanView { content: vis, style: Style::spec_plain() })]]
    }
}

/// Removes the characters of `[from, to)` from a vector.
fn remove_range(v: &mut Vec<char>, from: usize, to: usize)
    requires
        from <= to <= old(v)@.len(),
    ensures
        final(v)@ == old(v)@.take(from as int) + old(v)@.skip(to as int),
{
    let mut k: usize = 0;
    let n = to - from;
    proof {
        assert(v@ =~= old(v)@.take(from as int) + old(v)@.skip(from as int));
    }
    while k < n
        invariant
            from <= to <= old(v)@.len(),
            n == to - from,
            k <= n,
            v@ == old(v)@.take(from as int) + old(v)@.skip(from as int + k),
        decreases n - k,
    {
        let ghost before = v@;
        v.remove(from);
        proof {
            assert(v@ =~= old(v)@.take(from as int) + old(v)@.skip(from as int + k + 1));
        }
        k = k + 1;
    }
}

/// Copies the visible form of `v[from..to]`: the characters themselves, or
/// bullets when hidden.
fn visible_range(v: &Vec<char>, from: usize, to: usize, hidden: bool) -> (r: Vec<char>)
    requires
        from <= to <= v@.len(),
    ensures
        r@ == spec_visible(v@, hidden).subrange(from as int, to as int),
{
    let mut out: Vec<char> = Vec::new();
    let mut i: usize = from;
    while i < to
        invariant
            from <= i <= to <= v@.len(),
            out@ == spec_visible(v@, hidden).subrange(from as int, i as int),
        decreases to - i,
    {
        if hidden {
            out.push('\u{2022}');
        } else {
            out.push(v[i]);
        }
        proof {
            assert(spec_visible(v@, hidden).subrange(from as int, i as int + 1)
                =~= spec_visible(v@, hidden).subrange(from as int, i as int).push(
                spec_visible(v@, hidden)[i as int],
            ));
        }
        i = i + 1;
    }
    out
}

impl Textbox {
    /// The caret clamped to the value, as every operation sees it.
    pub open spec fn spec_caret(&self) -> int {
        if self.caret <= self.value@.len() {
            self.caret as int
        } else {
            self.value@.len() as int
        }
    }

    /// Sets the value and moves the caret to its end.
    pub fn set_value(&mut self, value: &str)
        ensures
            final(self).model() == (TextboxModel {
                value: value@,
                caret: value@.len() as int,
                ..old(self).model()
            }),
    {
        self.value = chars_vec(value);
        self.caret = self.value.len();
    }

    /// The maximum possible caret position: one past the last character, where
    /// the next character is inserted.
    pub fn max_caret(&self) -> (r: usize)
        ensures
            r == self.value@.len(),
    {
        self.value.len()
    }

    /// The caret clamped into the value.
    fn clamped_caret(&self) -> (r: usize)
        ensures
            r == self.spec_caret(),
    {
        if self.caret <= self.value.len() {
            self.caret
        } else {
            self.value.len()
        }
    }

    /// The word boundary left of caret position `c`.
    fn word_left(&self, c: usize) -> (r: usize)
        requires
            c <= self.value@.len(),
        ensures
            r == spec_word_left(self.model(), c as int),
            r <= c,
    {
        proof {
            lemma_scan_left_bounds(self.value@, c as int - 1, true);
        }
        if self.hidden {
            0
        } else {
            self.scan_left(c)
        }
    }

    /// The word boundary right of caret position `c`.
    fn word_right(&self, c: usize) -> (r: usize)
        requires
            c <= self.value@.len(),
        ensures
            r == spec_word_right(self.model(), c as int),
            c <= r <= self.value@.len(),
    {
        if self.hidden {
            self.value.len()
        } else {
            let prev_ws = if c < self.value.len() {
                is_ws(self.value[c])
            } else {
                false
            };
            proof {
                lemma_scan_right_bounds(self.value@, c as int + 1, prev_ws);
            }
            if c >= self.value.len() {
                self.value.len()
            } else {
                self.scan_right(c + 1, prev_ws)
            }
        }
    }

    /// Scans leftward from before position `pos` for a word boundary.
    fn scan_left(&self, pos: usize) -> (r: usize)
        requires
            pos <= self.value@.len(),
        ensures
            r == spec_scan_left(self.value@, pos as int - 1, true),
    {
        self.scan_left_from(pos, true)
    }

    /// The leftward scan, one position at a time.
    fn scan_left_from(&self, pos: usize, prev_ws: bool) -> (r: usize)
        requires
            pos <= self.value@.len(),
        ensures
            r == spec_scan_left(self.value@, pos as int - 1, prev_ws),
        decreases pos,
    {
        if pos == 0 {
            0
        } else {
            let ch = self.value[pos - 1];
            if !prev_ws && is_ws(ch) {
                pos - 1
            } else {
                self.scan_left_from(pos - 1, is_ws(ch))
            }
        }
    }

    /// The rightward scan, one position at a time.
    fn scan_right(&self, pos: usize, prev_ws: bool) -> (r: usize)
        requires
            pos <= self.value@.len() + 1,
        ensures
            r == spec_scan_right(self.value@, pos as int, prev_ws),
        decreases self.value@.len() + 1 - pos,
    {
        if pos >= self.value.len() {
            self.value.len()
        } else {
            let ch = self.value[pos];
            if !prev_ws && is_ws(ch) {
                pos
            } else {
                self.scan_right(pos + 1, is_ws(ch))
            }
        }
    }
}

impl Field for Textbox {
    type Value = Vec<char>;

    type Builder = Builder<false>;

    type Model = TextboxModel;

    type ValueModel = Seq<char>;

    open spec fn model(&self) -> TextboxModel {
        TextboxModel {
            name: self.name@,
            hidden: self.hidden,
            value: self.value@,
            caret: self.caret as int,
        }
    }

    open spec fn value_model(v: Vec<char>) -> Seq<char> {
        v@
    }

    open spec fn spec_name(m: TextboxModel) -> Seq<char> {
        m.name
    }

    open spec fn spec_input(m: TextboxModel, key: KeyEvent) -> (TextboxModel, InputResult) {
        spec_textbox_input(m, key)
    }

    open spec fn spec_format(m: TextboxModel, focused: bool) -> Seq<Seq<SpanView>> {
        spec_textbox_format(m, focused)
    }

    open spec fn spec_value(m: TextboxModel) -> Seq<char> {
        m.value
    }

    fn name(&self) -> (r: &String) {
        &self.name
    }

    fn input(&mut self, key: KeyEvent) -> (r: InputResult) {
        let ghost m0 = self.model();
        let c = self.clamped_caret();
        let ctrl = key.modifiers.control;
        match key.code {
            KeyCode::Left => {
                if ctrl {
                    self.caret = self.word_left(c);
                } else {
                    self.caret = if c > 0 {
                        c - 1
                    } else {
                        0
                    };
                }
                proof {
                    assert(self.model() =~= spec_textbox_input(m0, key).0);
                }
                InputResult::Consumed
            },
            KeyCode::Right => {
                if ctrl {
                    self.caret = self.word_right(c);
                } else {
                    self.caret = if c < self.value.len() {
                        c + 1
                    } else {
                        c
                    };
                }
                proof {
                    assert(self.model() =~= spec_textbox_input(m0, key).0);
                }
                InputResult::Consumed
            },
            KeyCode::Home => {
                self.caret = 0;
                InputResult::Consumed
            },
            KeyCode::End => {
                self.caret = self.value.len();
                InputResult::Consumed
            },
            KeyCode::Backspace => {
                if c == 0 {
                    proof {
                        assert(self.model() =~= spec_textbox_input(m0, key).0);
                    }
                    return InputResult::Ignored;
                }
                if ctrl {
                    let end = self.word_left(c);
                    remove_range(&mut self.value, end, c);
                    self.caret = end;
                } else {
                    self.value.remove(c - 1);
                    self.caret = c - 1;
                    proof {
                        assert(self.value@ =~= m0.value.remove(c as int - 1));
                    }
                }
                proof {
                    assert(self.model() =~= spec_textbox_input(m0, key).0);
                }
                InputResult::Updated
            },
            KeyCode::Delete => {
                if c >= self.value.len() {
                    proof {
                        assert(self.model() =~= spec_textbox_input(m0, key).0);
                    }
                    return InputResult::Ignored;
                }
                if ctrl {
                    let end = self.word_right(c);
                    remove_range(&mut self.value, c, end);
                    self.caret = c;
                } else {
                    self.value.remove(c);
                    self.caret = c;
                    proof {
                        assert(self.value@ =~= m0.value.remove(c as int));
                    }
                }
                proof {
                    assert(self.model() =~= spec_textbox_input(m0, key).0);
                }
                InputResult::Updated
            },
            KeyCode::Char(ch) => {
                if ctrl {
                    if ch == 'w' && c > 0 {
                        let end = self.word_left(c);
                        remove_range(&mut self.value, end, c);
                        self.caret = end;
                        proof {
                            assert(self.model() =~= spec_textbox_input(m0, key).0);
                        }
                        InputResult::Updated
                    } else if ch == 'd' && c < self.value.len() {
                        let end = self.word_right(c);
                        remove_range(&mut self.value, c, end);
                        self.caret = c;
                        proof {
                            assert(self.model() =~= spec_textbox_input(m0, key).0);
                        }
                        InputResult::Updated
                    } else {
                        proof {
                            assert(self.model() =~= spec_textbox_input(m0, key).0);
                        }
                        InputResult::Ignored
                    }
                } else {
                    self.value.insert(c, ch);
                    let nl = self.value.len();
                    proof {
                        assert(c < nl);
                    }
                    self.caret = c + 1;
                    proof {
                        assert(self.model() =~= spec_textbox_input(m0, key).0);
                    }
                    InputResult::Updated
                }
            },
            _ => InputResult::Ignored,
        }
    }

    fn format(&self, focused: bool) -> (t: Text) {
        let c = self.clamped_caret();
        let n = self.value.len();
        let t: Text;
        if focused {
            let pre = visible_range(&self.value, 0, c, self.hidden);
            let caret_chars: Vec<char> = if c < n {
                visible_range(&self.value, c, c + 1, self.hidden)
            } else {
                let mut one: Vec<char> = Vec::new();
                one.push(' ');
                one
            };
            let post: Vec<char> = if c < n {
                visible_range(&self.value, c + 1, n, self.hidden)
            } else {
                Vec::new()
            };
            let mut line = Line::of_span(Span::plain(pre));
            line.push_span(
                Span::new(caret_chars, Style { reversed: true, ..Style::plain() }),
            );
            line.push_span(Span::plain(post));
            t = Text::of_line(line);
            proof {
                assert(spec_visible(self.value@, self.hidden).subrange(0, self.spec_caret())
                    =~= spec_visible(self.value@, self.hidden).take(self.spec_caret()));
                if self.spec_caret() < n {
                    assert(spec_visible(self.value@, self.hidden).subrange(
                        self.spec_caret(),
                        self.spec_caret() + 1,
                    ) =~= seq![spec_visible(self.value@, self.hidden)[self.spec_caret()]]);
                    assert(spec_visible(self.value@, self.hidden).subrange(
                        self.spec_caret() + 1,
                        n as int,
                    ) =~= spec_visible(self.value@, self.hidden).skip(self.spec_caret() + 1));
                }
                assert(t@ =~~= Self::spec_format(self.model(), focused));
            }
        } else {
            let vis = visible_range(&self.value, 0, n, self.hidden);
            t = Text::of_line(Line::of_span(Span::plain(vis)));
            proof {
                assert(spec_visible(self.value@, self.hidden).subrange(0, n as int)
                    =~= spec_visible(self.value@, self.hidden));
                assert(t@ =~~= Self::spec_format(self.model(), focused));
            }
        }
        t
    }

    fn value(&self) -> (r: &Vec<char>) {
        &self.value
    }

    fn into_value(self) -> (r: Vec<char>) {
        self.value
    }

    fn builder() -> (r: Builder<false>) {
        Builder(Textbox { name: String::new(), hidden: false, value: Vec::new(), caret: 0 })
    }
}

/// Constructs a [`Textbox`]. The name must be given before the field can be
/// built; the type parameter records whether it has been.
#[derive(Debug)]
pub struct Builder<const NAME: bool>(pub Textbox);

impl Default for Builder<false> {
    /// A builder with an empty name, an empty value and a visible rendering.
    fn default() -> (r: Builder<false>)
        ensures
            r.0.name@ == Seq::<char>::empty(),
            r.0.value@ == Seq::<char>::empty(),
            r.0.hidden == false,
            r.0.caret == 0,
    {
        let r = Builder(Textbox { name: String::new(), hidden: false, value: Vec::new(), caret: 0 });
        proof {
            assert(r.0.name@ =~= Seq::<char>::empty());
            assert(r.0.value@ =~= Seq::<char>::empty());
        }
        r
    }
}

impl<const NAME: bool> Builder<NAME> {
    /// The user-visible name displayed by the input field.
    pub fn name(self, name: &str) -> (r: Builder<true>)
        ensures
            r.0.name@ == name@,
            r.0.hidden == self.0.hidden,
            r.0.value == self.0.value,
            r.0.caret == self.0.caret,
    {
        Builder(Textbox { name: name.to_owned(), ..self.0 })
    }

    /// The initial value; the caret moves to its end.
    pub fn value(self, value: &str) -> (r: Builder<NAME>)
        ensures
            r.0.name@ == self.0.name@,
            r.0.hidden == self.0.hidden,
            r.0.value@ == value@,
            r.0.caret == value@.len(),
    {
        let mut inner = self.0;
        inner.set_value(value);
        Builder(inner)
    }

    /// Hides the value: it renders as bullets and scans as one word.
    pub fn hidden(self) -> (r: Builder<NAME>)
        ensures
            r.0 == (Textbox { hidden: true, ..self.0 }),
    {
        Builder(Textbox { hidden: true, ..self.0 })
    }
}

impl Build for Builder<true> {
    type Output = Textbox;

    open spec fn spec_build(self) -> TextboxModel {
        self.0.model()
    }

    fn build(self) -> (r: Textbox) {
        self.0
    }
}

} // verus!
