//! The library's model of styled text: spans of characters with style flags,
//! lines of spans, and texts of lines.
//!
//! Screens, dialogs and fields describe what to show as values of these types;
//! the interactive front end turns them into the widgets of its rendering
//! backend. Content is carried as character vectors, so every statement about
//! it is a statement about the characters shown.

use vstd::prelude::*;
use vstd::std_specs::iter::IteratorSpec;

verus! {

broadcast use vstd::string::next_postcondition, vstd::string::axiom_spec_iter;

/// A foreground colour.
#[derive(Clone, Copy, Debug, PartialEq, Eq, Structural)]
pub enum Color {
    /// The terminal's default colour.
    Plain,
    Cyan,
    Yellow,
    Red,
    Green,
    White,
}

/// The style of one span: colour plus emphasis flags.
#[derive(Clone, Copy, Debug, PartialEq, Eq, Structural)]
pub struct Style {
    pub fg: Color,
    pub bold: bool,
    pub italic: bool,
    pub reversed: bool,
}

impl Style {
    /// The spec value of the unstyled style.
    pub open spec fn spec_plain() -> Style {
        Style { fg: Color::Plain, bold: false, italic: false, reversed: false }
    }

    /// Returns the unstyled style.
    pub fn plain() -> (r: Style)
        ensures
            r == Style::spec_plain(),
    {
        Style { fg: Color::Plain, bold: false, italic: false, reversed: false }
    }

    /// Returns this style with the bold flag set when `cond` holds.
    pub fn bold_if(self, cond: bool) -> (r: Style)
        ensures
            r == (Style { bold: cond || self.bold, ..self }),
    {
        Style { bold: cond || self.bold, ..self }
    }
}

/// The ghost value of a [`Span`]: its characters and its style.
#[verifier::ext_equal]
pub ghost struct SpanView {
    pub content: Seq<char>,
    pub style: Style,
}

/// A run of characters drawn in one style.
#[derive(Debug)]
pub struct Span {
    pub content: Vec<char>,
    pub style: Style,
}

impl View for Span {
    type V = SpanView;

    open spec fn view(&self) -> SpanView {
        SpanView { content: self.content@, style: self.style }
    }
}

impl Span {
    /// Builds a span from its characters and style.
    pub fn new(content: Vec<char>, style: Style) -> (r: Span)
        ensures
            r@.content == content@,
            r@.style == style,
    {
        Span { content, style }
    }

    /// Builds an unstyled span from its characters.
    pub fn plain(content: Vec<char>) -> (r: Span)
        ensures
            r@.content == content@,
            r@.style == Style::spec_plain(),
    {
        Span { content, style: Style::plain() }
    }
}

/// One line: a sequence of spans drawn left to right.
#[derive(Debug)]
pub struct Line {
    pub spans: Vec<Span>,
}

impl View for Line {
    type V = Seq<SpanView>;

    open spec fn view(&self) -> Seq<SpanView> {
        self.spans@.map_values(|s: Span| s@)
    }
}

/// The characters of a line, with the styles forgotten.
pub open spec fn spec_line_chars(spans: Seq<SpanView>) -> Seq<char>
    decreases spans.len(),
{
    if spans.len() == 0 {
        Seq::empty()
    } else {
        spans[0].content + spec_line_chars(spans.drop_first())
    }
}

impl Line {
    /// The empty line.
    pub fn empty() -> (r: Line)
        ensures
            r@ == Seq::<SpanView>::empty(),
    {
        let r = Line { spans: Vec::new() };
        proof {
            assert(r@ =~= Seq::<SpanView>::empty());
        }
        r
    }

    /// A line of a single span.
    pub fn of_span(span: Span) -> (r: Line)
        ensures
            r@ =~= seq![span@],
    {
        let ghost sv = span@;
        let mut spans: Vec<Span> = Vec::new();
        spans.push(span);
        let r = Line { spans };
        proof {
            assert(r@ =~= seq![sv]);
        }
        r
    }

    /// Appends a span at the end of the line.
    pub fn push_span(&mut self, span: Span)
        ensures
            final(self)@ == old(self)@.push(span@),
    {
        let ghost before = self@;
        let ghost sv = span@;
        self.spans.push(span);
        proof {
            assert(self@ =~= before.push(sv));
        }
    }

    /// Inserts a span at the front of the line.
    pub fn insert_front(&mut self, span: Span)
        ensures
            final(self)@ == seq![span@] + old(self)@,
    {
        let ghost before = self@;
        let ghost sv = span@;
        self.spans.insert(0, span);
        proof {
            assert(self@ =~= seq![sv] + before);
        }
    }
}

/// A text: a sequence of lines drawn top to bottom.
#[derive(Debug)]
pub struct Text {
    pub lines: Vec<Line>,
}

impl View for Text {
    type V = Seq<Seq<SpanView>>;

    open spec fn view(&self) -> Seq<Seq<SpanView>> {
        self.lines@.map_values(|l: Line| l@)
    }
}

/// A line of one span holds exactly that span's characters.
pub proof fn lemma_line_chars_singleton(sv: SpanView)
    ensures
        spec_line_chars(seq![sv]) == sv.content,
{
    reveal_with_fuel(spec_line_chars, 2);
    assert(seq![sv].drop_first() =~= Seq::<SpanView>::empty());
    assert(spec_line_chars(Seq::<SpanView>::empty()) =~= Seq::<char>::empty());
    assert(spec_line_chars(seq![sv]) =~= sv.content);
}

/// The characters of every line of a text, with the styles forgotten.
pub open spec fn spec_text_chars(lines: Seq<Seq<SpanView>>) -> Seq<Seq<char>> {
    lines.map_values(|l: Seq<SpanView>| spec_line_chars(l))
}

impl Text {
    /// The empty text.
    pub fn empty() -> (r: Text)
        ensures
            r@ == Seq::<Seq<SpanView>>::empty(),
    {
        let r = Text { lines: Vec::new() };
        proof {
            assert(r@ =~= Seq::<Seq<SpanView>>::empty());
        }
        r
    }

    /// A text of a single line.
    pub fn of_line(line: Line) -> (r: Text)
        ensures
            r@ =~= seq![line@],
    {
        let ghost lv = line@;
        let mut lines: Vec<Line> = Vec::new();
        lines.push(line);
        let r = Text { lines };
        proof {
            assert(r@ =~= seq![lv]);
        }
        r
    }

    /// Appends a line at the end of the text.
    pub fn push_line(&mut self, line: Line)
        ensures
            final(self)@ == old(self)@.push(line@),
    {
        let ghost before = self@;
        let ghost lv = line@;
        self.lines.push(line);
        proof {
            assert(self@ =~= before.push(lv));
        }
    }

    /// Appends every line of another text.
    pub fn append(&mut self, other: Text)
        ensures
            final(self)@ == old(self)@ + other@,
    {
        let ghost before = self@;
        let ghost ov = other@;
        let mut rest = other.lines;
        let mut i: usize = 0;
        while i < rest.len()
            invariant
                i <= rest.len(),
                rest@.map_values(|l: Line| l@) == ov,
                self@ == before + ov.take(i as int),
            decreases rest.len() - i,
        {
            let ghost mid = self@;
            let line = rest_take(&mut rest, i);
            proof {
                assert(line@ == ov[i as int]);
            }
            self.lines.push(line);
            proof {
                assert(self@ =~= mid.push(ov[i as int]));
                assert(before + ov.take(i as int + 1) =~= (before + ov.take(i as int)).push(
                    ov[i as int],
                ));
            }
            i = i + 1;
        }
        proof {
            assert(ov.take(rest@.len() as int) =~= ov);
        }
    }
}

/// Clones the line at `i` out of a vector of lines.
fn rest_take(lines: &mut Vec<Line>, i: usize) -> (r: Line)
    requires
        i < old(lines)@.len(),
    ensures
        final(lines)@ == old(lines)@,
        r@ == old(lines)@[i as int]@,
{
    let ghost before = lines@;
    let mut swapped = Line { spans: Vec::new() };
    core::mem::swap(&mut swapped, &mut lines[i]);
    let copy = clone_line_parts(&swapped);
    core::mem::swap(&mut swapped, &mut lines[i]);
    proof {
        assert(lines@ =~= before);
    }
    copy
}

/// Clones a line span by span.
fn clone_line_parts(line: &Line) -> (r: Line)
    ensures
        r@ == line@,
{
    let mut spans: Vec<Span> = Vec::new();
    let mut i: usize = 0;
    while i < line.spans.len()
        invariant
            i <= line.spans.len(),
            spans@.map_values(|s: Span| s@) == line@.take(i as int),
        decreases line.spans.len() - i,
    {
        let ghost mid = spans@.map_values(|s: Span| s@);
        let content = clone_chars(&line.spans[i].content);
        spans.push(Span { content, style: line.spans[i].style });
        proof {
            assert(spans@.map_values(|s: Span| s@) =~= mid.push(line@[i as int]));
            assert(line@.take(i as int + 1) =~= line@.take(i as int).push(line@[i as int]));
        }
        i = i + 1;
    }
    let r = Line { spans };
    proof {
        assert(line@.take(line@.len() as int) =~= line@);
    }
    r
}

/// Clones a character vector.
pub fn clone_chars(v: &Vec<char>) -> (r: Vec<char>)
    ensures
        r@ == v@,
{
    let mut out: Vec<char> = Vec::new();
    let mut i: usize = 0;
    while i < v.len()
        invariant
            i <= v.len(),
            out@ == v@.take(i as int),
        decreases v.len() - i,
    {
        out.push(v[i]);
        proof {
            assert(v@.take(i as int + 1) =~= v@.take(i as int).push(v@[i as int]));
        }
        i = i + 1;
    }
    proof {
        assert(v@.take(v@.len() as int) =~= v@);
    }
    out
}

/// A vector of `n` spaces.
pub fn spaces(n: usize) -> (r: Vec<char>)
    ensures
        r@ == Seq::new(n as nat, |i: int| ' '),
{
    let mut out: Vec<char> = Vec::new();
    let mut i: usize = 0;
    while i < n
        invariant
            i <= n,
            out@ == Seq::new(i as nat, |j: int| ' '),
        decreases n - i,
    {
        out.push(' ');
        proof {
            assert(out@ =~= Seq::new(i as nat + 1, |j: int| ' '));
        }
        i = i + 1;
    }
    out
}

/// The characters of a string slice, in order.
pub fn chars_vec(s: &str) -> (r: Vec<char>)
    ensures
        r@ == s@,
{
    let mut it = s.chars();
    let mut out: Vec<char> = Vec::new();
    loop
        invariant
            it.obeys_prophetic_iter_laws(),
            it.decrease() is Some,
            out@ + it.remaining() == s@,
        decreases it.decrease()->0,
    {
        let ghost rem = it.remaining();
        match it.next() {
            Option::Some(c) => {
                out.push(c);
                proof {
                    assert(out@ + it.remaining() =~= s@);
                }
            },
            Option::None => {
                proof {
                    assert(out@ =~= s@);
                }
                return out;
            },
        }
    }
}

} // verus!
