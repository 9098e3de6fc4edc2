//! The compositor's geometry: where the dialog box and its contents go.
//!
//! The box is as wide as a percentage of the frame; its height follows from
//! the wrapped line counts of body and hint; it is centred in the frame, and
//! when the left-over height is odd the box is shortened by one row so the top
//! margin is the rounded-down half and the bottom margin the rounded-up half —
//! the odd row is never split unevenly without saying so. The renderer draws a
//! full border of thickness one around the box, so the inner area starts one
//! cell in on every side.

use vstd::prelude::*;
use crate::dialog::DrawInfo;
use crate::dialog::DrawInfoView;
use crate::dialog::WrapMode;
use crate::text::Line;
use crate::text::Span;
use crate::text::SpanView;
use crate::text::Style;
use crate::text::Text;
use crate::text::chars_vec;
use crate::text::spec_text_chars;

verus! {

/// A rectangle of terminal cells.
#[derive(Clone, Copy, Debug, PartialEq, Eq, Structural)]
pub struct Rect {
    pub x: u16,
    pub y: u16,
    pub width: u16,
    pub height: u16,
}

/// Saturating add on cell counts.
pub open spec fn sat_add16(a: u16, b: u16) -> u16 {
    if a + b > 0xffff {
        0xffff as u16
    } else {
        (a + b) as u16
    }
}

/// Saturating subtract on cell counts.
pub open spec fn sat_sub16(a: u16, b: u16) -> u16 {
    if a >= b {
        (a - b) as u16
    } else {
        0 as u16
    }
}

/// The smaller of two cell counts.
pub open spec fn min16(a: u16, b: u16) -> u16 {
    if a <= b {
        a
    } else {
        b
    }
}

/// A count of lines, clamped to what a cell coordinate can hold.
pub open spec fn clamp16(n: nat) -> u16 {
    if n > 0xffff {
        0xffff as u16
    } else {
        n as u16
    }
}

/// The number of lines a text occupies when wrapped to `width` columns, with
/// or without trimming of leading whitespace. This is the rendering
/// collaborator's word-wrap count; it depends on the characters, the trim flag
/// and the width alone.
pub uninterp spec fn wrapped_line_count(lines: Seq<Seq<char>>, trim: bool, width: u16) -> nat;

/// Relies on ratatui's `Paragraph::line_count`: the wrapped line count is a
/// function of the text's characters, the trim flag and the width, and a width
/// of zero holds no lines.
#[verifier::external_body]
fn text_line_count(text: &Text, trim: bool, width: u16) -> (n: usize)
    ensures
        n == wrapped_line_count(spec_text_chars(text@), trim, width),
        width == 0 ==> n == 0,
{
    let lines: Vec<ratatui::text::Line> = text.lines.iter().map(|l| {
        ratatui::text::Line::from(l.spans.iter().flat_map(|s| s.content.iter()).collect::<String>())
    }).collect();
    ratatui::widgets::Paragraph::new(ratatui::text::Text::from(lines))
        .wrap(ratatui::widgets::Wrap { trim })
        .line_count(width)
}

/// The case mapping of the rendering locale's uppercase transformation: a
/// function of the characters alone.
pub uninterp spec fn upper_of(s: Seq<char>) -> Seq<char>;

/// Relies on `str::to_uppercase` of std: the result depends on the characters
/// alone, and an empty string stays empty.
#[verifier::external_body]
fn to_uppercase(s: &str) -> (r: String)
    ensures
        r@ == upper_of(s@),
        s@.len() == 0 ==> r@.len() == 0,
{
    s.to_uppercase()
}

/// The title drawn on the dialog border: empty for an empty title, otherwise
/// the uppercased title with one space on either side.
pub fn make_title(title: &str) -> (r: String)
    ensures
        title@.len() == 0 ==> r@ == Seq::<char>::empty(),
        title@.len() > 0 ==> r@ == seq![' '] + upper_of(title@) + seq![' '],
{
    if title.is_empty() {
        let r = String::new();
        proof {
            assert(r@ =~= Seq::<char>::empty());
        }
        r
    } else {
        proof {
            reveal_strlit(" ");
        }
        let mut r = String::from_str(" ");
        let upper = to_uppercase(title);
        r.append(upper.as_str());
        r.append(" ");
        proof {
            assert(r@ =~= seq![' '] + upper_of(title@) + seq![' ']);
        }
        r
    }
}

/// Where the parts of one dialog frame go.
#[derive(Clone, Copy, Debug, PartialEq, Eq, Structural)]
pub struct DialogLayout {
    /// The whole box, border included: cleared and drawn with the border.
    pub outer: Rect,
    /// The area inside the border.
    pub inner: Rect,
    /// Where the body paragraph is rendered.
    pub body: Rect,
    /// Where the hint paragraph is rendered.
    pub hint: Rect,
    /// The wrapped height of the body, in lines.
    pub body_height: u16,
    /// The wrapped height of the hint, in lines.
    pub hint_height: u16,
}

/// The width of the dialog content: the given percentage (at most one hundred)
/// of the frame width.
pub open spec fn spec_inner_width(frame_width: u16, pct: u8) -> u16 {
    let p: u8 = if pct > 100 {
        100 as u8
    } else {
        pct
    };
    ((frame_width * p) / 100) as u16
}

/// The wrapped height of the body at the given width: the body's line count
/// when wrapping is off, its wrapped line count otherwise.
pub open spec fn spec_body_height(info: DrawInfoView, width: u16) -> u16 {
    match info.wrap {
        Option::Some(wm) => clamp16(wrapped_line_count(spec_text_chars(info.body), wm.trim, width)),
        Option::None => clamp16(info.body.len()),
    }
}

/// The wrapped height of the hint at the given width; the hint always wraps
/// with trimming.
pub open spec fn spec_hint_height(info: DrawInfoView, width: u16) -> u16 {
    clamp16(wrapped_line_count(seq![info.hint], true, width))
}

/// The geometry of a dialog frame, given the frame, the sizing fields of the
/// draw description, and the two wrapped heights. The content is `body_h` plus
/// two blank rows plus `hint_h` tall; margins and a border of one surround it;
/// the box is centred with the odd leftover row given to the bottom margin;
/// body sits at the top of the margin area and hint at its bottom.
pub open spec fn spec_dialog_layout(
    frame: Rect,
    info: DrawInfoView,
    body_h: u16,
    hint_h: u16,
) -> DialogLayout {
    let iw = spec_inner_width(frame.width, info.width_percentage);
    let inner_h = sat_add16(sat_add16(body_h, 2), hint_h);
    let outer_w = sat_add16(iw, sat_add16(sat_add16(info.inner_margin_x, info.inner_margin_x), 2));
    let outer_h = sat_add16(
        inner_h,
        sat_add16(sat_add16(info.inner_margin_y, info.inner_margin_y), 2),
    );
    let delta_w = sat_sub16(frame.width, outer_w);
    let delta_h = sat_sub16(frame.height, outer_h);
    let outer = Rect {
        x: sat_add16(frame.x, (delta_w / 2) as u16),
        y: sat_add16(frame.y, (delta_h / 2) as u16),
        width: sat_sub16(frame.width, ((delta_w / 2) * 2) as u16),
        height: sat_sub16(sat_sub16(frame.height, ((delta_h / 2) * 2) as u16), (delta_h % 2) as u16),
    };
    let inner = Rect {
        x: sat_add16(outer.x, 1),
        y: sat_add16(outer.y, 1),
        width: sat_sub16(outer.width, 2),
        height: sat_sub16(outer.height, 2),
    };
    let avail_w = sat_sub16(inner.width, sat_add16(info.inner_margin_x, info.inner_margin_x));
    let avail_h = sat_sub16(inner.height, sat_add16(info.inner_margin_y, info.inner_margin_y));
    let body_used = min16(body_h, avail_h);
    let hint_used = min16(hint_h, sat_sub16(avail_h, body_used));
    let body = Rect {
        x: sat_add16(inner.x, info.inner_margin_x),
        y: sat_add16(inner.y, info.inner_margin_y),
        width: avail_w,
        height: body_used,
    };
    let hint = Rect {
        x: body.x,
        y: sat_add16(sat_add16(inner.y, info.inner_margin_y), sat_sub16(avail_h, hint_used) as u16),
        width: avail_w,
        height: hint_used,
    };
    DialogLayout { outer, inner, body, hint, body_height: body_h, hint_height: hint_h }
}

/// Exec saturating add.
fn add16(a: u16, b: u16) -> (r: u16)
    ensures
        r == sat_add16(a, b),
{
    a.saturating_add(b)
}

/// Exec saturating subtract.
fn sub16(a: u16, b: u16) -> (r: u16)
    ensures
        r == sat_sub16(a, b),
{
    a.saturating_sub(b)
}

/// Exec minimum.
fn emin16(a: u16, b: u16) -> (r: u16)
    ensures
        r == min16(a, b),
{
    if a <= b {
        a
    } else {
        b
    }
}

/// Exec clamp of a line count to a cell coordinate.
fn eclamp16(n: usize) -> (r: u16)
    ensures
        r == clamp16(n as nat),
{
    if n > 0xffff {
        0xffff
    } else {
        n as u16
    }
}

/// Computes where a dialog described by `info` goes within `frame`: the box is
/// sized from the wrapped line counts of body and hint, centred, and its parts
/// placed as [`spec_dialog_layout`] lays down.
pub fn dialog_layout(frame: Rect, info: &DrawInfo) -> (r: DialogLayout)
    ensures
        r == spec_dialog_layout(
            frame,
            info@,
            spec_body_height(info@, spec_inner_width(frame.width, info@.width_percentage)),
            spec_hint_height(info@, spec_inner_width(frame.width, info@.width_percentage)),
        ),
{
    let p: u8 = if info.width_percentage > 100 {
        100
    } else {
        info.width_percentage
    };
    proof {
        assert((frame.width as int) * (p as int) <= 65535 * 100) by (nonlinear_arith)
            requires
                frame.width <= 65535,
                p <= 100,
        ;
    }
    let prod: u32 = (frame.width as u32) * (p as u32);
    let iw: u16 = (prod / 100) as u16;
    proof {
        assert(prod / 100 <= frame.width) by (nonlinear_arith)
            requires
                prod == frame.width * p,
                p <= 100,
        ;
        assert(iw == spec_inner_width(frame.width, info@.width_percentage));
    }
    let body_h: u16 = match info.wrap {
        Option::Some(wm) => eclamp16(text_line_count(&info.body, wm.trim, iw)),
        Option::None => eclamp16(info.body.lines.len()),
    };
    let hint_text = Text::of_line(
        Line::of_span(
            Span::new(
                chars_vec(info.hint.as_str()),
                Style { italic: true, ..Style::plain() },
            ),
        ),
    );
    proof {
        assert(hint_text@[0] =~= seq![
            (SpanView { content: info@.hint, style: Style { italic: true, ..Style::spec_plain() } }),
        ]);
        crate::text::lemma_line_chars_singleton(
            SpanView { content: info@.hint, style: Style { italic: true, ..Style::spec_plain() } },
        );
        assert(spec_text_chars(hint_text@) =~~= seq![info@.hint]);
    }
    let hint_h: u16 = eclamp16(text_line_count(&hint_text, true, iw));
    let inner_h = add16(add16(body_h, 2), hint_h);
    let outer_w = add16(iw, add16(add16(info.inner_margin_x, info.inner_margin_x), 2));
    let outer_h = add16(inner_h, add16(add16(info.inner_margin_y, info.inner_margin_y), 2));
    let delta_w = sub16(frame.width, outer_w);
    let delta_h = sub16(frame.height, outer_h);
    let outer = Rect {
        x: add16(frame.x, delta_w / 2),
        y: add16(frame.y, delta_h / 2),
        width: sub16(frame.width, (delta_w / 2) * 2),
        height: sub16(sub16(frame.height, (delta_h / 2) * 2), delta_h % 2),
    };
    let inner = Rect {
        x: add16(outer.x, 1),
        y: add16(outer.y, 1),
        width: sub16(outer.width, 2),
        height: sub16(outer.height, 2),
    };
    let avail_w = sub16(inner.width, add16(info.inner_margin_x, info.inner_margin_x));
    let avail_h = sub16(inner.height, add16(info.inner_margin_y, info.inner_margin_y));
    let body_used = emin16(body_h, avail_h);
    let hint_used = emin16(hint_h, sub16(avail_h, body_used));
    let body = Rect {
        x: add16(inner.x, info.inner_margin_x),
        y: add16(inner.y, info.inner_margin_y),
        width: avail_w,
        height: body_used,
    };
    let hint = Rect {
        x: body.x,
        y: add16(add16(inner.y, info.inner_margin_y), sub16(avail_h, hint_used)),
        width: avail_w,
        height: hint_used,
    };
    DialogLayout { outer, inner, body, hint, body_height: body_h, hint_height: hint_h }
}

/// The box is always inside the frame, and the top margin is the rounded-down
/// half of the unused height while the bottom margin is the rounded-up half:
/// odd leftover space goes below the box, never unevenly split in silence.
pub proof fn lemma_layout_centred(frame: Rect, info: DrawInfoView, body_h: u16, hint_h: u16)
    requires
        frame.x + frame.width <= 0xffff,
        frame.y + frame.height <= 0xffff,
    ensures
        ({
            let l = spec_dialog_layout(frame, info, body_h, hint_h);
            &&& l.outer.x >= frame.x
            &&& l.outer.y >= frame.y
            &&& l.outer.x - frame.x + l.outer.width <= frame.width
            &&& l.outer.y - frame.y + l.outer.height <= frame.height
            &&& (l.outer.y - frame.y) == (frame.height - l.outer.height) / 2
        }),
{
}

} // verus!
