//! The built-in dialogs: confirmation, messages of several severities, and
//! selection from a list. All are expressed purely through the [`Dialog`]
//! capability; the compositor treats none of them specially.

use vstd::prelude::*;
use crate::context::Context;
use crate::dialog::Container;
use crate::dialog::Dialog;
use crate::dialog::DialogOutcome;
use crate::dialog::DialogSignal;
use crate::dialog::DialogStep;
use crate::dialog::DrawInfo;
use crate::dialog::DrawInfoView;
use crate::dialog::WrapMode;
use crate::dialog::run_over;
use crate::key::Event;
use crate::key::KeyCode;
use crate::key::KeyEvent;
use crate::state::RunModel;
use crate::state::State;
use crate::state::spec_run;
use crate::text::Color;
use crate::text::Line;
use crate::text::Span;
use crate::text::SpanView;
use crate::text::Style;
use crate::text::Text;
use crate::text::chars_vec;

verus! {

/// The draw description every message-like dialog uses: one body paragraph in
/// one plain span, with the default sizing.
pub open spec fn spec_message_draw(
    title: Seq<char>,
    color: Color,
    body: Seq<char>,
    hint: Seq<char>,
) -> DrawInfoView {
    DrawInfoView {
        title,
        color,
        body: seq![seq![(SpanView { content: body, style: Style::spec_plain() })]],
        hint,
        inner_margin_x: 3,
        inner_margin_y: 1,
        width_percentage: 50,
        wrap: Option::Some(WrapMode { trim: true }),
    }
}

/// Builds the draw description of a message-like dialog.
fn message_draw_info(title: &str, color: Color, body: &str, hint: &str) -> (d: DrawInfo)
    ensures
        d@ == spec_message_draw(title@, color, body@, hint@),
{
    let d = DrawInfo {
        title: title.to_owned(),
        color,
        body: Text::of_line(Line::of_span(Span::plain(chars_vec(body)))),
        hint: hint.to_owned(),
        ..Default::default()
    };
    proof {
        assert(d@.body =~~= spec_message_draw(title@, color, body@, hint@).body);
        assert(d@ =~= spec_message_draw(title@, color, body@, hint@));
    }
    d
}

/// The dialog that asks the user to confirm an action: `y` confirms, `n` or
/// escape cancels, anything else keeps it open.
#[derive(Debug)]
pub struct Confirm {
    /// The question shown to the user.
    pub msg: String,
}

/// The ghost model of a [`Confirm`] dialog.
#[verifier::ext_equal]
pub ghost struct ConfirmModel {
    pub msg: Seq<char>,
}

impl Dialog for Confirm {
    type Out = bool;

    type Model = ConfirmModel;

    type OutModel = bool;

    open spec fn model(&self) -> ConfirmModel {
        ConfirmModel { msg: self.msg@ }
    }

    open spec fn out_model(o: bool) -> bool {
        o
    }

    open spec fn spec_format(m: ConfirmModel) -> DrawInfoView {
        spec_message_draw(
            "Confirm"@,
            Color::Yellow,
            m.msg,
            "Press (y) to confirm, (n) or (esc) to cancel..."@,
        )
    }

    open spec fn spec_input(m: ConfirmModel, key: KeyEvent) -> DialogStep<ConfirmModel, bool> {
        match key.code {
            KeyCode::Char(c) => if c == 'y' || c == 'Y' {
                DialogStep::Done(true)
            } else if c == 'n' || c == 'N' {
                DialogStep::Cancelled
            } else {
                DialogStep::Running(m)
            },
            KeyCode::Esc => DialogStep::Cancelled,
            _ => DialogStep::Running(m),
        }
    }

    fn format(&self) -> (d: DrawInfo) {
        message_draw_info(
            "Confirm",
            Color::Yellow,
            self.msg.as_str(),
            "Press (y) to confirm, (n) or (esc) to cancel...",
        )
    }

    fn input(self, key: KeyEvent) -> (s: DialogSignal<Confirm, bool>) {
        match key.code {
            KeyCode::Char(c) => if c == 'y' || c == 'Y' {
                DialogSignal::Done(true)
            } else if c == 'n' || c == 'N' {
                DialogSignal::Cancelled
            } else {
                DialogSignal::Running(self)
            },
            KeyCode::Esc => DialogSignal::Cancelled,
            _ => DialogSignal::Running(self),
        }
    }
}

/// The dialog that shows a message of some severity and closes on any key.
#[derive(Debug)]
pub struct Message {
    /// The message shown to the user.
    pub msg: String,
    /// The user-visible title of the box.
    pub title: String,
    /// The colour of the box.
    pub color: Color,
}

/// The ghost model of a [`Message`] dialog.
#[verifier::ext_equal]
pub ghost struct MessageModel {
    pub msg: Seq<char>,
    pub title: Seq<char>,
    pub color: Color,
}

impl Dialog for Message {
    type Out = ();

    type Model = MessageModel;

    type OutModel = ();

    open spec fn model(&self) -> MessageModel {
        MessageModel { msg: self.msg@, title: self.title@, color: self.color }
    }

    open spec fn out_model(o: ()) -> () {
        ()
    }

    open spec fn spec_format(m: MessageModel) -> DrawInfoView {
        spec_message_draw(m.title, m.color, m.msg, "Press any key to close..."@)
    }

    open spec fn spec_input(m: MessageModel, key: KeyEvent) -> DialogStep<MessageModel, ()> {
        DialogStep::Done(())
    }

    fn format(&self) -> (d: DrawInfo) {
        message_draw_info(
            self.title.as_str(),
            self.color,
            self.msg.as_str(),
            "Press any key to close...",
        )
    }

    fn input(self, key: KeyEvent) -> (s: DialogSignal<Message, ()>) {
        DialogSignal::Done(())
    }
}

/// The dialog that asks the user to select one item among a set: up and down
/// move the cursor (clamped at the ends), enter chooses the item under it, and
/// escape cancels.
#[derive(Debug)]
pub struct Select {
    /// The prompt shown above the items.
    pub msg: String,
    /// The user-visible labels of the items.
    pub items: Vec<String>,
    /// The index the cursor is on.
    pub selected: usize,
}

/// The ghost model of a [`Select`] dialog.
#[verifier::ext_equal]
pub ghost struct SelectModel {
    pub msg: Seq<char>,
    pub items: Seq<Seq<char>>,
    pub selected: int,
}

/// The line a select dialog renders for item `i`: an arrow before the item
/// under the cursor, a dot before the rest, then the label.
pub open spec fn spec_select_line(m: SelectModel, i: int) -> Seq<SpanView> {
    let prefix: char = if i == m.selected {
        '\u{2192}'
    } else {
        '\u{b7}'
    };
    seq![
        (SpanView { content: seq![prefix, ' '] + m.items[i], style: Style::spec_plain() }),
    ]
}

impl Dialog for Select {
    type Out = usize;

    type Model = SelectModel;

    type OutModel = int;

    open spec fn model(&self) -> SelectModel {
        SelectModel {
            msg: self.msg@,
            items: self.items@.map_values(|s: String| s@),
            selected: self.selected as int,
        }
    }

    open spec fn out_model(o: usize) -> int {
        o as int
    }

    open spec fn spec_format(m: SelectModel) -> DrawInfoView {
        DrawInfoView {
            title: "Select"@,
            color: Color::Cyan,
            body: seq![
                seq![(SpanView { content: m.msg, style: Style::spec_plain() })],
                Seq::<SpanView>::empty(),
            ] + Seq::new(m.items.len(), |i: int| spec_select_line(m, i)),
            hint: "Press (enter) to select item..."@,
            inner_margin_x: 3,
            inner_margin_y: 1,
            width_percentage: 50,
            wrap: Option::Some(WrapMode { trim: false }),
        }
    }

    open spec fn spec_input(m: SelectModel, key: KeyEvent) -> DialogStep<SelectModel, int> {
        match key.code {
            KeyCode::Up => DialogStep::Running(
                SelectModel {
                    selected: if m.selected > 0 {
                        m.selected - 1
                    } else {
                        0
                    },
                    ..m
                },
            ),
            KeyCode::Down => DialogStep::Running(
                SelectModel {
                    selected: if m.selected + 1 < m.items.len() {
                        m.selected + 1
                    } else {
                        m.selected
                    },
                    ..m
                },
            ),
            KeyCode::Enter => DialogStep::Done(m.selected),
            KeyCode::Esc => DialogStep::Cancelled,
            _ => DialogStep::Running(m),
        }
    }

    fn format(&self) -> (d: DrawInfo) {
        let ghost m = self.model();
        let mut body = Text::of_line(Line::of_span(Span::plain(chars_vec(self.msg.as_str()))));
        body.push_line(Line::empty());
        let mut i: usize = 0;
        let n = self.items.len();
        while i < n
            invariant
                n == self.items@.len(),
                m == self.model(),
                i <= n,
                body@ == Self::spec_format(m).body.take(2 + i as int),
                Self::spec_format(m).body.len() == 2 + n,
            decreases n - i,
        {
            let mut content: Vec<char> = Vec::new();
            if i == self.selected {
                content.push('\u{2192}');
            } else {
                content.push('\u{b7}');
            }
            content.push(' ');
            let mut label = chars_vec(self.items[i].as_str());
            content.append(&mut label);
            body.push_line(Line::of_span(Span::plain(content)));
            proof {
                assert(body@.last() =~~= Self::spec_format(m).body[2 + i as int]);
                assert(body@ =~~= Self::spec_format(m).body.take(2 + i as int + 1));
            }
            i = i + 1;
        }
        let d = DrawInfo {
            title: "Select".to_owned(),
            color: Color::Cyan,
            body,
            hint: "Press (enter) to select item...".to_owned(),
            wrap: Option::Some(WrapMode { trim: false }),
            ..Default::default()
        };
        proof {
            assert(Self::spec_format(m).body.take(2 + n as int) =~= Self::spec_format(m).body);
            assert(d@ =~= Self::spec_format(m));
        }
        d
    }

    fn input(self, key: KeyEvent) -> (s: DialogSignal<Select, usize>) {
        match key.code {
            KeyCode::Up => {
                let selected = if self.selected > 0 {
                    self.selected - 1
                } else {
                    0
                };
                DialogSignal::Running(Select { selected, ..self })
            },
            KeyCode::Down => {
                let n = self.items.len();
                let selected = if self.selected < n && self.selected + 1 < n {
                    self.selected + 1
                } else {
                    self.selected
                };
                DialogSignal::Running(Select { selected, ..self })
            },
            KeyCode::Enter => DialogSignal::Done(self.selected),
            KeyCode::Esc => DialogSignal::Cancelled,
            _ => DialogSignal::Running(self),
        }
    }
}

/// Shows a yellow dialog asking the user to confirm an action, fed from the
/// given events. Returns `Some(true)` when the user pressed `y`, and `None`
/// when the user cancelled with `n` or escape — or when the events ran out
/// with the dialog still open.
pub fn confirm<U: State, G>(
    msg: &str,
    over: &U,
    ctx: &mut Context<G>,
    events: &Vec<Event>,
) -> (r: Option<bool>)
    ensures
        ({
            let (rm, _) = spec_run::<Container<Confirm, U>>(
                (ConfirmModel { msg: msg@ }),
                events@,
                (),
            );
            match rm {
                RunModel::Returned(b) => r == Option::Some(b),
                RunModel::Cancelled => r == Option::<bool>::None,
                RunModel::Pending(_) => r == Option::<bool>::None,
                RunModel::Failed(_) => false,
            }
        }),
        final(ctx).global == old(ctx).global,
        final(ctx).env() == old(ctx).env(),
{
    let dialog = Confirm { msg: msg.to_owned() };
    match run_over(dialog, over, ctx, events) {
        DialogOutcome::Done(b) => Option::Some(b),
        DialogOutcome::Cancelled => Option::None,
        DialogOutcome::Pending(_) => Option::None,
    }
}

/// Shows a dialog with a generic message, fed from the given events. Returns
/// whether the user acknowledged it before the events ran out. Prefer the more
/// specialised [`info`], [`warning`], [`error`] or [`fatal`].
pub fn message<U: State, G>(
    msg: &str,
    title: &str,
    color: Color,
    over: &U,
    ctx: &mut Context<G>,
    events: &Vec<Event>,
) -> (r: bool)
    ensures
        ({
            let (rm, _) = spec_run::<Container<Message, U>>(
                (MessageModel { msg: msg@, title: title@, color }),
                events@,
                (),
            );
            match rm {
                RunModel::Returned(_) => r == true,
                RunModel::Cancelled => false,
                RunModel::Pending(_) => r == false,
                RunModel::Failed(_) => false,
            }
        }),
        final(ctx).global == old(ctx).global,
        final(ctx).env() == old(ctx).env(),
{
    proof {
        lemma_message_never_cancels::<U>(
            MessageModel { msg: msg@, title: title@, color },
            events@,
        );
    }
    let dialog = Message { msg: msg.to_owned(), title: title.to_owned(), color };
    match run_over(dialog, over, ctx, events) {
        DialogOutcome::Done(_) => true,
        DialogOutcome::Cancelled => true,
        DialogOutcome::Pending(_) => false,
    }
}

/// A message dialog never cancels: any key acknowledges it.
pub proof fn lemma_message_never_cancels<U: State>(m: MessageModel, events: Seq<Event>)
    ensures
        !(spec_run::<Container<Message, U>>(m, events, ()).0 is Cancelled),
    decreases events.len(),
{
    if events.len() > 0 {
        match events[0] {
            Event::Other => {
                lemma_message_never_cancels::<U>(m, events.drop_first());
            },
            Event::Key(_) => {},
        }
    }
}

/// Shows a cyan dialog with an informational message, fed from the given
/// events; any key closes it.
pub fn info<U: State, G>(msg: &str, over: &U, ctx: &mut Context<G>, events: &Vec<Event>) -> (r:
    bool)
    ensures
        ({
            let (rm, _) = spec_run::<Container<Message, U>>(
                (MessageModel { msg: msg@, title: "Info"@, color: Color::Cyan }),
                events@,
                (),
            );
            r == (rm is Returned)
        }),
        final(ctx).global == old(ctx).global,
        final(ctx).env() == old(ctx).env(),
{
    proof {
        lemma_message_never_cancels::<U>(
            MessageModel { msg: msg@, title: "Info"@, color: Color::Cyan },
            events@,
        );
    }
    message(msg, "Info", Color::Cyan, over, ctx, events)
}

/// Shows a yellow dialog with a warning, fed from the given events; any key
/// closes it.
pub fn warning<U: State, G>(msg: &str, over: &U, ctx: &mut Context<G>, events: &Vec<Event>) -> (r:
    bool)
    ensures
        ({
            let (rm, _) = spec_run::<Container<Message, U>>(
                (MessageModel { msg: msg@, title: "Warning"@, color: Color::Yellow }),
                events@,
                (),
            );
            r == (rm is Returned)
        }),
        final(ctx).global == old(ctx).global,
        final(ctx).env() == old(ctx).env(),
{
    proof {
        lemma_message_never_cancels::<U>(
            MessageModel { msg: msg@, title: "Warning"@, color: Color::Yellow },
            events@,
        );
    }
    message(msg, "Warning", Color::Yellow, over, ctx, events)
}

/// Shows a red dialog with an error message, fed from the given events; any
/// key closes it.
pub fn error<U: State, G>(msg: &str, over: &U, ctx: &mut Context<G>, events: &Vec<Event>) -> (r:
    bool)
    ensures
        ({
            let (rm, _) = spec_run::<Container<Message, U>>(
                (MessageModel { msg: msg@, title: "Error"@, color: Color::Red }),
                events@,
                (),
            );
            r == (rm is Returned)
        }),
        final(ctx).global == old(ctx).global,
        final(ctx).env() == old(ctx).env(),
{
    proof {
        lemma_message_never_cancels::<U>(
            MessageModel { msg: msg@, title: "Error"@, color: Color::Red },
            events@,
        );
    }
    message(msg, "Error", Color::Red, over, ctx, events)
}

/// Shows a red dialog with a fatal error message, fed from the given events;
/// any key closes it. No background screen is drawn underneath.
pub fn fatal<G>(msg: &str, ctx: &mut Context<G>, events: &Vec<Event>) -> (r: bool)
    ensures
        ({
            let (rm, _) = spec_run::<Container<Message, ()>>(
                (MessageModel { msg: msg@, title: "Fatal error"@, color: Color::Red }),
                events@,
                (),
            );
            r == (rm is Returned)
        }),
        final(ctx).global == old(ctx).global,
        final(ctx).env() == old(ctx).env(),
{
    proof {
        lemma_message_never_cancels::<()>(
            MessageModel { msg: msg@, title: "Fatal error"@, color: Color::Red },
            events@,
        );
    }
    message(msg, "Fatal error", Color::Red, &(), ctx, events)
}

/// Shows a cyan dialog asking the user to select one item among a set, fed
/// from the given events. Returns the selected index on enter, `None` when the
/// user cancelled with escape or the events ran out.
pub fn select_index<U: State, G>(
    msg: &str,
    items: Vec<String>,
    over: &U,
    ctx: &mut Context<G>,
    events: &Vec<Event>,
) -> (r: Option<usize>)
    ensures
        ({
            let (rm, _) = spec_run::<Container<Select, U>>(
                (SelectModel {
                    msg: msg@,
                    items: items@.map_values(|s: String| s@),
                    selected: 0,
                }),
                events@,
                (),
            );
            match rm {
                RunModel::Returned(i) => r is Some && r->0 == i,
                RunModel::Cancelled => r is None,
                RunModel::Pending(_) => r is None,
                RunModel::Failed(_) => false,
            }
        }),
        final(ctx).global == old(ctx).global,
        final(ctx).env() == old(ctx).env(),
{
    let dialog = Select { msg: msg.to_owned(), items, selected: 0 };
    match run_over(dialog, over, ctx, events) {
        DialogOutcome::Done(i) => Option::Some(i),
        DialogOutcome::Cancelled => Option::None,
        DialogOutcome::Pending(_) => Option::None,
    }
}

/// Shows a cyan dialog asking the user to select one value among a set, fed
/// from the given events. The items pair a user-visible label with a value;
/// the value of the chosen item is borrowed back. `None` when the user
/// cancelled with escape or the events ran out.
pub fn select_value<'x, T, U: State, G>(
    msg: &str,
    items: &'x Vec<(String, T)>,
    over: &U,
    ctx: &mut Context<G>,
    events: &Vec<Event>,
) -> (r: Option<&'x T>)
    ensures
        ({
            let (rm, _) = spec_run::<Container<Select, U>>(
                (SelectModel {
                    msg: msg@,
                    items: items@.map_values(|p: (String, T)| p.0@),
                    selected: 0,
                }),
                events@,
                (),
            );
            match rm {
                RunModel::Returned(i) => if 0 <= i < items@.len() {
                    r is Some && *(r->0) == items@[i].1
                } else {
                    r is None
                },
                RunModel::Cancelled => r is None,
                RunModel::Pending(_) => r is None,
                RunModel::Failed(_) => false,
            }
        }),
        final(ctx).global == old(ctx).global,
        final(ctx).env() == old(ctx).env(),
{
    let ghost label_views = items@.map_values(|p: (String, T)| p.0@);
    let mut labels: Vec<String> = Vec::new();
    let mut j: usize = 0;
    proof {
        assert(labels@.map_values(|s: String| s@) =~= label_views.take(0));
    }
    while j < items.len()
        invariant
            j <= items@.len(),
            label_views == items@.map_values(|p: (String, T)| p.0@),
            labels@.map_values(|s: String| s@) == label_views.take(j as int),
        decreases items@.len() - j,
    {
        let ghost pre = labels@.map_values(|s: String| s@);
        labels.push(crate::form::clone_string(&items[j].0));
        proof {
            assert(labels@.map_values(|s: String| s@) =~= pre.push(label_views[j as int]));
            assert(label_views.take(j as int + 1) =~= label_views.take(j as int).push(
                label_views[j as int],
            ));
        }
        j = j + 1;
    }
    proof {
        assert(label_views.take(items@.len() as int) =~= label_views);
        assert((SelectModel { msg: msg@, items: labels@.map_values(|s: String| s@), selected: 0 })
            =~= (SelectModel { msg: msg@, items: label_views, selected: 0 }));
    }
    match select_index(msg, labels, over, ctx, events) {
        Option::Some(idx) => if idx < items.len() {
            Option::Some(&items[idx].1)
        } else {
            Option::None
        },
        Option::None => Option::None,
    }
}

} // verus!
