use tundra::AcceptAll;
use tundra::Build;
use tundra::Check;
use tundra::CheckKind;
use tundra::Checkbox;
use tundra::Context;
use tundra::Dialog;
use tundra::DialogSignal;
use tundra::Event;
use tundra::Field;
use tundra::FieldRule;
use tundra::FieldValue;
use tundra::Form;
use tundra::FormField;
use tundra::KeyCode;
use tundra::KeyEvent;
use tundra::Slider;
use tundra::Textbox;
use tundra::Toggle;
use tundra::check_fires;
use tundra::format_control_error;
use tundra::run_form;

fn key(c: KeyCode) -> Event {
    Event::Key(KeyEvent::plain(c))
}

fn chars(s: &str) -> Vec<char> {
    s.chars().collect()
}

fn location_and_pets() -> Form {
    let mut form = Form::new("Register", "");
    form.push_field(
        FormField::Textbox(Textbox::builder().name("Location").build()),
        vec![Check { kind: CheckKind::TextEmpty, message: String::from("Value required") }],
    );
    form.push_field(FormField::Checkbox(Checkbox::builder().name("Pets allowed").build()), vec![]);
    form
}

#[test]
fn form_submits_entered_values() {
    let mut ctx = Context::new_unmanaged();
    let events = vec![
        key(KeyCode::Char('h')),
        key(KeyCode::Char('i')),
        key(KeyCode::Down),
        key(KeyCode::Char('t')),
        key(KeyCode::Enter),
    ];
    let values = run_form(location_and_pets(), &AcceptAll, &(), &mut ctx, &events);
    let values = values.expect("a passing form must submit");
    assert_eq!(values.len(), 2);
    match &values[0] {
        FieldValue::Text(t) => assert_eq!(t, &chars("hi")),
        _ => panic!("the first value is the textbox's"),
    }
    match &values[1] {
        FieldValue::Bool(b) => assert_eq!(*b, true),
        _ => panic!("the second value is the checkbox's"),
    }
}

#[test]
fn form_escape_abandons_without_validation() {
    let mut ctx = Context::new_unmanaged();
    // escape comes before enter: the form yields nothing, whatever was typed
    // and although the later enter would have submitted
    let events = vec![
        key(KeyCode::Char('h')),
        key(KeyCode::Esc),
        key(KeyCode::Enter),
        key(KeyCode::Char('y')),
    ];
    let values = run_form(location_and_pets(), &AcceptAll, &(), &mut ctx, &events);
    assert!(values.is_none());
}

#[test]
fn form_shows_field_error_and_resumes() {
    let mut ctx = Context::new_unmanaged();
    // submitting with the required textbox empty fails its check: an error
    // dialog appears, a key dismisses it, and editing then resumes
    let events = vec![
        key(KeyCode::Enter),
        key(KeyCode::Char('x')),
        key(KeyCode::Char('a')),
        key(KeyCode::Enter),
    ];
    let values = run_form(location_and_pets(), &AcceptAll, &(), &mut ctx, &events);
    let values = values.expect("the corrected form must submit");
    match &values[0] {
        FieldValue::Text(t) => assert_eq!(t, &chars("a")),
        _ => panic!("the first value is the textbox's"),
    }
}

#[test]
fn form_whole_form_validation_failure_resumes() {
    let mut ctx = Context::new_unmanaged();
    let mut form = Form::new("Limits", "");
    form.push_field(
        FormField::Slider(Slider::builder().name("Rent").value(0).range(0, 100).step(10).build()),
        vec![],
    );
    let rule = FieldRule {
        index: 0,
        check: Check { kind: CheckKind::NumBelow(20), message: String::from("Too low") },
    };
    // the first submission fails the whole-form rule; after dismissing the
    // error and raising the value, the second submission passes
    let events = vec![
        key(KeyCode::Enter),
        key(KeyCode::Char('x')),
        key(KeyCode::Right),
        key(KeyCode::Right),
        key(KeyCode::Enter),
    ];
    let values = run_form(form, &rule, &(), &mut ctx, &events);
    let values = values.expect("the raised value must pass");
    match &values[0] {
        FieldValue::Num(n) => assert_eq!(*n, 20),
        _ => panic!("the value is the slider's"),
    }
}

#[test]
fn form_runs_out_of_events() {
    let mut ctx = Context::new_unmanaged();
    let events = vec![key(KeyCode::Char('h'))];
    let values = run_form(location_and_pets(), &AcceptAll, &(), &mut ctx, &events);
    assert!(values.is_none());
}

#[test]
fn form_focus_is_clamped() {
    let form = location_and_pets();
    assert_eq!(form.focus, 0);

    // up at the first field leaves the focus where it is
    let form = match form.input(KeyEvent::plain(KeyCode::Up)) {
        DialogSignal::Running(f) => f,
        _ => panic!("a plain key keeps the form running"),
    };
    assert_eq!(form.focus, 0);

    // down moves to the second field; another down is clamped at the last
    let form = match form.input(KeyEvent::plain(KeyCode::Down)) {
        DialogSignal::Running(f) => f,
        _ => panic!("a plain key keeps the form running"),
    };
    assert_eq!(form.focus, 1);
    let form = match form.input(KeyEvent::plain(KeyCode::Down)) {
        DialogSignal::Running(f) => f,
        _ => panic!("a plain key keeps the form running"),
    };
    assert_eq!(form.focus, 1);
}

#[test]
fn form_field_consuming_up_blocks_focus_move() {
    // a radio at the second position uses up itself while its internal focus
    // can still move, so the form's focus stays put; at the radio's first
    // item the key is ignored and the form takes it
    let mut form = Form::new("F", "");
    form.push_field(FormField::Checkbox(Checkbox::builder().name("A").build()), vec![]);
    let items = vec![String::from("x"), String::from("y")];
    form.push_field(
        FormField::Radio(tundra::Radio::builder().name("B").items(items).selected(1).build()),
        vec![],
    );
    form.focus = 1;

    let form = match form.input(KeyEvent::plain(KeyCode::Up)) {
        DialogSignal::Running(f) => f,
        _ => panic!("a plain key keeps the form running"),
    };
    // the radio consumed the key (its internal focus moved from 1 to 0)
    assert_eq!(form.focus, 1);

    let form = match form.input(KeyEvent::plain(KeyCode::Up)) {
        DialogSignal::Running(f) => f,
        _ => panic!("a plain key keeps the form running"),
    };
    // now the radio ignored it, and the form moved its own focus
    assert_eq!(form.focus, 0);
}

#[test]
fn control_error_report_joins_failures() {
    let results = vec![
        (String::from("A"), Err(String::from("bad"))),
        (String::from("B"), Ok(())),
        (String::from("C"), Err(String::from("worse"))),
    ];
    match format_control_error(&results) {
        Err(msg) => assert_eq!(msg.as_str(), "A: bad\nC: worse"),
        Ok(()) => panic!("failures must be reported"),
    }

    let clean = vec![(String::from("A"), Ok(())), (String::from("B"), Ok(()))];
    assert!(format_control_error(&clean).is_ok());
}

#[test]
fn form_draw_description_aligns_names() {
    let form = location_and_pets();
    let d = form.format();
    assert_eq!(d.title.as_str(), "Register");
    // one line per field: the first row's name is padded to the longest name
    assert_eq!(d.body.lines.len(), 2);
    let first = &d.body.lines[0];
    assert_eq!(first.spans[0].content, chars("    "));
    assert_eq!(first.spans[1].content, chars("Location"));
    assert_eq!(first.spans[2].content, chars(" : "));
    let second = &d.body.lines[1];
    assert_eq!(second.spans[0].content, chars(""));
    assert_eq!(second.spans[1].content, chars("Pets allowed"));
    assert_eq!(second.spans[2].content, chars(" \u{2502} "));
}

#[test]
fn check_kinds_fire_on_matching_values() {
    let text = FieldValue::Text(chars("abc"));
    let empty = FieldValue::Text(chars(""));
    let num = FieldValue::Num(7);
    let index = FieldValue::Index(2);
    let flag = FieldValue::Bool(true);

    assert!(check_fires(&CheckKind::TextEmpty, &empty));
    assert!(!check_fires(&CheckKind::TextEmpty, &text));
    assert!(check_fires(&CheckKind::TextEquals(chars("abc")), &text));
    assert!(!check_fires(&CheckKind::TextEquals(chars("abd")), &text));
    assert!(check_fires(&CheckKind::NumEquals(7), &num));
    assert!(check_fires(&CheckKind::NumBelow(8), &num));
    assert!(!check_fires(&CheckKind::NumBelow(7), &num));
    assert!(check_fires(&CheckKind::NumAbove(6), &num));
    assert!(check_fires(&CheckKind::IndexEquals(2), &index));
    assert!(check_fires(&CheckKind::BoolIs(true), &flag));
    assert!(!check_fires(&CheckKind::BoolIs(false), &flag));

    // a condition over another kind of value never fires
    assert!(!check_fires(&CheckKind::NumEquals(7), &text));
}

#[test]
fn toggle_count_checks_fire_in_forms() {
    let items = vec![String::from("x"), String::from("y"), String::from("z")];
    let toggle = Toggle::builder().name("").items(items).set(&vec![0, 1]).build();
    let bits = FieldValue::Bits(toggle.values.duplicate());
    assert!(check_fires(&CheckKind::CountExactly(2), &bits));
    assert!(check_fires(&CheckKind::CountNotExactly(3), &bits));
    assert!(check_fires(&CheckKind::CountLessThan(3), &bits));
    assert!(check_fires(&CheckKind::CountMoreThan(1), &bits));
    assert!(check_fires(&CheckKind::CountOutsideRange(3, 4), &bits));
    assert!(!check_fires(&CheckKind::CountOutsideRange(1, 2), &bits));
}
