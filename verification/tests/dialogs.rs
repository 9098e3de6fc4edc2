use tundra::Color;
use tundra::Context;
use tundra::Dialog;
use tundra::DialogSignal;
use tundra::Event;
use tundra::KeyCode;
use tundra::KeyEvent;
use tundra::Message;
use tundra::Select;
use tundra::confirm;
use tundra::error;
use tundra::fatal;
use tundra::info;
use tundra::message;
use tundra::select_index;
use tundra::select_value;
use tundra::warning;

fn key(c: KeyCode) -> Event {
    Event::Key(KeyEvent::plain(c))
}

#[test]
fn confirm_accepts_on_y() {
    let mut ctx = Context::new_unmanaged();
    let events = vec![key(KeyCode::Char('y'))];
    assert_eq!(confirm("Proceed?", &(), &mut ctx, &events), Some(true));
}

#[test]
fn confirm_cancels_on_n_or_escape() {
    let mut ctx = Context::new_unmanaged();
    assert_eq!(confirm("Proceed?", &(), &mut ctx, &vec![key(KeyCode::Char('n'))]), None);
    assert_eq!(confirm("Proceed?", &(), &mut ctx, &vec![key(KeyCode::Esc)]), None);
    assert_eq!(confirm("Proceed?", &(), &mut ctx, &vec![key(KeyCode::Char('N'))]), None);
}

#[test]
fn confirm_keeps_running_on_other_keys() {
    let mut ctx = Context::new_unmanaged();
    // an unrelated key produces no signal: alone it leaves the dialog open,
    // and a confirming key afterwards still lands
    assert_eq!(confirm("Proceed?", &(), &mut ctx, &vec![key(KeyCode::Char('x'))]), None);
    let events = vec![key(KeyCode::Char('x')), key(KeyCode::Char('Y'))];
    assert_eq!(confirm("Proceed?", &(), &mut ctx, &events), Some(true));
}

#[test]
fn message_closes_on_any_key() {
    let mut ctx = Context::new_unmanaged();
    assert!(message("hello", "Note", Color::Cyan, &(), &mut ctx, &vec![key(KeyCode::Char('z'))]));
    assert!(!message("hello", "Note", Color::Cyan, &(), &mut ctx, &vec![]));
    assert!(info("fyi", &(), &mut ctx, &vec![key(KeyCode::Enter)]));
    assert!(warning("careful", &(), &mut ctx, &vec![key(KeyCode::Esc)]));
    assert!(error("failed", &(), &mut ctx, &vec![key(KeyCode::Char(' '))]));
    assert!(fatal("sorry", &mut ctx, &vec![key(KeyCode::Char('q'))]));
}

#[test]
fn select_moves_and_chooses() {
    let mut ctx = Context::new_unmanaged();
    let items = || vec![String::from("A"), String::from("B"), String::from("C")];
    let events = vec![key(KeyCode::Down), key(KeyCode::Down), key(KeyCode::Enter)];
    assert_eq!(select_index("Pick", items(), &(), &mut ctx, &events), Some(2));

    // the cursor clamps at both ends
    let events = vec![key(KeyCode::Up), key(KeyCode::Enter)];
    assert_eq!(select_index("Pick", items(), &(), &mut ctx, &events), Some(0));
    let events = vec![
        key(KeyCode::Down),
        key(KeyCode::Down),
        key(KeyCode::Down),
        key(KeyCode::Down),
        key(KeyCode::Enter),
    ];
    assert_eq!(select_index("Pick", items(), &(), &mut ctx, &events), Some(2));

    // escape cancels
    let events = vec![key(KeyCode::Down), key(KeyCode::Esc)];
    assert_eq!(select_index("Pick", items(), &(), &mut ctx, &events), None);
}

#[test]
fn confirm_draw_description() {
    let dialog = tundra::Confirm { msg: String::from("Sure?") };
    let d = dialog.format();
    assert_eq!(d.title.as_str(), "Confirm");
    assert_eq!(d.color, Color::Yellow);
    assert_eq!(d.body.lines.len(), 1);
    assert_eq!(d.body.lines[0].spans[0].content, "Sure?".chars().collect::<Vec<char>>());
    assert_eq!(d.width_percentage, 50);
}

#[test]
fn select_draw_description_marks_cursor() {
    let dialog = Select {
        msg: String::from("Pick"),
        items: vec![String::from("A"), String::from("B")],
        selected: 1,
    };
    let d = dialog.format();
    // prompt, blank line, one line per item
    assert_eq!(d.body.lines.len(), 4);
    let dot_a: Vec<char> = "\u{b7} A".chars().collect();
    let arrow_b: Vec<char> = "\u{2192} B".chars().collect();
    assert_eq!(d.body.lines[2].spans[0].content, dot_a);
    assert_eq!(d.body.lines[3].spans[0].content, arrow_b);
}

#[test]
fn message_dialog_signals_done() {
    let dialog = Message { msg: String::from("m"), title: String::from("T"), color: Color::Red };
    match dialog.input(KeyEvent::plain(KeyCode::Char('k'))) {
        DialogSignal::Done(()) => {},
        _ => panic!("a message dialog closes on any key"),
    }
}

#[test]
fn select_value_borrows_the_chosen_value() {
    let mut ctx = Context::new_unmanaged();
    let items = vec![
        (String::from("small"), 10u32),
        (String::from("large"), 99u32),
    ];
    let events = vec![key(KeyCode::Down), key(KeyCode::Enter)];
    assert_eq!(select_value("Size", &items, &(), &mut ctx, &events), Some(&99));
    let events = vec![key(KeyCode::Esc)];
    assert_eq!(select_value("Size", &items, &(), &mut ctx, &events), None);
}
