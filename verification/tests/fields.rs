use tundra::Build;
use tundra::Checkbox;
use tundra::Field;
use tundra::InputResult;
use tundra::KeyCode;
use tundra::KeyEvent;
use tundra::Radio;
use tundra::Slider;
use tundra::Textbox;
use tundra::Toggle;
use tundra::decimal_chars;

fn chars(s: &str) -> Vec<char> {
    s.chars().collect()
}

#[test]
fn checkbox_input() {
    let test = |key_code: KeyCode, expected: InputResult| {
        let mut checkbox = Checkbox::builder().name("").value(false).build();
        let actual = checkbox.input(KeyEvent::plain(key_code));
        assert_eq!(actual, expected);
    };
    test(KeyCode::Char('a'), InputResult::Updated);
    test(KeyCode::Char('b'), InputResult::Updated);
    test(KeyCode::Char('1'), InputResult::Updated);
    test(KeyCode::Enter, InputResult::Updated);
    test(KeyCode::Esc, InputResult::Updated);

    // these two must be ignored for form navigation to work properly
    test(KeyCode::Up, InputResult::Ignored);
    test(KeyCode::Down, InputResult::Ignored);
}

#[test]
fn checkbox_toggles_value() {
    let mut checkbox = Checkbox::builder().name("Pets allowed").value(false).build();
    assert_eq!(checkbox.input(KeyEvent::plain(KeyCode::Char('x'))), InputResult::Updated);
    assert_eq!(*checkbox.value(), true);
    assert_eq!(checkbox.input(KeyEvent::plain(KeyCode::Up)), InputResult::Ignored);
    assert_eq!(*checkbox.value(), true);
    assert_eq!(checkbox.input(KeyEvent::plain(KeyCode::Down)), InputResult::Ignored);
    assert_eq!(*checkbox.value(), true);
    assert_eq!(checkbox.input(KeyEvent::plain(KeyCode::Enter)), InputResult::Updated);
    assert_eq!(*checkbox.value(), false);
}

#[test]
fn radio_input() {
    let input = |key: KeyCode, radio: &mut Radio, expected: InputResult| {
        let actual = radio.input(KeyEvent::plain(key));
        assert_eq!(actual, expected);
    };

    let items = vec![
        String::from("One"),
        String::from("Two"),
        String::from("Three"),
        String::from("Four"),
    ];
    let radio = &mut Radio::builder().name("").items(items).selected(0).build();
    assert_eq!(radio.selected, 0);

    input(KeyCode::Left, radio, InputResult::Updated);
    assert_eq!(radio.selected, 3);

    input(KeyCode::Left, radio, InputResult::Updated);
    assert_eq!(radio.selected, 2);

    input(KeyCode::Left, radio, InputResult::Updated);
    assert_eq!(radio.selected, 1);

    for i in 2..=3 {
        input(KeyCode::Right, radio, InputResult::Updated);
        assert_eq!(radio.selected, i);
    }

    input(KeyCode::Right, radio, InputResult::Updated);
    assert_eq!(radio.selected, 0);
}

#[test]
fn radio_focus_and_select() {
    let items = vec![String::from("A"), String::from("B"), String::from("C")];
    let mut radio = Radio::builder().name("").items(items).selected(0).build();

    // pressing up beyond the first item is ignored
    assert_eq!(radio.input(KeyEvent::plain(KeyCode::Up)), InputResult::Ignored);
    assert_eq!(radio.focus, 0);

    // down twice moves the focus to the third item, enter selects it
    assert_eq!(radio.input(KeyEvent::plain(KeyCode::Down)), InputResult::Consumed);
    assert_eq!(radio.input(KeyEvent::plain(KeyCode::Down)), InputResult::Consumed);
    assert_eq!(radio.focus, 2);
    assert_eq!(radio.input(KeyEvent::plain(KeyCode::Enter)), InputResult::Updated);
    assert_eq!(radio.selected, 2);

    // down beyond the last item is ignored
    assert_eq!(radio.input(KeyEvent::plain(KeyCode::Down)), InputResult::Ignored);
    assert_eq!(radio.focus, 2);
}

#[test]
fn slider_steps_and_snaps() {
    let mut slider: Slider<u32> = Slider::builder().name("").value(50).range(0, 100).step(10).build();
    assert_eq!(*slider.value(), 50);

    // left moves one step down
    assert_eq!(slider.input(KeyEvent::plain(KeyCode::Left)), InputResult::Updated);
    assert_eq!(*slider.value(), 40);

    // right moves one step up
    assert_eq!(slider.input(KeyEvent::plain(KeyCode::Right)), InputResult::Updated);
    assert_eq!(*slider.value(), 50);

    // with a modifier held, left snaps to the range start, since the value is
    // not above the default (the default is the initial value, 50)
    assert_eq!(slider.input(KeyEvent::with_control(KeyCode::Left)), InputResult::Updated);
    assert_eq!(*slider.value(), 0);

    // at the range start, left is ignored
    assert_eq!(slider.input(KeyEvent::plain(KeyCode::Left)), InputResult::Ignored);
    assert_eq!(*slider.value(), 0);

    // modified right from the start snaps to the default
    assert_eq!(slider.input(KeyEvent::with_control(KeyCode::Right)), InputResult::Updated);
    assert_eq!(*slider.value(), 50);

    // modified right from the default snaps to the range end
    assert_eq!(slider.input(KeyEvent::with_control(KeyCode::Right)), InputResult::Updated);
    assert_eq!(*slider.value(), 100);
    assert_eq!(slider.input(KeyEvent::plain(KeyCode::Right)), InputResult::Ignored);
}

#[test]
fn slider_snap_with_zero_default() {
    // with the default anchored at zero, a modified left from 50 snaps to 0
    let mut slider: Slider<u32> = Slider {
        name: String::new(),
        value: 50,
        min: 0,
        max: 100,
        step: 10,
        default: 0,
    };
    assert_eq!(slider.input(KeyEvent::with_control(KeyCode::Left)), InputResult::Updated);
    assert_eq!(*slider.value(), 0);
}

#[test]
fn slider_clamps_to_range_end() {
    let mut slider: Slider<u32> = Slider::builder().name("").value(95).range(0, 100).step(10).build();
    assert_eq!(slider.input(KeyEvent::plain(KeyCode::Right)), InputResult::Updated);
    assert_eq!(*slider.value(), 100);
}

#[test]
fn decimal_digits() {
    assert_eq!(decimal_chars(0), chars("0"));
    assert_eq!(decimal_chars(7), chars("7"));
    assert_eq!(decimal_chars(1230), chars("1230"));
    assert_eq!(decimal_chars(u64::MAX), chars("18446744073709551615"));
}

#[test]
fn textbox_editing() {
    let mut tb = Textbox::builder().name("").value("ab cd").build();
    assert_eq!(tb.max_caret(), 5);
    assert_eq!(tb.caret, 5);

    // left moves the caret, home jumps to the start
    assert_eq!(tb.input(KeyEvent::plain(KeyCode::Left)), InputResult::Consumed);
    assert_eq!(tb.caret, 4);
    assert_eq!(tb.input(KeyEvent::plain(KeyCode::Home)), InputResult::Consumed);
    assert_eq!(tb.caret, 0);

    // delete removes the character right of the caret
    assert_eq!(tb.input(KeyEvent::plain(KeyCode::Delete)), InputResult::Updated);
    assert_eq!(tb.value(), &chars("b cd"));

    // backspace at the start is ignored
    assert_eq!(tb.input(KeyEvent::plain(KeyCode::Backspace)), InputResult::Ignored);

    // typing inserts at the caret
    assert_eq!(tb.input(KeyEvent::plain(KeyCode::Char('x'))), InputResult::Updated);
    assert_eq!(tb.value(), &chars("xb cd"));
    assert_eq!(tb.caret, 1);

    // end jumps past the last character; backspace removes the last one
    assert_eq!(tb.input(KeyEvent::plain(KeyCode::End)), InputResult::Consumed);
    assert_eq!(tb.caret, 5);
    assert_eq!(tb.input(KeyEvent::plain(KeyCode::Backspace)), InputResult::Updated);
    assert_eq!(tb.value(), &chars("xb c"));
}

#[test]
fn textbox_word_movement() {
    let mut tb = Textbox::builder().name("").value("ab cd").build();

    // a word boundary is the first whitespace after a non-whitespace,
    // scanning leftward from the end: the space at index 2
    assert_eq!(tb.input(KeyEvent::with_control(KeyCode::Left)), InputResult::Consumed);
    assert_eq!(tb.caret, 2);

    // removing a word with control-backspace takes out everything between
    // the boundary and the caret
    let mut tb2 = Textbox::builder().name("").value("ab cd").build();
    assert_eq!(tb2.input(KeyEvent::with_control(KeyCode::Backspace)), InputResult::Updated);
    assert_eq!(tb2.value(), &chars("ab"));
    assert_eq!(tb2.caret, 2);
}

#[test]
fn textbox_hidden_scans_whole_value() {
    let mut tb = Textbox::builder().name("").value("ab cd").hidden().build();
    assert_eq!(tb.input(KeyEvent::with_control(KeyCode::Left)), InputResult::Consumed);
    assert_eq!(tb.caret, 0);
}

#[test]
fn textbox_set_value_moves_caret() {
    let mut tb = Textbox::builder().name("").build();
    tb.set_value("hello");
    assert_eq!(tb.value(), &chars("hello"));
    assert_eq!(tb.caret, 5);
}

#[test]
fn toggle_focus_and_values() {
    let items = vec![String::from("X"), String::from("Y"), String::from("Z")];
    let mut toggle = Toggle::builder().name("").items(items).build();

    // up at the first item is ignored, so a form can take the key
    assert_eq!(toggle.input(KeyEvent::plain(KeyCode::Up)), InputResult::Ignored);

    // any other key toggles the focused item
    assert_eq!(toggle.input(KeyEvent::plain(KeyCode::Char('t'))), InputResult::Updated);
    assert!(toggle.values.get(0));

    // down moves the internal focus; toggling now flips the second item
    assert_eq!(toggle.input(KeyEvent::plain(KeyCode::Down)), InputResult::Consumed);
    assert_eq!(toggle.input(KeyEvent::plain(KeyCode::Char('t'))), InputResult::Updated);
    assert!(toggle.values.get(1));
    assert_eq!(toggle.values.count_ones(), 2);

    // toggling again clears the bit
    assert_eq!(toggle.input(KeyEvent::plain(KeyCode::Char('t'))), InputResult::Updated);
    assert!(!toggle.values.get(1));
    assert_eq!(toggle.values.count_ones(), 1);

    // down past the last item is ignored
    assert_eq!(toggle.input(KeyEvent::plain(KeyCode::Down)), InputResult::Consumed);
    assert_eq!(toggle.input(KeyEvent::plain(KeyCode::Down)), InputResult::Ignored);
}

#[test]
fn toggle_builder_sets_indices() {
    let items = vec![String::from("X"), String::from("Y"), String::from("Z")];
    let toggle = Toggle::builder().name("").items(items).set(&vec![0, 2]).build();
    assert!(toggle.values.get(0));
    assert!(!toggle.values.get(1));
    assert!(toggle.values.get(2));
    assert_eq!(toggle.values.len(), 3);
}

#[test]
fn toggle_count_predicates() {
    let items = vec![String::from("X"), String::from("Y"), String::from("Z")];
    let toggle = Toggle::builder().name("").items(items).set(&vec![0, 2]).build();
    assert!(tundra::exactly(&toggle.values, 2));
    assert!(tundra::not_exactly(&toggle.values, 1));
    assert!(tundra::less_than(&toggle.values, 3));
    assert!(tundra::more_than(&toggle.values, 1));
    assert!(tundra::outside_range(&toggle.values, 3, 5));
    assert!(!tundra::outside_range(&toggle.values, 1, 2));
}

#[test]
fn field_names_carry_over() {
    let checkbox = Checkbox::builder().name("Pets allowed").build();
    assert_eq!(checkbox.name().as_str(), "Pets allowed");
    let tb = Textbox::builder().name("Location").build();
    assert_eq!(tb.name().as_str(), "Location");
}

#[test]
fn checkbox_renders_its_state() {
    let ticked = Checkbox::builder().name("").value(true).build();
    let t = ticked.format(false);
    assert_eq!(t.lines[0].spans[0].content, vec!['\u{2713}']);
    let unticked = Checkbox::builder().name("").value(false).build();
    let t = unticked.format(false);
    assert_eq!(t.lines[0].spans[0].content, vec!['\u{10102}']);
}

#[test]
fn textbox_renders_bullets_when_hidden() {
    let tb = Textbox::builder().name("").value("abc").hidden().build();
    let t = tb.format(false);
    assert_eq!(t.lines[0].spans[0].content, vec!['\u{2022}', '\u{2022}', '\u{2022}']);
}

#[test]
fn textbox_renders_caret_reversed_when_focused() {
    let mut tb = Textbox::builder().name("").value("abc").build();
    tb.input(KeyEvent::plain(KeyCode::Home));
    let t = tb.format(true);
    let spans = &t.lines[0].spans;
    assert_eq!(spans[0].content, chars(""));
    assert_eq!(spans[1].content, chars("a"));
    assert!(spans[1].style.reversed);
    assert_eq!(spans[2].content, chars("bc"));
}

#[test]
fn slider_renders_value_between_marks() {
    let slider: Slider<u32> = Slider::builder().name("").value(42).range(0, 100).build();
    let t = slider.format(true);
    let spans = &t.lines[0].spans;
    assert_eq!(spans[0].content, chars("<"));
    assert_eq!(spans[1].content, chars("42"));
    assert!(spans[1].style.bold);
    assert_eq!(spans[2].content, chars(">"));
}
