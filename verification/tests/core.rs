use tundra::Container;
use tundra::Context;
use tundra::Confirm;
use tundra::DrawInfo;
use tundra::EnvModel;
use tundra::Environment;
use tundra::Event;
use tundra::KeyCode;
use tundra::KeyEvent;
use tundra::NoFailure;
use tundra::Rect;
use tundra::ResultLike;
use tundra::RunResult;
use tundra::TermCommand;
use tundra::TermFlags;
use tundra::acquire_commands;
use tundra::apply_commands;
use tundra::chars_vec;
use tundra::dialog_layout;
use tundra::make_title;
use tundra::release_commands;
use tundra::run_events;
use tundra::spaces;

fn key(c: KeyCode) -> Event {
    Event::Key(KeyEvent::plain(c))
}

#[test]
fn result_like_round_trip_bare() {
    let r: Result<i32, NoFailure> = <i32 as ResultLike<i32>>::into_result(5);
    assert!(matches!(r, Ok(5)));
    let back = <i32 as ResultLike<i32>>::from_result(r);
    assert_eq!(back, 5);
}

#[test]
fn result_like_round_trip_option() {
    let some: Result<i32, ()> = <Option<i32> as ResultLike<i32>>::into_result(Some(7));
    assert!(matches!(some, Ok(7)));
    assert_eq!(<Option<i32> as ResultLike<i32>>::from_result(some), Some(7));

    let none: Result<i32, ()> = <Option<i32> as ResultLike<i32>>::into_result(None);
    assert!(matches!(none, Err(())));
    assert_eq!(<Option<i32> as ResultLike<i32>>::from_result(none), None);
}

#[test]
fn result_like_round_trip_result() {
    type R = Result<i32, String>;
    let ok: R = <R as ResultLike<i32>>::into_result(Ok(3));
    assert_eq!(<R as ResultLike<i32>>::from_result(ok), Ok(3));
    let err: R = <R as ResultLike<i32>>::into_result(Err(String::from("boom")));
    assert_eq!(<R as ResultLike<i32>>::from_result(err), Err(String::from("boom")));
}

#[test]
fn dummy_state_returns_on_first_key() {
    let mut ctx = Context::new_unmanaged();
    let events = vec![key(KeyCode::Char('q')), key(KeyCode::Char('r'))];
    match run_events((), &events, &mut ctx) {
        RunResult::Returned(()) => {},
        _ => panic!("the dummy screen must return on the first key"),
    }
}

#[test]
fn run_stops_at_first_terminal_signal() {
    // a confirm dialog over the dummy background: the first key returns, and
    // the key after it is never consumed
    let mut ctx = Context::new_unmanaged();
    let container = Container { content: Confirm { msg: String::from("?") }, background: &() };
    let events = vec![key(KeyCode::Char('y')), key(KeyCode::Char('n'))];
    match run_events(container, &events, &mut ctx) {
        RunResult::Returned(v) => assert_eq!(v, true),
        _ => panic!("the run must end at the first terminal signal"),
    }
}

#[test]
fn run_ignores_non_key_events() {
    let mut ctx = Context::new_unmanaged();
    let container = Container { content: Confirm { msg: String::from("?") }, background: &() };
    let events = vec![Event::Other, Event::Other, key(KeyCode::Char('y'))];
    match run_events(container, &events, &mut ctx) {
        RunResult::Returned(v) => assert_eq!(v, true),
        _ => panic!("other events must be ignored"),
    }
}

#[test]
fn run_hands_back_pending_screen() {
    let mut ctx = Context::new_unmanaged();
    let container = Container { content: Confirm { msg: String::from("?") }, background: &() };
    let events = vec![key(KeyCode::Char('x'))];
    match run_events(container, &events, &mut ctx) {
        RunResult::Pending(c) => assert_eq!(c.content.msg.as_str(), "?"),
        _ => panic!("an undecided dialog must be handed back"),
    }
}

#[test]
fn environment_acquire_release_restores_flags() {
    let start = EnvModel::startup();
    assert_eq!(start.flags, TermFlags::normal());
    assert!(!start.hook_installed);

    let acquired = apply_commands(start, &acquire_commands(&start));
    assert!(acquired.flags.raw_mode);
    assert!(acquired.flags.alternate_screen);
    assert!(acquired.flags.cursor_hidden);
    assert!(acquired.hook_installed);

    let released = apply_commands(acquired, &release_commands());
    assert_eq!(released.flags, start.flags);
    assert!(released.hook_installed);
}

#[test]
fn environment_release_from_panic_restores_flags() {
    // the panic hook runs the same release commands, from whatever state the
    // process was in when it unwound
    let start = EnvModel::startup();
    let acquired = apply_commands(start, &acquire_commands(&start));
    let after_panic = apply_commands(acquired, &release_commands());
    assert_eq!(after_panic.flags, TermFlags::normal());
}

#[test]
fn environment_installs_hook_once() {
    let start = EnvModel::startup();
    let first = acquire_commands(&start);
    assert_eq!(first[0], TermCommand::InstallHook);

    let acquired = apply_commands(start, &first);
    let second = acquire_commands(&acquired);
    assert!(!second.contains(&TermCommand::InstallHook));
    assert_eq!(second.len(), 3);
}

#[test]
fn context_chaining_swaps_global() {
    let ctx = Context::with_global_unmanaged(5u32);
    assert_eq!(ctx.global, 5);
    let chained = ctx.chain_with_global(String::from("hello"));
    assert_eq!(chained.global.as_str(), "hello");
    assert_eq!(ctx.global, 5);
    let stripped = chained.chain_without_global();
    assert!(matches!(*stripped.environment, Environment::Unmanaged));
}

#[test]
fn context_managed_environment_is_acquired() {
    let ctx = Context::new();
    match *ctx.environment {
        Environment::Managed(m) => {
            assert!(m.flags.raw_mode);
            assert!(m.hook_installed);
        },
        Environment::Unmanaged => panic!("a managed context must acquire the environment"),
    }
}

#[test]
fn title_is_uppercased_and_padded() {
    assert_eq!(make_title("abc").as_str(), " ABC ");
    assert_eq!(make_title("Confirm").as_str(), " CONFIRM ");
    assert_eq!(make_title("").as_str(), "");
}

#[test]
fn chars_vec_and_spaces() {
    let v = chars_vec("h\u{e9}llo");
    assert_eq!(v, "h\u{e9}llo".chars().collect::<Vec<char>>());
    assert_eq!(spaces(3), vec![' ', ' ', ' ']);
}

#[test]
fn layout_centres_the_dialog() {
    let mut info = DrawInfo::default();
    info.body = text_of("hello");
    info.hint = String::from("Press");
    let frame = Rect { x: 0, y: 0, width: 80, height: 24 };
    let l = dialog_layout(frame, &info);

    assert_eq!(l.body_height, 1);
    assert_eq!(l.hint_height, 1);
    // content is 40 wide (half the frame); margins of 3 and the border of 1
    // on each side give an outer box of 48 by 8
    assert_eq!(l.outer, Rect { x: 16, y: 8, width: 48, height: 8 });
    assert_eq!(l.inner, Rect { x: 17, y: 9, width: 46, height: 6 });
    // the body sits at the top of the margin area, the hint at its bottom
    assert_eq!(l.body, Rect { x: 20, y: 10, width: 40, height: 1 });
    assert_eq!(l.hint, Rect { x: 20, y: 13, width: 40, height: 1 });
}

#[test]
fn layout_shortens_odd_leftover_height() {
    let mut info = DrawInfo::default();
    info.body = text_of("hello");
    info.hint = String::from("Press");
    let frame = Rect { x: 0, y: 0, width: 80, height: 25 };
    let l = dialog_layout(frame, &info);
    // the leftover height is odd: the box gives up one row so the top margin
    // is the rounded-down half and the bottom margin the rounded-up half
    assert_eq!(l.outer.y, 8);
    assert_eq!(l.outer.height, 8);
    assert_eq!(25 - l.outer.y - l.outer.height, 9);
}

#[test]
fn layout_wraps_body_lines() {
    let mut info = DrawInfo::default();
    info.body = text_of("aaaa bbbb");
    info.hint = String::from("P");
    // a frame of width 20 gives a content width of 10: "aaaa bbbb" fits one
    // line; a frame of width 10 gives a content width of 5 and two lines
    let wide = dialog_layout(Rect { x: 0, y: 0, width: 20, height: 40 }, &info);
    assert_eq!(wide.body_height, 1);
    let narrow = dialog_layout(Rect { x: 0, y: 0, width: 10, height: 40 }, &info);
    assert_eq!(narrow.body_height, 2);
}

fn text_of(s: &str) -> tundra::Text {
    tundra::Text::of_line(tundra::Line::of_span(tundra::Span::plain(chars_vec(s))))
}
