use jarvis::command::Plan;
use jarvis::session::App;
use jarvis::session::Directive;
use jarvis::session::KeyInput;
use jarvis::store::SharedState;

fn type_line(app: &mut App, shared: &mut SharedState, line: &str) {
    for c in line.chars() {
        let d = app.on_key(shared, KeyInput::Char(c));
        assert!(matches!(d, Directive::Continue));
    }
}

fn input_string(app: &App) -> String {
    app.input.iter().collect()
}

#[test]
fn new_session_is_empty() {
    let app = App::new();
    assert!(app.input.is_empty());
    assert_eq!(app.scroll_offset, 0);
    assert!(app.tick_buffer.is_empty());
}

#[test]
fn characters_append_to_input() {
    let mut app = App::new();
    let mut shared = SharedState::new();
    type_line(&mut app, &mut shared, "hi there");
    assert_eq!(input_string(&app), "hi there");
}

#[test]
fn backspace_removes_last_character() {
    let mut app = App::new();
    let mut shared = SharedState::new();
    type_line(&mut app, &mut shared, "hi");
    app.on_key(&mut shared, KeyInput::Backspace);
    assert_eq!(input_string(&app), "h");
}

#[test]
fn push_then_pop_returns_to_prior_state() {
    let mut app = App::new();
    let mut shared = SharedState::new();
    type_line(&mut app, &mut shared, "ab");
    app.on_key(&mut shared, KeyInput::Char('x'));
    app.on_key(&mut shared, KeyInput::Backspace);
    assert_eq!(input_string(&app), "ab");
}

#[test]
fn backspace_on_empty_input_is_a_noop() {
    let mut app = App::new();
    let mut shared = SharedState::new();
    app.on_key(&mut shared, KeyInput::Backspace);
    assert_eq!(input_string(&app), "");
}

#[test]
fn scroll_saturates_at_zero() {
    let mut app = App::new();
    let mut shared = SharedState::new();
    app.on_key(&mut shared, KeyInput::Up);
    assert_eq!(app.scroll_offset, 0);
    app.on_key(&mut shared, KeyInput::Down);
    app.on_key(&mut shared, KeyInput::Down);
    app.on_key(&mut shared, KeyInput::Up);
    assert_eq!(app.scroll_offset, 1);
    app.on_key(&mut shared, KeyInput::Up);
    app.on_key(&mut shared, KeyInput::Up);
    assert_eq!(app.scroll_offset, 0);
}

#[test]
fn enter_runs_the_submission_protocol() {
    let mut app = App::new();
    let mut shared = SharedState::new();
    type_line(&mut app, &mut shared, "!ls -la");
    app.on_key(&mut shared, KeyInput::Down);
    let d = app.on_key(&mut shared, KeyInput::Enter);
    assert_eq!(input_string(&app), "");
    assert_eq!(app.scroll_offset, 0);
    assert!(shared.loading);
    match d {
        Directive::Dispatch(Plan::RunCommand { program, args }) => {
            assert_eq!(program, "ls");
            assert_eq!(args, vec!["-la".to_string()]);
        }
        other => panic!("expected a dispatched command, got {:?}", other),
    }
}

#[test]
fn enter_on_question_dispatches_the_whole_line() {
    let mut app = App::new();
    let mut shared = SharedState::new();
    type_line(&mut app, &mut shared, "what is a monad");
    let d = app.on_key(&mut shared, KeyInput::Enter);
    match d {
        Directive::Dispatch(Plan::AskQuery { question }) => {
            assert_eq!(question, "what is a monad");
        }
        other => panic!("expected a dispatched question, got {:?}", other),
    }
}

#[test]
fn escape_and_ctrl_c_ask_to_exit_without_touching_state() {
    let mut app = App::new();
    let mut shared = SharedState::new();
    type_line(&mut app, &mut shared, "draft");
    let d = app.on_key(&mut shared, KeyInput::Escape);
    assert!(matches!(d, Directive::Exit));
    let d = app.on_key(&mut shared, KeyInput::CtrlC);
    assert!(matches!(d, Directive::Exit));
    assert_eq!(input_string(&app), "draft");
    assert!(!shared.loading);
}

#[test]
fn other_keys_change_nothing() {
    let mut app = App::new();
    let mut shared = SharedState::new();
    type_line(&mut app, &mut shared, "abc");
    let d = app.on_key(&mut shared, KeyInput::Other);
    assert!(matches!(d, Directive::Continue));
    assert_eq!(input_string(&app), "abc");
    assert_eq!(app.scroll_offset, 0);
}

#[test]
fn on_event_ticks_with_and_without_an_event() {
    let mut app = App::new();
    let mut shared = SharedState::new();
    let d = app.on_event(&mut shared, None);
    assert!(matches!(d, Directive::Continue));
    assert_eq!(app.tick_buffer, vec!['.']);
    let d = app.on_event(&mut shared, Some(KeyInput::Char('a')));
    assert!(matches!(d, Directive::Continue));
    assert_eq!(input_string(&app), "a");
    assert_eq!(app.tick_buffer, vec!['.', '.']);
}

#[test]
fn on_event_exit_skips_the_tick() {
    let mut app = App::new();
    let mut shared = SharedState::new();
    let d = app.on_event(&mut shared, Some(KeyInput::Escape));
    assert!(matches!(d, Directive::Exit));
    assert!(app.tick_buffer.is_empty());
}
