use script_picker::app::App;
use std::time::Instant;
use script_picker::events::{handle_key, KeyAction, KeyCode, KeyModifiers, KeyPress};

fn key(code: KeyCode) -> KeyPress {
    KeyPress { code, modifiers: KeyModifiers::Plain }
}

fn ctrl(code: KeyCode) -> KeyPress {
    KeyPress { code, modifiers: KeyModifiers::Control }
}

fn app_with(items: &[&str]) -> App {
    let mut app = App::new("script.sh".to_string(), false);
    app.update_results(items.iter().map(|s| s.to_string()).collect(), String::new());
    app
}

#[test]
fn typing_goes_to_the_query() {
    let mut app = App::new("s".to_string(), false);
    assert_eq!(handle_key(&mut app, key(KeyCode::Char('h')), Instant::now()), KeyAction::Handled);
    handle_key(&mut app, KeyPress { code: KeyCode::Char('I'), modifiers: KeyModifiers::Shift }, Instant::now());
    assert_eq!(app.input(), "hI");
    assert!(app.pending_update());
    handle_key(&mut app, KeyPress { code: KeyCode::Char('x'), modifiers: KeyModifiers::Other }, Instant::now());
    assert_eq!(app.input(), "hI");
}

#[test]
fn type_then_backspace_restores_query() {
    let mut app = App::new("s".to_string(), false);
    handle_key(&mut app, key(KeyCode::Char('a')), Instant::now());
    handle_key(&mut app, key(KeyCode::Char('b')), Instant::now());
    handle_key(&mut app, key(KeyCode::Backspace), Instant::now());
    assert_eq!(app.input(), "a");
}

#[test]
fn keys_ignored_while_loading() {
    let mut app = app_with(&["a"]);
    app.set_loading(true);
    for k in [key(KeyCode::Char('a')), key(KeyCode::Enter), key(KeyCode::Esc), key(KeyCode::Down)] {
        assert_eq!(handle_key(&mut app, k, Instant::now()), KeyAction::Handled);
    }
    assert_eq!(app.input(), "");
    assert_eq!(app.selected_index(), None);
    assert!(!app.should_quit());
}

#[test]
fn arrows_and_ctrl_n_p_navigate() {
    let mut app = app_with(&["a", "b", "c"]);
    handle_key(&mut app, key(KeyCode::Down), Instant::now());
    assert_eq!(app.selected_index(), Some(0));
    handle_key(&mut app, ctrl(KeyCode::Char('n')), Instant::now());
    assert_eq!(app.selected_index(), Some(1));
    handle_key(&mut app, KeyPress { code: KeyCode::Down, modifiers: KeyModifiers::Shift }, Instant::now());
    assert_eq!(app.selected_index(), Some(2));
    handle_key(&mut app, ctrl(KeyCode::Char('p')), Instant::now());
    assert_eq!(app.selected_index(), Some(1));
    handle_key(&mut app, key(KeyCode::Up), Instant::now());
    assert_eq!(app.selected_index(), Some(0));
    handle_key(&mut app, key(KeyCode::Up), Instant::now());
    assert_eq!(app.selected_index(), Some(0));
}

#[test]
fn enter_answers_with_selected_line() {
    let mut app = app_with(&["first", "second"]);
    handle_key(&mut app, key(KeyCode::Down), Instant::now());
    handle_key(&mut app, key(KeyCode::Down), Instant::now());
    assert_eq!(handle_key(&mut app, key(KeyCode::Enter), Instant::now()), KeyAction::Handled);
    assert!(app.should_quit());
    assert_eq!(app.selected_output, Some("second".to_string()));
}

#[test]
fn enter_without_selection_does_nothing() {
    let mut app = app_with(&["first"]);
    handle_key(&mut app, key(KeyCode::Enter), Instant::now());
    assert!(!app.should_quit());
    assert_eq!(app.selected_output, None);
}

#[test]
fn enter_without_results_loads() {
    let mut app = App::new("s".to_string(), false);
    handle_key(&mut app, key(KeyCode::Char('q')), Instant::now());
    assert_eq!(handle_key(&mut app, key(KeyCode::Enter), Instant::now()), KeyAction::LoadResults);
    assert!(app.is_loading());
    app.complete_force_load(vec!["r1".to_string(), "r2".to_string()], "s q".to_string());
    assert!(!app.is_loading());
    assert!(!app.pending_update());
    assert_eq!(app.selected_index(), Some(0));
}

#[test]
fn ctrl_j_and_ctrl_enter_without_results_load() {
    let mut app = App::new("s".to_string(), false);
    assert_eq!(handle_key(&mut app, ctrl(KeyCode::Char('j')), Instant::now()), KeyAction::LoadResults);
    let mut app = App::new("s".to_string(), false);
    assert_eq!(handle_key(&mut app, ctrl(KeyCode::Enter), Instant::now()), KeyAction::LoadResults);
    assert!(app.is_loading());
}

#[test]
fn collect_then_enter_outputs_buffer() {
    let mut app = app_with(&["foo", "bar"]);
    handle_key(&mut app, key(KeyCode::Char('x')), Instant::now());
    handle_key(&mut app, key(KeyCode::Down), Instant::now());
    assert_eq!(handle_key(&mut app, ctrl(KeyCode::Char('j')), Instant::now()), KeyAction::Handled);
    assert_eq!(app.buffer(), "foo");
    assert_eq!(app.input(), "");
    assert!(!app.has_results());
    assert!(!app.pending_update());
    assert!(!app.is_buffer_selected());
    app.update_results(vec!["bar".to_string()], String::new());
    handle_key(&mut app, key(KeyCode::Down), Instant::now());
    handle_key(&mut app, ctrl(KeyCode::Enter), Instant::now());
    assert_eq!(app.buffer(), "foobar");
    handle_key(&mut app, key(KeyCode::Enter), Instant::now());
    assert!(app.should_quit());
    assert_eq!(app.selected_output, Some("foobar".to_string()));
}

#[test]
fn buffer_answer_drops_line_feeds() {
    let mut app = app_with(&["a\nb"]);
    handle_key(&mut app, key(KeyCode::Down), Instant::now());
    handle_key(&mut app, ctrl(KeyCode::Char('j')), Instant::now());
    assert_eq!(app.buffer(), "a\nb");
    handle_key(&mut app, key(KeyCode::Enter), Instant::now());
    assert_eq!(app.selected_output, Some("ab".to_string()));
}

#[test]
fn up_from_first_line_selects_buffer() {
    let mut app = app_with(&["x"]);
    app.append_to_buffer("buf");
    handle_key(&mut app, key(KeyCode::Down), Instant::now());
    assert_eq!(app.selected_index(), Some(0));
    handle_key(&mut app, key(KeyCode::Up), Instant::now());
    assert!(app.is_buffer_selected());
    handle_key(&mut app, key(KeyCode::Up), Instant::now());
    assert!(app.is_buffer_selected());
    handle_key(&mut app, key(KeyCode::Down), Instant::now());
    assert!(!app.is_buffer_selected());
    assert_eq!(app.selected_index(), Some(0));
}

#[test]
fn backspace_on_selected_buffer() {
    let mut app = app_with(&["x"]);
    app.append_to_buffer("ab");
    app.push_char('q');
    app.select_buffer(true);
    handle_key(&mut app, key(KeyCode::Backspace), Instant::now());
    assert_eq!(app.buffer(), "a");
    assert_eq!(app.input(), "q");
    assert!(app.is_buffer_selected());
    handle_key(&mut app, key(KeyCode::Backspace), Instant::now());
    assert_eq!(app.buffer(), "");
    assert!(!app.is_buffer_selected());
    handle_key(&mut app, key(KeyCode::Backspace), Instant::now());
    assert_eq!(app.input(), "");
}

#[test]
fn ctrl_backspace_always_edits_buffer() {
    let mut app = App::new("s".to_string(), false);
    app.append_to_buffer("xy");
    app.push_char('q');
    handle_key(&mut app, ctrl(KeyCode::Backspace), Instant::now());
    assert_eq!(app.buffer(), "x");
    assert_eq!(app.input(), "q");
    handle_key(&mut app, ctrl(KeyCode::Backspace), Instant::now());
    handle_key(&mut app, ctrl(KeyCode::Backspace), Instant::now());
    assert_eq!(app.buffer(), "");
    assert_eq!(app.input(), "q");
}

#[test]
fn typing_leaves_the_buffer() {
    let mut app = App::new("s".to_string(), false);
    app.append_to_buffer("b");
    app.select_buffer(true);
    handle_key(&mut app, key(KeyCode::Char('z')), Instant::now());
    assert!(!app.is_buffer_selected());
    assert_eq!(app.input(), "z");
}

#[test]
fn enter_on_empty_query_outputs_buffer() {
    let mut app = App::new("s".to_string(), false);
    app.append_to_buffer("kept");
    handle_key(&mut app, key(KeyCode::Enter), Instant::now());
    assert!(app.should_quit());
    assert_eq!(app.selected_output, Some("kept".to_string()));
}

#[test]
fn escape_ladder_quits() {
    let mut app = app_with(&["a"]);
    app.append_to_buffer("b");
    handle_key(&mut app, key(KeyCode::Down), Instant::now());
    app.select_buffer(true);
    handle_key(&mut app, key(KeyCode::Esc), Instant::now());
    assert!(!app.is_buffer_selected());
    assert!(app.has_selection());
    assert!(!app.should_quit());
    handle_key(&mut app, key(KeyCode::Esc), Instant::now());
    assert!(!app.has_selection());
    assert!(!app.should_quit());
    handle_key(&mut app, key(KeyCode::Esc), Instant::now());
    assert!(app.should_quit());
    assert_eq!(app.selected_output, None);
}

#[test]
fn other_keys_do_nothing() {
    let mut app = app_with(&["a"]);
    assert_eq!(handle_key(&mut app, key(KeyCode::Other), Instant::now()), KeyAction::Handled);
    handle_key(&mut app, KeyPress { code: KeyCode::Enter, modifiers: KeyModifiers::Shift }, Instant::now());
    handle_key(&mut app, KeyPress { code: KeyCode::Backspace, modifiers: KeyModifiers::Shift }, Instant::now());
    assert_eq!(app.input(), "");
    assert!(!app.should_quit());
    assert_eq!(app.selected_index(), None);
}

#[test]
fn ctrl_c_quits() {
    let mut app = app_with(&["a"]);
    handle_key(&mut app, key(KeyCode::Down), Instant::now());
    assert_eq!(handle_key(&mut app, ctrl(KeyCode::Char('c')), Instant::now()), KeyAction::Handled);
    assert!(app.should_quit());
    assert_eq!(app.selected_output, None);
    let mut plain_c = App::new("s".to_string(), false);
    handle_key(&mut plain_c, key(KeyCode::Char('c')), Instant::now());
    assert!(!plain_c.should_quit());
    assert_eq!(plain_c.input(), "c");
}

#[test]
fn edits_are_stamped_with_the_given_time() {
    let mut app = App::new("s".to_string(), false);
    let t = Instant::now() + std::time::Duration::from_secs(5);
    handle_key(&mut app, key(KeyCode::Char('a')), t);
    assert_eq!(app.last_input_time(), t);
    let t2 = t + std::time::Duration::from_secs(1);
    handle_key(&mut app, key(KeyCode::Backspace), t2);
    assert_eq!(app.last_input_time, t2);
    let t3 = t2 + std::time::Duration::from_secs(1);
    handle_key(&mut app, key(KeyCode::Down), t3);
    assert_eq!(app.last_input_time, t2);
}
