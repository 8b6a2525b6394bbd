use script_picker::app::{App, INPUT_DEBOUNCE_MS};

fn lines(items: &[&str]) -> Vec<String> {
    items.iter().map(|s| s.to_string()).collect()
}

fn app_with(items: &[&str]) -> App {
    let mut app = App::new("script.sh".to_string(), false);
    app.update_results(lines(items), "script.sh ".to_string());
    app
}

#[test]
fn new_app_is_empty() {
    let app = App::new("find.sh".to_string(), true);
    assert_eq!(app.input(), "");
    assert!(app.script_output().is_empty());
    assert_eq!(app.selected_index(), None);
    assert_eq!(app.script_name(), "find.sh");
    assert!(!app.should_quit());
    assert!(!app.pending_update());
    assert!(!app.is_loading());
    assert_eq!(app.last_command(), "");
    assert!(app.debug_mode);
    assert_eq!(app.selected_output, None);
    assert!(!app.has_buffer());
    assert!(!app.is_buffer_selected());
    assert!(!app.has_results());
    assert!(!app.has_selection());
    assert_eq!(INPUT_DEBOUNCE_MS, 500);
}

#[test]
fn with_query_starts_pending() {
    let app = App::with_query("s".to_string(), false, "abc".to_string());
    assert_eq!(app.input(), "abc");
    assert!(app.pending_update());
    let app = App::with_query("s".to_string(), false, String::new());
    assert_eq!(app.input(), "");
    assert!(!app.pending_update());
}

#[test]
fn push_and_pop_edit_the_query() {
    let mut app = App::new("s".to_string(), false);
    let before = app.last_input_time;
    app.push_char('a');
    app.push_char('ж');
    assert_eq!(app.input(), "aж");
    assert!(app.pending_update());
    assert!(app.last_input_time >= before);
    app.set_pending_update(false);
    app.pop_char();
    assert_eq!(app.input(), "a");
    assert!(app.pending_update());
    app.pop_char();
    app.pop_char();
    assert_eq!(app.input(), "");
}

#[test]
fn editing_keeps_selection_only_with_results() {
    let mut app = app_with(&["x", "y"]);
    app.select_last();
    app.push_char('q');
    assert_eq!(app.selected_index(), Some(1));
    app.clear_results();
    assert_eq!(app.selected_index(), None);
    app.pop_char();
    assert_eq!(app.selected_index(), None);
}

#[test]
fn update_results_follows_selected_text() {
    let mut app = app_with(&["alpha", "beta", "gamma"]);
    app.select_next();
    app.select_next();
    assert_eq!(app.selected_index(), Some(1));
    app.update_results(lines(&["zeta", "beta", "beta"]), "s b".to_string());
    assert_eq!(app.selected_index(), Some(1));
    assert_eq!(app.last_command(), "s b");
    app.update_results(lines(&["beta", "x"]), "s".to_string());
    assert_eq!(app.selected_index(), Some(0));
    app.update_results(lines(&["other"]), "s".to_string());
    assert_eq!(app.selected_index(), None);
    app.update_results(lines(&["beta"]), "s".to_string());
    assert_eq!(app.selected_index(), None);
}

#[test]
fn select_first_and_last() {
    let mut app = App::new("s".to_string(), false);
    app.select_first();
    assert_eq!(app.selected_index(), None);
    app.select_last();
    assert_eq!(app.selected_index(), None);
    let mut app = app_with(&["a", "b", "c"]);
    app.select_last();
    assert_eq!(app.selected_index(), Some(2));
    app.select_first();
    assert_eq!(app.selected_index(), Some(0));
}

#[test]
fn select_next_stops_at_last_line() {
    let mut app = app_with(&["a", "b"]);
    app.select_next();
    assert_eq!(app.selected_index(), Some(0));
    app.select_next();
    assert_eq!(app.selected_index(), Some(1));
    app.select_next();
    assert_eq!(app.selected_index(), Some(1));
}

#[test]
fn select_previous_stops_at_first_line() {
    let mut app = app_with(&["a", "b", "c"]);
    app.select_previous();
    assert_eq!(app.selected_index(), Some(2));
    app.select_previous();
    app.select_previous();
    assert_eq!(app.selected_index(), Some(0));
    app.select_previous();
    assert_eq!(app.selected_index(), Some(0));
}

#[test]
fn navigation_is_ignored_while_loading_or_empty() {
    let mut app = app_with(&["a", "b"]);
    app.set_loading(true);
    assert!(app.is_loading());
    app.select_next();
    app.select_previous();
    assert_eq!(app.selected_index(), None);
    let mut empty = App::new("s".to_string(), false);
    empty.select_next();
    empty.select_previous();
    assert_eq!(empty.selected_index(), None);
}

#[test]
fn next_then_previous_returns() {
    let mut app = app_with(&["a", "b", "c"]);
    app.select_first();
    app.select_next();
    assert_eq!(app.selected_index(), Some(1));
    app.select_next();
    app.select_previous();
    assert_eq!(app.selected_index(), Some(1));
    app.select_previous();
    app.select_next();
    assert_eq!(app.selected_index(), Some(1));
}

#[test]
fn select_current_gives_selected_text() {
    let mut app = app_with(&["a", "b"]);
    assert_eq!(app.select_current(), None);
    app.select_last();
    assert_eq!(app.select_current(), Some("b".to_string()));
    assert_eq!(app.selected_index(), Some(1));
    assert!(app.has_selection());
    app.clear_selection();
    assert!(!app.has_selection());
    assert_eq!(app.select_current(), None);
}

#[test]
fn flags_and_quit() {
    let mut app = App::new("s".to_string(), false);
    app.set_loading(true);
    assert!(app.is_loading());
    app.set_loading(false);
    assert!(!app.is_loading());
    app.set_pending_update(true);
    assert!(app.pending_update());
    app.quit();
    assert!(app.should_quit());
    app.set_selected_output(Some("x".to_string()));
    assert_eq!(app.selected_output, Some("x".to_string()));
}

#[test]
fn buffer_operations() {
    let mut app = App::new("s".to_string(), false);
    app.append_to_buffer("ab");
    app.append_to_buffer("c");
    assert_eq!(app.buffer(), "abc");
    assert!(app.has_buffer());
    app.select_buffer(true);
    assert!(app.is_buffer_selected());
    app.pop_buffer_char();
    assert_eq!(app.buffer(), "ab");
    app.pop_buffer_char();
    app.pop_buffer_char();
    app.pop_buffer_char();
    assert_eq!(app.buffer(), "");
    assert!(!app.has_buffer());
    app.push_char('z');
    app.clear_input();
    assert_eq!(app.input(), "");
}

#[test]
fn complete_force_load_selects_first_line() {
    let mut app = App::new("s".to_string(), false);
    app.set_loading(true);
    app.set_pending_update(true);
    app.complete_force_load(lines(&["one", "two"]), "s q".to_string());
    assert!(!app.is_loading());
    assert!(!app.pending_update());
    assert_eq!(app.selected_index(), Some(0));
    assert_eq!(app.last_command(), "s q");
    let mut app = App::new("s".to_string(), false);
    app.complete_force_load(Vec::new(), "s".to_string());
    assert_eq!(app.selected_index(), None);
}

#[test]
fn edits_at_a_given_time() {
    let mut app = App::new("s".to_string(), true);
    let t = std::time::Instant::now() + std::time::Duration::from_secs(3);
    app.push_char_at('x', t);
    assert_eq!(app.input(), "x");
    assert_eq!(app.last_input_time(), t);
    assert!(app.pending_update());
    let t2 = t + std::time::Duration::from_secs(1);
    app.pop_char_at(t2);
    assert_eq!(app.input(), "");
    assert_eq!(app.last_input_time(), t2);
    assert!(app.debug_mode());
    assert_eq!(app.selected_output(), &None);
}
