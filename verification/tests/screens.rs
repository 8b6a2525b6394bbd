use script_picker::app::App;
use script_picker::schedule::{script_command, UpdateStep, UPDATE_CHECK_INTERVAL_MS};
use script_picker::screen::{debug_screen, normal_screen, results, separator_line};
use script_picker::text::strip_newlines;

const MS: u128 = 1_000_000;

#[test]
fn normal_screen_idle() {
    let mut app = App::new("s".to_string(), false);
    app.push_char('a');
    app.push_char('é');
    let screen = normal_screen(&app);
    assert!(!screen.loading);
    assert_eq!(screen.input_line, "> aé│");
    assert_eq!(screen.cursor_column, 2 + 3);
    assert_eq!(screen.buffer_line, None);
    assert_eq!(screen.results.rows, Vec::<String>::new());
    assert_eq!(screen.results.hint, Some("No results - try typing something else...".to_string()));
}

#[test]
fn normal_screen_loading_and_buffer() {
    let mut app = App::new("s".to_string(), false);
    app.set_loading(true);
    app.append_to_buffer("picked");
    let screen = normal_screen(&app);
    assert!(screen.loading);
    assert_eq!(screen.input_line, "⏳ ░");
    assert_eq!(screen.cursor_column, 4);
    assert_eq!(screen.buffer_line, Some("📋 picked".to_string()));
    assert!(!screen.buffer_selected);
    assert_eq!(screen.results.hint, Some("⏳ Loading...".to_string()));
    app.set_loading(false);
    app.select_buffer(true);
    let screen = normal_screen(&app);
    assert_eq!(screen.buffer_line, Some("> picked".to_string()));
    assert!(screen.buffer_selected);
    assert_eq!(screen.results.hint, Some("Type something and wait 500ms to see results...".to_string()));
}

#[test]
fn result_rows_show_empty_lines_as_space() {
    let mut app = App::new("s".to_string(), false);
    app.update_results(vec!["a".to_string(), String::new(), "c".to_string()], "s".to_string());
    app.select_last();
    let r = results(&app);
    assert_eq!(r.rows, vec!["a".to_string(), " ".to_string(), "c".to_string()]);
    assert_eq!(r.highlighted, Some(2));
    assert_eq!(r.hint, None);
}

#[test]
fn debug_screen_status() {
    let mut app = App::new("s".to_string(), true);
    let screen = debug_screen(&app);
    assert_eq!(screen.input_line, "> ");
    assert_eq!(screen.status_line, "Ready");
    app.update_results(vec!["x".to_string()], "s q".to_string());
    app.push_char('q');
    let screen = debug_screen(&app);
    assert_eq!(screen.input_line, "> q");
    assert_eq!(screen.status_line, "🔄 Last command: s q");
    assert_eq!(screen.results.rows, vec!["x".to_string()]);
    app.set_loading(true);
    let screen = debug_screen(&app);
    assert_eq!(screen.status_line, "⏳ Loading: s q");
    assert!(screen.loading);
}

#[test]
fn separator_has_width_cells() {
    assert_eq!(separator_line(3), "───");
    assert_eq!(separator_line(0), "");
}

#[test]
fn command_line_joins_name_and_query() {
    assert_eq!(script_command("./find.sh", "foo bar"), "./find.sh foo bar");
    assert_eq!(script_command("x", ""), "x ");
}

#[test]
fn strip_newlines_removes_only_line_feeds() {
    assert_eq!(strip_newlines("a\nb\n\nc\r"), "abc\r");
    assert_eq!(strip_newlines(""), "");
}

#[test]
fn update_waits_for_quiet_query() {
    let mut app = App::new("s".to_string(), false);
    assert_eq!(UPDATE_CHECK_INTERVAL_MS, 100);
    assert_eq!(app.update_step(200 * MS, 900 * MS), UpdateStep::Wait);
    app.push_char('a');
    assert_eq!(app.update_step(100 * MS, 900 * MS), UpdateStep::Wait);
    assert_eq!(app.update_step(100 * MS + 1, 500 * MS), UpdateStep::Recheck);
    assert_eq!(app.update_step(100 * MS + 1, 500 * MS + 1), UpdateStep::Run);
    app.set_loading(true);
    assert_eq!(app.update_step(200 * MS, 900 * MS), UpdateStep::Wait);
    app.complete_update(vec!["r".to_string()], "s a".to_string());
    assert!(!app.is_loading());
    assert!(!app.pending_update());
    assert_eq!(app.update_step(200 * MS, 900 * MS), UpdateStep::Wait);
    assert_eq!(app.last_command(), "s a");
}
