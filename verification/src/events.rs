//! What a key press does to the picker. Loading results is outside work: the
//! handler marks the picker as loading and answers [`KeyAction::LoadResults`];
//! the caller runs the script and hands the lines to [`App::complete_force_load`].

use vstd::prelude::*;

use crate::app::{App, AppView};
use crate::text::strip_newlines;
use std::time::Instant;

verus! {

/// The key that was pressed, as far as the picker tells keys apart.
#[derive(Clone, Copy, Debug, PartialEq, Eq, Structural)]
pub enum KeyCode {
    Char(char),
    Backspace,
    Enter,
    Up,
    Down,
    Esc,
    Other,
}

/// The modifier keys held: exactly none, exactly Shift, exactly Control, or
/// any other combination.
#[derive(Clone, Copy, Debug, PartialEq, Eq, Structural)]
pub enum KeyModifiers {
    Plain,
    Shift,
    Control,
    Other,
}

#[derive(Clone, Copy, Debug, PartialEq, Eq, Structural)]
pub struct KeyPress {
    pub code: KeyCode,
    pub modifiers: KeyModifiers,
}

/// What the caller must do after a key was handled.
#[derive(Clone, Copy, Debug, PartialEq, Eq, Structural)]
pub enum KeyAction {
    /// Nothing more.
    Handled,
    /// Run the script on the current query, then call `complete_force_load`.
    LoadResults,
}

/// Load now, because nothing is on screen: the picker is marked as loading.
pub open spec fn force_load_started(s: AppView) -> (AppView, KeyAction) {
    (AppView { is_loading: true, ..s }, KeyAction::LoadResults)
}

/// Ctrl+J (or Ctrl+Enter): output the selected buffer, collect the selected
/// line into the buffer, or load results when there are none.
pub open spec fn ctrl_j_step(s: AppView) -> (AppView, KeyAction) {
    if s.buffer_selected && s.has_buffer() {
        (s.buffer_entered(), KeyAction::Handled)
    } else if !s.buffer_selected && s.has_results() {
        (s.selection_collected(), KeyAction::Handled)
    } else if !s.has_results() && !s.is_loading {
        force_load_started(s)
    } else {
        (s, KeyAction::Handled)
    }
}

/// Enter: output the selected buffer, output the selected line, output the
/// buffer when the query is empty, or load results when there are none.
pub open spec fn enter_step(s: AppView) -> (AppView, KeyAction) {
    if s.buffer_selected && s.has_buffer() {
        (s.buffer_entered(), KeyAction::Handled)
    } else if !s.buffer_selected && s.has_results() {
        (s.selection_entered(), KeyAction::Handled)
    } else if s.input.len() == 0 && s.has_buffer() {
        (s.buffer_entered(), KeyAction::Handled)
    } else if !s.has_results() && !s.is_loading {
        force_load_started(s)
    } else {
        (s, KeyAction::Handled)
    }
}

/// Backspace on the buffer: remove its last character, and leave the buffer
/// once it is empty.
pub open spec fn buffer_backspace(s: AppView) -> AppView {
    let p = s.buffer_popped();
    if p.has_buffer() { p } else { AppView { buffer_selected: false, ..p } }
}

/// The effect of one key press on the picker, `t` being the time stamped on
/// an edit of the query. While results are loading every key is ignored;
/// Ctrl+C quits.
pub open spec fn key_step(s: AppView, key: KeyPress, t: Instant) -> (AppView, KeyAction) {
    if s.is_loading {
        (s, KeyAction::Handled)
    } else {
        let sel = s.buffer_selected;
        match (key.code, key.modifiers) {
            (KeyCode::Char(c), KeyModifiers::Plain) | (KeyCode::Char(c), KeyModifiers::Shift) => {
                let s1 = AppView { buffer_selected: false, ..s };
                (s1.edited(s1.input.push(c), t), KeyAction::Handled)
            },
            (KeyCode::Backspace, KeyModifiers::Plain) => {
                if sel && s.has_buffer() {
                    (buffer_backspace(s), KeyAction::Handled)
                } else {
                    (s.edited(s.input_popped(), t), KeyAction::Handled)
                }
            },
            (KeyCode::Backspace, KeyModifiers::Control) => {
                if s.has_buffer() {
                    (buffer_backspace(s), KeyAction::Handled)
                } else {
                    (s, KeyAction::Handled)
                }
            },
            (KeyCode::Char('j'), KeyModifiers::Control) | (KeyCode::Enter, KeyModifiers::Control) => {
                ctrl_j_step(s)
            },
            (KeyCode::Enter, KeyModifiers::Plain) => enter_step(s),
            (KeyCode::Down, _) | (KeyCode::Char('n'), KeyModifiers::Control) => {
                if s.has_buffer() && sel {
                    ((AppView { buffer_selected: false, ..s }).first_selected(), KeyAction::Handled)
                } else {
                    (s.next_selected(), KeyAction::Handled)
                }
            },
            (KeyCode::Up, _) | (KeyCode::Char('p'), KeyModifiers::Control) => {
                if !sel && s.selected_index == Some(0int) && s.has_buffer() {
                    (AppView { buffer_selected: true, ..s }, KeyAction::Handled)
                } else if sel && s.has_buffer() {
                    (s, KeyAction::Handled)
                } else {
                    (s.previous_selected(), KeyAction::Handled)
                }
            },
            (KeyCode::Esc, _) => {
                if s.selected_index is Some && !sel {
                    (AppView { selected_index: None, ..s }, KeyAction::Handled)
                } else if sel {
                    (AppView { buffer_selected: false, ..s }, KeyAction::Handled)
                } else {
                    (AppView { should_quit: true, ..s }, KeyAction::Handled)
                }
            },
            (KeyCode::Char('c'), KeyModifiers::Control) => {
                (AppView { should_quit: true, ..s }, KeyAction::Handled)
            },
            _ => (s, KeyAction::Handled),
        }
    }
}

/// Outputs the buffer, line feeds left out, and quits.
fn buffer_enter(app: &mut App)
    requires
        old(app).wf(),
    ensures
        final(app).wf(),
        final(app)@ == old(app)@.buffer_entered(),
{
    if app.has_buffer() {
        let output = strip_newlines(app.buffer());
        app.set_selected_output(Some(output));
        app.quit();
    }
}

/// Outputs the selected line and quits.
fn selection_enter(app: &mut App)
    requires
        old(app).wf(),
    ensures
        final(app).wf(),
        final(app)@ == old(app)@.selection_entered(),
{
    if let Some(selected) = app.select_current() {
        app.set_selected_output(Some(selected));
        app.quit();
    }
}

/// Moves the selected line into the buffer and starts a fresh search.
fn add_to_buffer(app: &mut App)
    requires
        old(app).wf(),
    ensures
        final(app).wf(),
        final(app)@ == old(app)@.selection_collected(),
{
    if let Some(selected) = app.select_current() {
        app.append_to_buffer(selected.as_str());
        app.clear_input();
        app.clear_selection();
        app.clear_results();
        app.set_pending_update(false);
        app.select_buffer(false);
    }
}

fn start_force_load(app: &mut App) -> (action: KeyAction)
    requires
        old(app).wf(),
    ensures
        final(app).wf(),
        (final(app)@, action) == force_load_started(old(app)@),
{
    app.set_loading(true);
    KeyAction::LoadResults
}

fn handle_ctrl_j(app: &mut App) -> (action: KeyAction)
    requires
        old(app).wf(),
    ensures
        final(app).wf(),
        (final(app)@, action) == ctrl_j_step(old(app)@),
{
    let is_buffer_selected = app.is_buffer_selected();
    if is_buffer_selected && app.has_buffer() {
        buffer_enter(app);
        KeyAction::Handled
    } else if !is_buffer_selected && app.has_results() {
        add_to_buffer(app);
        KeyAction::Handled
    } else if !app.has_results() && !app.is_loading() {
        start_force_load(app)
    } else {
        KeyAction::Handled
    }
}

fn handle_enter(app: &mut App) -> (action: KeyAction)
    requires
        old(app).wf(),
    ensures
        final(app).wf(),
        (final(app)@, action) == enter_step(old(app)@),
{
    let is_buffer_selected = app.is_buffer_selected();
    if is_buffer_selected && app.has_buffer() {
        buffer_enter(app);
        KeyAction::Handled
    } else if !is_buffer_selected && app.has_results() {
        selection_enter(app);
        KeyAction::Handled
    } else if app.input().is_empty() && app.has_buffer() {
        buffer_enter(app);
        KeyAction::Handled
    } else if !app.has_results() && !app.is_loading() {
        start_force_load(app)
    } else {
        KeyAction::Handled
    }
}

fn backspace_buffer(app: &mut App)
    requires
        old(app).wf(),
    ensures
        final(app).wf(),
        final(app)@ == buffer_backspace(old(app)@),
{
    app.pop_buffer_char();
    if !app.has_buffer() {
        app.select_buffer(false);
    }
}

/// Handles one key press at the time `now`, which stamps an edit of the
/// query. With [`KeyAction::LoadResults`] the caller owes a run of the script
/// on the query and a call of [`App::complete_force_load`].
pub fn handle_key(app: &mut App, key: KeyPress, now: Instant) -> (action: KeyAction)
    requires
        old(app).wf(),
    ensures
        final(app).wf(),
        (final(app)@, action) == key_step(old(app)@, key, now),
{
    if app.is_loading() {
        return KeyAction::Handled;
    }
    let is_buffer_selected = app.is_buffer_selected();
    match (key.code, key.modifiers) {
        (KeyCode::Char(c), KeyModifiers::Plain) | (KeyCode::Char(c), KeyModifiers::Shift) => {
            if is_buffer_selected {
                app.select_buffer(false);
            }
            app.push_char_at(c, now);
            KeyAction::Handled
        },
        (KeyCode::Backspace, KeyModifiers::Plain) => {
            if is_buffer_selected && app.has_buffer() {
                backspace_buffer(app);
            } else {
                app.pop_char_at(now);
            }
            KeyAction::Handled
        },
        (KeyCode::Backspace, KeyModifiers::Control) => {
            if app.has_buffer() {
                backspace_buffer(app);
            }
            KeyAction::Handled
        },
        (KeyCode::Char('j'), KeyModifiers::Control) | (KeyCode::Enter, KeyModifiers::Control) => {
            handle_ctrl_j(app)
        },
        (KeyCode::Enter, KeyModifiers::Plain) => handle_enter(app),
        (KeyCode::Down, _) | (KeyCode::Char('n'), KeyModifiers::Control) => {
            if app.has_buffer() && is_buffer_selected {
                app.select_buffer(false);
                if app.has_results() {
                    app.select_first();
                }
            } else {
                app.select_next();
            }
            KeyAction::Handled
        },
        (KeyCode::Up, _) | (KeyCode::Char('p'), KeyModifiers::Control) => {
            if !is_buffer_selected && app.selected_index() == Some(0usize) && app.has_buffer() {
                app.select_buffer(true);
            } else if is_buffer_selected && app.has_buffer() {
            } else {
                app.select_previous();
            }
            KeyAction::Handled
        },
        (KeyCode::Esc, _) => {
            if app.has_selection() && !is_buffer_selected {
                app.clear_selection();
            } else if is_buffer_selected {
                app.select_buffer(false);
            } else {
                app.quit();
            }
            KeyAction::Handled
        },
        (KeyCode::Char('c'), KeyModifiers::Control) => {
            app.quit();
            KeyAction::Handled
        },
        _ => KeyAction::Handled,
    }
}

impl App {
    /// Takes the lines and command line of a forced load: the results are
    /// replaced, loading and the pending update are over, and the first line
    /// is selected when there is one.
    pub fn complete_force_load(&mut self, new_output: Vec<String>, command: String)
        requires
            old(self).wf(),
        ensures
            final(self).wf(),
            final(self)@ == (AppView {
                is_loading: false,
                pending_update: false,
                ..old(self)@.with_results(new_output.deep_view(), command@)
            }).first_selected(),
    {
        self.update_results(new_output, command);
        self.set_loading(false);
        self.set_pending_update(false);
        if self.has_results() {
            self.select_first();
        }
    }
}

} // verus!
