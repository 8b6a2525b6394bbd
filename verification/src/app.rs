//! The picker's state: the query being typed, the script's output lines, the
//! selected line, a buffer of collected picks, and the flags the main loop reads.

use std::time::Instant;
use vstd::prelude::*;

use crate::text::{pop_char_from, push_char_to, str_equal, without_newlines};

verus! {

/// Milliseconds that must pass after the last keystroke before the script runs again.
pub const INPUT_DEBOUNCE_MS: u64 = 500;

#[verifier::external_type_specification]
#[verifier::external_body]
pub struct ExInstant(Instant);

/// Reads the clock; wraps `Instant::now`. Nothing is promised of the result.
#[verifier::external_body]
fn clock_now() -> Instant {
    Instant::now()
}

/// The mathematical model of an [`App`]: every field by its view.
pub struct AppView {
    pub input: Seq<char>,
    pub script_output: Seq<Seq<char>>,
    pub selected_index: Option<int>,
    pub script_name: Seq<char>,
    pub should_quit: bool,
    pub selected_output: Option<Seq<char>>,
    pub last_input_time: Instant,
    pub pending_update: bool,
    pub last_command: Seq<char>,
    pub is_loading: bool,
    pub debug_mode: bool,
    pub buffer: Seq<char>,
    pub buffer_selected: bool,
}

pub open spec fn opt_string_view(o: Option<String>) -> Option<Seq<char>> {
    match o {
        Some(s) => Some(s@),
        None => None,
    }
}

impl AppView {
    /// The selection, when there is one, points at an existing result line.
    pub open spec fn wf(self) -> bool {
        self.selected_index matches Some(i) ==> 0 <= i < self.script_output.len()
    }

    /// The text of the selected result line, if a line is selected.
    pub open spec fn selected_text(self) -> Option<Seq<char>> {
        match self.selected_index {
            Some(i) => if 0 <= i < self.script_output.len() {
                Some(self.script_output[i])
            } else {
                None
            },
            None => None,
        }
    }

    pub open spec fn has_results(self) -> bool {
        self.script_output.len() > 0
    }

    pub open spec fn has_buffer(self) -> bool {
        self.buffer.len() > 0
    }

    /// The query was edited to `input` at time `t`: an update is pending, and
    /// with no results on screen the selection is dropped.
    pub open spec fn edited(self, input: Seq<char>, t: Instant) -> AppView {
        AppView {
            input,
            last_input_time: t,
            pending_update: true,
            selected_index: if self.script_output.len() == 0 { None } else { self.selected_index },
            ..self
        }
    }

    /// The query with its last character removed, if it has one.
    pub open spec fn input_popped(self) -> Seq<char> {
        if self.input.len() > 0 { self.input.drop_last() } else { self.input }
    }

    /// New results arrived: the selection follows the previously selected text
    /// to its first occurrence in the new lines, or is dropped.
    pub open spec fn with_results(self, output: Seq<Seq<char>>, command: Seq<char>) -> AppView {
        AppView {
            script_output: output,
            last_command: command,
            selected_index: match self.selected_text() {
                Some(t) => output.index_of_first(t),
                None => None,
            },
            ..self
        }
    }

    pub open spec fn first_selected(self) -> AppView {
        if self.script_output.len() > 0 {
            AppView { selected_index: Some(0), ..self }
        } else {
            self
        }
    }

    pub open spec fn last_selected(self) -> AppView {
        if self.script_output.len() > 0 {
            AppView { selected_index: Some(self.script_output.len() - 1), ..self }
        } else {
            self
        }
    }

    /// Moves the selection one line down: from nothing to the first line, and
    /// not past the last line; does nothing without results or while loading.
    pub open spec fn next_selected(self) -> AppView {
        if self.script_output.len() == 0 || self.is_loading {
            self
        } else {
            match self.selected_index {
                None => self.first_selected(),
                Some(i) => if i < self.script_output.len() - 1 {
                    AppView { selected_index: Some(i + 1), ..self }
                } else {
                    self
                },
            }
        }
    }

    /// Moves the selection one line up: from nothing to the last line, and
    /// not before the first line; does nothing without results or while loading.
    pub open spec fn previous_selected(self) -> AppView {
        if self.script_output.len() == 0 || self.is_loading {
            self
        } else {
            match self.selected_index {
                None => self.last_selected(),
                Some(i) => if i > 0 {
                    AppView { selected_index: Some(i - 1), ..self }
                } else {
                    self
                },
            }
        }
    }
    pub open spec fn buffer_popped(self) -> AppView {
        AppView {
            buffer: if self.buffer.len() > 0 { self.buffer.drop_last() } else { self.buffer },
            ..self
        }
    }

    /// Picks the line now selected as the answer and asks to quit; nothing
    /// happens when no line is selected.
    pub open spec fn selection_entered(self) -> AppView {
        match self.selected_text() {
            Some(t) => AppView { selected_output: Some(t), should_quit: true, ..self },
            None => self,
        }
    }

    /// Picks the buffer, line feeds left out, as the answer and asks to quit;
    /// nothing happens when the buffer is empty.
    pub open spec fn buffer_entered(self) -> AppView {
        if self.buffer.len() > 0 {
            AppView {
                selected_output: Some(without_newlines(self.buffer)),
                should_quit: true,
                ..self
            }
        } else {
            self
        }
    }

    /// Moves the selected line into the buffer and starts a fresh search:
    /// empty query, no results, no selection, no pending update, buffer not
    /// selected; nothing happens when no line is selected.
    pub open spec fn selection_collected(self) -> AppView {
        match self.selected_text() {
            Some(t) => AppView {
                buffer: self.buffer + t,
                input: Seq::empty(),
                selected_index: None,
                script_output: Seq::empty(),
                pending_update: false,
                buffer_selected: false,
                ..self
            },
            None => self,
        }
    }
}

/// The picker's state.
pub struct App {
    input: String,
    script_output: Vec<String>,
    selected_index: Option<usize>,
    script_name: String,
    should_quit: bool,
    pub selected_output: Option<String>,
    pub last_input_time: Instant,
    pending_update: bool,
    last_command: String,
    is_loading: bool,
    pub debug_mode: bool,
    buffer: String,
    buffer_selected: bool,
}

impl View for App {
    type V = AppView;

    closed spec fn view(&self) -> AppView {
        AppView {
            input: self.input@,
            script_output: self.script_output.deep_view(),
            selected_index: match self.selected_index {
                Some(i) => Some(i as int),
                None => None,
            },
            script_name: self.script_name@,
            should_quit: self.should_quit,
            selected_output: opt_string_view(self.selected_output),
            last_input_time: self.last_input_time,
            pending_update: self.pending_update,
            last_command: self.last_command@,
            is_loading: self.is_loading,
            debug_mode: self.debug_mode,
            buffer: self.buffer@,
            buffer_selected: self.buffer_selected,
        }
    }
}

impl App {
    pub open spec fn wf(&self) -> bool {
        self@.wf()
    }

    /// A fresh picker for `script_name`: empty query, no results, nothing selected.
    pub fn new(script_name: String, debug_mode: bool) -> (app: App)
        ensures
            app.wf(),
            app@.input == Seq::<char>::empty(),
            app@.script_output == Seq::<Seq<char>>::empty(),
            app@.selected_index is None,
            app@.script_name == script_name@,
            !app@.should_quit,
            app@.selected_output is None,
            !app@.pending_update,
            app@.last_command == Seq::<char>::empty(),
            !app@.is_loading,
            app@.debug_mode == debug_mode,
            app@.buffer == Seq::<char>::empty(),
            !app@.buffer_selected,
    {
        let app = App {
            input: String::new(),
            script_output: Vec::new(),
            selected_index: None,
            script_name,
            should_quit: false,
            selected_output: None,
            last_input_time: clock_now(),
            pending_update: false,
            last_command: String::new(),
            is_loading: false,
            debug_mode,
            buffer: String::new(),
            buffer_selected: false,
        };
        proof {
            assert(app.script_output.deep_view() =~= Seq::<Seq<char>>::empty());
        }
        app
    }

    /// A fresh picker whose query starts as `initial_query`; a non-empty
    /// starting query is marked for an update, so the script runs on it.
    pub fn with_query(script_name: String, debug_mode: bool, initial_query: String) -> (app: App)
        ensures
            app.wf(),
            app@.input == initial_query@,
            app@.script_output == Seq::<Seq<char>>::empty(),
            app@.selected_index is None,
            app@.script_name == script_name@,
            !app@.should_quit,
            app@.selected_output is None,
            app@.pending_update == (initial_query@.len() > 0),
            app@.last_command == Seq::<char>::empty(),
            !app@.is_loading,
            app@.debug_mode == debug_mode,
            app@.buffer == Seq::<char>::empty(),
            !app@.buffer_selected,
    {
        let mut app = App::new(script_name, debug_mode);
        let pending = !initial_query.as_str().is_empty();
        app.input = initial_query;
        app.pending_update = pending;
        app
    }

    pub fn input(&self) -> (res: &str)
        ensures
            res@ == self@.input,
    {
        self.input.as_str()
    }

    pub fn script_output(&self) -> (res: &Vec<String>)
        ensures
            res.deep_view() == self@.script_output,
    {
        &self.script_output
    }

    pub fn selected_index(&self) -> (res: Option<usize>)
        ensures
            res matches Some(i) ==> self@.selected_index == Some(i as int),
            res is None ==> self@.selected_index is None,
    {
        self.selected_index
    }

    /// The answer recorded so far (the public field `selected_output`).
    pub fn selected_output(&self) -> (res: &Option<String>)
        ensures
            opt_string_view(*res) == self@.selected_output,
    {
        &self.selected_output
    }

    /// Whether the debug screen is shown (the public field `debug_mode`).
    pub fn debug_mode(&self) -> (res: bool)
        ensures
            res == self@.debug_mode,
    {
        self.debug_mode
    }

    /// The time stamped on the last edit of the query (the public field `last_input_time`).
    pub fn last_input_time(&self) -> (res: Instant)
        ensures
            res == self@.last_input_time,
    {
        self.last_input_time
    }

    pub fn script_name(&self) -> (res: &str)
        ensures
            res@ == self@.script_name,
    {
        self.script_name.as_str()
    }

    pub fn should_quit(&self) -> (res: bool)
        ensures
            res == self@.should_quit,
    {
        self.should_quit
    }

    pub fn pending_update(&self) -> (res: bool)
        ensures
            res == self@.pending_update,
    {
        self.pending_update
    }

    pub fn is_loading(&self) -> (res: bool)
        ensures
            res == self@.is_loading,
    {
        self.is_loading
    }

    pub fn last_command(&self) -> (res: &str)
        ensures
            res@ == self@.last_command,
    {
        self.last_command.as_str()
    }

    pub fn set_loading(&mut self, loading: bool)
        ensures
            final(self)@ == (AppView { is_loading: loading, ..old(self)@ }),
    {
        self.is_loading = loading;
    }

    /// Records the line the picker answers with.
    pub fn set_selected_output(&mut self, output: Option<String>)
        requires
            old(self).wf(),
        ensures
            final(self).wf(),
            final(self)@ == (AppView { selected_output: opt_string_view(output), ..old(self)@ }),
    {
        self.selected_output = output;
    }

    pub fn set_pending_update(&mut self, pending: bool)
        ensures
            final(self)@ == (AppView { pending_update: pending, ..old(self)@ }),
    {
        self.pending_update = pending;
    }

    /// Appends `c` to the query, stamping the edit with the time `now`.
    pub fn push_char_at(&mut self, c: char, now: Instant)
        requires
            old(self).wf(),
        ensures
            final(self).wf(),
            final(self)@ == old(self)@.edited(old(self)@.input.push(c), now),
    {
        push_char_to(&mut self.input, c);
        self.last_input_time = now;
        self.pending_update = true;
        if self.script_output.len() == 0 {
            self.selected_index = None;
        }
    }

    /// Appends `c` to the query, stamping the edit with the clock's reading,
    /// which is what `last_input_time` then holds.
    pub fn push_char(&mut self, c: char)
        requires
            old(self).wf(),
        ensures
            final(self).wf(),
            final(self)@ == old(self)@.edited(old(self)@.input.push(c), final(self)@.last_input_time),
    {
        self.push_char_at(c, clock_now());
    }

    /// Removes the last character of the query, if any, stamping the edit
    /// with the time `now`.
    pub fn pop_char_at(&mut self, now: Instant)
        requires
            old(self).wf(),
        ensures
            final(self).wf(),
            final(self)@ == old(self)@.edited(old(self)@.input_popped(), now),
    {
        let _ = pop_char_from(&mut self.input);
        self.last_input_time = now;
        self.pending_update = true;
        if self.script_output.len() == 0 {
            self.selected_index = None;
        }
    }

    /// Removes the last character of the query, if any, stamping the edit
    /// with the clock's reading, which is what `last_input_time` then holds.
    pub fn pop_char(&mut self)
        requires
            old(self).wf(),
        ensures
            final(self).wf(),
            final(self)@ == old(self)@.edited(old(self)@.input_popped(), final(self)@.last_input_time),
    {
        self.pop_char_at(clock_now());
    }

    pub fn clear_selection(&mut self)
        requires
            old(self).wf(),
        ensures
            final(self).wf(),
            final(self)@ == (AppView { selected_index: None, ..old(self)@ }),
    {
        self.selected_index = None;
    }

    pub fn quit(&mut self)
        ensures
            final(self)@ == (AppView { should_quit: true, ..old(self)@ }),
    {
        self.should_quit = true;
    }

    /// Index of the first line of `lines` equal to `text`.
    fn position_of(lines: &Vec<String>, text: &String) -> (res: Option<usize>)
        ensures
            match res {
                Some(i) => lines.deep_view().index_of_first(text@) == Some(i as int),
                None => lines.deep_view().index_of_first(text@) is None,
            },
    {
        let ghost lv = lines.deep_view();
        let mut i: usize = 0;
        while i < lines.len()
            invariant
                0 <= i <= lines.len(),
                lv == lines.deep_view(),
                forall|j: int| 0 <= j < i ==> lv[j] != text@,
            decreases lines.len() - i,
        {
            if str_equal(lines[i].as_str(), text.as_str()) {
                proof {
                    lv.index_of_first_ensures(text@);
                    assert(lv[i as int] == text@);
                    assert(lv.contains(text@));
                }
                return Some(i);
            }
            i = i + 1;
        }
        proof {
            lv.index_of_first_ensures(text@);
        }
        None
    }

    /// Replaces the results; the selection follows the previously selected text.
    pub fn update_results(&mut self, new_output: Vec<String>, command: String)
        requires
            old(self).wf(),
        ensures
            final(self).wf(),
            final(self)@ == old(self)@.with_results(new_output.deep_view(), command@),
    {
        let selected_text: Option<String> = match self.selected_index {
            Some(i) => if i < self.script_output.len() {
                Some(self.script_output[i].clone())
            } else {
                None
            },
            None => None,
        };
        let ghost nv = new_output.deep_view();
        self.script_output = new_output;
        self.last_command = command;
        self.selected_index = match &selected_text {
            Some(text) => Self::position_of(&self.script_output, text),
            None => None,
        };
        proof {
            match selected_text {
                Some(t) => {
                    nv.index_of_first_ensures(t@);
                },
                None => {},
            }
        }
    }

    pub fn select_first(&mut self)
        requires
            old(self).wf(),
        ensures
            final(self).wf(),
            final(self)@ == old(self)@.first_selected(),
    {
        if self.script_output.len() > 0 {
            self.selected_index = Some(0);
        }
    }

    pub fn select_last(&mut self)
        requires
            old(self).wf(),
        ensures
            final(self).wf(),
            final(self)@ == old(self)@.last_selected(),
    {
        if self.script_output.len() > 0 {
            self.selected_index = Some(self.script_output.len() - 1);
        }
    }

    pub fn select_next(&mut self)
        requires
            old(self).wf(),
        ensures
            final(self).wf(),
            final(self)@ == old(self)@.next_selected(),
    {
        if self.script_output.len() == 0 || self.is_loading {
            return;
        }
        match self.selected_index {
            None => self.select_first(),
            Some(i) => {
                if i < self.script_output.len() - 1 {
                    self.selected_index = Some(i + 1);
                }
            },
        }
    }

    pub fn select_previous(&mut self)
        requires
            old(self).wf(),
        ensures
            final(self).wf(),
            final(self)@ == old(self)@.previous_selected(),
    {
        if self.script_output.len() == 0 || self.is_loading {
            return;
        }
        match self.selected_index {
            None => self.select_last(),
            Some(i) => {
                if i > 0 {
                    self.selected_index = Some(i - 1);
                }
            },
        }
    }

    /// The text of the selected line, if a line is selected.
    pub fn select_current(&mut self) -> (res: Option<String>)
        ensures
            *final(self) == *old(self),
            opt_string_view(res) == old(self)@.selected_text(),
    {
        match self.selected_index {
            Some(i) => if i < self.script_output.len() {
                Some(self.script_output[i].clone())
            } else {
                None
            },
            None => None,
        }
    }

    pub fn has_selection(&self) -> (res: bool)
        ensures
            res == self@.selected_index is Some,
    {
        self.selected_index.is_some()
    }

    pub fn has_results(&self) -> (res: bool)
        ensures
            res == self@.has_results(),
    {
        self.script_output.len() > 0
    }
    pub fn is_buffer_selected(&self) -> (res: bool)
        ensures
            res == self@.buffer_selected,
    {
        self.buffer_selected
    }

    pub fn select_buffer(&mut self, selected: bool)
        requires
            old(self).wf(),
        ensures
            final(self).wf(),
            final(self)@ == (AppView { buffer_selected: selected, ..old(self)@ }),
    {
        self.buffer_selected = selected;
    }

    pub fn has_buffer(&self) -> (res: bool)
        ensures
            res == self@.has_buffer(),
    {
        !self.buffer.as_str().is_empty()
    }

    pub fn buffer(&self) -> (res: &str)
        ensures
            res@ == self@.buffer,
    {
        self.buffer.as_str()
    }

    /// Removes the last character of the buffer, if any.
    pub fn pop_buffer_char(&mut self)
        requires
            old(self).wf(),
        ensures
            final(self).wf(),
            final(self)@ == old(self)@.buffer_popped(),
    {
        let _ = pop_char_from(&mut self.buffer);
    }

    /// Appends `text` to the buffer.
    pub fn append_to_buffer(&mut self, text: &str)
        requires
            old(self).wf(),
        ensures
            final(self).wf(),
            final(self)@ == (AppView { buffer: old(self)@.buffer + text@, ..old(self)@ }),
    {
        self.buffer.append(text);
    }

    /// Empties the query.
    pub fn clear_input(&mut self)
        requires
            old(self).wf(),
        ensures
            final(self).wf(),
            final(self)@ == (AppView { input: Seq::empty(), ..old(self)@ }),
    {
        self.input = String::new();
    }

    /// Drops all result lines, and with them the selection.
    pub fn clear_results(&mut self)
        requires
            old(self).wf(),
        ensures
            final(self).wf(),
            final(self)@ == (AppView { script_output: Seq::empty(), selected_index: None, ..old(self)@ }),
    {
        self.script_output = Vec::new();
        self.selected_index = None;
        proof {
            assert(self.script_output.deep_view() =~= Seq::<Seq<char>>::empty());
        }
    }
}

} // verus!
