//! What the two screens show, as plain text and flags; drawing them is left to
//! the terminal front end.

use vstd::prelude::*;
use vstd::utf8::encode_utf8;

use crate::app::{App, AppView};
use crate::text::push_char_to;

verus! {

/// Result lines as listed: an empty line is shown as a single space.
pub open spec fn display_rows(lines: Seq<Seq<char>>) -> Seq<Seq<char>> {
    lines.map_values(|l: Seq<char>| if l.len() == 0 { " "@ } else { l })
}

/// The hint shown in place of results: loading, nothing typed yet, or nothing found.
pub open spec fn hint_text(s: AppView) -> Seq<char> {
    if s.is_loading {
        "⏳ Loading..."@
    } else if s.input.len() == 0 {
        "Type something and wait 500ms to see results..."@
    } else {
        "No results - try typing something else..."@
    }
}

/// The length in bytes of the UTF-8 encoding of `s`, as `str::len` reports it.
pub open spec fn byte_len(s: Seq<char>) -> usize {
    encode_utf8(s).len() as usize
}

/// The mark in front of the query on the normal screen.
pub open spec fn input_prefix(loading: bool) -> Seq<char> {
    if loading { "⏳ "@ } else { "> "@ }
}

/// The cursor drawn after the query on the normal screen.
pub open spec fn cursor_mark(loading: bool) -> char {
    if loading { '░' } else { '│' }
}

/// The mark in front of the buffer: a pointer when it is selected.
pub open spec fn buffer_prefix(selected: bool) -> Seq<char> {
    if selected { "> "@ } else { "📋 "@ }
}

/// The debug screen's status line.
pub open spec fn status_text(s: AppView) -> Seq<char> {
    if s.is_loading {
        "⏳ Loading: "@ + s.last_command
    } else if s.last_command.len() > 0 {
        "🔄 Last command: "@ + s.last_command
    } else {
        "Ready"@
    }
}

/// The lines and hint below the query, shared by both screens.
pub struct ResultsView {
    pub rows: Seq<Seq<char>>,
    pub highlighted: Option<int>,
    pub hint: Option<Seq<char>>,
}

/// With results, every line (see [`display_rows`]) and the selected one
/// highlighted; without, the hint.
pub open spec fn results_spec(s: AppView) -> ResultsView {
    if s.script_output.len() > 0 {
        ResultsView { rows: display_rows(s.script_output), highlighted: s.selected_index, hint: None }
    } else {
        ResultsView { rows: Seq::empty(), highlighted: None, hint: Some(hint_text(s)) }
    }
}

/// The lines below the query.
pub struct Results {
    pub rows: Vec<String>,
    pub highlighted: Option<usize>,
    pub hint: Option<String>,
}

impl View for Results {
    type V = ResultsView;

    open spec fn view(&self) -> ResultsView {
        ResultsView {
            rows: self.rows.deep_view(),
            highlighted: match self.highlighted {
                Some(i) => Some(i as int),
                None => None,
            },
            hint: match self.hint {
                Some(h) => Some(h@),
                None => None,
            },
        }
    }
}

pub struct NormalScreenView {
    pub loading: bool,
    pub input_line: Seq<char>,
    pub cursor_column: int,
    pub buffer_line: Option<Seq<char>>,
    pub buffer_selected: bool,
    pub results: ResultsView,
}

/// The normal screen of a picker in state `s`: the query between its mark and
/// the cursor; the cursor's column counted in bytes of the mark and the query
/// (see [`byte_len`]), as far as a `usize` reaches; the buffer line when the buffer holds text;
/// and the results.
pub open spec fn normal_screen_spec(s: AppView) -> NormalScreenView {
    let col = byte_len(input_prefix(s.is_loading)) + byte_len(s.input);
    NormalScreenView {
        loading: s.is_loading,
        input_line: input_prefix(s.is_loading) + s.input + seq![cursor_mark(s.is_loading)],
        cursor_column: if col <= usize::MAX { col as int } else { usize::MAX as int },
        buffer_line: if s.buffer.len() > 0 {
            Some(buffer_prefix(s.buffer_selected) + s.buffer)
        } else {
            None
        },
        buffer_selected: s.buffer_selected,
        results: results_spec(s),
    }
}

/// The normal screen's contents.
pub struct NormalScreen {
    pub loading: bool,
    pub input_line: String,
    pub cursor_column: usize,
    pub buffer_line: Option<String>,
    pub buffer_selected: bool,
    pub results: Results,
}

impl View for NormalScreen {
    type V = NormalScreenView;

    open spec fn view(&self) -> NormalScreenView {
        NormalScreenView {
            loading: self.loading,
            input_line: self.input_line@,
            cursor_column: self.cursor_column as int,
            buffer_line: match self.buffer_line {
                Some(b) => Some(b@),
                None => None,
            },
            buffer_selected: self.buffer_selected,
            results: self.results@,
        }
    }
}

pub struct DebugScreenView {
    pub loading: bool,
    pub input_line: Seq<char>,
    pub status_line: Seq<char>,
    pub results: ResultsView,
}

/// The debug screen of a picker in state `s`: the query after "> ", the status
/// line, and the results.
pub open spec fn debug_screen_spec(s: AppView) -> DebugScreenView {
    DebugScreenView {
        loading: s.is_loading,
        input_line: "> "@ + s.input,
        status_line: status_text(s),
        results: results_spec(s),
    }
}

/// The debug screen's contents.
pub struct DebugScreen {
    pub loading: bool,
    pub input_line: String,
    pub status_line: String,
    pub results: Results,
}

impl View for DebugScreen {
    type V = DebugScreenView;

    open spec fn view(&self) -> DebugScreenView {
        DebugScreenView {
            loading: self.loading,
            input_line: self.input_line@,
            status_line: self.status_line@,
            results: self.results@,
        }
    }
}

/// The result lines as listed.
fn display_lines(lines: &Vec<String>) -> (res: Vec<String>)
    ensures
        res.deep_view() == display_rows(lines.deep_view()),
{
    let ghost lv = lines.deep_view();
    let mut rows: Vec<String> = Vec::new();
    let mut i: usize = 0;
    while i < lines.len()
        invariant
            0 <= i <= lines.len(),
            lv == lines.deep_view(),
            rows.deep_view() =~= display_rows(lv.take(i as int)),
        decreases lines.len() - i,
    {
        let line = &lines[i];
        if line.as_str().is_empty() {
            rows.push(" ".to_owned());
        } else {
            rows.push(line.clone());
        }
        proof {
            assert(lv.take(i as int + 1) =~= lv.take(i as int).push(lv[i as int]));
            assert(display_rows(lv.take(i as int + 1)) =~= display_rows(lv.take(i as int)).push(
                if lv[i as int].len() == 0 { " "@ } else { lv[i as int] },
            ));
        }
        i = i + 1;
    }
    proof {
        assert(lv.take(lines.len() as int) =~= lv);
    }
    rows
}

fn hint(app: &App) -> (res: String)
    ensures
        res@ == hint_text(app@),
{
    if app.is_loading() {
        "⏳ Loading...".to_owned()
    } else if app.input().is_empty() {
        "Type something and wait 500ms to see results...".to_owned()
    } else {
        "No results - try typing something else...".to_owned()
    }
}

/// The lines below the query.
pub fn results(app: &App) -> (res: Results)
    ensures
        res@ == results_spec(app@),
{
    if app.has_results() {
        Results {
            rows: display_lines(app.script_output()),
            highlighted: app.selected_index(),
            hint: None,
        }
    } else {
        let rows: Vec<String> = Vec::new();
        proof {
            assert(rows.deep_view() =~= Seq::<Seq<char>>::empty());
        }
        Results { rows, highlighted: None, hint: Some(hint(app)) }
    }
}

/// The normal screen's contents for `app`.
pub fn normal_screen(app: &App) -> (res: NormalScreen)
    ensures
        res@ == normal_screen_spec(app@),
{
    let loading = app.is_loading();
    let prefix: &str = if loading { "⏳ " } else { "> " };
    let cursor: char = if loading { '░' } else { '│' };
    let mut input_line = prefix.to_owned();
    input_line.append(app.input());
    push_char_to(&mut input_line, cursor);
    let cursor_column = prefix.len().saturating_add(app.input().len());
    assert(prefix@ == input_prefix(loading));
    assert(cursor_column == normal_screen_spec(app@).cursor_column);
    assert(input_line@ == normal_screen_spec(app@).input_line);
    let buffer_selected = app.is_buffer_selected();
    let buffer_line = if app.has_buffer() {
        let mut line = if buffer_selected { "> ".to_owned() } else { "📋 ".to_owned() };
        line.append(app.buffer());
        Some(line)
    } else {
        None
    };
    NormalScreen {
        loading,
        input_line,
        cursor_column,
        buffer_line,
        buffer_selected,
        results: results(app),
    }
}

/// The debug screen's contents for `app`.
pub fn debug_screen(app: &App) -> (res: DebugScreen)
    ensures
        res@ == debug_screen_spec(app@),
{
    let mut input_line = "> ".to_owned();
    input_line.append(app.input());
    let status_line = if app.is_loading() {
        let mut s = "⏳ Loading: ".to_owned();
        s.append(app.last_command());
        s
    } else if !app.last_command().is_empty() {
        let mut s = "🔄 Last command: ".to_owned();
        s.append(app.last_command());
        s
    } else {
        "Ready".to_owned()
    };
    DebugScreen {
        loading: app.is_loading(),
        input_line,
        status_line,
        results: results(app),
    }
}

/// A horizontal rule `width` cells wide.
pub fn separator_line(width: usize) -> (res: String)
    ensures
        res@ == Seq::new(width as nat, |i: int| '─'),
{
    let mut line = String::new();
    let mut i: usize = 0;
    while i < width
        invariant
            0 <= i <= width,
            line@ =~= Seq::new(i as nat, |k: int| '─'),
        decreases width - i,
    {
        push_char_to(&mut line, '─');
        i = i + 1;
    }
    line
}

} // verus!
