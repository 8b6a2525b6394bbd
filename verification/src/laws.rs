//! Properties of the picker that span several operations.

use std::time::Instant;
use vstd::prelude::*;

use crate::app::AppView;
use crate::events::{key_step, KeyAction, KeyCode, KeyModifiers, KeyPress};
use crate::schedule::{update_step_spec, UpdateStep};
use crate::text::without_newlines;

verus! {

pub open spec fn plain(code: KeyCode) -> KeyPress {
    KeyPress { code, modifiers: KeyModifiers::Plain }
}

pub open spec fn with_control(code: KeyCode) -> KeyPress {
    KeyPress { code, modifiers: KeyModifiers::Control }
}

/// When new results arrive, a selected line whose text is among them stays
/// selected, at its first occurrence; otherwise nothing is selected. Either
/// way the selection points at an existing line.
pub proof fn law_selection_follows_text(s: AppView, output: Seq<Seq<char>>, command: Seq<char>)
    requires
        s.wf(),
    ensures
        s.with_results(output, command).wf(),
        match s.selected_text() {
            Some(t) => if output.contains(t) {
                s.with_results(output, command).selected_text() == Some(t)
            } else {
                s.with_results(output, command).selected_index is None
            },
            None => s.with_results(output, command).selected_index is None,
        },
{
    if let Some(t) = s.selected_text() {
        output.index_of_first_ensures(t);
    }
}

/// Moving down and then up returns to the same line, unless the selection was
/// on the last line.
pub proof fn law_next_then_previous(s: AppView)
    requires
        s.wf(),
        !s.is_loading,
        s.selected_index matches Some(i) && i + 1 < s.script_output.len(),
    ensures
        s.next_selected().previous_selected() == s,
{
}

/// Moving up and then down returns to the same line, unless the selection was
/// on the first line.
pub proof fn law_previous_then_next(s: AppView)
    requires
        s.wf(),
        !s.is_loading,
        s.selected_index matches Some(i) && i > 0,
    ensures
        s.previous_selected().next_selected() == s,
{
}

/// While results are loading every key is ignored.
pub proof fn law_keys_ignored_while_loading(s: AppView, key: KeyPress, t: Instant)
    requires
        s.is_loading,
    ensures
        key_step(s, key, t) == (s, KeyAction::Handled),
{
}

/// Typing a character and then Backspace gives back the query, with an update
/// pending.
pub proof fn law_type_then_backspace(s: AppView, c: char, t1: Instant, t2: Instant)
    requires
        !s.is_loading,
    ensures
        ({
            let (s1, a1) = key_step(s, plain(KeyCode::Char(c)), t1);
            let (s2, a2) = key_step(s1, plain(KeyCode::Backspace), t2);
            &&& s2.input == s.input
            &&& s2.pending_update
            &&& a1 == KeyAction::Handled
            &&& a2 == KeyAction::Handled
        }),
{
    let (s1, a1) = key_step(s, plain(KeyCode::Char(c)), t1);
    assert(s1.input == s.input.push(c));
    assert(s.input.push(c).drop_last() =~= s.input);
}

/// Enter on a selected line, with the buffer not selected, answers with that
/// line and quits.
pub proof fn law_enter_answers_with_selected_line(s: AppView, t: Instant)
    requires
        s.wf(),
        !s.is_loading,
        !s.buffer_selected,
        s.selected_index is Some,
    ensures
        ({
            let (s1, a) = key_step(s, plain(KeyCode::Enter), t);
            &&& s1.should_quit
            &&& s1.selected_output == s.selected_text()
            &&& s1.selected_output is Some
            &&& a == KeyAction::Handled
        }),
{
}

/// Ctrl+J on a selected line moves it into the buffer and clears the search;
/// Enter then answers with the buffer, line feeds left out, and quits. (An
/// empty line collected into an empty buffer leaves nothing to answer with.)
pub proof fn law_collect_then_enter(s: AppView, t1: Instant, t2: Instant)
    requires
        s.wf(),
        !s.is_loading,
        !s.buffer_selected,
        s.selected_index is Some,
        !s.should_quit,
        s.buffer.len() > 0 || s.selected_text().unwrap().len() > 0,
    ensures
        ({
            let line = s.selected_text().unwrap();
            let (s1, a1) = key_step(s, with_control(KeyCode::Char('j')), t1);
            let (s2, a2) = key_step(s1, plain(KeyCode::Enter), t2);
            &&& s1.buffer == s.buffer + line
            &&& s1.input.len() == 0
            &&& s1.script_output.len() == 0
            &&& s1.selected_index is None
            &&& !s1.pending_update
            &&& !s1.should_quit
            &&& s2.should_quit
            &&& s2.selected_output == Some(without_newlines(s.buffer + line))
            &&& a1 == KeyAction::Handled
            &&& a2 == KeyAction::Handled
        }),
{
    let line = s.selected_text().unwrap();
    let (s1, a1) = key_step(s, with_control(KeyCode::Char('j')), t1);
    assert(s1.buffer.len() == s.buffer.len() + line.len());
}

/// A key other than Esc and Ctrl+C makes the picker quit only with an answer.
pub proof fn law_quit_only_with_answer(s: AppView, key: KeyPress, t: Instant)
    requires
        !s.should_quit,
        !(key.code is Esc),
        key != with_control(KeyCode::Char('c')),
    ensures
        key_step(s, key, t).0.should_quit ==> key_step(s, key, t).0.selected_output is Some,
{
}

/// Ctrl+C quits whenever nothing is loading, leaving the answer as it was.
pub proof fn law_ctrl_c_quits(s: AppView, t: Instant)
    requires
        !s.is_loading,
    ensures
        ({
            let (s1, a) = key_step(s, with_control(KeyCode::Char('c')), t);
            &&& s1.should_quit
            &&& s1.selected_output == s.selected_output
            &&& a == KeyAction::Handled
        }),
{
}

/// Three presses of Esc always quit, when nothing is loading: the first ones
/// leave the buffer and drop the selection.
pub proof fn law_three_escapes_quit(s: AppView, t: Instant)
    requires
        !s.is_loading,
    ensures
        ({
            let esc = plain(KeyCode::Esc);
            let s1 = key_step(s, esc, t).0;
            let s2 = key_step(s1, esc, t).0;
            key_step(s2, esc, t).0.should_quit
        }),
{
}

/// The script runs only for a pending update, when nothing is loading, after
/// the check interval and after the debounce delay since the last edit.
pub proof fn law_runs_only_when_due(s: AppView, since_check_nanos: u128, since_input_nanos: u128)
    ensures
        update_step_spec(s, since_check_nanos, since_input_nanos) == UpdateStep::Run ==> {
            &&& s.pending_update
            &&& !s.is_loading
            &&& since_check_nanos > 100_000_000
            &&& since_input_nanos > 500_000_000
        },
{
}

/// Once a run's results are in, nothing is due until the query is edited again.
pub proof fn law_no_rerun_after_update(
    s: AppView,
    output: Seq<Seq<char>>,
    command: Seq<char>,
    since_check_nanos: u128,
    since_input_nanos: u128,
)
    ensures
        update_step_spec(
            AppView { is_loading: false, pending_update: false, ..s.with_results(output, command) },
            since_check_nanos,
            since_input_nanos,
        ) == UpdateStep::Wait,
{
}

/// Typing makes an update due once the query has rested long enough.
pub proof fn law_edit_makes_update_due(s: AppView, c: char, t: Instant, since_check_nanos: u128, since_input_nanos: u128)
    requires
        !s.is_loading,
        since_check_nanos > 100_000_000,
        since_input_nanos > 500_000_000,
    ensures
        update_step_spec(
            key_step(s, plain(KeyCode::Char(c)), t).0,
            since_check_nanos,
            since_input_nanos,
        ) == UpdateStep::Run,
{
}

/// An answer taken from the buffer holds no line feed.
pub proof fn law_buffer_answer_has_no_line_feed(buffer: Seq<char>)
    ensures
        forall|i: int| 0 <= i < without_newlines(buffer).len() ==> without_newlines(buffer)[i] != '\n',
{
    assert forall|i: int| 0 <= i < without_newlines(buffer).len() implies without_newlines(buffer)[i] != '\n' by {
        buffer.lemma_filter_pred(|c: char| c != '\n', i);
    }
}

/// One call that changes an [`App`]: a public method, or a write to a public
/// field, with its arguments by their views.
pub enum AppOp {
    PushChar(char, Instant),
    PopChar(Instant),
    ClearSelection,
    Quit,
    UpdateResults(Seq<Seq<char>>, Seq<char>),
    SelectFirst,
    SelectLast,
    SelectNext,
    SelectPrevious,
    SelectCurrent,
    SetLoading(bool),
    SetPendingUpdate(bool),
    SetSelectedOutput(Option<Seq<char>>),
    SetDebugMode(bool),
    SetLastInputTime(Instant),
    SelectBuffer(bool),
    PopBufferChar,
    AppendToBuffer(Seq<char>),
    ClearInput,
    ClearResults,
    CompleteUpdate(Seq<Seq<char>>, Seq<char>),
    CompleteForceLoad(Seq<Seq<char>>, Seq<char>),
    Key(KeyPress, Instant),
}

/// The state after `op`, as the `ensures` of the call states it.
pub open spec fn apply(s: AppView, op: AppOp) -> AppView {
    match op {
        AppOp::PushChar(c, t) => s.edited(s.input.push(c), t),
        AppOp::PopChar(t) => s.edited(s.input_popped(), t),
        AppOp::ClearSelection => AppView { selected_index: None, ..s },
        AppOp::Quit => AppView { should_quit: true, ..s },
        AppOp::UpdateResults(out, cmd) => s.with_results(out, cmd),
        AppOp::SelectFirst => s.first_selected(),
        AppOp::SelectLast => s.last_selected(),
        AppOp::SelectNext => s.next_selected(),
        AppOp::SelectPrevious => s.previous_selected(),
        AppOp::SelectCurrent => s,
        AppOp::SetLoading(b) => AppView { is_loading: b, ..s },
        AppOp::SetPendingUpdate(b) => AppView { pending_update: b, ..s },
        AppOp::SetSelectedOutput(o) => AppView { selected_output: o, ..s },
        AppOp::SetDebugMode(b) => AppView { debug_mode: b, ..s },
        AppOp::SetLastInputTime(t) => AppView { last_input_time: t, ..s },
        AppOp::SelectBuffer(b) => AppView { buffer_selected: b, ..s },
        AppOp::PopBufferChar => s.buffer_popped(),
        AppOp::AppendToBuffer(text) => AppView { buffer: s.buffer + text, ..s },
        AppOp::ClearInput => AppView { input: Seq::empty(), ..s },
        AppOp::ClearResults => AppView { script_output: Seq::empty(), selected_index: None, ..s },
        AppOp::CompleteUpdate(out, cmd) => AppView {
            is_loading: false,
            pending_update: false,
            ..s.with_results(out, cmd)
        },
        AppOp::CompleteForceLoad(out, cmd) => (AppView {
            is_loading: false,
            pending_update: false,
            ..s.with_results(out, cmd)
        }).first_selected(),
        AppOp::Key(key, t) => key_step(s, key, t).0,
    }
}

/// The state after the calls `ops`, in order.
pub open spec fn run(s: AppView, ops: Seq<AppOp>) -> AppView
    decreases ops.len(),
{
    if ops.len() == 0 {
        s
    } else {
        apply(run(s, ops.drop_last()), ops.last())
    }
}

proof fn lemma_apply_keeps(s: AppView, op: AppOp)
    requires
        s.wf(),
    ensures
        apply(s, op).wf(),
        apply(s, op).script_name == s.script_name,
        s.should_quit ==> apply(s, op).should_quit,
{
    match op {
        AppOp::UpdateResults(out, cmd) => law_selection_follows_text(s, out, cmd),
        AppOp::CompleteUpdate(out, cmd) => law_selection_follows_text(s, out, cmd),
        AppOp::CompleteForceLoad(out, cmd) => law_selection_follows_text(s, out, cmd),
        _ => {},
    }
}

/// Whatever calls are made on a well-formed picker (one fresh from `App::new`
/// or `App::with_query` is), the selection stays on an existing line, the
/// script's name never changes, and once quitting it stays quitting.
pub proof fn law_reachable_states(s: AppView, ops: Seq<AppOp>)
    requires
        s.wf(),
    ensures
        run(s, ops).wf(),
        run(s, ops).script_name == s.script_name,
        s.should_quit ==> run(s, ops).should_quit,
    decreases ops.len(),
{
    if ops.len() > 0 {
        law_reachable_states(s, ops.drop_last());
        lemma_apply_keeps(run(s, ops.drop_last()), ops.last());
    }
}

} // verus!
