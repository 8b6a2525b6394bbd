//! What each key does, stated over the fields of the picker's state.

use std::time::Instant;
use vstd::prelude::*;

use crate::app::AppView;
use crate::events::{key_step, KeyAction, KeyCode, KeyModifiers, KeyPress};
use crate::laws::{plain, with_control};
use crate::text::without_newlines;

verus! {

/// Enter with the buffer selected and holding text answers with the buffer,
/// line feeds left out, and quits; the query, results and buffer stay.
pub proof fn law_enter_on_buffer_answers_with_buffer(s: AppView, t: Instant)
    requires
        !s.is_loading,
        s.buffer_selected,
        s.buffer.len() > 0,
    ensures
        ({
            let (s1, a) = key_step(s, plain(KeyCode::Enter), t);
            &&& s1.should_quit
            &&& s1.selected_output == Some(without_newlines(s.buffer))
            &&& s1.buffer == s.buffer
            &&& s1.input == s.input
            &&& s1.script_output == s.script_output
            &&& a == KeyAction::Handled
        }),
{
}

/// Ctrl+J or Ctrl+Enter with the buffer selected and holding text answers
/// with the buffer, line feeds left out, and quits; the buffer stays.
pub proof fn law_ctrl_j_on_buffer_answers_with_buffer(s: AppView, t: Instant)
    requires
        !s.is_loading,
        s.buffer_selected,
        s.buffer.len() > 0,
    ensures
        ({
            let (s1, a) = key_step(s, with_control(KeyCode::Char('j')), t);
            let (s2, b) = key_step(s, with_control(KeyCode::Enter), t);
            &&& s1.should_quit
            &&& s1.selected_output == Some(without_newlines(s.buffer))
            &&& s1.buffer == s.buffer
            &&& a == KeyAction::Handled
            &&& s2 == s1
            &&& b == KeyAction::Handled
        }),
{
}

/// Enter on the `i`-th line, the buffer not selected, answers with that line
/// and quits.
pub proof fn law_enter_on_line_answers_with_line(s: AppView, i: int, t: Instant)
    requires
        !s.is_loading,
        !s.buffer_selected,
        s.selected_index == Some(i),
        0 <= i < s.script_output.len(),
    ensures
        ({
            let (s1, a) = key_step(s, plain(KeyCode::Enter), t);
            &&& s1.should_quit
            &&& s1.selected_output == Some(s.script_output[i])
            &&& a == KeyAction::Handled
        }),
{
}

/// Enter with results on screen but no line selected (and the buffer not
/// selected) changes nothing.
pub proof fn law_enter_without_selection_is_ignored(s: AppView, t: Instant)
    requires
        !s.is_loading,
        !s.buffer_selected,
        s.script_output.len() > 0,
        s.selected_index is None,
    ensures
        key_step(s, plain(KeyCode::Enter), t) == (s, KeyAction::Handled),
{
}

/// Enter with an empty query, no results and text in the buffer answers with
/// the buffer, line feeds left out, and quits.
pub proof fn law_enter_on_empty_query_answers_with_buffer(s: AppView, t: Instant)
    requires
        !s.is_loading,
        s.script_output.len() == 0,
        s.input.len() == 0,
        s.buffer.len() > 0,
    ensures
        ({
            let (s1, a) = key_step(s, plain(KeyCode::Enter), t);
            &&& s1.should_quit
            &&& s1.selected_output == Some(without_newlines(s.buffer))
            &&& a == KeyAction::Handled
        }),
{
}

/// Enter or Ctrl+J with nothing on screen and no buffer to answer with starts
/// a load: the picker is marked loading, nothing else changes.
pub proof fn law_enter_without_results_loads(s: AppView, t: Instant)
    requires
        !s.is_loading,
        s.script_output.len() == 0,
        s.buffer.len() == 0,
    ensures
        ({
            let (s1, a) = key_step(s, plain(KeyCode::Enter), t);
            let (s2, b) = key_step(s, with_control(KeyCode::Char('j')), t);
            &&& a == KeyAction::LoadResults
            &&& s1.is_loading
            &&& s1 == (AppView { is_loading: true, ..s })
            &&& b == KeyAction::LoadResults
            &&& s2 == s1
        }),
{
}

/// Ctrl+J on the `i`-th line, the buffer not selected, appends that line to
/// the buffer and starts a fresh search; the answer and quitting stay as they were.
pub proof fn law_ctrl_j_collects_line(s: AppView, i: int, t: Instant)
    requires
        !s.is_loading,
        !s.buffer_selected,
        s.selected_index == Some(i),
        0 <= i < s.script_output.len(),
    ensures
        ({
            let (s1, a) = key_step(s, with_control(KeyCode::Char('j')), t);
            &&& s1.buffer == s.buffer + s.script_output[i]
            &&& s1.input.len() == 0
            &&& s1.script_output.len() == 0
            &&& s1.selected_index is None
            &&& !s1.pending_update
            &&& !s1.buffer_selected
            &&& s1.should_quit == s.should_quit
            &&& s1.selected_output == s.selected_output
            &&& a == KeyAction::Handled
        }),
{
}

/// Down (or Ctrl+N) on the selected buffer leaves it and selects the first line.
pub proof fn law_down_from_buffer_selects_first_line(s: AppView, t: Instant)
    requires
        !s.is_loading,
        s.buffer_selected,
        s.buffer.len() > 0,
        s.script_output.len() > 0,
    ensures
        ({
            let s1 = key_step(s, plain(KeyCode::Down), t).0;
            let s2 = key_step(s, with_control(KeyCode::Char('n')), t).0;
            &&& s1.selected_index == Some(0int)
            &&& !s1.buffer_selected
            &&& s2 == s1
        }),
{
}

/// Down (or Ctrl+N) elsewhere moves the selection one line down, starting at
/// the first line and stopping at the last.
pub proof fn law_down_moves_selection(s: AppView, t: Instant)
    requires
        s.wf(),
        !s.is_loading,
        !(s.buffer_selected && s.buffer.len() > 0),
        s.script_output.len() > 0,
    ensures
        ({
            let s1 = key_step(s, plain(KeyCode::Down), t).0;
            let s2 = key_step(s, with_control(KeyCode::Char('n')), t).0;
            &&& s1.selected_index == match s.selected_index {
                None => Some(0int),
                Some(i) => Some(if i + 1 < s.script_output.len() { i + 1 } else { i }),
            }
            &&& s1.buffer_selected == s.buffer_selected
            &&& s1.input == s.input
            &&& s2 == s1
        }),
{
}

/// Up (or Ctrl+P) from the first line, with text in the buffer, selects the
/// buffer and keeps the line selection.
pub proof fn law_up_from_first_line_selects_buffer(s: AppView, t: Instant)
    requires
        !s.is_loading,
        !s.buffer_selected,
        s.selected_index == Some(0int),
        s.buffer.len() > 0,
    ensures
        ({
            let s1 = key_step(s, plain(KeyCode::Up), t).0;
            &&& s1.buffer_selected
            &&& s1.selected_index == Some(0int)
            &&& key_step(s, with_control(KeyCode::Char('p')), t).0 == s1
        }),
{
}

/// Up from the first line onto the buffer and then Down returns to the first line.
pub proof fn law_up_then_down_returns_to_first_line(s: AppView, t1: Instant, t2: Instant)
    requires
        !s.is_loading,
        !s.buffer_selected,
        s.selected_index == Some(0int),
        s.buffer.len() > 0,
        s.script_output.len() > 0,
    ensures
        ({
            let s1 = key_step(s, plain(KeyCode::Up), t1).0;
            let s2 = key_step(s1, plain(KeyCode::Down), t2).0;
            &&& s2.selected_index == Some(0int)
            &&& !s2.buffer_selected
        }),
{
}

/// Up (or Ctrl+P) on the selected buffer changes nothing.
pub proof fn law_up_on_buffer_stays(s: AppView, t: Instant)
    requires
        !s.is_loading,
        s.buffer_selected,
        s.buffer.len() > 0,
    ensures
        key_step(s, plain(KeyCode::Up), t) == (s, KeyAction::Handled),
        key_step(s, with_control(KeyCode::Char('p')), t) == (s, KeyAction::Handled),
{
}

/// Up elsewhere moves the selection one line up, starting at the last line and
/// stopping at the first.
pub proof fn law_up_moves_selection(s: AppView, t: Instant)
    requires
        s.wf(),
        !s.is_loading,
        !s.buffer_selected,
        !(s.selected_index == Some(0int) && s.buffer.len() > 0),
        s.script_output.len() > 0,
    ensures
        ({
            let s1 = key_step(s, plain(KeyCode::Up), t).0;
            &&& s1.selected_index == match s.selected_index {
                None => Some(s.script_output.len() - 1),
                Some(i) => Some(if i > 0 { i - 1 } else { i }),
            }
            &&& !s1.buffer_selected
            &&& s1.input == s.input
        }),
{
}

/// A plain or shifted character is appended to the query, stamped with the
/// key's time; an update becomes pending and the buffer is left.
pub proof fn law_character_extends_query(s: AppView, c: char, shifted: bool, t: Instant)
    requires
        !s.is_loading,
    ensures
        ({
            let key = KeyPress {
                code: KeyCode::Char(c),
                modifiers: if shifted { KeyModifiers::Shift } else { KeyModifiers::Plain },
            };
            let s1 = key_step(s, key, t).0;
            &&& s1.input == s.input.push(c)
            &&& s1.input.len() == s.input.len() + 1
            &&& s1.input.last() == c
            &&& s1.last_input_time == t
            &&& s1.pending_update
            &&& !s1.buffer_selected
            &&& s1.buffer == s.buffer
            &&& s1.script_output == s.script_output
            &&& !s1.should_quit || s.should_quit
        }),
{
}

/// Backspace removes the last character of the query, stamped with the key's
/// time, unless the buffer is selected and holds text.
pub proof fn law_backspace_shortens_query(s: AppView, t: Instant)
    requires
        !s.is_loading,
        !(s.buffer_selected && s.buffer.len() > 0),
    ensures
        ({
            let s1 = key_step(s, plain(KeyCode::Backspace), t).0;
            &&& s1.input == if s.input.len() > 0 { s.input.subrange(0, s.input.len() - 1) } else { s.input }
            &&& s1.last_input_time == t
            &&& s1.pending_update
            &&& s1.buffer == s.buffer
        }),
{
}

/// Backspace on the selected buffer removes its last character and keeps the
/// query; the buffer stays selected while it holds text.
pub proof fn law_backspace_on_buffer(s: AppView, t: Instant)
    requires
        !s.is_loading,
        s.buffer_selected,
        s.buffer.len() > 0,
    ensures
        ({
            let s1 = key_step(s, plain(KeyCode::Backspace), t).0;
            &&& s1.buffer == s.buffer.subrange(0, s.buffer.len() - 1)
            &&& s1.input == s.input
            &&& s1.buffer_selected == (s.buffer.len() > 1)
        }),
{
}

/// Ctrl+Backspace removes the last character of the buffer, whatever is selected,
/// and keeps the query.
pub proof fn law_ctrl_backspace_shortens_buffer(s: AppView, t: Instant)
    requires
        !s.is_loading,
        s.buffer.len() > 0,
    ensures
        ({
            let s1 = key_step(s, with_control(KeyCode::Backspace), t).0;
            &&& s1.buffer == s.buffer.subrange(0, s.buffer.len() - 1)
            &&& s1.input == s.input
            &&& s1.buffer.len() == 0 ==> !s1.buffer_selected
        }),
{
}

/// Esc drops a line selection first, then leaves the buffer, and otherwise quits.
pub proof fn law_escape_steps(s: AppView, t: Instant)
    requires
        !s.is_loading,
    ensures
        ({
            let s1 = key_step(s, plain(KeyCode::Esc), t).0;
            &&& (s.selected_index is Some && !s.buffer_selected) ==> (s1.selected_index is None
                && s1.should_quit == s.should_quit)
            &&& s.buffer_selected ==> (!s1.buffer_selected && s1.selected_index == s.selected_index
                && s1.should_quit == s.should_quit)
            &&& (s.selected_index is None && !s.buffer_selected) ==> s1.should_quit
            &&& s1.selected_output == s.selected_output
        }),
{
}

} // verus!
