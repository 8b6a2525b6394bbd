//! What the picker shows and answers with, stated over the characters involved.

use vstd::prelude::*;

use crate::app::AppView;
use crate::schedule::command_line;
use crate::screen::{debug_screen_spec, normal_screen_spec, results_spec};
use crate::text::without_newlines;

verus! {

/// Removing line feeds from nothing gives nothing.
pub proof fn law_without_newlines_empty()
    ensures
        without_newlines(Seq::<char>::empty()) == Seq::<char>::empty(),
{
    reveal_with_fuel(Seq::filter, 1);
}

/// A single character is dropped exactly when it is a line feed.
pub proof fn law_without_newlines_single(c: char)
    ensures
        without_newlines(seq![c]) == if c == '\n' { Seq::<char>::empty() } else { seq![c] },
{
    reveal_with_fuel(Seq::filter, 2);
    assert(seq![c].drop_last() =~= Seq::<char>::empty());
}

/// Removing line feeds works piece by piece: on a concatenation it is the
/// concatenation of the two results, so every other character stays, in order.
pub proof fn law_without_newlines_concat(a: Seq<char>, b: Seq<char>)
    ensures
        without_newlines(a + b) == without_newlines(a) + without_newlines(b),
{
    Seq::filter_distributes_over_add(a, b, |c: char| c != '\n');
}

/// Text without line feeds is kept as it is.
pub proof fn law_without_newlines_keeps_plain_text(s: Seq<char>)
    requires
        !s.contains('\n'),
    ensures
        without_newlines(s) == s,
    decreases s.len(),
{
    if s.len() == 0 {
        law_without_newlines_empty();
        assert(s =~= Seq::<char>::empty());
    } else {
        let init = s.drop_last();
        assert(!init.contains('\n')) by {
            if init.contains('\n') {
                let k = choose|k: int| 0 <= k < init.len() && init[k] == '\n';
                assert(s[k] == '\n');
            }
        }
        law_without_newlines_keeps_plain_text(init);
        law_without_newlines_concat(init, seq![s.last()]);
        law_without_newlines_single(s.last());
        assert(s[s.len() - 1] != '\n');
        assert(init + seq![s.last()] =~= s);
    }
}

/// The normal screen's query line is the two-character mark, the whole query,
/// and one cursor character: "⏳ " and '░' while loading, "> " and '│' otherwise.
pub proof fn law_normal_query_line(s: AppView)
    ensures
        ({
            let l = normal_screen_spec(s).input_line;
            &&& l.len() == s.input.len() + 3
            &&& l.subrange(2, l.len() - 1) == s.input
            &&& l.subrange(0, 2) == if s.is_loading { "⏳ "@ } else { "> "@ }
            &&& l.last() == if s.is_loading { '░' } else { '│' }
        }),
{
    reveal_strlit("⏳ ");
    reveal_strlit("> ");
    let l = normal_screen_spec(s).input_line;
    assert(l.subrange(2, l.len() - 1) =~= s.input);
    if s.is_loading {
        assert(l.subrange(0, 2) =~= "⏳ "@);
    } else {
        assert(l.subrange(0, 2) =~= "> "@);
    }
}

/// The normal screen shows a buffer line exactly when the buffer holds text:
/// its two-character mark ("> " when selected, "📋 " otherwise) and the buffer.
pub proof fn law_normal_buffer_line(s: AppView)
    ensures
        s.buffer.len() == 0 ==> normal_screen_spec(s).buffer_line is None,
        s.buffer.len() > 0 ==> ({
            let l = normal_screen_spec(s).buffer_line.unwrap();
            &&& normal_screen_spec(s).buffer_line is Some
            &&& l.len() == s.buffer.len() + 2
            &&& l.subrange(2, l.len() as int) == s.buffer
            &&& l.subrange(0, 2) == if s.buffer_selected { "> "@ } else { "📋 "@ }
        }),
        normal_screen_spec(s).buffer_selected == s.buffer_selected,
        normal_screen_spec(s).loading == s.is_loading,
{
    reveal_strlit("📋 ");
    reveal_strlit("> ");
    if s.buffer.len() > 0 {
        let l = normal_screen_spec(s).buffer_line.unwrap();
        assert(l.subrange(2, l.len() as int) =~= s.buffer);
        if s.buffer_selected {
            assert(l.subrange(0, 2) =~= "> "@);
        } else {
            assert(l.subrange(0, 2) =~= "📋 "@);
        }
    }
}

/// The debug screen's query line is "> " and the whole query.
pub proof fn law_debug_query_line(s: AppView)
    ensures
        ({
            let l = debug_screen_spec(s).input_line;
            &&& l.len() == s.input.len() + 2
            &&& l.subrange(2, l.len() as int) == s.input
            &&& l.subrange(0, 2) == "> "@
        }),
{
    reveal_strlit("> ");
    let l = debug_screen_spec(s).input_line;
    assert(l.subrange(2, l.len() as int) =~= s.input);
    assert(l.subrange(0, 2) =~= "> "@);
}

/// The debug status line: while loading, "⏳ Loading: " and the last command;
/// otherwise "🔄 Last command: " and the last command when there is one, or "Ready".
pub proof fn law_debug_status_line(s: AppView)
    ensures
        ({
            let l = debug_screen_spec(s).status_line;
            let n = s.last_command.len();
            &&& s.is_loading ==> l.subrange(l.len() - n, l.len() as int) == s.last_command
                && l.subrange(0, l.len() - n) == "⏳ Loading: "@
            &&& (!s.is_loading && n > 0) ==> l.subrange(l.len() - n, l.len() as int) == s.last_command
                && l.subrange(0, l.len() - n) == "🔄 Last command: "@
            &&& (!s.is_loading && n == 0) ==> l == "Ready"@
        }),
{
    let l = debug_screen_spec(s).status_line;
    let n = s.last_command.len();
    if s.is_loading {
        assert(l.subrange(l.len() - n, l.len() as int) =~= s.last_command);
        assert(l.subrange(0, l.len() - n) =~= "⏳ Loading: "@);
    } else if n > 0 {
        assert(l.subrange(l.len() - n, l.len() as int) =~= s.last_command);
        assert(l.subrange(0, l.len() - n) =~= "🔄 Last command: "@);
    }
}

/// With results, both screens list every line, an empty one as a single space,
/// highlight the selected line and show no hint; without results they list
/// nothing and show the hint for loading, for an empty query, or for no match.
pub proof fn law_result_rows(s: AppView)
    ensures
        normal_screen_spec(s).results == results_spec(s),
        debug_screen_spec(s).results == results_spec(s),
        s.script_output.len() > 0 ==> ({
            let r = results_spec(s);
            &&& r.rows.len() == s.script_output.len()
            &&& forall|i: int| 0 <= i < r.rows.len() ==> #[trigger] r.rows[i] == if s.script_output[i].len() == 0 {
                " "@
            } else {
                s.script_output[i]
            }
            &&& r.highlighted == s.selected_index
            &&& r.hint is None
        }),
        s.script_output.len() == 0 ==> ({
            let r = results_spec(s);
            &&& r.rows.len() == 0
            &&& r.highlighted is None
            &&& r.hint == Some(if s.is_loading {
                "⏳ Loading..."@
            } else if s.input.len() == 0 {
                "Type something and wait 500ms to see results..."@
            } else {
                "No results - try typing something else..."@
            })
        }),
{
}

/// The command line shown for a run is the script's name, one space, and the query.
pub proof fn law_command_line(name: Seq<char>, input: Seq<char>)
    ensures
        ({
            let c = command_line(name, input);
            &&& c.len() == name.len() + 1 + input.len()
            &&& c.subrange(0, name.len() as int) == name
            &&& c[name.len() as int] == ' '
            &&& c.subrange(name.len() as int + 1, c.len() as int) == input
        }),
{
    let c = command_line(name, input);
    assert(c.subrange(0, name.len() as int) =~= name);
    assert(c.subrange(name.len() as int + 1, c.len() as int) =~= input);
}

} // verus!
