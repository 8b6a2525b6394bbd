//! How results, the selection, the schedule and the command line behave,
//! stated over plain values.

use vstd::prelude::*;
use vstd::utf8::is_ascii_chars;

use crate::app::AppView;
use crate::cli::{parse_from, parse_spec, ArgsError, OptionsView};
use crate::laws::{apply, AppOp};
use crate::schedule::{update_step_spec, UpdateStep};
use crate::screen::normal_screen_spec;

verus! {

/// New results keep the selected line's text selected: the new selection is
/// the first line equal to it, or none when no line is.
pub proof fn law_results_keep_selected_text(s: AppView, output: Seq<Seq<char>>, command: Seq<char>, i: int)
    requires
        s.selected_index == Some(i),
        0 <= i < s.script_output.len(),
    ensures
        ({
            let s1 = s.with_results(output, command);
            let t = s.script_output[i];
            &&& s1.script_output == output
            &&& s1.last_command == command
            &&& match s1.selected_index {
                Some(j) => 0 <= j < output.len() && output[j] == t
                    && forall|k: int| 0 <= k < j ==> output[k] != t,
                None => forall|k: int| 0 <= k < output.len() ==> output[k] != t,
            }
        }),
{
    let t = s.script_output[i];
    output.index_of_first_ensures(t);
    if s.with_results(output, command).selected_index is None {
        assert forall|k: int| 0 <= k < output.len() implies output[k] != t by {
            if output[k] == t {
                assert(output.contains(t));
            }
        }
    }
}

/// New results drop the selection when nothing was selected.
pub proof fn law_results_without_selection(s: AppView, output: Seq<Seq<char>>, command: Seq<char>)
    requires
        s.selected_index is None,
    ensures
        s.with_results(output, command).selected_index is None,
        s.with_results(output, command).script_output == output,
{
}

/// A forced load, once its lines are in, shows them with the first line
/// selected (none when there are none); loading and the pending update are over.
pub proof fn law_force_load_selects_first_line(s: AppView, output: Seq<Seq<char>>, command: Seq<char>)
    ensures
        ({
            let s1 = apply(s, AppOp::CompleteForceLoad(output, command));
            &&& s1.script_output == output
            &&& s1.last_command == command
            &&& s1.selected_index == if output.len() > 0 { Some(0int) } else { None }
            &&& !s1.is_loading
            &&& !s1.pending_update
            &&& s1.input == s.input
        }),
{
    if let Some(t) = s.selected_text() {
        output.index_of_first_ensures(t);
    }
}

/// A debounced run, once its lines are in, shows them; loading and the pending
/// update are over, and the query is kept.
pub proof fn law_update_completes(s: AppView, output: Seq<Seq<char>>, command: Seq<char>)
    ensures
        ({
            let s1 = apply(s, AppOp::CompleteUpdate(output, command));
            &&& s1.script_output == output
            &&& s1.last_command == command
            &&& !s1.is_loading
            &&& !s1.pending_update
            &&& s1.input == s.input
        }),
{
}

/// While loading, or without results, moving the selection changes nothing.
pub proof fn law_no_moves_while_loading_or_empty(s: AppView)
    requires
        s.is_loading || s.script_output.len() == 0,
    ensures
        s.next_selected() == s,
        s.previous_selected() == s,
{
}

/// The script runs exactly when an update is pending, nothing is loading, the
/// check interval (100 ms) has passed and the query has rested for the debounce
/// delay (500 ms); when only the interval has passed, the check is restarted.
pub proof fn law_update_schedule(s: AppView, since_check_nanos: u128, since_input_nanos: u128)
    ensures
        (update_step_spec(s, since_check_nanos, since_input_nanos) == UpdateStep::Run) <==> (
            s.pending_update && !s.is_loading && since_check_nanos > 100_000_000
            && since_input_nanos > 500_000_000),
        (update_step_spec(s, since_check_nanos, since_input_nanos) == UpdateStep::Recheck) <==> (
            s.pending_update && !s.is_loading && since_check_nanos > 100_000_000
            && since_input_nanos <= 500_000_000),
{
}

/// For a query of ASCII characters, the cursor sits right after the query:
/// two columns of "> " plus the query when idle, four bytes of "⏳ " plus the
/// query while loading.
pub proof fn law_cursor_after_ascii_query(s: AppView)
    requires
        is_ascii_chars(s.input),
        s.input.len() + 4 <= usize::MAX,
    ensures
        normal_screen_spec(s).cursor_column == if s.is_loading { 4 + s.input.len() } else { 2 + s.input.len() },
{
    reveal_strlit("⏳ ");
    reveal_strlit("> ");
    vstd::utf8::is_ascii_chars_encode_utf8(s.input);
    vstd::utf8::is_ascii_chars_encode_utf8("> "@);
    let p = "⏳ "@;
    assert(p.drop_first().drop_first() =~= Seq::<char>::empty());
    assert(vstd::utf8::encode_utf8(p).len() == 4) by {
        reveal_with_fuel(vstd::utf8::encode_utf8, 3);
        assert(vstd::utf8::has_width_3_encoding('⏳' as u32));
    }
}

/// Words that are none of the flags.
pub open spec fn is_flag(w: Seq<char>) -> bool {
    w == "-d"@ || w == "-q"@ || w == "--query"@
}

proof fn lemma_flags_differ()
    ensures
        "-q"@ != "-d"@,
        "--query"@ != "-d"@,
        "--query"@ != "-q"@,
{
    reveal_strlit("-d");
    reveal_strlit("-q");
    reveal_strlit("--query");
    assert("-q"@[1] != "-d"@[1]);
    assert("--query"@.len() != "-d"@.len());
    assert("--query"@.len() != "-q"@.len());
}

/// Reading from a position on keeps the script path among the words read.
proof fn lemma_parse_from_name(
    args: Seq<Seq<char>>,
    i: int,
    name: Option<Seq<char>>,
    debug: bool,
    query: Seq<char>,
)
    requires
        1 <= i,
        name matches Some(n) ==> exists|j: int| 1 <= j < args.len() && args[j] == n && !is_flag(n),
    ensures
        parse_from(args, i, name, debug, query) matches Ok(o) ==> exists|j: int|
            1 <= j < args.len() && args[j] == o.0 && !is_flag(o.0),
    decreases args.len() - i,
{
    if i < args.len() {
        if args[i] == "-d"@ {
            lemma_parse_from_name(args, i + 1, name, true, query);
        } else if args[i] == "-q"@ || args[i] == "--query"@ {
            if i + 1 < args.len() {
                lemma_parse_from_name(args, i + 2, name, debug, args[i + 1]);
            }
        } else if name is None {
            assert(args[i] == args[i]);
            lemma_parse_from_name(args, i + 1, Some(args[i]), debug, query);
        }
    }
}

/// An accepted command line's script path is one of its words after the
/// program's name, and not a flag.
pub proof fn law_parsed_script_is_a_word(args: Seq<Seq<char>>)
    ensures
        parse_spec(args) matches Ok(o) ==> exists|j: int| 1 <= j < args.len() && args[j] == o.0 && !is_flag(o.0),
{
    if args.len() > 0 {
        lemma_parse_from_name(args, 1, None, false, Seq::empty());
    }
}

/// A lone script path: no debug screen, empty starting query.
pub proof fn law_parse_script_only(program: Seq<char>, script: Seq<char>)
    requires
        !is_flag(script),
    ensures
        parse_spec(seq![program, script]) == Ok::<OptionsView, ArgsError>((script, false, Seq::empty())),
{
    reveal_with_fuel(parse_from, 3);
}

/// `-d` before or after the script path turns on the debug screen.
pub proof fn law_parse_debug_flag(program: Seq<char>, script: Seq<char>)
    requires
        !is_flag(script),
    ensures
        parse_spec(seq![program, "-d"@, script]) == Ok::<OptionsView, ArgsError>((script, true, Seq::empty())),
        parse_spec(seq![program, script, "-d"@]) == Ok::<OptionsView, ArgsError>((script, true, Seq::empty())),
{
    lemma_flags_differ();
    reveal_with_fuel(parse_from, 4);
}

/// `-q` or `--query` takes the next word, whatever it is, as the starting query.
pub proof fn law_parse_query_flag(program: Seq<char>, query: Seq<char>, script: Seq<char>)
    requires
        !is_flag(script),
    ensures
        parse_spec(seq![program, "-q"@, query, script]) == Ok::<OptionsView, ArgsError>((script, false, query)),
        parse_spec(seq![program, "--query"@, query, script]) == Ok::<OptionsView, ArgsError>((script, false, query)),
{
    lemma_flags_differ();
    reveal_with_fuel(parse_from, 4);
}

/// `-q` or `--query` as the last word is refused for want of a value.
pub proof fn law_parse_query_needs_value(program: Seq<char>, script: Seq<char>)
    requires
        !is_flag(script),
    ensures
        parse_spec(seq![program, script, "-q"@]) == Err::<OptionsView, ArgsError>(ArgsError::MissingQueryValue),
        parse_spec(seq![program, script, "--query"@]) == Err::<OptionsView, ArgsError>(ArgsError::MissingQueryValue),
{
    lemma_flags_differ();
    reveal_with_fuel(parse_from, 4);
}

/// No script path, or two of them, is a usage error.
pub proof fn law_parse_needs_one_script(program: Seq<char>, a: Seq<char>, b: Seq<char>)
    requires
        !is_flag(a),
        !is_flag(b),
    ensures
        parse_spec(seq![program]) == Err::<OptionsView, ArgsError>(ArgsError::Usage),
        parse_spec(seq![program, "-d"@]) == Err::<OptionsView, ArgsError>(ArgsError::Usage),
        parse_spec(seq![program, a, b]) == Err::<OptionsView, ArgsError>(ArgsError::Usage),
{
    lemma_flags_differ();
    reveal_with_fuel(parse_from, 4);
}

} // verus!
