//! When the main loop re-runs the script: only while an update is pending and
//! nothing is loading, at most once per check interval, and only after the
//! query has been left alone for the debounce delay.

use vstd::prelude::*;

use crate::app::{App, AppView, INPUT_DEBOUNCE_MS};

verus! {

/// Milliseconds between two looks at whether an update is due.
pub const UPDATE_CHECK_INTERVAL_MS: u64 = 100;

const NANOS_PER_MILLI: u128 = 1_000_000;

/// What the main loop does about the script on this turn.
#[derive(Clone, Copy, Debug, PartialEq, Eq, Structural)]
pub enum UpdateStep {
    /// Not time to look yet, or nothing to do.
    Wait,
    /// Looked, but the query changed too recently: restart the check interval.
    Recheck,
    /// Mark the picker loading, run the script, hand the lines to
    /// `complete_update`, and restart the check interval.
    Run,
}

/// The decision for a picker in state `s`, given the time since the last
/// check and since the last edit, both in nanoseconds.
pub open spec fn update_step_spec(s: AppView, since_check_nanos: u128, since_input_nanos: u128) -> UpdateStep {
    if s.pending_update && !s.is_loading
        && since_check_nanos > UPDATE_CHECK_INTERVAL_MS as int * 1_000_000 {
        if since_input_nanos > INPUT_DEBOUNCE_MS as int * 1_000_000 {
            UpdateStep::Run
        } else {
            UpdateStep::Recheck
        }
    } else {
        UpdateStep::Wait
    }
}

/// The command line that a run shows: the script's name, a space, the query.
pub open spec fn command_line(script_name: Seq<char>, input: Seq<char>) -> Seq<char> {
    script_name + seq![' '] + input
}

/// Builds the command line shown for a run of `script_name` on `input`.
pub fn script_command(script_name: &str, input: &str) -> (res: String)
    ensures
        res@ == command_line(script_name@, input@),
{
    let mut cmd = script_name.to_owned();
    crate::text::push_char_to(&mut cmd, ' ');
    cmd.append(input);
    cmd
}

impl App {
    /// Whether the script is due, given the time since the last check and
    /// since the last edit of the query.
    pub fn update_step(&self, since_check_nanos: u128, since_input_nanos: u128) -> (res: UpdateStep)
        ensures
            res == update_step_spec(self@, since_check_nanos, since_input_nanos),
    {
        if self.pending_update() && !self.is_loading()
            && since_check_nanos > UPDATE_CHECK_INTERVAL_MS as u128 * NANOS_PER_MILLI {
            if since_input_nanos > INPUT_DEBOUNCE_MS as u128 * NANOS_PER_MILLI {
                UpdateStep::Run
            } else {
                UpdateStep::Recheck
            }
        } else {
            UpdateStep::Wait
        }
    }

    /// Takes the lines and command line of a debounced run: the results are
    /// replaced and loading and the pending update are over.
    pub fn complete_update(&mut self, new_output: Vec<String>, command: String)
        requires
            old(self).wf(),
        ensures
            final(self).wf(),
            final(self)@ == (AppView {
                is_loading: false,
                pending_update: false,
                ..old(self)@.with_results(new_output.deep_view(), command@)
            }),
    {
        self.update_results(new_output, command);
        self.set_loading(false);
        self.set_pending_update(false);
    }
}

} // verus!
