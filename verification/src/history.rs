//! The execution history: one entry per noteworthy action, newest first,
//! bounded in length. Entry identifiers and timestamps come from the clock,
//! so nothing is promised of them; every other field is pinned down.

use vstd::prelude::*;

use crate::model::{CheckResult, CommandOutput, ExecutionHistoryEntry};
use crate::text::dec_int_str;

verus! {

/// How many history entries are kept.
pub const HISTORY_LIMIT: usize = 200;

/// Relies on `chrono::Utc::now` and `chrono::DateTime::timestamp_micros`:
/// the current UTC time in microseconds since the epoch. The value depends
/// on the clock, so nothing is promised of it.
#[verifier::external_body]
pub(crate) fn now_timestamp_micros() -> i64 {
    chrono::Utc::now().timestamp_micros()
}

/// A history entry identifier: the microsecond timestamp, the action and
/// the target, dash-separated.
pub open spec fn spec_history_id(micros: int, action: Seq<char>, target: Seq<char>) -> Seq<char> {
    dec_int_str(micros) + "-"@ + action + "-"@ + target
}

/// Builds the identifier for a history entry recorded at `micros`.
pub fn next_history_id(micros: i64, action: &str, target: &str) -> (r: String)
    ensures
        r@ == spec_history_id(micros as int, action@, target@),
{
    let mut s = crate::text::i64_to_string(micros);
    s.append("-");
    s.append(action);
    s.append("-");
    s.append(target);
    s
}

/// The summary of a single-item check entry: the error text when the check
/// failed, else whether an update was found.
pub open spec fn spec_check_item_summary(r: crate::model::VerdictView) -> Seq<char> {
    match r.error {
        Some(e) => e,
        None => if r.has_update {
            "update available"@
        } else {
            "up to date"@
        },
    }
}

/// The history entry for one single-item check. The identifier and the
/// recording time come from the clock and are unconstrained.
pub fn check_item_entry(result: &CheckResult) -> (e: ExecutionHistoryEntry)
    ensures
        e.action@ == "check-item"@,
        e.target@ == result@.item_id,
        e.command is None,
        e.stdout is None,
        e.stderr is None,
        e.success == (result@.error is None),
        e.exit_code is None,
        !e.timed_out,
        e.duration_ms is None,
        e.summary@ == spec_check_item_summary(result@),
{
    let success = result.error.is_none();
    let summary = match &result.error {
        Some(error) => error.clone(),
        None => {
            if result.has_update {
                String::from_str("update available")
            } else {
                String::from_str("up to date")
            }
        },
    };
    ExecutionHistoryEntry {
        id: next_history_id(now_timestamp_micros(), "check-item", result.item_id.as_str()),
        action: String::from_str("check-item"),
        target: result.item_id.clone(),
        command: None,
        stdout: None,
        stderr: None,
        recorded_at: crate::check::now_rfc3339(),
        success,
        exit_code: None,
        timed_out: false,
        duration_ms: None,
        summary,
    }
}

/// The history entry for one bulk scan, successful or skipped, with the
/// caller's summary text.
pub fn check_all_entry(action: &str, success: bool, summary: String) -> (e: ExecutionHistoryEntry)
    ensures
        e.action@ == action@,
        e.target@ == "enabled-items"@,
        e.command is None,
        e.stdout is None,
        e.stderr is None,
        e.success == success,
        e.exit_code is None,
        !e.timed_out,
        e.duration_ms is None,
        e.summary@ == summary@,
{
    ExecutionHistoryEntry {
        id: next_history_id(now_timestamp_micros(), action, "enabled-items"),
        action: action.to_owned(),
        target: String::from_str("enabled-items"),
        command: None,
        stdout: None,
        stderr: None,
        recorded_at: crate::check::now_rfc3339(),
        success,
        exit_code: None,
        timed_out: false,
        duration_ms: None,
        summary,
    }
}

/// The history entry for one directly executed command, carrying the full
/// outcome; it counts as successful only on a clean, untimed exit.
pub fn command_entry(action: &str, target: &str, output: &CommandOutput, summary: String) -> (e:
    ExecutionHistoryEntry)
    ensures
        e.action@ == action@,
        e.target@ == target@,
        e.command matches Some(c) && c@ == output@.command,
        e.stdout matches Some(s) && s@ == output@.stdout,
        e.stderr matches Some(s) && s@ == output@.stderr,
        e.success == (output@.exit_code == 0 && !output@.timed_out),
        e.exit_code == Some(output.exit_code),
        e.timed_out == output@.timed_out,
        e.duration_ms == Some(output.duration_ms),
        e.summary@ == summary@,
{
    ExecutionHistoryEntry {
        id: next_history_id(now_timestamp_micros(), action, target),
        action: action.to_owned(),
        target: target.to_owned(),
        command: Some(output.command.clone()),
        stdout: Some(output.stdout.clone()),
        stderr: Some(output.stderr.clone()),
        recorded_at: crate::check::now_rfc3339(),
        success: output.exit_code == 0 && !output.timed_out,
        exit_code: Some(output.exit_code),
        timed_out: output.timed_out,
        duration_ms: Some(output.duration_ms),
        summary,
    }
}

/// How many entries the history holds after one more is recorded.
pub open spec fn spec_bounded_len(n: nat) -> nat {
    if n + 1 <= HISTORY_LIMIT as nat {
        n + 1
    } else {
        HISTORY_LIMIT as nat
    }
}

/// Records `entry` at the front of the history and drops the oldest
/// entries beyond the bound: the history is newest-first and never longer
/// than `HISTORY_LIMIT`.
pub fn push_entry(entries: &mut Vec<ExecutionHistoryEntry>, entry: ExecutionHistoryEntry)
    ensures
        final(entries)@ =~= (seq![entry] + old(entries)@).subrange(
            0,
            spec_bounded_len(old(entries)@.len()) as int,
        ),
{
    entries.insert(0, entry);
    while entries.len() > HISTORY_LIMIT
        invariant
            entries@.len() <= old(entries)@.len() + 1,
            entries@.len() >= spec_bounded_len(old(entries)@.len()),
            entries@ =~= (seq![entry] + old(entries)@).subrange(0, entries@.len() as int),
        decreases entries@.len(),
    {
        entries.pop();
    }
}

} // verus!
