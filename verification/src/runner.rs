//! The computable core of the external-process runner.
//!
//! Actually spawning a shell, pumping its pipes and killing it on timeout is
//! I/O and lives outside this crate; the caller runs that machinery and hands
//! the raw material to the functions here. This module owns every decision
//! and every transformation in between: when the poll loop must kill or reap,
//! how raw stream text is normalised, and how the final `CommandOutput` is
//! assembled, including the reserved timeout sentinel.

use vstd::prelude::*;

use crate::model::CommandOutput;
use crate::text::{
    append_line, dec_str, line_core, strip_line_ending, trim_str, trimmed, u64_to_string,
};

verus! {

/// Exit code reported when the wall-clock timeout killed the command.
/// Negative, hence distinct from every real POSIX exit status (0–255).
pub const TIMEOUT_EXIT_CODE: i32 = -124;

/// Exit code reported when the process terminated without an observable
/// status (for example, killed by a signal).
pub const UNKNOWN_EXIT_CODE: i32 = -1;

/// How long the poll loop sleeps between completion checks, in milliseconds.
pub const POLL_INTERVAL_MS: u64 = 40;

/// The timeout sentinel collides with no real exit status: it is negative,
/// and every POSIX exit status lies in 0–255.
pub proof fn lemma_timeout_sentinel_out_of_band()
    ensures
        TIMEOUT_EXIT_CODE < 0,
        !(0 <= TIMEOUT_EXIT_CODE <= 255),
{
}

/// A timeout of zero seconds is raised to one second; anything else is kept.
pub open spec fn effective_timeout(timeout_seconds: u64) -> u64 {
    if timeout_seconds == 0 {
        1
    } else {
        timeout_seconds
    }
}

/// The human-readable notice appended to stderr when a command timed out.
pub open spec fn timeout_notice(secs: u64) -> Seq<char> {
    "command timed out after "@ + dec_str(secs as nat) + "s"@
}

/// The stderr field of an outcome: the trimmed raw text and, after a
/// timeout, the timeout notice (on its own line when text precedes it).
pub open spec fn stderr_with_notice(stderr_raw: Seq<char>, timed_out: bool, secs: u64) -> Seq<
    char,
> {
    let t = trimmed(stderr_raw);
    if !timed_out {
        t
    } else if t.len() == 0 {
        timeout_notice(secs)
    } else {
        t + seq!['\n'] + timeout_notice(secs)
    }
}

/// What the poll loop does next, given whether the child has exited and how
/// much wall-clock time has elapsed.
#[derive(Debug, Clone, Copy, PartialEq, Eq, Structural)]
pub enum PollAction {
    /// The child exited: reap it and assemble the outcome.
    Finish,
    /// The timeout elapsed first: kill the child, then reap it.
    Kill,
    /// Neither: sleep for the poll interval and look again.
    KeepWaiting,
}

/// The timeout in milliseconds, as enforced by the poll loop.
pub fn timeout_millis(timeout_seconds: u64) -> (ms: u128)
    ensures
        ms == effective_timeout(timeout_seconds) * 1000,
{
    let secs: u64 = if timeout_seconds == 0 {
        1
    } else {
        timeout_seconds
    };
    (secs as u128) * 1000
}

/// The decision of one poll-loop iteration.
pub fn poll_action(exited: bool, elapsed_ms: u128, timeout_ms: u128) -> (a: PollAction)
    ensures
        exited ==> a == PollAction::Finish,
        !exited && elapsed_ms >= timeout_ms ==> a == PollAction::Kill,
        !exited && elapsed_ms < timeout_ms ==> a == PollAction::KeepWaiting,
{
    if exited {
        PollAction::Finish
    } else if elapsed_ms >= timeout_ms {
        PollAction::Kill
    } else {
        PollAction::KeepWaiting
    }
}

/// Folds one raw line into the accumulated stream text: the line terminator
/// is stripped and a `'\n'` separates it from what was collected before.
pub fn push_stream_line(collected: &mut String, raw_line: &str)
    ensures
        old(collected)@.len() == 0 ==> final(collected)@ == line_core(raw_line@),
        old(collected)@.len() > 0 ==> final(collected)@ == old(collected)@ + seq!['\n']
            + line_core(raw_line@),
{
    let text = strip_line_ending(raw_line);
    append_line(collected, text.as_str());
}

/// Assembles the structured outcome of one finished command from the raw
/// material the I/O layer gathered: the observed exit status (absent when
/// unobservable), the accumulated raw stream text, and whether the timeout
/// fired. Streams are trimmed; on a timeout the exit code is overridden with
/// the reserved sentinel and a notice is appended to stderr.
pub fn finish_outcome(
    command: &str,
    status: Option<i32>,
    stdout_raw: &str,
    stderr_raw: &str,
    timed_out: bool,
    timeout_seconds: u64,
    duration_ms: u128,
) -> (o: CommandOutput)
    ensures
        o@.command == command@,
        o@.stdout == trimmed(stdout_raw@),
        o@.stderr == stderr_with_notice(
            stderr_raw@,
            timed_out,
            effective_timeout(timeout_seconds),
        ),
        o@.timed_out == timed_out,
        timed_out ==> o@.exit_code == TIMEOUT_EXIT_CODE as int,
        !timed_out ==> o@.exit_code == (match status {
            Some(c) => c as int,
            None => UNKNOWN_EXIT_CODE as int,
        }),
        o@.duration_ms == duration_ms as int,
{
    let secs: u64 = if timeout_seconds == 0 {
        1
    } else {
        timeout_seconds
    };
    let mut stderr = trim_str(stderr_raw);
    if timed_out {
        let mut notice = String::from_str("command timed out after ");
        let secs_text = u64_to_string(secs);
        notice.append(secs_text.as_str());
        notice.append("s");
        append_line(&mut stderr, notice.as_str());
    }
    let exit_code: i32 = if timed_out {
        TIMEOUT_EXIT_CODE
    } else {
        match status {
            Some(c) => c,
            None => UNKNOWN_EXIT_CODE,
        }
    };
    CommandOutput {
        command: command.to_owned(),
        exit_code,
        stdout: trim_str(stdout_raw),
        stderr,
        duration_ms,
        timed_out,
    }
}

} // verus!
