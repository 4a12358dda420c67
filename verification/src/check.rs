//! The update-check strategies: given one software item's declared commands
//! and an injected command executor, decide whether an update is available.
//!
//! Two mutually exclusive algorithms exist. The check-command strategy runs
//! `update_check_command` and reads an update signal from its output, either
//! through `update_check_regex` or through a boolean-token heuristic. The
//! version-diff strategy runs both version commands and reports an update
//! exactly when both trimmed outputs are non-empty and unequal. An item
//! declaring neither command is a configuration error.
//!
//! Every decision taken after a command has run is a verified function of
//! the command's outcome; the drivers that actually invoke the executor
//! guarantee the verdict invariants whatever the executor returned.

use vstd::prelude::*;

use crate::model::{CheckResult, CommandOutput, OutputView, SoftwareItem, VerdictView, opt_view};
use crate::text::{dec_int_str, i32_to_string, trim_str, trimmed};

verus! {

/// The seam between the decision logic and the outside world: runs one
/// shell command and reports its structured outcome, or an execution error
/// when the command could not be run at all. Production callers back this
/// with a process runner; tests script it with canned outcomes.
pub trait CommandExecutor {
    /// Runs `command` and reports its outcome. `Err` means the command could
    /// not be executed at all (spawn or capture failure), not that it exited
    /// non-zero.
    fn execute(&mut self, command: &str) -> Result<CommandOutput, String>;
}

/// Whether `pattern` compiles as a regular expression under the `regex`
/// crate's default configuration. A function of the pattern alone.
pub uninterp spec fn regex_pattern_valid(pattern: Seq<char>) -> bool;

/// Whether the regular expression `pattern` matches anywhere inside `text`.
/// A function of pattern and text alone.
pub uninterp spec fn regex_matches(pattern: Seq<char>, text: Seq<char>) -> bool;

/// Relies on `regex::Regex::new` and `regex::Regex::is_match`: compiling a
/// pattern with the default builder succeeds or fails as a function of the
/// pattern text alone, and a compiled pattern matches a haystack as a
/// function of pattern and haystack alone.
#[verifier::external_body]
fn regex_is_match(pattern: &str, text: &str) -> (r: Option<bool>)
    ensures
        r is Some <==> regex_pattern_valid(pattern@),
        r is Some ==> r->0 == regex_matches(pattern@, text@),
{
    match regex::Regex::new(pattern) {
        Ok(re) => Some(re.is_match(text)),
        Err(_) => None,
    }
}

/// Relies on `chrono::Utc::now` and `chrono::DateTime::to_rfc3339`: the
/// current UTC time as an RFC 3339 timestamp. The value depends on the
/// clock, so nothing is promised of it.
#[verifier::external_body]
pub(crate) fn now_rfc3339() -> String {
    chrono::Utc::now().to_rfc3339()
}

/// The most informative text a failed command left behind: its trimmed
/// stderr if any, else its trimmed stdout (marked as such), else a fixed
/// marker.
pub open spec fn spec_command_error_text(stderr: Seq<char>, stdout: Seq<char>) -> Seq<char> {
    if trimmed(stderr).len() > 0 {
        trimmed(stderr)
    } else if trimmed(stdout).len() > 0 {
        "stdout: "@ + trimmed(stdout)
    } else {
        "no output"@
    }
}

/// Runtime form of `spec_command_error_text`.
pub fn command_error_text(stderr: &str, stdout: &str) -> (r: String)
    ensures
        r@ == spec_command_error_text(stderr@, stdout@),
{
    let e = trim_str(stderr);
    if !e.as_str().is_empty() {
        return e;
    }
    let o = trim_str(stdout);
    if !o.as_str().is_empty() {
        let mut s = String::from_str("stdout: ");
        s.append(o.as_str());
        return s;
    }
    String::from_str("no output")
}

/// A version string read from command output: the trimmed text, or absent
/// when nothing but whitespace was printed.
pub open spec fn spec_normalize_version(value: Seq<char>) -> Option<Seq<char>> {
    if trimmed(value).len() == 0 {
        None
    } else {
        Some(trimmed(value))
    }
}

/// Runtime form of `spec_normalize_version`.
pub fn normalize_version(value: &str) -> (r: Option<String>)
    ensures
        opt_view(r) == spec_normalize_version(value@),
{
    let t = trim_str(value);
    if t.as_str().is_empty() {
        None
    } else {
        Some(t)
    }
}

/// Case-insensitive match of one character against a letter.
pub open spec fn ci_eq(c: char, lower: char, upper: char) -> bool {
    c == lower || c == upper
}

/// Whether `s` is one of the boolean-like tokens `1`, `true`, `yes`,
/// compared case-insensitively.
pub open spec fn is_truthy_token(s: Seq<char>) -> bool {
    ||| (s.len() == 1 && s[0] == '1')
    ||| (s.len() == 4 && ci_eq(s[0], 't', 'T') && ci_eq(s[1], 'r', 'R') && ci_eq(s[2], 'u', 'U')
        && ci_eq(s[3], 'e', 'E'))
    ||| (s.len() == 3 && ci_eq(s[0], 'y', 'Y') && ci_eq(s[1], 'e', 'E') && ci_eq(s[2], 's', 'S'))
}

fn char_ci_eq(c: char, lower: char, upper: char) -> (r: bool)
    ensures
        r == ci_eq(c, lower, upper),
{
    c == lower || c == upper
}

/// Runtime form of `is_truthy_token`.
pub fn is_truthy_signal(s: &str) -> (r: bool)
    ensures
        r == is_truthy_token(s@),
{
    let len = s.unicode_len();
    if len == 1 {
        s.get_char(0) == '1'
    } else if len == 4 {
        char_ci_eq(s.get_char(0), 't', 'T') && char_ci_eq(s.get_char(1), 'r', 'R') && char_ci_eq(
            s.get_char(2),
            'u',
            'U',
        ) && char_ci_eq(s.get_char(3), 'e', 'E')
    } else if len == 3 {
        char_ci_eq(s.get_char(0), 'y', 'Y') && char_ci_eq(s.get_char(1), 'e', 'E') && char_ci_eq(
            s.get_char(2),
            's',
            'S',
        )
    } else {
        false
    }
}

/// Error text for an item whose command configuration is incomplete:
/// the item's identifier followed by what is missing.
pub open spec fn no_current_msg(id: Seq<char>) -> Seq<char> {
    id + " has no current_version_command"@
}

pub open spec fn no_latest_msg(id: Seq<char>) -> Seq<char> {
    id + " has no latest_version_command"@
}

pub open spec fn no_check_msg(id: Seq<char>) -> Seq<char> {
    id + " has no update_check_command"@
}

pub open spec fn no_strategy_msg(id: Seq<char>) -> Seq<char> {
    id + " has neither update_check_command nor latest_version_command"@
}

/// Error text for a regex that does not compile, naming the item.
pub open spec fn invalid_regex_msg(id: Seq<char>) -> Seq<char> {
    "invalid update_check_regex for "@ + id
}

/// Error text for a command that exited non-zero: the command's role, its
/// exit code, and the most informative output it left.
pub open spec fn cmd_failed_msg(which: Seq<char>, exit_code: int, detail: Seq<char>) -> Seq<char> {
    which + " failed (exit "@ + dec_int_str(exit_code) + "): "@ + detail
}

fn suffixed_message(id: &str, suffix: &str) -> (r: String)
    ensures
        r@ == id@ + suffix@,
{
    let mut s = id.to_owned();
    s.append(suffix);
    s
}

fn invalid_regex_message(id: &str) -> (r: String)
    ensures
        r@ == invalid_regex_msg(id@),
{
    let mut s = String::from_str("invalid update_check_regex for ");
    s.append(id);
    s
}

fn failed_message(which: &str, exit_code: i32, detail: &str) -> (r: String)
    ensures
        r@ == cmd_failed_msg(which@, exit_code as int, detail@),
{
    let mut s = which.to_owned();
    s.append(" failed (exit ");
    let code = i32_to_string(exit_code);
    s.append(code.as_str());
    s.append("): ");
    s.append(detail);
    s
}

/// View of a `Result` carrying a verdict.
pub open spec fn check_res_view(r: Result<CheckResult, String>) -> Result<VerdictView, Seq<char>> {
    match r {
        Ok(c) => Ok(c@),
        Err(e) => Err(e@),
    }
}

/// View of a `Result` carrying an update signal.
pub open spec fn signal_res_view(r: Result<bool, String>) -> Result<bool, Seq<char>> {
    match r {
        Ok(b) => Ok(b),
        Err(e) => Err(e@),
    }
}

/// The update signal read from a finished check command: an error when the
/// command failed or its regex does not compile; otherwise the regex match
/// on the trimmed output, or the boolean-token heuristic when no regex is
/// declared.
pub open spec fn spec_check_signal(
    id: Seq<char>,
    regex: Option<Seq<char>>,
    check: OutputView,
) -> Result<bool, Seq<char>> {
    if check.exit_code != 0 {
        Err(
            cmd_failed_msg(
                "update_check_command"@,
                check.exit_code,
                spec_command_error_text(check.stderr, check.stdout),
            ),
        )
    } else {
        match regex {
            Some(p) => if regex_pattern_valid(p) {
                Ok(regex_matches(p, trimmed(check.stdout)))
            } else {
                Err(invalid_regex_msg(id))
            },
            None => Ok(is_truthy_token(trimmed(check.stdout))),
        }
    }
}

/// Reads the update signal from the outcome of `update_check_command`.
pub fn check_signal(item_id: &str, regex: &Option<String>, out: &CommandOutput) -> (r: Result<
    bool,
    String,
>)
    ensures
        signal_res_view(r) == spec_check_signal(item_id@, opt_view(*regex), out@),
{
    if out.exit_code != 0 {
        let detail = command_error_text(out.stderr.as_str(), out.stdout.as_str());
        return Err(failed_message("update_check_command", out.exit_code, detail.as_str()));
    }
    let t = trim_str(out.stdout.as_str());
    match regex {
        Some(pattern) => {
            match regex_is_match(pattern.as_str(), t.as_str()) {
                Some(matched) => Ok(matched),
                None => Err(invalid_regex_message(item_id)),
            }
        },
        None => Ok(is_truthy_signal(t.as_str())),
    }
}

/// View of an optional command outcome.
pub open spec fn opt_output_view(o: Option<CommandOutput>) -> Option<OutputView> {
    match o {
        Some(x) => Some(x@),
        None => None,
    }
}

/// A best-effort version string: absent when the command was not declared
/// or exited non-zero, else its normalised output.
pub open spec fn spec_best_effort_version(out: Option<OutputView>) -> Option<Seq<char>> {
    match out {
        Some(o) => if o.exit_code == 0 {
            spec_normalize_version(o.stdout)
        } else {
            None
        },
        None => None,
    }
}

/// The version-diff verdict over the two finished version commands: a hard
/// error when either exited non-zero; otherwise an update is reported
/// exactly when both trimmed outputs are non-empty and textually unequal.
pub open spec fn spec_versions_verdict(
    id: Seq<char>,
    cur: OutputView,
    lat: OutputView,
    now: Seq<char>,
) -> Result<VerdictView, Seq<char>> {
    if cur.exit_code != 0 {
        Err(
            cmd_failed_msg(
                "current_version_command"@,
                cur.exit_code,
                spec_command_error_text(cur.stderr, cur.stdout),
            ),
        )
    } else if lat.exit_code != 0 {
        Err(
            cmd_failed_msg(
                "latest_version_command"@,
                lat.exit_code,
                spec_command_error_text(lat.stderr, lat.stdout),
            ),
        )
    } else {
        let current = spec_normalize_version(cur.stdout);
        let latest = spec_normalize_version(lat.stdout);
        Ok(
            VerdictView {
                item_id: id,
                checked_at: now,
                has_update: current is Some && latest is Some && current->0 != latest->0,
                current_version: current,
                latest_version: latest,
                details: "version comparison"@,
                error: None,
            },
        )
    }
}

/// Builds the version-diff verdict from the two finished version commands.
pub fn versions_verdict(item_id: &str, cur: &CommandOutput, lat: &CommandOutput, now: String) -> (r:
    Result<CheckResult, String>)
    ensures
        check_res_view(r) == spec_versions_verdict(item_id@, cur@, lat@, now@),
{
    if cur.exit_code != 0 {
        let detail = command_error_text(cur.stderr.as_str(), cur.stdout.as_str());
        return Err(failed_message("current_version_command", cur.exit_code, detail.as_str()));
    }
    if lat.exit_code != 0 {
        let detail = command_error_text(lat.stderr.as_str(), lat.stdout.as_str());
        return Err(failed_message("latest_version_command", lat.exit_code, detail.as_str()));
    }
    let current = normalize_version(cur.stdout.as_str());
    let latest = normalize_version(lat.stdout.as_str());
    let has_update = match (&current, &latest) {
        (Some(c), Some(l)) => !crate::text::str_eq(c.as_str(), l.as_str()),
        _ => false,
    };
    Ok(
        CheckResult {
            item_id: item_id.to_owned(),
            checked_at: now,
            has_update,
            current_version: current,
            latest_version: latest,
            details: String::from_str("version comparison"),
            error: None,
        },
    )
}

/// The check-command verdict assembled from the check outcome and the two
/// best-effort version outcomes (absent where not declared).
pub open spec fn spec_command_verdict(
    id: Seq<char>,
    regex: Option<Seq<char>>,
    check: OutputView,
    cur: Option<OutputView>,
    lat: Option<OutputView>,
    now: Seq<char>,
) -> Result<VerdictView, Seq<char>> {
    match spec_check_signal(id, regex, check) {
        Err(e) => Err(e),
        Ok(has_update) => Ok(
            VerdictView {
                item_id: id,
                checked_at: now,
                has_update,
                current_version: spec_best_effort_version(cur),
                latest_version: spec_best_effort_version(lat),
                details: "check command output: "@ + check.stdout,
                error: None,
            },
        ),
    }
}

/// Runs the check-command strategy: the check command decides the update
/// signal; the version commands are enrichment whose failures do not fail
/// the check. An executor-level error on any command aborts with that error.
pub fn check_with_command<E: CommandExecutor>(item: &SoftwareItem, execute: &mut E) -> (r: Result<
    CheckResult,
    String,
>)
    ensures
        item@.update_check_command is None ==> r is Err && r->Err_0@ == no_check_msg(item@.id),
        r is Ok ==> r->Ok_0@.wf() && r->Ok_0@.error is None && r->Ok_0@.item_id == item@.id,
        r is Ok ==> exists|check: CommandOutput, cur: Option<CommandOutput>, lat: Option<
            CommandOutput,
        >|
            check_res_view(r) == spec_command_verdict(
                item@.id,
                item@.update_check_regex,
                check@,
                opt_output_view(cur),
                opt_output_view(lat),
                r->Ok_0@.checked_at,
            ),
{
    let check_cmd = match &item.update_check_command {
        Some(c) => c,
        None => {
            return Err(suffixed_message(item.id.as_str(), " has no update_check_command"));
        },
    };
    let output = match execute.execute(check_cmd.as_str()) {
        Ok(o) => o,
        Err(e) => {
            return Err(e);
        },
    };
    let has_update = match check_signal(item.id.as_str(), &item.update_check_regex, &output) {
        Ok(b) => b,
        Err(e) => {
            return Err(e);
        },
    };
    let ghost mut g_cur: Option<CommandOutput> = None;
    let current_version = match &item.current_version_command {
        Some(cmd) => {
            let vo = match execute.execute(cmd.as_str()) {
                Ok(o) => o,
                Err(e) => {
                    return Err(e);
                },
            };
            proof {
                g_cur = Some(vo);
            }
            if vo.exit_code == 0 {
                normalize_version(vo.stdout.as_str())
            } else {
                None
            }
        },
        None => None,
    };
    let ghost mut g_lat: Option<CommandOutput> = None;
    let latest_version = match &item.latest_version_command {
        Some(cmd) => {
            let vo = match execute.execute(cmd.as_str()) {
                Ok(o) => o,
                Err(e) => {
                    return Err(e);
                },
            };
            proof {
                g_lat = Some(vo);
            }
            if vo.exit_code == 0 {
                normalize_version(vo.stdout.as_str())
            } else {
                None
            }
        },
        None => None,
    };
    let mut details = String::from_str("check command output: ");
    details.append(output.stdout.as_str());
    let result = CheckResult {
        item_id: item.id.clone(),
        checked_at: now_rfc3339(),
        has_update,
        current_version,
        latest_version,
        details,
        error: None,
    };
    proof {
        assert(opt_view(result.current_version) == spec_best_effort_version(opt_output_view(g_cur)));
        assert(opt_view(result.latest_version) == spec_best_effort_version(opt_output_view(g_lat)));
        assert(check_res_view(Ok(result)) == spec_command_verdict(
            item@.id,
            item@.update_check_regex,
            output@,
            opt_output_view(g_cur),
            opt_output_view(g_lat),
            result@.checked_at,
        ));
    }
    Ok(result)
}

/// Runs the version-diff strategy: both version commands are required and
/// both must succeed; the verdict is their textual comparison.
pub fn check_with_versions<E: CommandExecutor>(item: &SoftwareItem, execute: &mut E) -> (r: Result<
    CheckResult,
    String,
>)
    ensures
        item@.current_version_command is None ==> r is Err && r->Err_0@ == no_current_msg(
            item@.id,
        ),
        item@.current_version_command is Some && item@.latest_version_command is None ==> r is Err
            && r->Err_0@ == no_latest_msg(item@.id),
        r is Ok ==> r->Ok_0@.wf() && r->Ok_0@.error is None && r->Ok_0@.item_id == item@.id
            && r->Ok_0@.details == "version comparison"@,
        r is Ok ==> exists|cur: CommandOutput, lat: CommandOutput|
            check_res_view(r) == spec_versions_verdict(item@.id, cur@, lat@, r->Ok_0@.checked_at),
{
    let current_cmd = match &item.current_version_command {
        Some(c) => c,
        None => {
            return Err(suffixed_message(item.id.as_str(), " has no current_version_command"));
        },
    };
    let latest_cmd = match &item.latest_version_command {
        Some(c) => c,
        None => {
            return Err(suffixed_message(item.id.as_str(), " has no latest_version_command"));
        },
    };
    let current_output = match execute.execute(current_cmd.as_str()) {
        Ok(o) => o,
        Err(e) => {
            return Err(e);
        },
    };
    let latest_output = match execute.execute(latest_cmd.as_str()) {
        Ok(o) => o,
        Err(e) => {
            return Err(e);
        },
    };
    let result = versions_verdict(item.id.as_str(), &current_output, &latest_output, now_rfc3339());
    proof {
        if result is Ok {
            assert(check_res_view(result) == spec_versions_verdict(
                item@.id,
                current_output@,
                latest_output@,
                result->Ok_0@.checked_at,
            ));
        }
    }
    result
}

/// An error verdict for `item_id`: no update, no versions, the fixed
/// failure detail, and `error` carrying the cause.
pub fn error_verdict(item_id: &str, error: String) -> (r: CheckResult)
    ensures
        r@.item_id == item_id@,
        r@.has_update == false,
        r@.current_version is None,
        r@.latest_version is None,
        r@.details == "check failed"@,
        r@.error == Some(error@),
        r@.wf(),
{
    CheckResult {
        item_id: item_id.to_owned(),
        checked_at: now_rfc3339(),
        has_update: false,
        current_version: None,
        latest_version: None,
        details: String::from_str("check failed"),
        error: Some(error),
    }
}

/// Checks one item: picks the strategy from the declared commands and never
/// lets an internal error escape — any failure becomes an error verdict for
/// exactly this item.
pub fn check_single_item<E: CommandExecutor>(item: &SoftwareItem, execute: &mut E) -> (r:
    CheckResult)
    ensures
        r@.item_id == item@.id,
        r@.wf(),
        r@.error is None ==> item.is_checkable(),
        !item.is_checkable() ==> r@.error == Some(no_strategy_msg(item@.id)),
        item@.update_check_command is None && item@.latest_version_command is Some
            && item@.current_version_command is None ==> r@.error == Some(
            no_current_msg(item@.id),
        ),
        r@.error is Some ==> r@.details == "check failed"@,
        item@.update_check_command is Some && r@.error is None ==> exists|
            check: CommandOutput,
            cur: Option<CommandOutput>,
            lat: Option<CommandOutput>,
        |
            Ok::<VerdictView, Seq<char>>(r@) == spec_command_verdict(
                item@.id,
                item@.update_check_regex,
                check@,
                opt_output_view(cur),
                opt_output_view(lat),
                r@.checked_at,
            ),
        item@.update_check_command is None && item@.latest_version_command is Some && r@.error
            is None ==> r@.details == "version comparison"@ && exists|
            cur: CommandOutput,
            lat: CommandOutput,
        |
            Ok::<VerdictView, Seq<char>>(r@) == spec_versions_verdict(
                item@.id,
                cur@,
                lat@,
                r@.checked_at,
            ),
{
    let result = if item.update_check_command.is_some() {
        check_with_command(item, execute)
    } else if item.latest_version_command.is_some() {
        check_with_versions(item, execute)
    } else {
        Err(
            suffixed_message(
                item.id.as_str(),
                " has neither update_check_command nor latest_version_command",
            ),
        )
    };
    match result {
        Ok(value) => value,
        Err(error) => error_verdict(item.id.as_str(), error),
    }
}

/// Two verdict views that agree on everything but the timestamp.
pub open spec fn same_but_time(v1: VerdictView, v2: VerdictView) -> bool {
    &&& v1.item_id == v2.item_id
    &&& v1.has_update == v2.has_update
    &&& v1.current_version == v2.current_version
    &&& v1.latest_version == v2.latest_version
    &&& v1.details == v2.details
    &&& v1.error == v2.error
}

/// Checking is idempotent up to the timestamp: evaluating the version-diff
/// strategy twice over the same command outcomes yields the same error, or
/// verdicts that differ at most in `checked_at`.
pub proof fn lemma_versions_verdict_idempotent(
    id: Seq<char>,
    cur: OutputView,
    lat: OutputView,
    t1: Seq<char>,
    t2: Seq<char>,
)
    ensures
        spec_versions_verdict(id, cur, lat, t1) is Ok <==> spec_versions_verdict(
            id,
            cur,
            lat,
            t2,
        ) is Ok,
        spec_versions_verdict(id, cur, lat, t1) is Err ==> spec_versions_verdict(id, cur, lat, t1)
            == spec_versions_verdict(id, cur, lat, t2),
        spec_versions_verdict(id, cur, lat, t1) is Ok ==> same_but_time(
            spec_versions_verdict(id, cur, lat, t1)->Ok_0,
            spec_versions_verdict(id, cur, lat, t2)->Ok_0,
        ) && spec_versions_verdict(id, cur, lat, t1)->Ok_0.checked_at == t1,
{
}

/// Checking is idempotent up to the timestamp: evaluating the check-command
/// strategy twice over the same command outcomes yields the same error, or
/// verdicts that differ at most in `checked_at`.
pub proof fn lemma_command_verdict_idempotent(
    id: Seq<char>,
    regex: Option<Seq<char>>,
    check: OutputView,
    cur: Option<OutputView>,
    lat: Option<OutputView>,
    t1: Seq<char>,
    t2: Seq<char>,
)
    ensures
        spec_command_verdict(id, regex, check, cur, lat, t1) is Ok <==> spec_command_verdict(
            id,
            regex,
            check,
            cur,
            lat,
            t2,
        ) is Ok,
        spec_command_verdict(id, regex, check, cur, lat, t1) is Err ==> spec_command_verdict(
            id,
            regex,
            check,
            cur,
            lat,
            t1,
        ) == spec_command_verdict(id, regex, check, cur, lat, t2),
        spec_command_verdict(id, regex, check, cur, lat, t1) is Ok ==> same_but_time(
            spec_command_verdict(id, regex, check, cur, lat, t1)->Ok_0,
            spec_command_verdict(id, regex, check, cur, lat, t2)->Ok_0,
        ) && spec_command_verdict(id, regex, check, cur, lat, t1)->Ok_0.checked_at == t1,
{
}

} // verus!
