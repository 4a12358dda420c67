use patchpilot::batch::{check_items, summarize, summary_text, CheckScope};
use patchpilot::check::{check_single_item, CommandExecutor};
use patchpilot::guard::CheckAllGuard;
use patchpilot::ops::{get_active_node_version_impl, is_installed, run_item_update};
use patchpilot::model::{AppConfig, CommandOutput, SoftwareItem};
use patchpilot::runner::finish_outcome;

fn out(exit_code: i32, stdout: &str, stderr: &str) -> CommandOutput {
    CommandOutput {
        command: String::from("cmd"),
        exit_code,
        stdout: String::from(stdout),
        stderr: String::from(stderr),
        duration_ms: 5,
        timed_out: false,
    }
}

struct SeqExec {
    responses: Vec<Result<CommandOutput, String>>,
    next: usize,
    calls: Vec<String>,
}

impl SeqExec {
    fn new(responses: Vec<Result<CommandOutput, String>>) -> Self {
        SeqExec { responses, next: 0, calls: Vec::new() }
    }
}

impl CommandExecutor for SeqExec {
    fn execute(&mut self, command: &str) -> Result<CommandOutput, String> {
        self.calls.push(command.to_string());
        let r = self.responses[self.next].clone();
        self.next += 1;
        r
    }
}

fn bare_item(id: &str) -> SoftwareItem {
    SoftwareItem {
        id: String::from(id),
        name: format!("{id} name"),
        kind: String::from("cli"),
        enabled: true,
        description: String::new(),
        current_version_command: None,
        latest_version_command: None,
        update_check_command: None,
        update_check_regex: None,
        update_command: String::from("true"),
    }
}

fn version_diff_item(id: &str) -> SoftwareItem {
    let mut it = bare_item(id);
    it.current_version_command = Some(String::from("current"));
    it.latest_version_command = Some(String::from("latest"));
    it
}

#[test]
fn outcome_trims_stdout_on_clean_exit() {
    let o = finish_outcome("echo 1.2.3", Some(0), "1.2.3\n", "", false, 10, 42);
    assert_eq!(o.stdout, "1.2.3");
    assert_eq!(o.exit_code, 0);
    assert!(!o.timed_out);
    assert_eq!(o.stderr, "");
    assert_eq!(o.command, "echo 1.2.3");
    assert_eq!(o.duration_ms, 42);
}

#[test]
fn outcome_timeout_uses_sentinel_and_notice() {
    let o = finish_outcome("sleep 60", None, "", "", true, 5, 5001);
    assert!(o.timed_out);
    assert_eq!(o.exit_code, -124);
    assert!(o.exit_code < 0);
    assert!(!(0..=255).contains(&o.exit_code));
    assert_eq!(o.stderr, "command timed out after 5s");
}

#[test]
fn outcome_timeout_notice_on_own_line_after_stderr() {
    let o = finish_outcome("sleep 60", None, "", "warning: slow\n", true, 7, 7000);
    assert_eq!(o.stderr, "warning: slow\ncommand timed out after 7s");
}

#[test]
fn outcome_unobservable_status_falls_back() {
    let o = finish_outcome("kill -9 $$", None, "", "", false, 10, 3);
    assert_eq!(o.exit_code, -1);
}

#[test]
fn version_diff_equal_versions_mean_no_update() {
    let item = version_diff_item("tool");
    let mut exec = SeqExec::new(vec![Ok(out(0, "1.0.0", "")), Ok(out(0, "1.0.0", ""))]);
    let v = check_single_item(&item, &mut exec);
    assert!(!v.has_update);
    assert!(v.error.is_none());
    assert_eq!(v.current_version.as_deref(), Some("1.0.0"));
    assert_eq!(v.latest_version.as_deref(), Some("1.0.0"));
    assert_eq!(v.details, "version comparison");
}

#[test]
fn version_diff_different_versions_mean_update() {
    let item = version_diff_item("tool");
    let mut exec = SeqExec::new(vec![Ok(out(0, "1.0.0", "")), Ok(out(0, "1.1.0", ""))]);
    let v = check_single_item(&item, &mut exec);
    assert!(v.has_update);
    assert!(v.error.is_none());
}

#[test]
fn version_diff_empty_current_means_no_update() {
    let item = version_diff_item("tool");
    let mut exec = SeqExec::new(vec![Ok(out(0, "", "")), Ok(out(0, "9.9.9", ""))]);
    let v = check_single_item(&item, &mut exec);
    assert!(!v.has_update);
    assert!(v.error.is_none());
    assert_eq!(v.current_version, None);
    assert_eq!(v.latest_version.as_deref(), Some("9.9.9"));
}

#[test]
fn version_diff_failing_latest_is_hard_error() {
    let item = version_diff_item("tool");
    let mut exec = SeqExec::new(vec![Ok(out(0, "1.0.0", "")), Ok(out(1, "", "boom"))]);
    let v = check_single_item(&item, &mut exec);
    assert_eq!(
        v.error.as_deref(),
        Some("latest_version_command failed (exit 1): boom")
    );
    assert!(!v.has_update);
    assert_eq!(v.current_version, None);
    assert_eq!(v.latest_version, None);
    assert_eq!(v.details, "check failed");
}

#[test]
fn version_diff_missing_current_command_is_config_error() {
    // A latest-version command alone selects the version-diff strategy,
    // which then misses its current-version command.
    let mut item = bare_item("tool");
    item.latest_version_command = Some(String::from("latest"));
    let mut exec = SeqExec::new(vec![]);
    let v = check_single_item(&item, &mut exec);
    assert_eq!(v.error.as_deref(), Some("tool has no current_version_command"));
    assert!(exec.calls.is_empty());
}

#[test]
fn check_command_regex_matches_nonempty_output() {
    let mut item = bare_item("pkg");
    item.update_check_command = Some(String::from("check"));
    item.update_check_regex = Some(String::from(".+"));
    let mut exec = SeqExec::new(vec![Ok(out(0, "pkg is outdated", ""))]);
    let v = check_single_item(&item, &mut exec);
    assert!(v.has_update);
    assert!(v.error.is_none());
    assert_eq!(v.details, "check command output: pkg is outdated");
}

#[test]
fn check_command_regex_rejects_empty_output() {
    let mut item = bare_item("pkg");
    item.update_check_command = Some(String::from("check"));
    item.update_check_regex = Some(String::from(".+"));
    let mut exec = SeqExec::new(vec![Ok(out(0, "", ""))]);
    let v = check_single_item(&item, &mut exec);
    assert!(!v.has_update);
    assert!(v.error.is_none());
}

#[test]
fn check_command_boolean_token_true() {
    let mut item = bare_item("pkg");
    item.update_check_command = Some(String::from("check"));
    let mut exec = SeqExec::new(vec![Ok(out(0, "true", ""))]);
    let v = check_single_item(&item, &mut exec);
    assert!(v.has_update);
}

#[test]
fn check_command_boolean_token_no() {
    let mut item = bare_item("pkg");
    item.update_check_command = Some(String::from("check"));
    let mut exec = SeqExec::new(vec![Ok(out(0, "no", ""))]);
    let v = check_single_item(&item, &mut exec);
    assert!(!v.has_update);
}

#[test]
fn check_command_boolean_token_is_case_insensitive() {
    let mut item = bare_item("pkg");
    item.update_check_command = Some(String::from("check"));
    let mut exec = SeqExec::new(vec![Ok(out(0, " YES \n", ""))]);
    let v = check_single_item(&item, &mut exec);
    assert!(v.has_update);
}

#[test]
fn check_command_nonzero_exit_is_error_with_stderr() {
    let mut item = bare_item("pkg");
    item.update_check_command = Some(String::from("check"));
    let mut exec = SeqExec::new(vec![Ok(out(2, "", "broken pipe"))]);
    let v = check_single_item(&item, &mut exec);
    assert_eq!(
        v.error.as_deref(),
        Some("update_check_command failed (exit 2): broken pipe")
    );
    assert!(!v.has_update);
}

#[test]
fn check_command_nonzero_exit_falls_back_to_stdout_text() {
    let mut item = bare_item("pkg");
    item.update_check_command = Some(String::from("check"));
    let mut exec = SeqExec::new(vec![Ok(out(3, "some detail", ""))]);
    let v = check_single_item(&item, &mut exec);
    assert_eq!(
        v.error.as_deref(),
        Some("update_check_command failed (exit 3): stdout: some detail")
    );
}

#[test]
fn check_command_no_output_marker() {
    let mut item = bare_item("pkg");
    item.update_check_command = Some(String::from("check"));
    let mut exec = SeqExec::new(vec![Ok(out(4, "  ", " "))]);
    let v = check_single_item(&item, &mut exec);
    assert_eq!(
        v.error.as_deref(),
        Some("update_check_command failed (exit 4): no output")
    );
}

#[test]
fn check_command_invalid_regex_is_error() {
    let mut item = bare_item("pkg");
    item.update_check_command = Some(String::from("check"));
    item.update_check_regex = Some(String::from("("));
    let mut exec = SeqExec::new(vec![Ok(out(0, "whatever", ""))]);
    let v = check_single_item(&item, &mut exec);
    assert_eq!(v.error.as_deref(), Some("invalid update_check_regex for pkg"));
    // The version commands are never run after a regex failure.
    assert_eq!(exec.calls.len(), 1);
}

#[test]
fn check_command_enrichment_versions_are_best_effort() {
    let mut item = bare_item("pkg");
    item.update_check_command = Some(String::from("check"));
    item.current_version_command = Some(String::from("current"));
    item.latest_version_command = Some(String::from("latest"));
    let mut exec = SeqExec::new(vec![
        Ok(out(0, "true", "")),
        Ok(out(0, " 1.2.0 ", "")),
        Ok(out(1, "7.0.0", "")),
    ]);
    let v = check_single_item(&item, &mut exec);
    assert!(v.has_update);
    assert!(v.error.is_none());
    assert_eq!(v.current_version.as_deref(), Some("1.2.0"));
    assert_eq!(v.latest_version, None);
    assert_eq!(exec.calls, vec!["check", "current", "latest"]);
}

#[test]
fn item_without_commands_always_errors() {
    let item = bare_item("ghost");
    let mut exec = SeqExec::new(vec![]);
    let v = check_single_item(&item, &mut exec);
    assert_eq!(
        v.error.as_deref(),
        Some("ghost has neither update_check_command nor latest_version_command")
    );
    assert!(!v.has_update);
    assert_eq!(v.current_version, None);
    assert_eq!(v.latest_version, None);
    assert!(exec.calls.is_empty());
}

#[test]
fn executor_failure_becomes_error_verdict() {
    let item = version_diff_item("tool");
    let mut exec = SeqExec::new(vec![Err(String::from("failed to execute command: boom"))]);
    let v = check_single_item(&item, &mut exec);
    assert_eq!(v.error.as_deref(), Some("failed to execute command: boom"));
    assert!(!v.has_update);
}

#[test]
fn guard_second_acquire_fails_until_release() {
    let mut guard = CheckAllGuard::new();
    let token = guard.try_acquire();
    assert!(token.is_some());
    assert!(guard.try_acquire().is_none());
    guard.release(token.unwrap());
    let again = guard.try_acquire();
    assert!(again.is_some());
}

#[test]
fn bulk_run_rejected_while_guard_held() {
    let mut guard = CheckAllGuard::new();
    let token = guard.try_acquire().unwrap();
    let items = vec![runtime_item("a"), runtime_item("b")];
    let mut exec = SeqExec::new(vec![]);
    let r = check_items(&mut guard, &items, CheckScope::Runtime, &mut exec);
    assert_eq!(r.unwrap_err(), "check-all is already running");
    assert!(exec.calls.is_empty());
    guard.release(token);
}

fn runtime_item(id: &str) -> SoftwareItem {
    let mut it = bare_item(id);
    it.kind = String::from("runtime");
    it.update_check_command = Some(String::from("check"));
    it
}

#[test]
fn bulk_run_preserves_item_order() {
    let mut guard = CheckAllGuard::new();
    let items = vec![runtime_item("alpha"), runtime_item("beta"), runtime_item("gamma")];
    let mut exec = SeqExec::new(vec![
        Ok(out(0, "true", "")),
        Ok(out(0, "no", "")),
        Ok(out(1, "", "bad")),
    ]);
    let r = check_items(&mut guard, &items, CheckScope::Runtime, &mut exec).unwrap();
    let ids: Vec<&str> = r.iter().map(|v| v.item_id.as_str()).collect();
    assert_eq!(ids, vec!["alpha", "beta", "gamma"]);
    // The guard is free again.
    let token = guard.try_acquire();
    assert!(token.is_some());
}

#[test]
fn bulk_run_filters_by_scope_and_counts() {
    let mut guard = CheckAllGuard::new();
    let mut cli = bare_item("cli-tool");
    cli.update_check_command = Some(String::from("check"));
    let items = vec![runtime_item("rt"), cli];
    let mut exec = SeqExec::new(vec![Ok(out(0, "true", ""))]);
    let r = check_items(&mut guard, &items, CheckScope::Runtime, &mut exec).unwrap();
    assert_eq!(r.len(), 1);
    assert_eq!(r[0].item_id, "rt");
    let summary = summarize(&r);
    assert_eq!(summary.total, 1);
    assert_eq!(summary.update_count, 1);
    assert_eq!(summary.error_count, 0);
}

#[test]
fn bulk_summary_counts_and_text() {
    let mut guard = CheckAllGuard::new();
    let items = vec![runtime_item("a"), runtime_item("b"), runtime_item("c")];
    let mut exec = SeqExec::new(vec![
        Ok(out(0, "true", "")),
        Ok(out(0, "no", "")),
        Ok(out(1, "", "bad")),
    ]);
    let r = check_items(&mut guard, &items, CheckScope::Runtime, &mut exec).unwrap();
    let summary = summarize(&r);
    assert_eq!(summary.total, 3);
    assert_eq!(summary.update_count, 1);
    assert_eq!(summary.error_count, 1);
    assert_eq!(summary_text(&summary), "checked 3 items, 1 updates, 1 errors");
}

#[test]
fn repeated_check_differs_only_in_timestamp() {
    let item = version_diff_item("tool");
    let mut exec1 = SeqExec::new(vec![Ok(out(0, "1.0.0", "")), Ok(out(0, "2.0.0", ""))]);
    let mut exec2 = SeqExec::new(vec![Ok(out(0, "1.0.0", "")), Ok(out(0, "2.0.0", ""))]);
    let v1 = check_single_item(&item, &mut exec1);
    let v2 = check_single_item(&item, &mut exec2);
    assert_eq!(v1.item_id, v2.item_id);
    assert_eq!(v1.has_update, v2.has_update);
    assert_eq!(v1.current_version, v2.current_version);
    assert_eq!(v1.latest_version, v2.latest_version);
    assert_eq!(v1.details, v2.details);
    assert_eq!(v1.error, v2.error);
}

#[test]
fn manual_scope_selects_the_package_managers() {
    let mut guard = CheckAllGuard::new();
    let mut brew = bare_item("brew");
    brew.update_check_command = Some(String::from("brew outdated --quiet"));
    let mut other = bare_item("zed");
    other.update_check_command = Some(String::from("zed --check"));
    let items = vec![brew, other];
    let mut exec = SeqExec::new(vec![Ok(out(0, "zed", ""))]);
    let r = check_items(&mut guard, &items, CheckScope::Manual, &mut exec).unwrap();
    assert_eq!(r.len(), 1);
    assert_eq!(r[0].item_id, "brew");
    assert_eq!(exec.calls, vec!["brew outdated --quiet"]);
}

#[test]
fn update_run_reports_missing_items() {
    let config = AppConfig {
        check_interval_minutes: 480,
        command_timeout_seconds: 120,
        theme_mode: String::from("system"),
        auto_check_enabled: true,
        shared_update_commands: Vec::new(),
        items: vec![bare_item("present")],
    };
    let mut exec = SeqExec::new(vec![]);
    let err = run_item_update(&config, "absent", &mut exec).unwrap_err();
    assert_eq!(err, "item not found: absent");
    assert!(exec.calls.is_empty());
}

#[test]
fn update_run_executes_the_update_command() {
    let mut item = bare_item("present");
    item.update_command = String::from("brew upgrade present");
    let config = AppConfig {
        check_interval_minutes: 480,
        command_timeout_seconds: 120,
        theme_mode: String::from("system"),
        auto_check_enabled: true,
        shared_update_commands: Vec::new(),
        items: vec![item],
    };
    let mut exec = SeqExec::new(vec![Ok(out(0, "done", ""))]);
    let update = run_item_update(&config, "present", &mut exec).unwrap();
    assert_eq!(update.item_id, "present");
    assert_eq!(update.output.stdout, "done");
    assert_eq!(exec.calls, vec!["brew upgrade present"]);
}

#[test]
fn node_version_probe_reads_trimmed_stdout() {
    let mut exec = SeqExec::new(vec![Ok(out(0, "22.1.0\n", ""))]);
    assert_eq!(get_active_node_version_impl(&mut exec), "22.1.0");
    let mut failing = SeqExec::new(vec![Ok(out(1, "x", ""))]);
    assert_eq!(get_active_node_version_impl(&mut failing), "");
}

#[test]
fn install_detection_uses_the_version_probe() {
    let mut with_probe = bare_item("tool");
    with_probe.current_version_command = Some(String::from("tool --version"));
    let mut exec = SeqExec::new(vec![Ok(out(0, "1.0", ""))]);
    assert!(is_installed(&with_probe, &mut exec));
    let mut exec_empty = SeqExec::new(vec![Ok(out(0, "  ", ""))]);
    assert!(!is_installed(&with_probe, &mut exec_empty));
    let without_probe = bare_item("tool");
    let mut unused = SeqExec::new(vec![]);
    assert!(is_installed(&without_probe, &mut unused));
}
