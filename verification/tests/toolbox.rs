use patchpilot::batch::{default_timeout_seconds, find_item, is_auto_app_item, is_auto_cli_item,
    is_manual_item, is_runtime_item};
use patchpilot::catalog::{default_shared_update_commands, default_software_items};
use patchpilot::check::{command_error_text, is_truthy_signal, normalize_version};
use patchpilot::history::{check_all_entry, check_item_entry, command_entry, push_entry,
    HISTORY_LIMIT};
use patchpilot::migrate::{patch_legacy_config, set_option_if_missing, set_string_if_empty};
use patchpilot::model::{AppConfig, CheckResult, CommandOutput, LatestResultSnapshot,
    LatestResultState, SoftwareItem};
use patchpilot::ops::{installed_signal, node_version_from};
use patchpilot::report::{app_item_name, collect_error_count, collect_update_candidates,
    is_updatable_menu_item, latest_checked_time, str_le};
use patchpilot::runner::{poll_action, push_stream_line, timeout_millis, PollAction};
use patchpilot::store::{to_snapshot, upsert_results};
use patchpilot::text::{i32_to_string, i64_to_string, str_contains, str_eq, strip_line_ending,
    trim_str, u64_to_string};

fn result_for(id: &str, has_update: bool, error: Option<&str>, checked_at: &str) -> CheckResult {
    CheckResult {
        item_id: String::from(id),
        checked_at: String::from(checked_at),
        has_update,
        current_version: None,
        latest_version: None,
        details: String::new(),
        error: error.map(String::from),
    }
}

fn snapshot_for(id: &str, has_update: bool, error: Option<&str>, checked_at: &str)
    -> LatestResultSnapshot {
    LatestResultSnapshot {
        item_id: String::from(id),
        checked_at: String::from(checked_at),
        has_update,
        current_version: None,
        latest_version: None,
        error: error.map(String::from),
    }
}

fn entry_output() -> CommandOutput {
    CommandOutput {
        command: String::from("brew upgrade"),
        exit_code: 0,
        stdout: String::from("done"),
        stderr: String::new(),
        duration_ms: 17,
        timed_out: false,
    }
}

#[test]
fn trimming_strips_ascii_whitespace() {
    assert_eq!(trim_str("  1.2.3 \r\n"), "1.2.3");
    assert_eq!(trim_str("\t\n "), "");
    assert_eq!(trim_str("no-trim"), "no-trim");
    assert_eq!(trim_str(""), "");
}

#[test]
fn line_endings_are_stripped_like_the_reader() {
    assert_eq!(strip_line_ending("abc\r\n"), "abc");
    assert_eq!(strip_line_ending("abc\n\n"), "abc");
    assert_eq!(strip_line_ending("abc"), "abc");
    let mut buffer = String::new();
    push_stream_line(&mut buffer, "one\n");
    push_stream_line(&mut buffer, "two\r\n");
    assert_eq!(buffer, "one\ntwo");
}

#[test]
fn string_helpers_behave() {
    assert!(str_eq("same", "same"));
    assert!(!str_eq("same", "samey"));
    assert!(str_contains("channel-rust-stable.toml here", "channel-rust-stable.toml"));
    assert!(!str_contains("short", "longer than hay"));
    assert!(str_le("2024-01-01", "2024-01-02"));
    assert!(!str_le("2024-02-01", "2024-01-02"));
    assert!(str_le("abc", "abc"));
}

#[test]
fn decimal_rendering_is_exact() {
    assert_eq!(u64_to_string(0), "0");
    assert_eq!(u64_to_string(120), "120");
    assert_eq!(u64_to_string(987654), "987654");
    assert_eq!(i64_to_string(-1), "-1");
    assert_eq!(i32_to_string(-124), "-124");
    assert_eq!(i32_to_string(255), "255");
}

#[test]
fn error_text_prefers_stderr_then_stdout() {
    assert_eq!(command_error_text(" boom \n", "ignored"), "boom");
    assert_eq!(command_error_text("  ", "detail"), "stdout: detail");
    assert_eq!(command_error_text(" ", "\t"), "no output");
}

#[test]
fn version_normalisation() {
    assert_eq!(normalize_version("  1.2.3\n"), Some(String::from("1.2.3")));
    assert_eq!(normalize_version("   "), None);
}

#[test]
fn truthy_tokens() {
    assert!(is_truthy_signal("1"));
    assert!(is_truthy_signal("true"));
    assert!(is_truthy_signal("TRUE"));
    assert!(is_truthy_signal("Yes"));
    assert!(!is_truthy_signal("0"));
    assert!(!is_truthy_signal("no"));
    assert!(!is_truthy_signal("yes!"));
}

#[test]
fn poll_decisions() {
    assert_eq!(poll_action(true, 0, 1000), PollAction::Finish);
    assert_eq!(poll_action(false, 1000, 1000), PollAction::Kill);
    assert_eq!(poll_action(false, 999, 1000), PollAction::KeepWaiting);
    assert_eq!(timeout_millis(0), 1000);
    assert_eq!(timeout_millis(120), 120_000);
}

#[test]
fn history_entries_carry_the_outcome() {
    let ok = result_for("brew", true, None, "2024-01-01T00:00:00Z");
    let e = check_item_entry(&ok);
    assert_eq!(e.action, "check-item");
    assert_eq!(e.target, "brew");
    assert!(e.success);
    assert_eq!(e.summary, "update available");

    let bad = result_for("brew", false, Some("it broke"), "t");
    let e2 = check_item_entry(&bad);
    assert!(!e2.success);
    assert_eq!(e2.summary, "it broke");

    let e3 = check_all_entry("auto-check", true, String::from("summary here"));
    assert_eq!(e3.target, "enabled-items");
    assert_eq!(e3.summary, "summary here");

    let e4 = command_entry("run-item-update", "brew", &entry_output(), String::from("ran"));
    assert_eq!(e4.command.as_deref(), Some("brew upgrade"));
    assert!(e4.success);
    assert_eq!(e4.exit_code, Some(0));

    let mut timed = entry_output();
    timed.timed_out = true;
    let e5 = command_entry("run-item-update", "brew", &timed, String::from("ran"));
    assert!(!e5.success);
}

#[test]
fn history_is_newest_first_and_bounded() {
    let mut entries = Vec::new();
    for i in 0..(HISTORY_LIMIT + 5) {
        let e = check_all_entry("auto-check", true, format!("run {i}"));
        push_entry(&mut entries, e);
    }
    assert_eq!(entries.len(), HISTORY_LIMIT);
    assert_eq!(entries[0].summary, format!("run {}", HISTORY_LIMIT + 4));
    assert_eq!(entries[1].summary, format!("run {}", HISTORY_LIMIT + 3));
}

#[test]
fn upsert_is_last_write_wins_per_identifier() {
    let mut state = LatestResultState { updated_at: String::from("t0"), items: Vec::new() };
    let first = vec![
        result_for("a", false, None, "t1"),
        result_for("b", true, None, "t1"),
    ];
    upsert_results(&mut state, &first, String::from("t1"));
    assert_eq!(state.items.len(), 2);
    assert_eq!(state.updated_at, "t1");

    let second = vec![
        result_for("a", true, None, "t2"),
        result_for("a", false, Some("late failure"), "t3"),
    ];
    upsert_results(&mut state, &second, String::from("t3"));
    assert_eq!(state.items.len(), 2);
    let a = state.items.iter().find(|s| s.item_id == "a").unwrap();
    assert_eq!(a.checked_at, "t3");
    assert_eq!(a.error.as_deref(), Some("late failure"));
    let b = state.items.iter().find(|s| s.item_id == "b").unwrap();
    assert_eq!(b.checked_at, "t1");

    let before = state.items.len();
    upsert_results(&mut state, &Vec::new(), String::from("t9"));
    assert_eq!(state.updated_at, "t3");
    assert_eq!(state.items.len(), before);
}

#[test]
fn snapshot_projection_keeps_fields() {
    let r = result_for("a", true, None, "t1");
    let s = to_snapshot(&r);
    assert_eq!(s.item_id, "a");
    assert_eq!(s.checked_at, "t1");
    assert!(s.has_update);
    assert_eq!(s.error, None);
}

fn enabled_item(id: &str, kind: &str) -> SoftwareItem {
    SoftwareItem {
        id: String::from(id),
        name: format!("{id} name"),
        kind: String::from(kind),
        enabled: true,
        description: String::new(),
        current_version_command: None,
        latest_version_command: Some(String::from("latest")),
        update_check_command: None,
        update_check_regex: None,
        update_command: String::from("true"),
    }
}

fn report_config() -> AppConfig {
    AppConfig {
        check_interval_minutes: 480,
        command_timeout_seconds: 120,
        theme_mode: String::from("system"),
        auto_check_enabled: true,
        shared_update_commands: Vec::new(),
        items: vec![
            enabled_item("brew", "cli"),
            enabled_item("zed", "cli"),
            enabled_item("chrome", "gui"),
        ],
    }
}

#[test]
fn report_views_over_snapshots() {
    let config = report_config();
    let latest = LatestResultState {
        updated_at: String::from("t"),
        items: vec![
            snapshot_for("brew", true, None, "2024-01-02T00:00:00Z"),
            snapshot_for("zed", true, Some("oops"), "2024-01-03T00:00:00Z"),
            snapshot_for("chrome", true, None, "2024-01-01T00:00:00Z"),
        ],
    };
    assert_eq!(
        latest_checked_time(&config, &latest).as_deref(),
        Some("2024-01-03T00:00:00Z")
    );
    let candidates = collect_update_candidates(&config, &latest);
    // zed has an error; chrome is a gui item, not offered in the menu.
    assert_eq!(candidates.len(), 1);
    assert_eq!(candidates[0].id, "brew");
    assert_eq!(candidates[0].name, "brew name");
    assert_eq!(collect_error_count(&config, &latest), 1);
    assert_eq!(app_item_name(&config, "zed").as_deref(), Some("zed name"));
    assert_eq!(app_item_name(&config, "ghost"), None);
}

#[test]
fn scope_predicates_follow_kind_and_id() {
    let brew = enabled_item("brew", "cli");
    let zed = enabled_item("zed", "cli");
    let chrome = enabled_item("chrome", "gui");
    let go = enabled_item("go-runtime", "runtime");
    assert!(is_manual_item(&brew));
    assert!(!is_manual_item(&zed));
    assert!(is_auto_cli_item(&zed));
    assert!(!is_auto_cli_item(&brew));
    assert!(is_auto_app_item(&chrome));
    assert!(is_runtime_item(&go));
    assert!(is_updatable_menu_item(&brew));
    assert!(is_updatable_menu_item(&zed));
    assert!(!is_updatable_menu_item(&chrome));
}

#[test]
fn config_lookup_and_timeout_floor() {
    let mut config = report_config();
    assert_eq!(default_timeout_seconds(&config), 120);
    config.command_timeout_seconds = 0;
    assert_eq!(default_timeout_seconds(&config), 1);
    assert!(find_item(&config, "zed").is_some());
    assert!(find_item(&config, "nope").is_none());
}

#[test]
fn node_and_install_probes() {
    let ok = Ok(CommandOutput {
        command: String::from("node --version"),
        exit_code: 0,
        stdout: String::from("20.1.0\n"),
        stderr: String::new(),
        duration_ms: 1,
        timed_out: false,
    });
    assert_eq!(node_version_from(&ok), "20.1.0");
    assert!(installed_signal(&ok));
    let failed = Ok(CommandOutput {
        command: String::from("node --version"),
        exit_code: 1,
        stdout: String::from("x"),
        stderr: String::new(),
        duration_ms: 1,
        timed_out: false,
    });
    assert_eq!(node_version_from(&failed), "");
    assert!(!installed_signal(&failed));
    let err: Result<CommandOutput, String> = Err(String::from("spawn failed"));
    assert_eq!(node_version_from(&err), "");
    assert!(!installed_signal(&err));
}

#[test]
fn catalog_ships_checkable_items() {
    let items = default_software_items();
    assert_eq!(items.len(), 29);
    for item in &items {
        assert!(
            item.update_check_command.is_some() || item.latest_version_command.is_some(),
            "item {} is not checkable",
            item.id
        );
    }
    assert_eq!(items[0].id, "brew");
    for item in &items {
        assert!(item.latest_version_command.is_some());
    }
    for a in 0..items.len() {
        for b in (a + 1)..items.len() {
            assert_ne!(items[a].id, items[b].id);
        }
    }
    let shared = default_shared_update_commands();
    assert_eq!(shared, vec!["brew update", "brew upgrade"]);
}

#[test]
fn default_config_lists_its_items_in_order() {
    let config = AppConfig::default();
    assert_eq!(config.check_interval_minutes, 480);
    assert_eq!(config.command_timeout_seconds, 120);
    assert_eq!(config.theme_mode, "system");
    assert!(config.auto_check_enabled);
    let ids: Vec<&str> = config.items.iter().map(|i| i.id.as_str()).collect();
    assert_eq!(
        ids,
        vec![
            "brew",
            "bun",
            "gemini-cli",
            "codex-cli",
            "oh-my-zsh",
            "visual-studio-code",
            "antigravity"
        ]
    );
}

#[test]
fn setters_fill_only_blank_fields() {
    let mut target = Some(String::from("  "));
    let default = Some(String::from("filled"));
    assert!(set_option_if_missing(&mut target, &default));
    assert_eq!(target.as_deref(), Some("filled"));
    let mut occupied = Some(String::from("keep"));
    assert!(!set_option_if_missing(&mut occupied, &default));
    assert_eq!(occupied.as_deref(), Some("keep"));
    let mut none_default = None;
    assert!(!set_option_if_missing(&mut none_default, &None));
    assert_eq!(none_default, None);

    let mut s = String::from(" \t");
    assert!(set_string_if_empty(&mut s, "fallback"));
    assert_eq!(s, "fallback");
    let mut t = String::from("set");
    assert!(!set_string_if_empty(&mut t, "fallback"));
    assert_eq!(t, "set");
}

#[test]
fn legacy_config_is_migrated() {
    let mut config = AppConfig::default();
    config.check_interval_minutes = 360;
    // A retired item disappears.
    config.items.push(enabled_item("pencil", "gui"));
    // A stale brew check command is restored from the default.
    config.items[0].update_check_command = Some(String::from("brew outdated --quiet brew"));
    let changed = patch_legacy_config(&mut config);
    assert!(changed);
    assert_eq!(config.check_interval_minutes, 480);
    assert!(config.items.iter().all(|i| i.id != "pencil"));
    assert_eq!(
        config.items[0].update_check_command.as_deref(),
        Some("brew outdated --quiet")
    );
    for wanted in ["brew", "bun", "gemini-cli", "codex-cli", "oh-my-zsh"] {
        assert!(config.items.iter().any(|i| i.id == wanted), "missing {wanted}");
    }
    // A second run leaves the content alone (the reported flag may still
    // be set: restoring a field to the value it already holds counts).
    let snapshot = |config: &AppConfig| -> Vec<(String, String, String, bool, String, Option<String>, Option<String>, Option<String>, Option<String>, String)> {
        config
            .items
            .iter()
            .map(|i| (
                i.id.clone(),
                i.name.clone(),
                i.kind.clone(),
                i.enabled,
                i.description.clone(),
                i.current_version_command.clone(),
                i.latest_version_command.clone(),
                i.update_check_command.clone(),
                i.update_check_regex.clone(),
                i.update_command.clone(),
            ))
            .collect()
    };
    let before = snapshot(&config);
    let interval = config.check_interval_minutes;
    patch_legacy_config(&mut config);
    assert_eq!(before, snapshot(&config));
    assert_eq!(config.check_interval_minutes, interval);
}
