//! The engine's data model: software items and their declared commands, the
//! structured outcome of one executed command, the verdict of one update
//! check, persisted snapshots, and history entries.
//!
//! Every type has a mathematical view (`@`) over character sequences, which
//! is what all contracts in this crate speak about.

use vstd::prelude::*;

verus! {

/// View of an `Option<String>` as an optional character sequence.
pub open spec fn opt_view(o: Option<String>) -> Option<Seq<char>> {
    match o {
        Some(s) => Some(s@),
        None => None,
    }
}

/// One trackable piece of software with its check and update commands.
///
/// The command strings are operator-authored shell commands; the engine
/// treats them as opaque text and never interprets them itself.
#[derive(Debug, Clone)]
pub struct SoftwareItem {
    pub id: String,
    pub name: String,
    pub kind: String,
    pub enabled: bool,
    pub description: String,
    pub current_version_command: Option<String>,
    pub latest_version_command: Option<String>,
    pub update_check_command: Option<String>,
    pub update_check_regex: Option<String>,
    pub update_command: String,
}

pub ghost struct ItemView {
    pub id: Seq<char>,
    pub name: Seq<char>,
    pub kind: Seq<char>,
    pub enabled: bool,
    pub description: Seq<char>,
    pub current_version_command: Option<Seq<char>>,
    pub latest_version_command: Option<Seq<char>>,
    pub update_check_command: Option<Seq<char>>,
    pub update_check_regex: Option<Seq<char>>,
    pub update_command: Seq<char>,
}

impl View for SoftwareItem {
    type V = ItemView;

    open spec fn view(&self) -> ItemView {
        ItemView {
            id: self.id@,
            name: self.name@,
            kind: self.kind@,
            enabled: self.enabled,
            description: self.description@,
            current_version_command: opt_view(self.current_version_command),
            latest_version_command: opt_view(self.latest_version_command),
            update_check_command: opt_view(self.update_check_command),
            update_check_regex: opt_view(self.update_check_regex),
            update_command: self.update_command@,
        }
    }
}

impl SoftwareItem {
    /// An item can be checked at all only if at least one of the two
    /// update-signal commands is declared.
    pub open spec fn is_checkable(&self) -> bool {
        self@.update_check_command is Some || self@.latest_version_command is Some
    }

    /// A field-by-field copy whose view equals this item's.
    pub fn duplicate(&self) -> (r: SoftwareItem)
        ensures
            r@ == self@,
    {
        SoftwareItem {
            id: self.id.clone(),
            name: self.name.clone(),
            kind: self.kind.clone(),
            enabled: self.enabled,
            description: self.description.clone(),
            current_version_command: clone_opt(&self.current_version_command),
            latest_version_command: clone_opt(&self.latest_version_command),
            update_check_command: clone_opt(&self.update_check_command),
            update_check_regex: clone_opt(&self.update_check_regex),
            update_command: self.update_command.clone(),
        }
    }
}

/// A copy of an optional string with the same view.
pub fn clone_opt(o: &Option<String>) -> (r: Option<String>)
    ensures
        opt_view(r) == opt_view(*o),
{
    match o {
        Some(s) => Some(s.clone()),
        None => None,
    }
}

/// Application configuration: scheduling knobs plus the item catalog.
#[derive(Debug, Clone)]
pub struct AppConfig {
    pub check_interval_minutes: u64,
    pub command_timeout_seconds: u64,
    pub theme_mode: String,
    pub auto_check_enabled: bool,
    pub shared_update_commands: Vec<String>,
    pub items: Vec<SoftwareItem>,
}

pub ghost struct ConfigView {
    pub check_interval_minutes: u64,
    pub command_timeout_seconds: u64,
    pub theme_mode: Seq<char>,
    pub auto_check_enabled: bool,
    pub shared_update_commands: Seq<Seq<char>>,
    pub items: Seq<ItemView>,
}

impl View for AppConfig {
    type V = ConfigView;

    open spec fn view(&self) -> ConfigView {
        ConfigView {
            check_interval_minutes: self.check_interval_minutes,
            command_timeout_seconds: self.command_timeout_seconds,
            theme_mode: self.theme_mode@,
            auto_check_enabled: self.auto_check_enabled,
            shared_update_commands: self.shared_update_commands@.map_values(|s: String| s@),
            items: self.items@.map_values(|it: SoftwareItem| it@),
        }
    }
}

/// The structured result of running one external command: the command text,
/// its exit code (or the timeout sentinel), the trimmed output streams, the
/// wall-clock duration, and whether the timeout fired.
#[derive(Debug, Clone)]
pub struct CommandOutput {
    pub command: String,
    pub exit_code: i32,
    pub stdout: String,
    pub stderr: String,
    pub duration_ms: u128,
    pub timed_out: bool,
}

pub ghost struct OutputView {
    pub command: Seq<char>,
    pub exit_code: int,
    pub stdout: Seq<char>,
    pub stderr: Seq<char>,
    pub duration_ms: int,
    pub timed_out: bool,
}

impl View for CommandOutput {
    type V = OutputView;

    open spec fn view(&self) -> OutputView {
        OutputView {
            command: self.command@,
            exit_code: self.exit_code as int,
            stdout: self.stdout@,
            stderr: self.stderr@,
            duration_ms: self.duration_ms as int,
            timed_out: self.timed_out,
        }
    }
}

/// The verdict of checking one item: whether an update is available, the
/// extracted version strings, free-text detail, and an error.
///
/// Error and success are mutually exclusive: whenever `error` is set,
/// `has_update` is false and both version fields are absent.
#[derive(Debug, Clone)]
pub struct CheckResult {
    pub item_id: String,
    pub checked_at: String,
    pub has_update: bool,
    pub current_version: Option<String>,
    pub latest_version: Option<String>,
    pub details: String,
    pub error: Option<String>,
}

pub ghost struct VerdictView {
    pub item_id: Seq<char>,
    pub checked_at: Seq<char>,
    pub has_update: bool,
    pub current_version: Option<Seq<char>>,
    pub latest_version: Option<Seq<char>>,
    pub details: Seq<char>,
    pub error: Option<Seq<char>>,
}

impl View for CheckResult {
    type V = VerdictView;

    open spec fn view(&self) -> VerdictView {
        VerdictView {
            item_id: self.item_id@,
            checked_at: self.checked_at@,
            has_update: self.has_update,
            current_version: opt_view(self.current_version),
            latest_version: opt_view(self.latest_version),
            details: self.details@,
            error: opt_view(self.error),
        }
    }
}

impl VerdictView {
    /// The invariant every verdict produced by this crate satisfies:
    /// an error verdict reports no update and no version strings.
    pub open spec fn wf(self) -> bool {
        self.error is Some ==> !self.has_update && self.current_version is None
            && self.latest_version is None
    }
}

/// The persisted, per-item portion of a verdict.
#[derive(Debug, Clone)]
pub struct LatestResultSnapshot {
    pub item_id: String,
    pub checked_at: String,
    pub has_update: bool,
    pub current_version: Option<String>,
    pub latest_version: Option<String>,
    pub error: Option<String>,
}

pub ghost struct SnapshotView {
    pub item_id: Seq<char>,
    pub checked_at: Seq<char>,
    pub has_update: bool,
    pub current_version: Option<Seq<char>>,
    pub latest_version: Option<Seq<char>>,
    pub error: Option<Seq<char>>,
}

impl View for LatestResultSnapshot {
    type V = SnapshotView;

    open spec fn view(&self) -> SnapshotView {
        SnapshotView {
            item_id: self.item_id@,
            checked_at: self.checked_at@,
            has_update: self.has_update,
            current_version: opt_view(self.current_version),
            latest_version: opt_view(self.latest_version),
            error: opt_view(self.error),
        }
    }
}

/// The latest snapshot per item, keyed by item identifier.
///
/// The snapshots are held in a vector with pairwise distinct identifiers;
/// `as_map` gives the identifier-keyed reading that the contracts use.
#[derive(Debug, Clone)]
pub struct LatestResultState {
    pub updated_at: String,
    pub items: Vec<LatestResultSnapshot>,
}

impl LatestResultState {
    /// Identifiers in `items` are pairwise distinct.
    pub open spec fn wf(&self) -> bool {
        forall|i: int, j: int|
            0 <= i < j < self.items@.len() ==> self.items@[i].item_id@ != self.items@[j].item_id@
    }

    /// The snapshots as a map from item identifier to snapshot view.
    pub open spec fn as_map(&self) -> Map<Seq<char>, SnapshotView> {
        Map::new(
            |id: Seq<char>| exists|i: int| 0 <= i < self.items@.len() && self.items@[i].item_id@ == id,
            |id: Seq<char>|
                {
                    let i = choose|i: int|
                        0 <= i < self.items@.len() && self.items@[i].item_id@ == id;
                    self.items@[i]@
                },
        )
    }
}

/// The result of running one item's update command.
#[derive(Debug, Clone)]
pub struct UpdateResult {
    pub item_id: String,
    pub updated_at: String,
    pub output: CommandOutput,
}

/// One entry of the append-only execution history.
#[derive(Debug, Clone)]
pub struct ExecutionHistoryEntry {
    pub id: String,
    pub action: String,
    pub target: String,
    pub command: Option<String>,
    pub stdout: Option<String>,
    pub stderr: Option<String>,
    pub recorded_at: String,
    pub success: bool,
    pub exit_code: Option<i32>,
    pub timed_out: bool,
    pub duration_ms: Option<u128>,
    pub summary: String,
}

/// An item offered in the quick-update list: its identifier and display name.
#[derive(Debug, Clone)]
pub struct UpdateCandidate {
    pub id: String,
    pub name: String,
}

pub ghost struct CandidateView {
    pub id: Seq<char>,
    pub name: Seq<char>,
}

impl View for UpdateCandidate {
    type V = CandidateView;

    open spec fn view(&self) -> CandidateView {
        CandidateView { id: self.id@, name: self.name@ }
    }
}

} // verus!
