//! Bulk scans: filter the catalog by a scope, check every surviving item in
//! order under the single-flight guard, and aggregate the verdicts.
//!
//! One item's failure never aborts a batch — it is captured in that item's
//! verdict — and the returned verdicts preserve the catalog order of the
//! items that the scope selected.

use vstd::prelude::*;
use vstd::std_specs::vec::vec_index;

use crate::check::{check_single_item, CommandExecutor};
use crate::guard::CheckAllGuard;
use crate::model::{AppConfig, CheckResult, ItemView, SoftwareItem};
use crate::text::{dec_str, str_eq, u64_to_string};

verus! {

/// The manually triggered items: the two package managers themselves.
pub open spec fn spec_is_manual_item(it: ItemView) -> bool {
    it.id == "brew"@ || it.id == "bun"@
}

pub fn is_manual_item(item: &SoftwareItem) -> (r: bool)
    ensures
        r == spec_is_manual_item(item@),
{
    str_eq(item.id.as_str(), "brew") || str_eq(item.id.as_str(), "bun")
}

/// Enabled command-line items checked automatically.
pub open spec fn spec_is_auto_cli_item(it: ItemView) -> bool {
    it.enabled && !spec_is_manual_item(it) && it.kind == "cli"@
}

pub fn is_auto_cli_item(item: &SoftwareItem) -> (r: bool)
    ensures
        r == spec_is_auto_cli_item(item@),
{
    item.enabled && !is_manual_item(item) && str_eq(item.kind.as_str(), "cli")
}

/// Enabled desktop-application items checked automatically.
pub open spec fn spec_is_auto_app_item(it: ItemView) -> bool {
    it.enabled && !spec_is_manual_item(it) && (it.kind == "gui"@ || it.kind == "app"@)
}

pub fn is_auto_app_item(item: &SoftwareItem) -> (r: bool)
    ensures
        r == spec_is_auto_app_item(item@),
{
    item.enabled && !is_manual_item(item) && (str_eq(item.kind.as_str(), "gui") || str_eq(
        item.kind.as_str(),
        "app",
    ))
}

/// Enabled language-runtime items.
pub open spec fn spec_is_runtime_item(it: ItemView) -> bool {
    it.enabled && it.kind == "runtime"@
}

pub fn is_runtime_item(item: &SoftwareItem) -> (r: bool)
    ensures
        r == spec_is_runtime_item(item@),
{
    item.enabled && str_eq(item.kind.as_str(), "runtime")
}

/// Which slice of the catalog a bulk scan covers.
#[derive(Debug, Clone, Copy, PartialEq, Eq, Structural)]
pub enum CheckScope {
    /// The enabled manual items.
    Manual,
    /// Every automatically checked item, command-line or desktop.
    Auto,
    /// The automatically checked command-line items.
    AutoCli,
    /// The automatically checked desktop applications.
    AutoApp,
    /// The language runtimes.
    Runtime,
}

/// Whether `scope` selects the item.
pub open spec fn spec_selects(scope: CheckScope, it: ItemView) -> bool {
    match scope {
        CheckScope::Manual => it.enabled && spec_is_manual_item(it),
        CheckScope::Auto => spec_is_auto_cli_item(it) || spec_is_auto_app_item(it),
        CheckScope::AutoCli => spec_is_auto_cli_item(it),
        CheckScope::AutoApp => spec_is_auto_app_item(it),
        CheckScope::Runtime => spec_is_runtime_item(it),
    }
}

pub fn scope_selects(scope: CheckScope, item: &SoftwareItem) -> (r: bool)
    ensures
        r == spec_selects(scope, item@),
{
    match scope {
        CheckScope::Manual => item.enabled && is_manual_item(item),
        CheckScope::Auto => is_auto_cli_item(item) || is_auto_app_item(item),
        CheckScope::AutoCli => is_auto_cli_item(item),
        CheckScope::AutoApp => is_auto_app_item(item),
        CheckScope::Runtime => is_runtime_item(item),
    }
}

/// The views of a catalog slice.
pub open spec fn views_of_items(items: Seq<SoftwareItem>) -> Seq<ItemView> {
    items.map_values(|it: SoftwareItem| it@)
}

/// The items a scope selects, in catalog order.
pub open spec fn spec_selected(items: Seq<ItemView>, scope: CheckScope) -> Seq<ItemView> {
    items.filter(|it: ItemView| spec_selects(scope, it))
}

/// The error returned when a bulk scan is rejected because one is already
/// in flight.
pub open spec fn already_running_msg() -> Seq<char> {
    "check-all is already running"@
}

/// The timeout handed to executors: the configured value, floored at one
/// second.
pub fn default_timeout_seconds(config: &AppConfig) -> (r: u64)
    ensures
        r == if config@.command_timeout_seconds == 0 {
            1u64
        } else {
            config@.command_timeout_seconds
        },
{
    if config.command_timeout_seconds == 0 {
        1
    } else {
        config.command_timeout_seconds
    }
}

/// No item before index `i` carries the identifier `id`.
pub open spec fn no_id_before(items: Seq<ItemView>, id: Seq<char>, i: int) -> bool {
    forall|j: int| 0 <= j < i ==> items[j].id != id
}

/// The first catalog item with the given identifier.
pub fn find_item<'a>(config: &'a AppConfig, item_id: &str) -> (r: Option<&'a SoftwareItem>)
    ensures
        match r {
            Some(it) => exists|i: int|
                0 <= i < config@.items.len() && #[trigger] config@.items[i] == it@ && it@.id
                    == item_id@ && no_id_before(config@.items, item_id@, i),
            None => no_id_before(config@.items, item_id@, config@.items.len() as int),
        },
{
    let n = config.items.len();
    let mut i: usize = 0;
    while i < n
        invariant
            n == config.items@.len(),
            0 <= i <= n,
            no_id_before(config@.items, item_id@, i as int),
        decreases n - i,
    {
        let item = vec_index(&config.items, i);
        if str_eq(item.id.as_str(), item_id) {
            proof {
                let k = i as int;
                assert(config@.items[k] == config.items@[k]@);
                assert(0 <= k < config@.items.len() && config@.items[k] == item@ && item@.id
                    == item_id@ && no_id_before(config@.items, item_id@, k));
            }
            return Some(item);
        }
        i = i + 1;
    }
    None
}

/// Runs one bulk scan: rejected immediately with the "already running"
/// error — and no item touched — while another scan holds the guard;
/// otherwise every item the scope selects is checked independently, in
/// catalog order, and the guard is free again on return.
pub fn check_items<E: CommandExecutor>(
    guard: &mut CheckAllGuard,
    items: &Vec<SoftwareItem>,
    scope: CheckScope,
    execute: &mut E,
) -> (r: Result<Vec<CheckResult>, String>)
    ensures
        final(guard).is_held() == old(guard).is_held(),
        old(guard).is_held() ==> r is Err && r->Err_0@ == already_running_msg(),
        !old(guard).is_held() ==> r is Ok,
        r is Ok ==> r->Ok_0@.len() == spec_selected(views_of_items(items@), scope).len(),
        r is Ok ==> forall|i: int|
            0 <= i < r->Ok_0@.len() ==> (#[trigger] r->Ok_0@[i])@.item_id == spec_selected(
                views_of_items(items@),
                scope,
            )[i].id && r->Ok_0@[i]@.wf(),
{
    let token = match guard.try_acquire() {
        Some(t) => t,
        None => {
            return Err(String::from_str("check-all is already running"));
        },
    };
    let ghost all_views = views_of_items(items@);
    let ghost pred = |it: ItemView| spec_selects(scope, it);
    let n = items.len();
    let mut results: Vec<CheckResult> = Vec::new();
    let mut i: usize = 0;
    while i < n
        invariant
            n == items@.len(),
            0 <= i <= n,
            all_views == views_of_items(items@),
            pred == (|it: ItemView| spec_selects(scope, it)),
            results@.len() == all_views.subrange(0, i as int).filter(pred).len(),
            forall|k: int|
                0 <= k < results@.len() ==> (#[trigger] results@[k])@.item_id == all_views.subrange(
                    0,
                    i as int,
                ).filter(pred)[k].id && results@[k]@.wf(),
        decreases n - i,
    {
        let item = vec_index(items, i);
        let ghost pre = all_views.subrange(0, i as int);
        let ghost pre1 = all_views.subrange(0, i + 1);
        proof {
            reveal(Seq::filter);
            assert(pre1.drop_last() =~= pre);
            assert(pre1.last() == all_views[i as int]);
            assert(all_views[i as int] == item@);
        }
        if scope_selects(scope, item) {
            let verdict = check_single_item(item, execute);
            results.push(verdict);
            proof {
                assert(pre1.filter(pred) =~= pre.filter(pred).push(item@));
            }
        } else {
            proof {
                assert(pre1.filter(pred) =~= pre.filter(pred));
            }
        }
        i = i + 1;
    }
    proof {
        assert(all_views.subrange(0, n as int) =~= all_views);
    }
    guard.release(token);
    Ok(results)
}

/// Aggregated counts over one batch's verdicts.
#[derive(Debug, Clone, Copy, PartialEq, Eq, Structural)]
pub struct BulkSummary {
    /// How many items were checked.
    pub total: usize,
    /// How many of them reported an available update.
    pub update_count: usize,
    /// How many of them ended in an error verdict.
    pub error_count: usize,
}

/// The verdicts that report an available update.
pub open spec fn spec_update_count(rs: Seq<CheckResult>) -> nat {
    rs.filter(|c: CheckResult| c@.has_update).len()
}

/// The verdicts that carry an error.
pub open spec fn spec_error_count(rs: Seq<CheckResult>) -> nat {
    rs.filter(|c: CheckResult| c@.error is Some).len()
}

/// Counts a batch's verdicts: total, updates found, errors.
pub fn summarize(results: &Vec<CheckResult>) -> (s: BulkSummary)
    ensures
        s.total == results@.len(),
        s.update_count == spec_update_count(results@),
        s.error_count == spec_error_count(results@),
{
    let ghost upd_pred = |c: CheckResult| c@.has_update;
    let ghost err_pred = |c: CheckResult| c@.error is Some;
    let n = results.len();
    let mut updates: usize = 0;
    let mut errors: usize = 0;
    let mut i: usize = 0;
    while i < n
        invariant
            n == results@.len(),
            0 <= i <= n,
            upd_pred == (|c: CheckResult| c@.has_update),
            err_pred == (|c: CheckResult| c@.error is Some),
            updates == results@.subrange(0, i as int).filter(upd_pred).len(),
            errors == results@.subrange(0, i as int).filter(err_pred).len(),
            updates <= i,
            errors <= i,
        decreases n - i,
    {
        let item = vec_index(results, i);
        let ghost pre = results@.subrange(0, i as int);
        let ghost pre1 = results@.subrange(0, i + 1);
        proof {
            reveal(Seq::filter);
            assert(pre1.drop_last() =~= pre);
            assert(pre1.last() == results@[i as int]);
        }
        if item.has_update {
            updates = updates + 1;
            proof {
                assert(pre1.filter(upd_pred) =~= pre.filter(upd_pred).push(results@[i as int]));
            }
        } else {
            proof {
                assert(pre1.filter(upd_pred) =~= pre.filter(upd_pred));
            }
        }
        if item.error.is_some() {
            errors = errors + 1;
            proof {
                assert(pre1.filter(err_pred) =~= pre.filter(err_pred).push(results@[i as int]));
            }
        } else {
            proof {
                assert(pre1.filter(err_pred) =~= pre.filter(err_pred));
            }
        }
        i = i + 1;
    }
    proof {
        assert(results@.subrange(0, n as int) =~= results@);
    }
    BulkSummary { total: n, update_count: updates, error_count: errors }
}

/// The textual batch summary: the three counts in a fixed sentence.
pub open spec fn spec_summary_text(total: nat, updates: nat, errors: nat) -> Seq<char> {
    "checked "@ + dec_str(total) + " items, "@ + dec_str(updates) + " updates, "@ + dec_str(errors)
        + " errors"@
}

/// Renders the textual batch summary.
pub fn summary_text(s: &BulkSummary) -> (r: String)
    ensures
        r@ == spec_summary_text(s.total as nat, s.update_count as nat, s.error_count as nat),
{
    let mut t = String::from_str("checked ");
    let total = u64_to_string(s.total as u64);
    t.append(total.as_str());
    t.append(" items, ");
    let updates = u64_to_string(s.update_count as u64);
    t.append(updates.as_str());
    t.append(" updates, ");
    let errors = u64_to_string(s.error_count as u64);
    t.append(errors.as_str());
    t.append(" errors");
    t
}

} // verus!
