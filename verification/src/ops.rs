//! Direct operations on the catalog besides checking: running an item's
//! update command, reading the active Node.js version, and deciding whether
//! an item looks installed.

use vstd::prelude::*;

use crate::batch::{find_item, no_id_before};
use crate::check::{now_rfc3339, CommandExecutor};
use crate::model::{AppConfig, CommandOutput, UpdateResult};
use crate::text::{trim_str, trimmed};

verus! {

/// The error returned when no catalog item carries the identifier.
pub open spec fn item_not_found_msg(id: Seq<char>) -> Seq<char> {
    "item not found: "@ + id
}

/// Runs the update command of the catalog item with the given identifier.
/// An unknown identifier is an error and nothing is executed; an
/// executor-level failure is passed through.
pub fn run_item_update<E: CommandExecutor>(
    config: &AppConfig,
    item_id: &str,
    execute: &mut E,
) -> (r: Result<UpdateResult, String>)
    ensures
        no_id_before(config@.items, item_id@, config@.items.len() as int) ==> r is Err
            && r->Err_0@ == item_not_found_msg(item_id@),
        r is Ok ==> r->Ok_0.item_id@ == item_id@,
{
    let item = match find_item(config, item_id) {
        Some(it) => it,
        None => {
            let mut msg = String::from_str("item not found: ");
            msg.append(item_id);
            return Err(msg);
        },
    };
    let output = match execute.execute(item.update_command.as_str()) {
        Ok(o) => o,
        Err(e) => {
            return Err(e);
        },
    };
    Ok(UpdateResult { item_id: item_id.to_owned(), updated_at: now_rfc3339(), output })
}

/// The version string read from the version-probe outcome: the trimmed
/// stdout of a clean exit, and empty in every other case.
pub open spec fn spec_node_version(res: Result<CommandOutput, String>) -> Seq<char> {
    match res {
        Ok(o) => if o@.exit_code == 0 {
            trimmed(o@.stdout)
        } else {
            Seq::empty()
        },
        Err(_) => Seq::empty(),
    }
}

/// Extracts the version string from a version-probe outcome.
pub fn node_version_from(res: &Result<CommandOutput, String>) -> (v: String)
    ensures
        v@ == spec_node_version(*res),
{
    match res {
        Ok(o) => {
            if o.exit_code == 0 {
                trim_str(o.stdout.as_str())
            } else {
                String::new()
            }
        },
        Err(_) => String::new(),
    }
}

/// Probes the shell for the active Node.js version; empty when Node.js is
/// absent or the probe fails.
pub fn get_active_node_version_impl<E: CommandExecutor>(execute: &mut E) -> (v: String)
    ensures
        exists|res: Result<CommandOutput, String>| v@ == spec_node_version(res),
{
    let command =
        "if command -v node >/dev/null 2>&1; then node --version | sed -E 's/^v//'; else echo ''; fi";
    let res = execute.execute(command);
    node_version_from(&res)
}

/// Whether a version-probe outcome shows the software as installed: a
/// clean exit that printed something.
pub open spec fn spec_installed_signal(res: Result<CommandOutput, String>) -> bool {
    match res {
        Ok(o) => o@.exit_code == 0 && trimmed(o@.stdout).len() > 0,
        Err(_) => false,
    }
}

/// Reads the installed-or-not signal from a version-probe outcome.
pub fn installed_signal(res: &Result<CommandOutput, String>) -> (r: bool)
    ensures
        r == spec_installed_signal(*res),
{
    match res {
        Ok(o) => o.exit_code == 0 && !trim_str(o.stdout.as_str()).as_str().is_empty(),
        Err(_) => false,
    }
}

/// Whether an item looks installed: an item without a version probe counts
/// as installed; otherwise the probe decides.
pub fn is_installed<E: CommandExecutor>(
    item: &crate::model::SoftwareItem,
    execute: &mut E,
) -> (r: bool)
    ensures
        item@.current_version_command is None ==> r,
{
    let cmd = match &item.current_version_command {
        Some(c) => c,
        None => {
            return true;
        },
    };
    let res = execute.execute(cmd.as_str());
    installed_signal(&res)
}

} // verus!
