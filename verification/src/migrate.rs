//! Configuration migrations: older stored configurations are patched in
//! place — stale command strings are replaced by the current defaults,
//! retired items are dropped, and newly introduced default items are
//! appended.
//!
//! The migration never invents content: every field it touches is restored
//! from the matching default item, and an item without a matching default
//! is left exactly as it was.

use vstd::prelude::*;
use vstd::std_specs::vec::{vec_index, vec_index_mut};

use crate::batch::views_of_items;
use crate::model::{clone_opt, opt_view, AppConfig, ItemView, SoftwareItem};
use crate::text::{contains_sub, str_contains, str_eq, trim_str, trimmed};

verus! {

/// A command field counts as missing when absent or holding only
/// whitespace.
pub open spec fn opt_blank(o: Option<Seq<char>>) -> bool {
    match o {
        None => true,
        Some(s) => trimmed(s).len() == 0,
    }
}

fn opt_blank_exec(o: &Option<String>) -> (r: bool)
    ensures
        r == opt_blank(opt_view(*o)),
{
    match o {
        Some(v) => trim_str(v.as_str()).as_str().is_empty(),
        None => true,
    }
}

fn opt_eq_lit(o: &Option<String>, lit: &str) -> (r: bool)
    ensures
        r == (opt_view(*o) == Some(lit@)),
{
    match o {
        Some(v) => str_eq(v.as_str(), lit),
        None => false,
    }
}

fn opt_contains(o: &Option<String>, needle: &str) -> (r: bool)
    ensures
        r == match opt_view(*o) {
            Some(s) => contains_sub(s, needle@),
            None => false,
        },
{
    match o {
        Some(v) => str_contains(v.as_str(), needle),
        None => false,
    }
}

fn opt_lacks(o: &Option<String>, needle: &str) -> (r: bool)
    ensures
        r == match opt_view(*o) {
            Some(s) => !contains_sub(s, needle@),
            None => false,
        },
{
    match o {
        Some(v) => !str_contains(v.as_str(), needle),
        None => false,
    }
}

/// Fills `target` from `default` when `target` is blank and a default
/// exists; reports whether it wrote.
pub fn set_option_if_missing(target: &mut Option<String>, default: &Option<String>) -> (r: bool)
    ensures
        r == (opt_blank(opt_view(*old(target))) && default is Some),
        r ==> opt_view(*final(target)) == opt_view(*default),
        !r ==> *final(target) == *old(target),
{
    if opt_blank_exec(target) && default.is_some() {
        *target = clone_opt(default);
        true
    } else {
        false
    }
}

/// Fills `target` from `default` when `target` is blank; reports whether
/// it wrote.
pub fn set_string_if_empty(target: &mut String, default: &str) -> (r: bool)
    ensures
        r == (trimmed(old(target)@).len() == 0),
        r ==> final(target)@ == default@,
        !r ==> *final(target) == *old(target),
{
    if trim_str(target.as_str()).as_str().is_empty() {
        *target = default.to_owned();
        true
    } else {
        false
    }
}

/// The first item of `ds` carrying the identifier `id`.
pub open spec fn first_with_id(ds: Seq<SoftwareItem>, id: Seq<char>) -> Option<SoftwareItem>
    decreases ds.len(),
{
    if ds.len() == 0 {
        None
    } else if ds[0].id@ == id {
        Some(ds[0])
    } else {
        first_with_id(ds.drop_first(), id)
    }
}

proof fn lemma_first_with_id_skip(ds: Seq<SoftwareItem>, id: Seq<char>, k: int)
    requires
        0 <= k <= ds.len(),
        forall|j: int| 0 <= j < k ==> ds[j].id@ != id,
    ensures
        first_with_id(ds, id) == first_with_id(ds.skip(k), id),
    decreases k,
{
    if k > 0 {
        let t = ds.drop_first();
        assert(forall|j: int| 0 <= j < k - 1 ==> t[j].id@ != id);
        lemma_first_with_id_skip(t, id, k - 1);
        assert(t.skip(k - 1) =~= ds.skip(k));
    } else {
        assert(ds.skip(0) =~= ds);
    }
}

/// The first default item with the given identifier.
fn find_default<'a>(defaults: &'a Vec<SoftwareItem>, id: &str) -> (r: Option<&'a SoftwareItem>)
    ensures
        match r {
            Some(d) => first_with_id(defaults@, id@) == Some(*d),
            None => first_with_id(defaults@, id@) is None,
        },
{
    let n = defaults.len();
    let mut i: usize = 0;
    while i < n
        invariant
            n == defaults@.len(),
            0 <= i <= n,
            forall|j: int| 0 <= j < i ==> defaults@[j].id@ != id@,
        decreases n - i,
    {
        let d = vec_index(defaults, i);
        if str_eq(d.id.as_str(), id) {
            proof {
                lemma_first_with_id_skip(defaults@, id@, i as int);
                assert(defaults@.skip(i as int)[0] == defaults@[i as int]);
            }
            return Some(d);
        }
        i = i + 1;
    }
    proof {
        lemma_first_with_id_skip(defaults@, id@, n as int);
    }
    None
}

/// The migrated item keeps its identity, and every field it changed was
/// restored from the matching default.
pub open spec fn patched_toward(it: ItemView, was: ItemView, d: ItemView) -> bool {
    &&& it.id == was.id
    &&& it.name == was.name
    &&& it.kind == was.kind
    &&& (it.enabled == was.enabled || it.enabled == d.enabled)
    &&& (it.description == was.description || it.description == d.description)
    &&& (it.current_version_command == was.current_version_command
        || it.current_version_command == d.current_version_command)
    &&& (it.latest_version_command == was.latest_version_command || it.latest_version_command
        == d.latest_version_command)
    &&& (it.update_check_command == was.update_check_command || it.update_check_command
        == d.update_check_command)
    &&& (it.update_check_regex == was.update_check_regex || it.update_check_regex
        == d.update_check_regex)
    &&& (it.update_command == was.update_command || it.update_command == d.update_command)
}

#[verifier::rlimit(100)]
fn patch_brew_fields(item: &mut SoftwareItem, default_item: &SoftwareItem) -> (r: bool)
    ensures
        patched_toward(final(item)@, old(item)@, default_item@),
        !r ==> final(item)@ == old(item)@,
{
    let mut changed = false;

    if set_option_if_missing(
        &mut item.current_version_command,
        &default_item.current_version_command,
    ) {
        changed = true;
    }
    if set_option_if_missing(
        &mut item.latest_version_command,
        &default_item.latest_version_command,
    ) {
        changed = true;
    }
    if opt_eq_lit(&item.update_check_command, "brew outdated --quiet brew") {
        item.update_check_command = clone_opt(&default_item.update_check_command);
        changed = true;
    }
    if str_eq(item.update_command.as_str(), "brew update && brew upgrade brew") {
        item.update_command = default_item.update_command.clone();
        changed = true;
    }
    if str_eq(item.description.as_str(), "Check and update Homebrew") {
        item.description = default_item.description.clone();
        changed = true;
    }
    changed
}

#[verifier::rlimit(100)]
fn patch_bun_fields(item: &mut SoftwareItem, default_item: &SoftwareItem) -> (r: bool)
    ensures
        patched_toward(final(item)@, old(item)@, default_item@),
        !r ==> final(item)@ == old(item)@,
{
    let mut changed = false;

    if opt_eq_lit(&item.current_version_command, "bun --version") {
        item.current_version_command = clone_opt(&default_item.current_version_command);
        changed = true;
    } else {
        if set_option_if_missing(
            &mut item.current_version_command,
            &default_item.current_version_command,
        ) {
            changed = true;
        }
    }
    if set_option_if_missing(
        &mut item.latest_version_command,
        &default_item.latest_version_command,
    ) {
        changed = true;
    }
    if opt_eq_lit(&item.update_check_command, "brew outdated --quiet bun") {
        item.update_check_command = clone_opt(&default_item.update_check_command);
        changed = true;
    }
    if str_eq(item.update_command.as_str(), "brew upgrade bun") {
        item.update_command = default_item.update_command.clone();
        changed = true;
    }
    changed
}

#[verifier::rlimit(100)]
fn patch_codex_cli_fields(item: &mut SoftwareItem, default_item: &SoftwareItem) -> (r: bool)
    ensures
        patched_toward(final(item)@, old(item)@, default_item@),
        !r ==> final(item)@ == old(item)@,
{
    let mut changed = false;

    if opt_eq_lit(
        &item.latest_version_command,
        "HOMEBREW_NO_AUTO_UPDATE=1 brew info --cask codex --json=v2 | sed -E 's/.*\"version\":\"([^\"]+)\".*/\\1/'",
    ) {
        item.latest_version_command = clone_opt(&default_item.latest_version_command);
        changed = true;
    }
    changed
}

#[verifier::rlimit(100)]
fn patch_lm_studio_fields(item: &mut SoftwareItem, default_item: &SoftwareItem) -> (r: bool)
    ensures
        patched_toward(final(item)@, old(item)@, default_item@),
        !r ==> final(item)@ == old(item)@,
{
    let mut changed = false;

    if opt_eq_lit(
        &item.current_version_command,
        "if [ -d \"/Applications/LM Studio.app\" ]; then defaults read \"/Applications/LM Studio.app/Contents/Info.plist\" CFBundleShortVersionString 2>/dev/null || echo ''; else echo ''; fi",
    ) {
        item.current_version_command = clone_opt(&default_item.current_version_command);
        changed = true;
    } else {
        if set_option_if_missing(
            &mut item.current_version_command,
            &default_item.current_version_command,
        ) {
            changed = true;
        }
    }
    if set_option_if_missing(
        &mut item.latest_version_command,
        &default_item.latest_version_command,
    ) {
        changed = true;
    }
    if set_string_if_empty(&mut item.update_command, default_item.update_command.as_str()) {
        changed = true;
    }
    changed
}

#[verifier::rlimit(100)]
fn patch_google_chrome_fields(item: &mut SoftwareItem, default_item: &SoftwareItem) -> (r: bool)
    ensures
        patched_toward(final(item)@, old(item)@, default_item@),
        !r ==> final(item)@ == old(item)@,
{
    let mut changed = false;

    if set_option_if_missing(
        &mut item.current_version_command,
        &default_item.current_version_command,
    ) {
        changed = true;
    }
    let stale = opt_blank_exec(&item.latest_version_command) || opt_eq_lit(
        &item.latest_version_command,
        "LATEST=\"$(curl -fsSL \"https://versionhistory.googleapis.com/v1/chrome/platforms/mac/channels/stable/versions?page_size=1\" | sed -nE 's/.*\"version\":\"([0-9.]+)\".*/\\1/p' | head -n 1)\"; if [ -n \"$LATEST\" ]; then echo \"$LATEST\"; else curl -fsSL \"https://versionhistory.googleapis.com/v1/chrome/platforms/mac_arm64/channels/stable/versions?page_size=1\" | sed -nE 's/.*\"version\":\"([0-9.]+)\".*/\\1/p' | head -n 1; fi",
    );
    if stale {
        item.latest_version_command = clone_opt(&default_item.latest_version_command);
        changed = true;
    }
    if set_string_if_empty(&mut item.update_command, default_item.update_command.as_str()) {
        changed = true;
    }
    changed
}

#[verifier::rlimit(100)]
fn patch_ghostty_fields(item: &mut SoftwareItem, default_item: &SoftwareItem) -> (r: bool)
    ensures
        patched_toward(final(item)@, old(item)@, default_item@),
        !r ==> final(item)@ == old(item)@,
{
    let mut changed = false;

    if set_option_if_missing(
        &mut item.current_version_command,
        &default_item.current_version_command,
    ) {
        changed = true;
    }
    let stale = opt_blank_exec(&item.latest_version_command) || opt_eq_lit(
        &item.latest_version_command,
        "curl -fsSLI -o /dev/null -w '%{url_effective}' https://github.com/ghostty-org/ghostty/releases/latest | sed -E 's#.*/tag/v?##'",
    ) || opt_eq_lit(
        &item.latest_version_command,
        "curl -fsSL https://api.github.com/repos/ghostty-org/ghostty/releases/latest | sed -nE 's/.*\"tag_name\"[[:space:]]*:[[:space:]]*\"v?([^\"]+)\".*/\\1/p' | head -n 1",
    ) || opt_eq_lit(
        &item.latest_version_command,
        "set -o pipefail; LATEST=\"$(curl -fsSL -H 'Accept: application/vnd.github+json' -H 'User-Agent: PatchPilot' https://api.github.com/repos/ghostty-org/ghostty/releases/latest | tr '\\r\\n' '  ' | sed -nE 's/.*\"tag_name\"[[:space:]]*:[[:space:]]*\"v?([^\"]+)\".*/\\1/p' | head -n 1)\"; if [ -n \"$LATEST\" ]; then echo \"$LATEST\"; else exit 1; fi",
    ) || opt_contains(&item.latest_version_command, "ghostty-org/ghostty/releases")
        || opt_contains(
        &item.latest_version_command,
        "api.github.com/repos/ghostty-org/ghostty/releases",
    );
    if stale {
        item.latest_version_command = clone_opt(&default_item.latest_version_command);
        changed = true;
    }
    if set_string_if_empty(&mut item.update_command, default_item.update_command.as_str()) {
        changed = true;
    }
    changed
}

#[verifier::rlimit(100)]
fn patch_warp_fields(item: &mut SoftwareItem, default_item: &SoftwareItem) -> (r: bool)
    ensures
        patched_toward(final(item)@, old(item)@, default_item@),
        !r ==> final(item)@ == old(item)@,
{
    let mut changed = false;

    if set_option_if_missing(
        &mut item.current_version_command,
        &default_item.current_version_command,
    ) {
        changed = true;
    }
    if set_option_if_missing(
        &mut item.latest_version_command,
        &default_item.latest_version_command,
    ) {
        changed = true;
    }
    if opt_blank_exec(&item.update_check_command) {
        item.update_check_command = clone_opt(&default_item.update_check_command);
        item.update_check_regex = clone_opt(&default_item.update_check_regex);
        changed = true;
    }
    if set_string_if_empty(&mut item.update_command, default_item.update_command.as_str()) {
        changed = true;
    }
    changed
}

#[verifier::rlimit(100)]
fn patch_codexbar_fields(item: &mut SoftwareItem, default_item: &SoftwareItem) -> (r: bool)
    ensures
        patched_toward(final(item)@, old(item)@, default_item@),
        !r ==> final(item)@ == old(item)@,
{
    let mut changed = false;

    if set_option_if_missing(
        &mut item.current_version_command,
        &default_item.current_version_command,
    ) {
        changed = true;
    }
    let stale = opt_blank_exec(&item.latest_version_command) || opt_lacks(
        &item.latest_version_command,
        "git ls-remote --tags --refs https://github.com/steipete/CodexBar.git",
    );
    if stale {
        item.latest_version_command = clone_opt(&default_item.latest_version_command);
        changed = true;
    }
    if set_string_if_empty(&mut item.update_command, default_item.update_command.as_str()) {
        changed = true;
    }
    changed
}

#[verifier::rlimit(100)]
fn patch_portkiller_fields(item: &mut SoftwareItem, default_item: &SoftwareItem) -> (r: bool)
    ensures
        patched_toward(final(item)@, old(item)@, default_item@),
        !r ==> final(item)@ == old(item)@,
{
    let mut changed = false;

    if set_option_if_missing(
        &mut item.current_version_command,
        &default_item.current_version_command,
    ) {
        changed = true;
    }
    let stale = opt_blank_exec(&item.latest_version_command) || opt_lacks(
        &item.latest_version_command,
        "git ls-remote --tags --refs https://github.com/productdevbook/port-killer.git",
    );
    if stale {
        item.latest_version_command = clone_opt(&default_item.latest_version_command);
        changed = true;
    }
    if set_string_if_empty(&mut item.update_command, default_item.update_command.as_str()) {
        changed = true;
    }
    changed
}

#[verifier::rlimit(100)]
fn patch_rust_toolchain_fields(item: &mut SoftwareItem, default_item: &SoftwareItem) -> (r: bool)
    ensures
        patched_toward(final(item)@, old(item)@, default_item@),
        !r ==> final(item)@ == old(item)@,
{
    let mut changed = false;

    if set_option_if_missing(
        &mut item.current_version_command,
        &default_item.current_version_command,
    ) {
        changed = true;
    }
    let stale = opt_blank_exec(&item.latest_version_command) || opt_eq_lit(
        &item.latest_version_command,
        "if command -v rustup >/dev/null 2>&1; then OUT=\"$(rustup check 2>/dev/null || true)\"; LATEST=\"$(echo \"$OUT\" | sed -nE 's/.*-> *([0-9][0-9A-Za-z.+-]*).*/\\1/p' | head -n 1)\"; if [ -z \"$LATEST\" ]; then LATEST=\"$(echo \"$OUT\" | sed -nE 's/.*: *([0-9][0-9A-Za-z.+-]*).*/\\1/p' | head -n 1)\"; fi; if [ -n \"$LATEST\" ]; then echo \"$LATEST\"; else rustc --version | sed -nE 's/^rustc ([^ ]+).*/\\1/p'; fi; else echo ''; fi",
    ) || opt_lacks(&item.latest_version_command, "channel-rust-stable.toml") || (opt_contains(
        &item.latest_version_command,
        "channel-rust-stable.toml",
    ) && (opt_lacks(&item.latest_version_command, "[pkg\\.rust]") || opt_contains(
        &item.latest_version_command,
        "else echo ''; fi",
    )));
    if stale {
        item.latest_version_command = clone_opt(&default_item.latest_version_command);
        changed = true;
    }
    changed
}

/// Replaces command strings that older releases shipped with the current
/// defaults for the same item. An item without a matching default is left
/// untouched, and so is one whose fields are all current.
#[verifier::rlimit(100)]
pub fn patch_legacy_item_commands(item: &mut SoftwareItem, defaults: &Vec<SoftwareItem>) -> (r:
    bool)
    ensures
        !r ==> final(item)@ == old(item)@,
        match first_with_id(defaults@, old(item).id@) {
            Some(d) => patched_toward(final(item)@, old(item)@, d@),
            None => final(item)@ == old(item)@ && !r,
        },
{
    let mut changed = false;
    let default_item = match find_default(defaults, item.id.as_str()) {
        Some(d) => d,
        None => {
            return false;
        },
    };

    if str_eq(item.id.as_str(), "brew") {
        if patch_brew_fields(item, default_item) {
            changed = true;
        }
    }
    if str_eq(item.id.as_str(), "bun") {
        if patch_bun_fields(item, default_item) {
            changed = true;
        }
    }
    if str_eq(item.id.as_str(), "codex-cli") {
        if patch_codex_cli_fields(item, default_item) {
            changed = true;
        }
    }
    if str_eq(item.id.as_str(), "lm-studio") {
        if patch_lm_studio_fields(item, default_item) {
            changed = true;
        }
    }
    if str_eq(item.id.as_str(), "google-chrome") {
        if patch_google_chrome_fields(item, default_item) {
            changed = true;
        }
    }
    if str_eq(item.id.as_str(), "ghostty") {
        if patch_ghostty_fields(item, default_item) {
            changed = true;
        }
    }
    if str_eq(item.id.as_str(), "warp") {
        if patch_warp_fields(item, default_item) {
            changed = true;
        }
    }
    if str_eq(item.id.as_str(), "codexbar") {
        if patch_codexbar_fields(item, default_item) {
            changed = true;
        }
    }
    if str_eq(item.id.as_str(), "portkiller") {
        if patch_portkiller_fields(item, default_item) {
            changed = true;
        }
    }
    if str_eq(item.id.as_str(), "rust-toolchain") {
        if patch_rust_toolchain_fields(item, default_item) {
            changed = true;
        }
    }

    changed
}

/// Identifiers of items retired from the catalog.
pub open spec fn spec_is_removed_id(id: Seq<char>) -> bool {
    id == "chatgpt-atlas"@ || id == "pencil"@ || id == "codexskillmanager"@
}

fn is_removed_id(id: &str) -> (r: bool)
    ensures
        r == spec_is_removed_id(id@),
{
    str_eq(id, "chatgpt-atlas") || str_eq(id, "pencil") || str_eq(id, "codexskillmanager")
}

/// Dropping the retired items is a fixed point once none remains — as the
/// migration guarantees of its result — so a second application of that
/// step changes nothing.
pub proof fn lemma_remove_step_fixed_point(items: Seq<ItemView>)
    requires
        forall|i: int| 0 <= i < items.len() ==> !spec_is_removed_id((#[trigger] items[i]).id),
    ensures
        items.filter(|it: ItemView| !spec_is_removed_id(it.id)) =~= items,
{
    lemma_filter_retains_all(items, |it: ItemView| !spec_is_removed_id(it.id));
}

/// A sequence with an element failing the predicate strictly shrinks
/// under the filter.
proof fn lemma_filter_strict<A>(s: Seq<A>, p: spec_fn(A) -> bool, i: int)
    requires
        0 <= i < s.len(),
        !p(s[i]),
    ensures
        s.filter(p).len() < s.len(),
    decreases s.len(),
{
    reveal(Seq::filter);
    let t = s.drop_last();
    t.lemma_filter_len(p);
    if i < s.len() - 1 {
        lemma_filter_strict(t, p, i);
    }
}

/// A sequence whose elements all satisfy the predicate passes the filter
/// unchanged.
proof fn lemma_filter_retains_all<A>(s: Seq<A>, p: spec_fn(A) -> bool)
    requires
        forall|i: int| 0 <= i < s.len() ==> p(#[trigger] s[i]),
    ensures
        s.filter(p) =~= s,
    decreases s.len(),
{
    reveal(Seq::filter);
    if s.len() > 0 {
        let t = s.drop_last();
        assert(forall|i: int| 0 <= i < t.len() ==> p(#[trigger] t[i]));
        lemma_filter_retains_all(t, p);
        assert(s.filter(p) =~= s);
    } else {
        assert(s.filter(p) =~= s);
    }
}

/// A filter that kept everything changed nothing.
proof fn lemma_filter_full<A>(s: Seq<A>, p: spec_fn(A) -> bool)
    requires
        s.filter(p).len() == s.len(),
    ensures
        s.filter(p) =~= s,
    decreases s.len(),
{
    reveal(Seq::filter);
    if s.len() > 0 {
        let t = s.drop_last();
        t.lemma_filter_len(p);
        if p(s.last()) {
            lemma_filter_full(t, p);
            assert(s.filter(p) =~= s);
        } else {
            assert(false);
        }
    } else {
        assert(s.filter(p) =~= s);
    }
}

/// Drops the retired items from the catalog, keeping the order of the
/// rest.
pub fn remove_disabled_items(config: &mut AppConfig) -> (r: bool)
    ensures
        views_of_items(final(config).items@) =~= views_of_items(old(config).items@).filter(
            |it: ItemView| !spec_is_removed_id(it.id),
        ),
        r == (final(config).items@.len() != old(config).items@.len()),
        !r ==> views_of_items(final(config).items@) =~= views_of_items(old(config).items@),
        final(config).check_interval_minutes == old(config).check_interval_minutes,
        final(config).command_timeout_seconds == old(config).command_timeout_seconds,
        final(config).theme_mode == old(config).theme_mode,
        final(config).auto_check_enabled == old(config).auto_check_enabled,
        final(config).shared_update_commands == old(config).shared_update_commands,
{
    let ghost pred = |it: ItemView| !spec_is_removed_id(it.id);
    let ghost all = views_of_items(old(config).items@);
    let n = config.items.len();
    let mut kept: Vec<SoftwareItem> = Vec::new();
    let mut i: usize = 0;
    while i < n
        invariant
            *config == *old(config),
            pred == (|it: ItemView| !spec_is_removed_id(it.id)),
            all == views_of_items(config.items@),
            n == config.items@.len(),
            0 <= i <= n,
            views_of_items(kept@) =~= all.subrange(0, i as int).filter(pred),
        decreases n - i,
    {
        let it = vec_index(&config.items, i);
        let ghost pre = all.subrange(0, i as int);
        let ghost pre1 = all.subrange(0, i + 1);
        let ghost kept_views = views_of_items(kept@);
        proof {
            reveal(Seq::filter);
            assert(pre1.drop_last() =~= pre);
            assert(pre1.last() == all[i as int]);
            assert(all[i as int] == it@);
        }
        if !is_removed_id(it.id.as_str()) {
            kept.push(it.duplicate());
            proof {
                assert(views_of_items(kept@) =~= kept_views.push(it@));
                assert(pre1.filter(pred) =~= pre.filter(pred).push(it@));
            }
        } else {
            proof {
                assert(pre1.filter(pred) =~= pre.filter(pred));
            }
        }
        i = i + 1;
    }
    proof {
        assert(all.subrange(0, n as int) =~= all);
    }
    let r = kept.len() != config.items.len();
    config.items = kept;
    proof {
        if !r {
            lemma_filter_full(all, pred);
        }
    }
    r
}

/// Whether some item of the sequence carries the identifier.
pub open spec fn has_id(items: Seq<ItemView>, id: Seq<char>) -> bool {
    exists|i: int| 0 <= i < items.len() && (#[trigger] items[i]).id == id
}

fn has_item_with_id(items: &Vec<SoftwareItem>, id: &str) -> (r: bool)
    ensures
        r == has_id(views_of_items(items@), id@),
{
    let n = items.len();
    let mut i: usize = 0;
    while i < n
        invariant
            n == items@.len(),
            0 <= i <= n,
            forall|j: int| 0 <= j < i ==> views_of_items(items@)[j].id != id@,
        decreases n - i,
    {
        let it = vec_index(items, i);
        if str_eq(it.id.as_str(), id) {
            proof {
                assert(views_of_items(items@)[i as int].id == id@);
            }
            return true;
        }
        i = i + 1;
    }
    false
}

/// The catalog after the missing defaults are appended: walking the
/// defaults in order, each one absent from the catalog (by identifier) is
/// pushed at the end.
pub open spec fn spec_append_missing(items: Seq<ItemView>, ds: Seq<ItemView>, k: int) -> Seq<
    ItemView,
>
    decreases ds.len() - k,
{
    if k < 0 || k >= ds.len() {
        items
    } else if has_id(items, ds[k].id) {
        spec_append_missing(items, ds, k + 1)
    } else {
        spec_append_missing(items.push(ds[k]), ds, k + 1)
    }
}

/// What appending the missing defaults guarantees: the catalog is only
/// extended, everything appended is a default, and afterwards every
/// default identifier is present.
pub proof fn lemma_append_missing_props(items: Seq<ItemView>, ds: Seq<ItemView>, k: int)
    requires
        0 <= k,
    ensures
        spec_append_missing(items, ds, k).len() >= items.len(),
        spec_append_missing(items, ds, k).subrange(0, items.len() as int) =~= items,
        forall|t: int|
            items.len() <= t < spec_append_missing(items, ds, k).len() ==> exists|u: int|
                k <= u < ds.len() && #[trigger] spec_append_missing(items, ds, k)[t] == ds[u],
        forall|t: int|
            k <= t < ds.len() ==> has_id(spec_append_missing(items, ds, k), (#[trigger] ds[t]).id),
        forall|id: Seq<char>|
            #[trigger] has_id(items, id) ==> has_id(spec_append_missing(items, ds, k), id),
    decreases ds.len() - k,
{
    if 0 <= k < ds.len() {
        let res = spec_append_missing(items, ds, k);
        if has_id(items, ds[k].id) {
            lemma_append_missing_props(items, ds, k + 1);
            assert(res == spec_append_missing(items, ds, k + 1));
            assert(has_id(res, ds[k].id));
            assert forall|t: int| k <= t < ds.len() implies has_id(res, (#[trigger] ds[t]).id) by {
                if t > k {
                    assert(has_id(spec_append_missing(items, ds, k + 1), ds[t].id));
                }
            }
        } else {
            let items2 = items.push(ds[k]);
            lemma_append_missing_props(items2, ds, k + 1);
            assert(res == spec_append_missing(items2, ds, k + 1));
            assert(res.subrange(0, items2.len() as int) =~= items2);
            assert(res.subrange(0, items.len() as int) =~= items) by {
                assert forall|t: int| 0 <= t < items.len() implies res[t] == items[t] by {
                    assert(res.subrange(0, items2.len() as int)[t] == items2[t]);
                }
            }
            assert forall|id: Seq<char>| #[trigger] has_id(items, id) implies has_id(res, id) by {
                let w = choose|w: int| 0 <= w < items.len() && items[w].id == id;
                assert(items2[w].id == id);
                assert(has_id(items2, id));
            }
            assert(items2[items.len() as int].id == ds[k].id);
            assert(has_id(items2, ds[k].id));
            assert(has_id(res, ds[k].id));
            assert forall|t: int| k <= t < ds.len() implies has_id(res, (#[trigger] ds[t]).id) by {
                if t > k {
                    assert(has_id(spec_append_missing(items2, ds, k + 1), ds[t].id));
                }
            }
            assert forall|t: int|
                items.len() <= t < res.len() implies exists|u: int|
                    k <= u < ds.len() && #[trigger] res[t] == ds[u] by {
                if t == items.len() {
                    assert(res[t] == items2[t]);
                    assert(res[t] == ds[k]);
                } else {
                    assert(exists|u: int| k + 1 <= u < ds.len() && res[t] == ds[u]);
                }
            }
        }
    }
}

/// Appends each default item whose identifier is absent from the catalog.
pub fn append_default_items_if_missing(config: &mut AppConfig, default_items: &Vec<SoftwareItem>) -> (r: bool)
    ensures
        views_of_items(final(config).items@) =~= spec_append_missing(
            views_of_items(old(config).items@),
            views_of_items(default_items@),
            0,
        ),
        r == (final(config).items@.len() != old(config).items@.len()),
        !r ==> views_of_items(final(config).items@) =~= views_of_items(old(config).items@),
        final(config).check_interval_minutes == old(config).check_interval_minutes,
        final(config).command_timeout_seconds == old(config).command_timeout_seconds,
        final(config).theme_mode == old(config).theme_mode,
        final(config).auto_check_enabled == old(config).auto_check_enabled,
        final(config).shared_update_commands == old(config).shared_update_commands,
{
    let ghost ds = views_of_items(default_items@);
    let ghost goal = spec_append_missing(views_of_items(old(config).items@), ds, 0);
    let n = default_items.len();
    let mut changed = false;
    let mut k: usize = 0;
    while k < n
        invariant
            n == default_items@.len(),
            ds == views_of_items(default_items@),
            0 <= k <= n,
            goal == spec_append_missing(views_of_items(config.items@), ds, k as int),
            changed == (config.items@.len() != old(config).items@.len()),
            !changed ==> config.items@ == old(config).items@,
            config.items@.len() >= old(config).items@.len(),
            config.check_interval_minutes == old(config).check_interval_minutes,
            config.command_timeout_seconds == old(config).command_timeout_seconds,
            config.theme_mode == old(config).theme_mode,
            config.auto_check_enabled == old(config).auto_check_enabled,
            config.shared_update_commands == old(config).shared_update_commands,
        decreases n - k,
    {
        let d = vec_index(default_items, k);
        let ghost cur = views_of_items(config.items@);
        proof {
            assert(ds[k as int] == d@);
        }
        if !has_item_with_id(&config.items, d.id.as_str()) {
            config.items.push(d.duplicate());
            changed = true;
            proof {
                assert(views_of_items(config.items@) =~= cur.push(d@));
            }
        }
        k = k + 1;
    }
    changed
}


/// Appending the missing defaults is a fixed point once every default
/// identifier is present — as it is after one migration — so a second
/// application of that step changes nothing.
pub proof fn lemma_append_missing_fixed_point(items: Seq<ItemView>, ds: Seq<ItemView>, k: int)
    requires
        0 <= k,
        forall|t: int| k <= t < ds.len() ==> has_id(items, (#[trigger] ds[t]).id),
    ensures
        spec_append_missing(items, ds, k) == items,
    decreases ds.len() - k,
{
    if k < ds.len() {
        lemma_append_missing_fixed_point(items, ds, k + 1);
    }
}

/// The identifiers of the default items a fresh configuration ships with.
pub open spec fn spec_is_default_id(id: Seq<char>) -> bool {
    ||| id == "brew"@
    ||| id == "bun"@
    ||| id == "gemini-cli"@
    ||| id == "codex-cli"@
    ||| id == "oh-my-zsh"@
    ||| id == "visual-studio-code"@
    ||| id == "antigravity"@
}

/// No default identifier is a retired one.
proof fn lemma_default_id_not_removed(id: Seq<char>)
    requires
        spec_is_default_id(id),
    ensures
        !spec_is_removed_id(id),
{
    reveal_strlit("brew");
    reveal_strlit("bun");
    reveal_strlit("gemini-cli");
    reveal_strlit("codex-cli");
    reveal_strlit("oh-my-zsh");
    reveal_strlit("visual-studio-code");
    reveal_strlit("antigravity");
    reveal_strlit("chatgpt-atlas");
    reveal_strlit("pencil");
    reveal_strlit("codexskillmanager");
    assert("brew"@.len() == 4);
    assert("bun"@.len() == 3);
    assert("gemini-cli"@.len() == 10);
    assert("codex-cli"@.len() == 9);
    assert("oh-my-zsh"@.len() == 9);
    assert("visual-studio-code"@.len() == 18);
    assert("antigravity"@.len() == 11);
    assert("chatgpt-atlas"@.len() == 13);
    assert("pencil"@.len() == 6);
    assert("codexskillmanager"@.len() == 17);
}

/// Migrates a stored configuration: retired items are dropped, the old
/// default check interval is bumped to the current one, every surviving
/// item has its stale command strings restored from the defaults, and the
/// default items missing from the catalog are appended.
///
/// The returned flag reports whether any migration rule fired. A false
/// flag always means the configuration is exactly as it was; the flag is
/// guaranteed true whenever a retired item was present, the interval was
/// old, or a default item was missing. A per-item rule may fire
/// re-asserting a value that is already current, so the flag can also be
/// true while every stored value keeps its content.
#[verifier::rlimit(100)]
pub fn patch_legacy_config(config: &mut AppConfig) -> (r: bool)
    ensures
        final(config)@.check_interval_minutes == (if old(config)@.check_interval_minutes == 360 {
            480u64
        } else {
            old(config)@.check_interval_minutes
        }),
        final(config)@.command_timeout_seconds == old(config)@.command_timeout_seconds,
        final(config)@.theme_mode == old(config)@.theme_mode,
        final(config)@.auto_check_enabled == old(config)@.auto_check_enabled,
        final(config)@.shared_update_commands == old(config)@.shared_update_commands,
        ({
            let kept = views_of_items(old(config).items@).filter(
                |it: ItemView| !spec_is_removed_id(it.id),
            );
            &&& final(config).items@.len() >= kept.len()
            &&& forall|i: int|
                0 <= i < kept.len() ==> (#[trigger] final(config).items@[i]@).id == kept[i].id
                    && final(config).items@[i]@.name == kept[i].name
                    && final(config).items@[i]@.kind == kept[i].kind
            &&& forall|i: int|
                kept.len() <= i < final(config).items@.len() ==> spec_is_default_id(
                    (#[trigger] final(config).items@[i]@).id,
                )
        }),
        has_id(views_of_items(final(config).items@), "brew"@),
        has_id(views_of_items(final(config).items@), "bun"@),
        has_id(views_of_items(final(config).items@), "gemini-cli"@),
        has_id(views_of_items(final(config).items@), "codex-cli"@),
        has_id(views_of_items(final(config).items@), "oh-my-zsh"@),
        has_id(views_of_items(final(config).items@), "visual-studio-code"@),
        has_id(views_of_items(final(config).items@), "antigravity"@),
        forall|i: int|
            0 <= i < final(config).items@.len() ==> !spec_is_removed_id(
                (#[trigger] final(config).items@[i]@).id,
            ),
        !r ==> views_of_items(final(config).items@) =~= views_of_items(old(config).items@)
            && final(config)@.check_interval_minutes == old(config)@.check_interval_minutes,
        old(config)@.check_interval_minutes == 360 ==> r,
        (exists|i: int|
            0 <= i < old(config)@.items.len() && spec_is_removed_id(
                (#[trigger] old(config)@.items[i]).id,
            )) ==> r,
        !has_id(views_of_items(old(config).items@), "brew"@) ==> r,
        !has_id(views_of_items(old(config).items@), "bun"@) ==> r,
        !has_id(views_of_items(old(config).items@), "gemini-cli"@) ==> r,
        !has_id(views_of_items(old(config).items@), "codex-cli"@) ==> r,
        !has_id(views_of_items(old(config).items@), "oh-my-zsh"@) ==> r,
        !has_id(views_of_items(old(config).items@), "visual-studio-code"@) ==> r,
        !has_id(views_of_items(old(config).items@), "antigravity"@) ==> r,
{
    let defaults_config = AppConfig::default();
    let default_items = defaults_config.items;
    let ghost ds = views_of_items(default_items@);
    let ghost kept = views_of_items(old(config).items@).filter(
        |it: ItemView| !spec_is_removed_id(it.id),
    );

    let ghost pred = |it: ItemView| !spec_is_removed_id(it.id);
    let mut changed = false;
    let removed_changed = remove_disabled_items(config);
    if removed_changed {
        changed = true;
    }
    if config.check_interval_minutes == 360 {
        config.check_interval_minutes = 480;
        changed = true;
    }

    let ghost mid_items = config.items@;
    let ghost mid_ci = config.check_interval_minutes;
    let ghost pre_patch_changed = changed;
    let n = config.items.len();
    let mut i: usize = 0;
    while i < n
        invariant
            n == config.items@.len(),
            n == mid_items.len(),
            0 <= i <= n,
            forall|j: int|
                0 <= j < n ==> (#[trigger] config.items@[j]@).id == mid_items[j]@.id
                    && config.items@[j]@.name == mid_items[j]@.name && config.items@[j]@.kind
                    == mid_items[j]@.kind,
            forall|j: int| i <= j < n ==> (#[trigger] config.items@[j])@ == mid_items[j]@,
            !changed ==> pre_patch_changed == false && (forall|j: int|
                0 <= j < n ==> (#[trigger] config.items@[j])@ == mid_items[j]@),
            pre_patch_changed ==> changed,
            config.check_interval_minutes == mid_ci,
            config.command_timeout_seconds == old(config).command_timeout_seconds,
            config.theme_mode == old(config).theme_mode,
            config.auto_check_enabled == old(config).auto_check_enabled,
            config.shared_update_commands == old(config).shared_update_commands,
        decreases n - i,
    {
        let slot = vec_index_mut(&mut config.items, i);
        if patch_legacy_item_commands(slot, &default_items) {
            changed = true;
        }
        i = i + 1;
    }

    let ghost patched_items = config.items@;
    let ghost pre_append_changed = changed;
    if append_default_items_if_missing(config, &default_items) {
        changed = true;
    }
    proof {
        lemma_append_missing_props(views_of_items(patched_items), ds, 0);
        assert(views_of_items(mid_items) =~= kept);
        assert(kept.len() == patched_items.len());
        let fin = views_of_items(config.items@);
        let res = spec_append_missing(views_of_items(patched_items), ds, 0);
        assert(fin =~= res);
        assert forall|i2: int|
            0 <= i2 < kept.len() implies (#[trigger] config.items@[i2]@).id == kept[i2].id
                && config.items@[i2]@.name == kept[i2].name && config.items@[i2]@.kind
                == kept[i2].kind by {
            assert(res.subrange(0, patched_items.len() as int) =~= views_of_items(patched_items));
            assert(fin[i2] == views_of_items(patched_items)[i2]);
            assert(views_of_items(patched_items)[i2] == patched_items[i2]@);
            assert(patched_items[i2]@.id == mid_items[i2]@.id);
            assert(mid_items[i2]@ == kept[i2]);
        }
        assert forall|i2: int|
            kept.len() <= i2 < config.items@.len() implies spec_is_default_id(
                (#[trigger] config.items@[i2]@).id,
            ) by {
            assert(fin[i2] == config.items@[i2]@);
            let u = choose|u: int| 0 <= u < ds.len() && res[i2] == ds[u];
            assert(ds[u] == default_items@[u]@);
            assert(defaults_config.items@[u]@.id == defaults_config@.items[u].id);
            assert(spec_is_default_id(ds[u].id));
        }
        assert forall|t: int| 0 <= t < ds.len() implies has_id(fin, (#[trigger] ds[t]).id) by {
            assert(has_id(res, ds[t].id));
            let w = choose|w: int| 0 <= w < res.len() && (#[trigger] res[w]).id == ds[t].id;
            assert(fin[w].id == ds[t].id);
        }
        assert(ds[0].id == "brew"@);
        assert(ds[1].id == "bun"@);
        assert(ds[2].id == "gemini-cli"@);
        assert(ds[3].id == "codex-cli"@);
        assert(ds[4].id == "oh-my-zsh"@);
        assert(ds[5].id == "visual-studio-code"@);
        assert(ds[6].id == "antigravity"@);
        if !changed {
            assert(views_of_items(config.items@) =~= views_of_items(old(config).items@));
        }
        let old_views = views_of_items(old(config).items@);
        if exists|w: int| 0 <= w < old_views.len() && spec_is_removed_id((#[trigger] old_views[w]).id) {
            let w = choose|w: int|
                0 <= w < old_views.len() && spec_is_removed_id((#[trigger] old_views[w]).id);
            lemma_filter_strict(old_views, pred, w);
            assert(kept.len() < old_views.len());
            assert(removed_changed);
        }
        assert forall|i2: int|
            0 <= i2 < config.items@.len() implies !spec_is_removed_id(
                (#[trigger] config.items@[i2]@).id,
            ) by {
            if i2 < kept.len() {
                old_views.lemma_filter_pred(pred, i2);
                assert(pred(kept[i2]));
            } else {
                lemma_default_id_not_removed(config.items@[i2]@.id);
            }
        }
    }
    changed
}

} // verus!
