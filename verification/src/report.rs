//! Read-only views over the stored snapshots, as the menu and status
//! surfaces need them: the newest check time among the enabled items, the
//! items currently offering an update, and the error tally.

use vstd::prelude::*;
use vstd::std_specs::vec::vec_index;

use crate::batch::{is_manual_item, no_id_before, spec_is_manual_item};
use crate::model::{
    AppConfig, CandidateView, ItemView, LatestResultSnapshot, LatestResultState, UpdateCandidate,
};
use crate::store::{lemma_as_map_absent, lemma_as_map_index};
use crate::text::str_eq;

verus! {

/// Lexicographic order on character sequences, by code point.
/// For the RFC 3339 timestamps compared here it coincides with
/// chronological order.
pub open spec fn lex_le(a: Seq<char>, b: Seq<char>) -> bool
    decreases a.len(),
{
    if a.len() == 0 {
        true
    } else if b.len() == 0 {
        false
    } else if a[0] == b[0] {
        lex_le(a.drop_first(), b.drop_first())
    } else {
        (a[0] as int) < (b[0] as int)
    }
}

pub proof fn lemma_lex_le_refl(a: Seq<char>)
    ensures
        lex_le(a, a),
    decreases a.len(),
{
    if a.len() > 0 {
        lemma_lex_le_refl(a.drop_first());
    }
}

pub proof fn lemma_lex_le_total(a: Seq<char>, b: Seq<char>)
    ensures
        lex_le(a, b) || lex_le(b, a),
    decreases a.len(),
{
    if a.len() > 0 && b.len() > 0 && a[0] == b[0] {
        lemma_lex_le_total(a.drop_first(), b.drop_first());
    }
}

pub proof fn lemma_lex_le_trans(a: Seq<char>, b: Seq<char>, c: Seq<char>)
    requires
        lex_le(a, b),
        lex_le(b, c),
    ensures
        lex_le(a, c),
    decreases a.len(),
{
    if a.len() > 0 && b.len() > 0 && c.len() > 0 && a[0] == b[0] && b[0] == c[0] {
        lemma_lex_le_trans(a.drop_first(), b.drop_first(), c.drop_first());
    }
}

/// When the first `i` characters agree, the order is decided past them.
proof fn lemma_lex_le_skip(a: Seq<char>, b: Seq<char>, i: int)
    requires
        0 <= i <= a.len(),
        i <= b.len(),
        forall|j: int| 0 <= j < i ==> a[j] == b[j],
    ensures
        lex_le(a, b) == lex_le(a.skip(i), b.skip(i)),
    decreases i,
{
    if i > 0 {
        assert(a[0] == b[0]);
        let a1 = a.drop_first();
        let b1 = b.drop_first();
        assert(forall|j: int| 0 <= j < i - 1 ==> a1[j] == b1[j]);
        lemma_lex_le_skip(a1, b1, i - 1);
        assert(a1.skip(i - 1) =~= a.skip(i));
        assert(b1.skip(i - 1) =~= b.skip(i));
    } else {
        assert(a.skip(0) =~= a);
        assert(b.skip(0) =~= b);
    }
}

/// Runtime form of `lex_le`.
pub fn str_le(a: &str, b: &str) -> (r: bool)
    ensures
        r == lex_le(a@, b@),
{
    let la = a.unicode_len();
    let lb = b.unicode_len();
    let mut i: usize = 0;
    while i < la && i < lb
        invariant
            la == a@.len(),
            lb == b@.len(),
            0 <= i <= la,
            i <= lb,
            forall|j: int| 0 <= j < i ==> a@[j] == b@[j],
        decreases la - i,
    {
        let ca = a.get_char(i);
        let cb = b.get_char(i);
        if ca != cb {
            proof {
                lemma_lex_le_skip(a@, b@, i as int);
                assert(a@.skip(i as int)[0] == ca);
                assert(b@.skip(i as int)[0] == cb);
            }
            return (ca as u32) < (cb as u32);
        }
        i = i + 1;
    }
    proof {
        lemma_lex_le_skip(a@, b@, if la < lb {
            la as int
        } else {
            lb as int
        });
    }
    la <= lb
}

/// The first stored snapshot carrying the given item identifier.
pub fn find_snapshot<'a>(state: &'a LatestResultState, item_id: &str) -> (r: Option<
    &'a LatestResultSnapshot,
>)
    ensures
        match r {
            Some(s) => exists|j: int|
                0 <= j < state.items@.len() && #[trigger] state.items@[j] == *s && s.item_id@
                    == item_id@,
            None => forall|j: int| 0 <= j < state.items@.len() ==> state.items@[j].item_id@ != item_id@,
        },
{
    let n = state.items.len();
    let mut i: usize = 0;
    while i < n
        invariant
            n == state.items@.len(),
            0 <= i <= n,
            forall|j: int| 0 <= j < i ==> state.items@[j].item_id@ != item_id@,
        decreases n - i,
    {
        let snap = vec_index(&state.items, i);
        if str_eq(snap.item_id.as_str(), item_id) {
            proof {
                let k = i as int;
                assert(0 <= k < state.items@.len() && state.items@[k] == *snap && snap.item_id@
                    == item_id@);
            }
            return Some(snap);
        }
        i = i + 1;
    }
    None
}

/// Item `a` of the catalog is enabled and snapshot `b` is stored under its
/// identifier.
pub open spec fn snap_pair(cfg: Seq<ItemView>, st: &LatestResultState, a: int, b: int) -> bool {
    &&& 0 <= a < cfg.len()
    &&& cfg[a].enabled
    &&& 0 <= b < st.items@.len()
    &&& st.items@[b].item_id@ == cfg[a].id
}

/// The newest `checked_at` among the snapshots of enabled items: absent
/// when no enabled item has a snapshot, else a stored time that bounds all
/// of them from above.
pub fn latest_checked_time(config: &AppConfig, latest: &LatestResultState) -> (r: Option<String>)
    requires
        latest.wf(),
    ensures
        match r {
            None => forall|a: int, b: int| !snap_pair(config@.items, latest, a, b),
            Some(t) => (exists|a: int, b: int|
                #[trigger] snap_pair(config@.items, latest, a, b) && latest.items@[b]@.checked_at
                    == t@) && forall|a: int, b: int|
                #[trigger] snap_pair(config@.items, latest, a, b) ==> lex_le(
                    latest.items@[b]@.checked_at,
                    t@,
                ),
        },
{
    let ghost cfg = config@.items;
    let n = config.items.len();
    let mut best: Option<String> = None;
    let mut i: usize = 0;
    while i < n
        invariant
            latest.wf(),
            cfg == config@.items,
            n == cfg.len(),
            0 <= i <= n,
            match best {
                None => forall|a: int, b: int| a < i ==> !snap_pair(cfg, latest, a, b),
                Some(t) => (exists|a: int, b: int|
                    a < i && #[trigger] snap_pair(cfg, latest, a, b) && latest.items@[b]@.checked_at
                        == t@) && forall|a: int, b: int|
                    a < i && #[trigger] snap_pair(cfg, latest, a, b) ==> lex_le(
                        latest.items@[b]@.checked_at,
                        t@,
                    ),
            },
        decreases n - i,
    {
        let item = vec_index(&config.items, i);
        proof {
            assert(cfg[i as int] == item@);
        }
        if item.enabled {
            match find_snapshot(latest, item.id.as_str()) {
                Some(snap) => {
                    let ghost j = choose|j: int|
                        0 <= j < latest.items@.len() && latest.items@[j] == *snap && snap.item_id@ == item.id@;
                    let take = match &best {
                        None => true,
                        Some(t) => str_le(t.as_str(), snap.checked_at.as_str()),
                    };
                    proof {
                        assert(snap_pair(cfg, latest, i as int, j));
                    }
                    if take {
                        let t = snap.checked_at.clone();
                        proof {
                            lemma_lex_le_refl(t@);
                            if best is Some {
                                let prev = best->0;
                                assert forall|a: int, b: int|
                                    a < i + 1 && #[trigger] snap_pair(cfg, latest, a, b) implies lex_le(
                                    latest.items@[b]@.checked_at,
                                    t@,
                                ) by {
                                    if a < i {
                                        lemma_lex_le_trans(latest.items@[b]@.checked_at, prev@, t@);
                                    } else {
                                        assert(b == j);
                                    }
                                }
                            } else {
                                assert forall|a: int, b: int|
                                    a < i + 1 && #[trigger] snap_pair(cfg, latest, a, b) implies lex_le(
                                    latest.items@[b]@.checked_at,
                                    t@,
                                ) by {
                                    assert(a == i as int);
                                    assert(b == j);
                                }
                            }
                        }
                        best = Some(t);
                    } else {
                        proof {
                            let prev = best->0;
                            lemma_lex_le_total(prev@, snap.checked_at@);
                            assert(lex_le(snap.checked_at@, prev@));
                            assert forall|a: int, b: int|
                                a < i + 1 && #[trigger] snap_pair(cfg, latest, a, b) implies lex_le(
                                latest.items@[b]@.checked_at,
                                prev@,
                            ) by {
                                if a == i as int {
                                    assert(b == j);
                                }
                            }
                        }
                    }
                },
                None => {
                    proof {
                        assert forall|a: int, b: int|
                            a < i + 1 && #[trigger] snap_pair(cfg, latest, a, b) implies a < i by {
                            if a == i as int {
                                assert(latest.items@[b].item_id@ == cfg[a].id);
                                assert(false);
                            }
                        }
                    }
                },
            }
        } else {
            proof {
                assert forall|a: int, b: int|
                    a < i + 1 && #[trigger] snap_pair(cfg, latest, a, b) implies a < i by {
                    if a == i as int {
                        assert(!cfg[a].enabled);
                    }
                }
            }
        }
        i = i + 1;
    }
    best
}


/// Items the quick-update menu offers an update action for.
pub open spec fn spec_is_updatable_menu_item(it: ItemView) -> bool {
    it.enabled && (spec_is_manual_item(it) || it.kind == "cli"@)
}

pub fn is_updatable_menu_item(item: &crate::model::SoftwareItem) -> (r: bool)
    ensures
        r == spec_is_updatable_menu_item(item@),
{
    item.enabled && (is_manual_item(item) || str_eq(item.kind.as_str(), "cli"))
}

/// Whether the stored snapshot for `id` reports a clean, available update.
pub open spec fn has_clean_update(st: &LatestResultState, id: Seq<char>) -> bool {
    &&& st.as_map().contains_key(id)
    &&& st.as_map()[id].error is None
    &&& st.as_map()[id].has_update
}

/// The update candidates: the updatable items whose stored snapshot reports
/// an update and no error, in catalog order, as identifier–name pairs.
pub open spec fn spec_update_candidates(cfg: Seq<ItemView>, st: &LatestResultState) -> Seq<
    CandidateView,
> {
    cfg.filter(
        |it: ItemView| spec_is_updatable_menu_item(it) && has_clean_update(st, it.id),
    ).map_values(|it: ItemView| CandidateView { id: it.id, name: it.name })
}

/// Collects the update candidates from the catalog and the stored
/// snapshots.
pub fn collect_update_candidates(config: &AppConfig, latest: &LatestResultState) -> (r: Vec<
    UpdateCandidate,
>)
    requires
        latest.wf(),
    ensures
        r@.len() == spec_update_candidates(config@.items, latest).len(),
        forall|k: int|
            0 <= k < r@.len() ==> (#[trigger] r@[k])@ == spec_update_candidates(
                config@.items,
                latest,
            )[k],
{
    let ghost cfg = config@.items;
    let ghost pred = |it: ItemView| spec_is_updatable_menu_item(it) && has_clean_update(
        latest,
        it.id,
    );
    let n = config.items.len();
    let mut out: Vec<UpdateCandidate> = Vec::new();
    let mut i: usize = 0;
    while i < n
        invariant
            latest.wf(),
            cfg == config@.items,
            pred == (|it: ItemView| spec_is_updatable_menu_item(it) && has_clean_update(
                latest,
                it.id,
            )),
            n == cfg.len(),
            0 <= i <= n,
            out@.len() == cfg.subrange(0, i as int).filter(pred).len(),
            forall|k: int|
                0 <= k < out@.len() ==> (#[trigger] out@[k])@ == (CandidateView {
                    id: cfg.subrange(0, i as int).filter(pred)[k].id,
                    name: cfg.subrange(0, i as int).filter(pred)[k].name,
                }),
        decreases n - i,
    {
        let item = vec_index(&config.items, i);
        let ghost pre = cfg.subrange(0, i as int);
        let ghost pre1 = cfg.subrange(0, i + 1);
        proof {
            reveal(Seq::filter);
            assert(pre1.drop_last() =~= pre);
            assert(pre1.last() == cfg[i as int]);
            assert(cfg[i as int] == item@);
        }
        let mut selected = false;
        if is_updatable_menu_item(item) {
            match find_snapshot(latest, item.id.as_str()) {
                Some(snap) => {
                    let ghost j = choose|j: int|
                        0 <= j < latest.items@.len() && latest.items@[j] == *snap && snap.item_id@ == item.id@;
                    proof {
                        lemma_as_map_index(latest, j);
                    }
                    if snap.error.is_none() && snap.has_update {
                        selected = true;
                    }
                },
                None => {
                    proof {
                        lemma_as_map_absent(latest, item.id@);
                    }
                },
            }
        }
        if selected {
            out.push(UpdateCandidate { id: item.id.clone(), name: item.name.clone() });
            proof {
                assert(pred(item@));
                assert(pre1.filter(pred) =~= pre.filter(pred).push(item@));
            }
        } else {
            proof {
                assert(!pred(item@));
                assert(pre1.filter(pred) =~= pre.filter(pred));
            }
        }
        i = i + 1;
    }
    proof {
        assert(cfg.subrange(0, n as int) =~= cfg);
    }
    out
}

/// The enabled items whose stored snapshot carries an error.
pub open spec fn spec_error_items(cfg: Seq<ItemView>, st: &LatestResultState) -> Seq<ItemView> {
    cfg.filter(
        |it: ItemView| it.enabled && st.as_map().contains_key(it.id) && st.as_map()[it.id].error
            is Some,
    )
}

/// Counts the enabled items whose stored snapshot carries an error.
pub fn collect_error_count(config: &AppConfig, latest: &LatestResultState) -> (n: usize)
    requires
        latest.wf(),
    ensures
        n == spec_error_items(config@.items, latest).len(),
{
    let ghost cfg = config@.items;
    let ghost pred = |it: ItemView| it.enabled && latest.as_map().contains_key(it.id)
        && latest.as_map()[it.id].error is Some;
    let total = config.items.len();
    let mut count: usize = 0;
    let mut i: usize = 0;
    while i < total
        invariant
            latest.wf(),
            cfg == config@.items,
            pred == (|it: ItemView| it.enabled && latest.as_map().contains_key(it.id)
                && latest.as_map()[it.id].error is Some),
            total == cfg.len(),
            0 <= i <= total,
            count == cfg.subrange(0, i as int).filter(pred).len(),
            count <= i,
        decreases total - i,
    {
        let item = vec_index(&config.items, i);
        let ghost pre = cfg.subrange(0, i as int);
        let ghost pre1 = cfg.subrange(0, i + 1);
        proof {
            reveal(Seq::filter);
            assert(pre1.drop_last() =~= pre);
            assert(pre1.last() == cfg[i as int]);
            assert(cfg[i as int] == item@);
        }
        let mut hit = false;
        if item.enabled {
            match find_snapshot(latest, item.id.as_str()) {
                Some(snap) => {
                    let ghost j = choose|j: int|
                        0 <= j < latest.items@.len() && latest.items@[j] == *snap && snap.item_id@ == item.id@;
                    proof {
                        lemma_as_map_index(latest, j);
                    }
                    if snap.error.is_some() {
                        hit = true;
                    }
                },
                None => {
                    proof {
                        lemma_as_map_absent(latest, item.id@);
                    }
                },
            }
        }
        if hit {
            count = count + 1;
            proof {
                assert(pred(item@));
                assert(pre1.filter(pred) =~= pre.filter(pred).push(item@));
            }
        } else {
            proof {
                assert(!pred(item@));
                assert(pre1.filter(pred) =~= pre.filter(pred));
            }
        }
        i = i + 1;
    }
    proof {
        assert(cfg.subrange(0, total as int) =~= cfg);
    }
    count
}

/// The display name of the catalog item with the given identifier.
pub fn app_item_name(config: &AppConfig, item_id: &str) -> (r: Option<String>)
    ensures
        match r {
            Some(name) => exists|i: int|
                0 <= i < config@.items.len() && #[trigger] config@.items[i].id == item_id@
                    && config@.items[i].name == name@ && no_id_before(
                    config@.items,
                    item_id@,
                    i,
                ),
            None => no_id_before(config@.items, item_id@, config@.items.len() as int),
        },
{
    match crate::batch::find_item(config, item_id) {
        Some(it) => Some(it.name.clone()),
        None => None,
    }
}

} // verus!
