//! The latest-results store: one snapshot per item, keyed by item
//! identifier, where writing a result for an identifier replaces whatever
//! was stored under it before (last write wins).
//!
//! Reading and writing the file that persists this state is I/O and lives
//! outside this crate; this module owns the state transformation itself.

use vstd::prelude::*;
use vstd::std_specs::vec::{vec_index, vec_index_mut};

use crate::model::{CheckResult, LatestResultSnapshot, LatestResultState, SnapshotView, VerdictView};
use crate::text::str_eq;

verus! {

/// The persisted portion of a verdict.
pub open spec fn spec_snapshot_of(v: VerdictView) -> SnapshotView {
    SnapshotView {
        item_id: v.item_id,
        checked_at: v.checked_at,
        has_update: v.has_update,
        current_version: v.current_version,
        latest_version: v.latest_version,
        error: v.error,
    }
}

/// Extracts the persisted portion of a verdict.
pub fn to_snapshot(result: &CheckResult) -> (r: LatestResultSnapshot)
    ensures
        r@ == spec_snapshot_of(result@),
{
    LatestResultSnapshot {
        item_id: result.item_id.clone(),
        checked_at: result.checked_at.clone(),
        has_update: result.has_update,
        current_version: result.current_version.clone(),
        latest_version: result.latest_version.clone(),
        error: result.error.clone(),
    }
}

/// Every stored snapshot is reachable through the map view, and under its
/// own identifier.
pub proof fn lemma_as_map_index(state: &LatestResultState, i: int)
    requires
        state.wf(),
        0 <= i < state.items@.len(),
    ensures
        state.as_map().contains_key(state.items@[i].item_id@),
        state.as_map()[state.items@[i].item_id@] == state.items@[i]@,
{
    let id = state.items@[i].item_id@;
    assert(exists|k: int| 0 <= k < state.items@.len() && state.items@[k].item_id@ == id);
    let k = choose|k: int| 0 <= k < state.items@.len() && state.items@[k].item_id@ == id;
    assert(k == i);
}

/// An identifier under which nothing is stored is absent from the map view.
pub proof fn lemma_as_map_absent(state: &LatestResultState, id: Seq<char>)
    requires
        forall|i: int| 0 <= i < state.items@.len() ==> state.items@[i].item_id@ != id,
    ensures
        !state.as_map().contains_key(id),
{
}

/// Stores one verdict's snapshot under its item identifier, replacing any
/// snapshot stored under that identifier before.
pub fn upsert_snapshot(state: &mut LatestResultState, result: &CheckResult)
    requires
        old(state).wf(),
    ensures
        final(state).wf(),
        final(state).as_map() =~= old(state).as_map().insert(
            result@.item_id,
            spec_snapshot_of(result@),
        ),
        final(state).updated_at == old(state).updated_at,
{
    let n = state.items.len();
    let mut i: usize = 0;
    while i < n
        invariant
            *state == *old(state),
            old(state).wf(),
            n == state.items@.len(),
            0 <= i <= n,
            forall|j: int| 0 <= j < i ==> state.items@[j].item_id@ != result.item_id@,
        decreases n - i,
    {
        let found = str_eq(
            vec_index(&state.items, i).item_id.as_str(),
            result.item_id.as_str(),
        );
        if found {
            let ghost old_items = state.items@;
            let snap = to_snapshot(result);
            let slot = vec_index_mut(&mut state.items, i);
            *slot = snap;
            proof {
                let k = i as int;
                assert(state.items@ =~= old_items.update(k, state.items@[k]));
                assert forall|a: int, b: int|
                    0 <= a < b < state.items@.len() implies state.items@[a].item_id@
                    != state.items@[b].item_id@ by {
                    assert(old_items[a].item_id@ != old_items[b].item_id@);
                }
                let m1 = state.as_map();
                let m2 = old(state).as_map().insert(result@.item_id, spec_snapshot_of(result@));
                assert forall|id: Seq<char>| m1.contains_key(id) implies m2.contains_key(id) by {
                    let j = choose|j: int|
                        0 <= j < state.items@.len() && state.items@[j].item_id@ == id;
                    if j != k {
                        assert(old_items[j].item_id@ == id);
                    }
                }
                assert forall|id: Seq<char>| m2.contains_key(id) implies m1.contains_key(id) by {
                    if id == result@.item_id {
                        assert(state.items@[k].item_id@ == id);
                    } else {
                        let j = choose|j: int|
                            0 <= j < old_items.len() && old_items[j].item_id@ == id;
                        assert(state.items@[j].item_id@ == id);
                    }
                }
                assert forall|id: Seq<char>| m1.contains_key(id) implies m1[id] == m2[id] by {
                    let j = choose|j: int|
                        0 <= j < state.items@.len() && state.items@[j].item_id@ == id;
                    lemma_as_map_index(state, j);
                    if id == result@.item_id {
                        assert(j == k);
                    } else {
                        assert(j != k);
                        assert(state.items@[j] == old_items[j]);
                        lemma_as_map_index(old(state), j);
                    }
                }
                assert(m1 =~= m2);
            }
            return ;
        }
        i = i + 1;
    }
    let ghost old_items = state.items@;
    let snap = to_snapshot(result);
    state.items.push(snap);
    proof {
        let k = old_items.len() as int;
        assert(state.items@ =~= old_items.push(state.items@[k]));
        assert forall|a: int, b: int|
            0 <= a < b < state.items@.len() implies state.items@[a].item_id@
            != state.items@[b].item_id@ by {
            if b < k {
                assert(old_items[a].item_id@ != old_items[b].item_id@);
            } else {
                assert(state.items@[b].item_id@ == result@.item_id);
                assert(old_items[a].item_id@ != result@.item_id);
            }
        }
        let m1 = state.as_map();
        let m2 = old(state).as_map().insert(result@.item_id, spec_snapshot_of(result@));
        lemma_as_map_absent(old(state), result@.item_id);
        assert forall|id: Seq<char>| m1.contains_key(id) implies m2.contains_key(id) by {
            let j = choose|j: int|
                0 <= j < state.items@.len() && state.items@[j].item_id@ == id;
            if j != k {
                assert(old_items[j].item_id@ == id);
            }
        }
        assert forall|id: Seq<char>| m2.contains_key(id) implies m1.contains_key(id) by {
            if id == result@.item_id {
                assert(state.items@[k].item_id@ == id);
            } else {
                let j = choose|j: int|
                    0 <= j < old_items.len() && old_items[j].item_id@ == id;
                assert(state.items@[j].item_id@ == id);
            }
        }
        assert forall|id: Seq<char>| m1.contains_key(id) implies m1[id] == m2[id] by {
            let j = choose|j: int|
                0 <= j < state.items@.len() && state.items@[j].item_id@ == id;
            lemma_as_map_index(state, j);
            if id == result@.item_id {
                assert(j == k);
            } else {
                assert(j != k);
                assert(state.items@[j] == old_items[j]);
                lemma_as_map_index(old(state), j);
            }
        }
        assert(m1 =~= m2);
    }
}

/// The map view after storing a sequence of verdicts in order: later
/// verdicts for the same identifier win.
pub open spec fn spec_upserted_from(
    m: Map<Seq<char>, SnapshotView>,
    rs: Seq<CheckResult>,
    k: int,
) -> Map<Seq<char>, SnapshotView>
    decreases rs.len() - k,
{
    if k < 0 || k >= rs.len() {
        m
    } else {
        spec_upserted_from(m.insert(rs[k]@.item_id, spec_snapshot_of(rs[k]@)), rs, k + 1)
    }
}

/// Stores every verdict's snapshot, in order, and stamps the state with
/// `now` — except that an empty batch leaves the state untouched.
pub fn upsert_results(state: &mut LatestResultState, results: &Vec<CheckResult>, now: String)
    requires
        old(state).wf(),
    ensures
        final(state).wf(),
        results@.len() == 0 ==> *final(state) == *old(state),
        results@.len() > 0 ==> final(state).as_map() == spec_upserted_from(
            old(state).as_map(),
            results@,
            0,
        ) && final(state).updated_at@ == now@,
{
    if results.len() == 0 {
        return ;
    }
    let ghost goal = spec_upserted_from(old(state).as_map(), results@, 0);
    let n = results.len();
    let mut i: usize = 0;
    while i < n
        invariant
            n == results@.len(),
            0 <= i <= n,
            state.wf(),
            state.updated_at == old(state).updated_at,
            goal == spec_upserted_from(state.as_map(), results@, i as int),
        decreases n - i,
    {
        upsert_snapshot(state, vec_index(results, i));
        i = i + 1;
    }
    state.updated_at = now;
}

} // verus!
