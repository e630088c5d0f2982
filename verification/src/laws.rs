//! The library's stated laws: what holds of reconciliation across whole
//! request sequences, and of the shader-time mutator across all live
//! material blocks.

use vstd::prelude::*;
use crate::selection::SelectionState;
use crate::selection::apply_requests;
use crate::selection::request;
use crate::scene::SceneModel;
use crate::scene::displays;
use crate::scene::spec_reconcile_scene;
use crate::scene::spec_reconcile_selection;
use crate::scene::spec_set_material_times;
use crate::scene::wf_scene;
use crate::shape::ShapeId;
use crate::shape::implemented;

verus! {

/// A sequence of requests leaves `previous` untouched: requests record
/// intent only.
pub proof fn lemma_apply_requests_previous(sel: SelectionState, reqs: Seq<ShapeId>)
    ensures
        apply_requests(sel, reqs).previous == sel.previous,
    decreases reqs.len(),
{
    if reqs.len() > 0 {
        lemma_apply_requests_previous(sel, reqs.drop_last());
    }
}

/// After any nonempty sequence of selection requests, one reconciliation
/// pass leaves exactly one active renderable, and it displays the most
/// recent request. (A pending `Pyramid` is fatal instead, so the last
/// request is required to be implemented.)
pub proof fn lemma_reconcile_shows_last_request(
    m: SceneModel,
    sel: SelectionState,
    reqs: Seq<ShapeId>,
)
    requires
        wf_scene(m),
        displays(m, sel.previous),
        sel.previous == sel.selected,
        reqs.len() > 0,
        implemented(reqs.last()),
    ensures
        spec_reconcile_scene(m, apply_requests(sel, reqs)).active.len() == 1,
        spec_reconcile_scene(m, apply_requests(sel, reqs)).active[0].shape == reqs.last(),
        spec_reconcile_selection(apply_requests(sel, reqs)).previous == reqs.last(),
        spec_reconcile_selection(apply_requests(sel, reqs)).selected == reqs.last(),
{
    lemma_apply_requests_previous(sel, reqs);
    let sel2 = apply_requests(sel, reqs);
    assert(sel2 == request(apply_requests(sel, reqs.drop_last()), reqs.last()));
    assert(sel2.selected == reqs.last());
}

/// Reconciliation is idempotent while idle: when `selected == previous`
/// the scene is left exactly as it was — in particular the active
/// renderable's entity id is unchanged — and so is the selection.
pub proof fn lemma_idle_reconcile_is_noop(m: SceneModel, sel: SelectionState)
    requires
        sel.selected == sel.previous,
    ensures
        spec_reconcile_scene(m, sel) == m,
        spec_reconcile_selection(sel) == sel,
{
}

/// Selecting the shape that is already displayed triggers no entity
/// churn: the reconciliation after such a request leaves the scene
/// untouched.
pub proof fn lemma_same_selection_no_churn(m: SceneModel, sel: SelectionState, id: ShapeId)
    requires
        sel.previous == sel.selected,
        id == sel.selected,
    ensures
        spec_reconcile_scene(m, request(sel, id)) == m,
{
}

/// Selecting a different implemented shape despawns exactly the old
/// renderable and spawns exactly one new one: afterwards a single active
/// renderable exists, it displays the new shape, its entity id is fresh
/// (no previously active entity had it), and no old active entity
/// remains.
pub proof fn lemma_changed_selection_swaps(m: SceneModel, sel: SelectionState, id: ShapeId)
    requires
        wf_scene(m),
        sel.previous == sel.selected,
        id != sel.selected,
        implemented(id),
    ensures
        spec_reconcile_scene(m, request(sel, id)).active.len() == 1,
        spec_reconcile_scene(m, request(sel, id)).active[0].shape == id,
        spec_reconcile_scene(m, request(sel, id)).active[0].id == m.next_entity,
        forall|i: int|
            0 <= i < m.active.len() ==> (#[trigger] m.active[i]).id != spec_reconcile_scene(
                m,
                request(sel, id),
            ).active[0].id,
{
}

/// The shader-time mutator tracks the clock for every live material
/// block, attached to the active renderable or not: if every block read
/// `t0` and the clock has advanced by `delta`, every block reads
/// `t0 + delta` afterwards, and no block appears or disappears.
pub proof fn lemma_material_time_tracks_clock(m: SceneModel, t0: u64, delta: u64)
    requires
        forall|i: int| 0 <= i < m.materials.len() ==> (#[trigger] m.materials[i]).time == t0,
        t0 + delta <= u64::MAX,
    ensures
        spec_set_material_times(m, (t0 + delta) as u64).materials.len() == m.materials.len(),
        forall|i: int|
            0 <= i < m.materials.len() ==> (#[trigger] spec_set_material_times(
                m,
                (t0 + delta) as u64,
            ).materials[i]).time == m.materials[i].time + delta,
{
    assert forall|i: int|
        0 <= i < m.materials.len() implies (#[trigger] spec_set_material_times(
        m,
        (t0 + delta) as u64,
    ).materials[i]).time == m.materials[i].time + delta by {
        assert(m.materials[i].time == t0);
    }
}

} // verus!
