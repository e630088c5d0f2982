use model_swap::scene::ReconcileOutcome;
use model_swap::scene::Scene;
use model_swap::selection::SelectionState;
use model_swap::shape::ShapeId;

#[test]
fn initial_scene_shows_cube() {
    let s = Scene::initial();
    assert_eq!(s.active.len(), 1);
    assert_eq!(s.active[0].shape, ShapeId::Cube);
    assert_eq!(s.active[0].id, 0);
    assert_eq!(s.active[0].angle, 0);
    assert_eq!(s.materials.len(), 1);
    assert_eq!(s.materials[0].time, 0);
    assert!(s.materials[0].blend);
    assert_eq!(s.active[0].material, s.materials[0].handle);
}

#[test]
fn last_request_wins_after_reconciliation() {
    let mut s = Scene::initial();
    let mut sel = SelectionState::default();
    sel.request_selection(ShapeId::Sphere);
    sel.request_selection(ShapeId::Torus);
    sel.request_selection(ShapeId::Sphere);
    let out = s.reconcile(&mut sel);
    assert_eq!(out, ReconcileOutcome::Swapped);
    assert_eq!(s.active.len(), 1);
    assert_eq!(s.active[0].shape, ShapeId::Sphere);
    assert_eq!(sel.previous, ShapeId::Sphere);
    assert_eq!(sel.selected, ShapeId::Sphere);
}

#[test]
fn idle_reconcile_keeps_entity_id() {
    let mut s = Scene::initial();
    let mut sel = SelectionState::default();
    let id_before = s.active[0].id;
    let out = s.reconcile(&mut sel);
    assert_eq!(out, ReconcileOutcome::Idle);
    assert_eq!(s.active.len(), 1);
    assert_eq!(s.active[0].id, id_before);
    assert_eq!(s.materials.len(), 1);
}

#[test]
fn same_selection_twice_no_churn() {
    let mut s = Scene::initial();
    let mut sel = SelectionState::default();
    sel.request_selection(ShapeId::Cube);
    sel.request_selection(ShapeId::Cube);
    let id_before = s.active[0].id;
    let out = s.reconcile(&mut sel);
    assert_eq!(out, ReconcileOutcome::Idle);
    assert_eq!(s.active[0].id, id_before);
    assert_eq!(s.materials.len(), 1);
}

#[test]
fn changed_selection_swaps_exactly_one() {
    let mut s = Scene::initial();
    let mut sel = SelectionState::default();
    let old_id = s.active[0].id;
    sel.request_selection(ShapeId::Torus);
    let out = s.reconcile(&mut sel);
    assert_eq!(out, ReconcileOutcome::Swapped);
    assert_eq!(s.active.len(), 1);
    assert_ne!(s.active[0].id, old_id);
    assert_eq!(s.active[0].shape, ShapeId::Torus);
    // the despawned renderable's material block stays allocated
    assert_eq!(s.materials.len(), 2);
}

#[test]
fn pyramid_request_reports_fatal() {
    let mut s = Scene::initial();
    let mut sel = SelectionState::default();
    sel.request_selection(ShapeId::Pyramid);
    let out = s.reconcile(&mut sel);
    assert_eq!(out, ReconcileOutcome::FatalUnimplemented);
    // nothing changed; the host terminates the process on this outcome
    assert_eq!(s.active.len(), 1);
    assert_eq!(s.active[0].shape, ShapeId::Cube);
    assert_eq!(sel.previous, ShapeId::Cube);
    assert_eq!(sel.selected, ShapeId::Pyramid);
}

#[test]
fn swap_back_and_forth_allocates_fresh_ids() {
    let mut s = Scene::initial();
    let mut sel = SelectionState::default();
    sel.request_selection(ShapeId::Sphere);
    s.reconcile(&mut sel);
    let sphere_id = s.active[0].id;
    sel.request_selection(ShapeId::Cube);
    s.reconcile(&mut sel);
    assert_eq!(s.active.len(), 1);
    assert_eq!(s.active[0].shape, ShapeId::Cube);
    assert_ne!(s.active[0].id, 0);
    assert_ne!(s.active[0].id, sphere_id);
    assert_eq!(s.materials.len(), 3);
}
