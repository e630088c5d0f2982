use model_swap::scene::Scene;
use model_swap::selection::SelectionState;
use model_swap::shape::ShapeId;

#[test]
fn shader_time_tracks_clock_on_all_blocks() {
    let mut s = Scene::initial();
    let mut sel = SelectionState::default();
    sel.request_selection(ShapeId::Sphere);
    s.reconcile(&mut sel);
    // the cube's block is now detached from any renderable, yet updated
    assert_eq!(s.materials.len(), 2);
    s.set_material_times(5000);
    for b in &s.materials {
        assert_eq!(b.time, 5000);
    }
    // the clock advanced by 250 ms: every block reads 250 more
    s.set_material_times(5000 + 250);
    for b in &s.materials {
        assert_eq!(b.time, 5250);
    }
}

#[test]
fn spin_accumulates_per_frame() {
    let mut s = Scene::initial();
    s.spin_step(250);
    s.spin_step(250);
    // half a second at one radian per second
    assert_eq!(s.active[0].angle, 500);
}

#[test]
fn spin_wraps_at_integer_width() {
    let mut s = Scene::initial();
    s.active[0].angle = u64::MAX;
    s.spin_step(1);
    assert_eq!(s.active[0].angle, 0);
}

#[test]
fn mutators_without_active_shape_are_noops() {
    let mut s = Scene::new();
    s.spin_step(100);
    s.set_material_times(100);
    assert_eq!(s.active.len(), 0);
    assert_eq!(s.materials.len(), 0);
}
