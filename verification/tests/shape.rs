use model_swap::selection::SelectionState;
use model_swap::shape::MeshParams;
use model_swap::shape::ShapeId;

#[test]
fn labels_match_dropdown() {
    assert_eq!(ShapeId::Cube.label(), "Cube");
    assert_eq!(ShapeId::Pyramid.label(), "Pyramid");
    assert_eq!(ShapeId::Sphere.label(), "Sphere");
    assert_eq!(ShapeId::Torus.label(), "Torus");
}

#[test]
fn dropdown_offers_four_options() {
    let opts = ShapeId::all_options();
    assert_eq!(opts, vec![ShapeId::Cube, ShapeId::Pyramid, ShapeId::Sphere, ShapeId::Torus]);
}

#[test]
fn pyramid_is_the_only_unimplemented_shape() {
    assert!(ShapeId::Cube.is_implemented());
    assert!(!ShapeId::Pyramid.is_implemented());
    assert!(ShapeId::Sphere.is_implemented());
    assert!(ShapeId::Torus.is_implemented());
}

#[test]
fn mesh_params_use_documented_sizes() {
    assert_eq!(ShapeId::Cube.mesh_params(), MeshParams::Cube { edge_milli: 1000 });
    assert_eq!(
        ShapeId::Sphere.mesh_params(),
        MeshParams::Sphere { radius_milli: 1000, sectors: 50, stacks: 50 },
    );
    assert_eq!(
        ShapeId::Torus.mesh_params(),
        MeshParams::Torus { radius_milli: 1000, ring_milli: 500, segments: 50, sides: 50 },
    );
}

#[test]
fn selection_default_is_idle_cube() {
    let sel = SelectionState::default();
    assert_eq!(sel.previous, ShapeId::Cube);
    assert_eq!(sel.selected, ShapeId::Cube);
    assert!(!sel.is_pending());
}

#[test]
fn request_records_intent_only() {
    let mut sel = SelectionState::default();
    sel.request_selection(ShapeId::Torus);
    assert!(sel.is_pending());
    assert_eq!(sel.previous, ShapeId::Cube);
    assert_eq!(sel.selected, ShapeId::Torus);
}
