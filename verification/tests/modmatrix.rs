use ranch_dsp::modmatrix::{ModMatrix, ModRoute};

#[test]
fn both_routes_onto_one_target_apply() {
    let mut m = ModMatrix::new();
    m.add(0, 1, 0.5f32); // src0 -> tgt1 * 0.5
    m.add(1, 1, -0.25f32); // src1 -> tgt1 * -0.25 (sums)
    assert!(m.applies(0, 2, 2));
    assert!(m.applies(1, 2, 2));
    assert_eq!((m.route(0).source, m.route(0).target), (0, 1));
    assert_eq!((m.route(1).source, m.route(1).target), (1, 1));
    // with one target only, neither route reaches target 1
    assert!(!m.applies(0, 2, 1));
    assert!(!m.applies(1, 2, 1));
}

#[test]
fn wholly_out_of_range_route_is_skipped() {
    let mut m = ModMatrix::new();
    m.add(9, 9, 1.0f32);
    assert!(!m.applies(0, 1, 1));
}

#[test]
fn default_matrix_is_empty() {
    let m: ModMatrix<f32> = ModMatrix::default();
    assert!(m.is_empty());
    assert_eq!(m.len(), 0);
}

#[test]
fn set_and_clear() {
    let mut m = ModMatrix::new();
    m.set_routes(&[ModRoute {
        source: 0,
        target: 0,
        depth: 1.0f32,
    }]);
    assert_eq!(m.len(), 1);
    m.clear();
    assert!(m.is_empty());
}

#[test]
fn routes_keep_their_order() {
    let mut m = ModMatrix::new();
    m.add(0, 1, 0.5f32);
    m.add(1, 1, -0.25f32);
    assert_eq!(m.len(), 2);
    assert_eq!(m.route(0).source, 0);
    assert_eq!(m.route(1).source, 1);
    assert_eq!(m.route(1).depth, -0.25);
    m.set_routes(&[
        ModRoute { source: 2, target: 3, depth: 1.0f32 },
        ModRoute { source: 4, target: 5, depth: 2.0f32 },
        ModRoute { source: 5, target: 6, depth: 3.0f32 },
    ]);
    assert_eq!(m.len(), 3);
    assert_eq!(m.route(2).target, 6);
}

#[test]
fn out_of_range_routes_do_not_apply() {
    let mut m = ModMatrix::new();
    m.add(9, 9, 1.0f32);
    m.add(0, 0, 1.0f32);
    m.add(0, 3, 1.0f32);
    assert!(!m.applies(0, 1, 1));
    assert!(m.applies(1, 1, 1));
    assert!(!m.applies(2, 1, 1));
    assert!(m.applies(2, 1, 4));
}
