use isohedral::data::tiling_type_data;
use isohedral::tiling::IsohedralTiling;
use isohedral::{get_tiling_type, EdgeShape, TilingType};

#[test]
fn first_and_last_valid_types() {
    assert_eq!(get_tiling_type(0).index(), 1);
    assert_eq!(get_tiling_type(18).index(), 20);
    assert_eq!(get_tiling_type(80).index(), 93);
}

#[test]
fn valid_types_skip_undefined_slots() {
    let mut seen = Vec::new();
    for n in 0..81 {
        seen.push(get_tiling_type(n).index());
    }
    for w in seen.windows(2) {
        assert!(w[0] < w[1]);
    }
    for undefined in [0usize, 19, 35, 48, 60, 63, 65, 70, 75, 80, 87, 89, 92] {
        assert!(!seen.contains(&undefined));
        assert_eq!(tiling_type_data(undefined).num_vertices, 0);
    }
}

#[test]
fn tiling_type_names() {
    assert_eq!(TilingType(1).to_string(), "IH01");
    assert_eq!(TilingType(93).to_string(), "IH93");
    assert_eq!(get_tiling_type(40).to_string(), "IH43");
}

#[test]
fn every_valid_record_is_consistent() {
    for n in 0..81 {
        let d = tiling_type_data(get_tiling_type(n).index());
        assert!(d.num_params <= 6);
        assert!(1 <= d.num_aspects && d.num_aspects <= 12);
        assert!(1 <= d.num_vertices && d.num_vertices <= 6);
        assert_eq!(d.edge_shapes.len(), d.num_edge_shapes);
        assert_eq!(d.edge_orientations.len(), 2 * d.num_vertices);
        assert_eq!(d.edge_shape_ids.len(), d.num_vertices);
        assert_eq!(d.colouring.len(), 19);
    }
}

#[test]
fn first_type_counts() {
    let t = IsohedralTiling::new(get_tiling_type(0));
    assert_eq!(t.tiling_type().index(), 1);
    assert_eq!(t.num_params(), 4);
    assert_eq!(t.num_aspects(), 1);
    assert_eq!(t.num_vertices(), 6);
    assert_eq!(t.num_edge_shapes(), 3);
    assert_eq!(t.edge_shape(0), EdgeShape::J);
    assert_eq!(t.edge_shape(2), EdgeShape::J);
}

#[test]
fn reset_switches_type() {
    let mut t = IsohedralTiling::new(get_tiling_type(0));
    t.reset(get_tiling_type(80));
    assert_eq!(t.tiling_type().index(), 93);
    assert_eq!(t.num_params(), 0);
    assert_eq!(t.num_aspects(), 2);
    assert_eq!(t.num_vertices(), 3);
    assert_eq!(t.num_edge_shapes(), 1);
    assert_eq!(t.edge_shape(0), EdgeShape::I);
}
