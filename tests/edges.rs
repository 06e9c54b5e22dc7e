use isohedral::get_tiling_type;
use isohedral::tiling::{IsohedralTiling, Shape};
use isohedral::EdgeShape::{self, J, S, U};

fn all_shapes(t: &IsohedralTiling) -> Vec<Shape> {
    let mut it = t.shapes();
    let mut v = Vec::new();
    while let Some(s) = it.next() {
        v.push(s);
    }
    v
}

fn all_parts(t: &IsohedralTiling) -> Vec<Shape> {
    let mut it = t.parts();
    let mut v = Vec::new();
    while let Some(s) = it.next() {
        v.push(s);
    }
    v
}

fn shape(edge: usize, id: usize, kind: EdgeShape, rev: bool, second: bool, half: Option<usize>) -> Shape {
    Shape { edge, id, shape: kind, rev, second, half }
}

#[test]
fn shapes_of_first_type() {
    let t = IsohedralTiling::new(get_tiling_type(0));
    let s = all_shapes(&t);
    assert_eq!(s.len(), 6);
    let expected = vec![
        shape(0, 0, J, false, false, None),
        shape(1, 1, J, false, false, None),
        shape(2, 2, J, false, false, None),
        shape(3, 0, J, true, false, None),
        shape(4, 1, J, true, false, None),
        shape(5, 2, J, true, false, None),
    ];
    assert_eq!(s, expected);
    assert_eq!(s[3].edge(), 3);
    assert_eq!(s[3].id(), 0);
    assert_eq!(s[3].shape(), J);
    assert!(s[3].reversed());
    assert!(!s[3].second());
    assert_eq!(s[3].half(), None);
}

#[test]
fn parts_of_first_type_are_the_shapes() {
    let t = IsohedralTiling::new(get_tiling_type(0));
    assert_eq!(all_parts(&t), all_shapes(&t));
}

#[test]
fn walks_stay_finished() {
    let t = IsohedralTiling::new(get_tiling_type(3));
    let mut it = t.parts();
    for _ in 0..10 {
        assert!(it.next().is_some());
    }
    assert!(it.next().is_none());
    assert!(it.next().is_none());
    let mut it = t.shapes();
    for _ in 0..6 {
        assert!(it.next().is_some());
    }
    assert!(it.next().is_none());
}

#[test]
fn parts_split_s_edges() {
    let t = IsohedralTiling::new(get_tiling_type(3));
    let p = all_parts(&t);
    let expected = vec![
        shape(0, 0, S, false, false, Some(0)),
        shape(0, 0, S, true, true, Some(1)),
        shape(1, 1, J, false, false, None),
        shape(2, 2, S, false, false, Some(0)),
        shape(2, 2, S, true, true, Some(1)),
        shape(3, 3, S, false, false, Some(0)),
        shape(3, 3, S, true, true, Some(1)),
        shape(4, 1, J, true, false, None),
        shape(5, 4, S, false, false, Some(0)),
        shape(5, 4, S, true, true, Some(1)),
    ];
    assert_eq!(p, expected);
    assert_eq!(all_shapes(&t).len(), 6);
}

#[test]
fn parts_of_reversed_u_edge_swap_halves() {
    let t = IsohedralTiling::new(get_tiling_type(11));
    assert_eq!(t.tiling_type().index(), 12);
    let p = all_parts(&t);
    let expected = vec![
        shape(0, 0, U, false, false, Some(0)),
        shape(0, 0, U, true, true, Some(1)),
        shape(1, 1, J, false, false, None),
        shape(2, 1, J, false, false, None),
        shape(3, 0, U, false, false, Some(1)),
        shape(3, 0, U, true, true, Some(0)),
        shape(4, 1, J, true, false, None),
        shape(5, 1, J, true, false, None),
    ];
    assert_eq!(p, expected);
}

#[test]
fn parts_count_matches_split_edges_for_all_types() {
    for n in 0..81 {
        let t = IsohedralTiling::new(get_tiling_type(n));
        let shapes = all_shapes(&t);
        assert_eq!(shapes.len(), t.num_vertices());
        let split = shapes.iter().filter(|s| s.shape == U || s.shape == S).count();
        let parts = all_parts(&t);
        assert_eq!(parts.len(), t.num_vertices() + split);
        for p in &parts {
            if p.shape == U || p.shape == S {
                assert_eq!(p.rev, p.second);
            } else {
                assert!(!p.second);
            }
        }
    }
}

#[test]
fn edge_orientations_and_reversals() {
    let t = IsohedralTiling::new(get_tiling_type(11));
    let orient: Vec<usize> = (0..6).map(|i| t.edge_orientation(i)).collect();
    assert_eq!(orient, vec![0, 0, 3, 1, 1, 2]);
    let rev: Vec<bool> = (0..6).map(|i| t.edge_reversed(i)).collect();
    assert_eq!(rev, vec![false, false, false, true, true, true]);
}
