use isohedral::get_tiling_type;
use isohedral::tiling::IsohedralTiling;

#[test]
fn colours_of_first_type() {
    let t = IsohedralTiling::new(get_tiling_type(0));
    assert_eq!(t.colour(0, 0, 0), 0);
    assert_eq!(t.colour(1, 0, 0), 1);
    assert_eq!(t.colour(0, 1, 0), 2);
    assert_eq!(t.colour(-1, -2, 0), 1);
    assert_eq!(t.colour(5, 7, 0), 1);
}

#[test]
fn colours_with_two_aspects() {
    let t = IsohedralTiling::new(get_tiling_type(3));
    assert_eq!((t.colour(0, 0, 0), t.colour(0, 0, 1)), (0, 1));
    assert_eq!((t.colour(1, 0, 0), t.colour(1, 0, 1)), (2, 0));
    assert_eq!((t.colour(0, 1, 0), t.colour(0, 1, 1)), (2, 0));
    assert_eq!((t.colour(-1, -2, 0), t.colour(-1, -2, 1)), (0, 1));
}

#[test]
fn colours_with_period_two() {
    let t = IsohedralTiling::new(get_tiling_type(40));
    assert_eq!(t.tiling_type().index(), 43);
    assert_eq!((t.colour(1, 0, 0), t.colour(1, 0, 1)), (1, 0));
    assert_eq!((t.colour(-1, -2, 0), t.colour(-1, -2, 1)), (1, 0));
}

#[test]
fn colour_is_periodic_for_all_types() {
    for n in 0..81 {
        let t = IsohedralTiling::new(get_tiling_type(n));
        let nc = t.data().colouring[18] as isize;
        for a in 0..t.num_aspects() {
            for t1 in -7..7isize {
                for t2 in -7..7isize {
                    let c = t.colour(t1, t2, a);
                    assert!(c < 3);
                    assert_eq!(t.colour(t1 + nc, t2, a), c);
                    assert_eq!(t.colour(t1, t2 + nc, a), c);
                }
            }
        }
    }
}

#[test]
fn colour_at_extreme_lattice_indices() {
    let t = IsohedralTiling::new(get_tiling_type(0));
    // Both isize::MIN and isize::MAX are 1 modulo 3.
    assert_eq!(t.colour(isize::MIN, 0, 0), t.colour(1, 0, 0));
    assert_eq!(t.colour(0, isize::MAX, 0), t.colour(0, 1, 0));
}
