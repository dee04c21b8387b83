use z3stringnet::datamodel::Direction;
use z3stringnet::datamodel::Link;
use z3stringnet::datamodel::Point;
use z3stringnet::datamodel::lattice::Lattice;
use z3stringnet::datamodel::lattice::build_blank_lat;
use z3stringnet::datamodel::lattice::build_z3_striped_lat;
use z3stringnet::errors::LatticeError;
use z3stringnet::estimators::total_link_count_estimator::TotalLinkCountEstimator;
use z3stringnet::estimators::winding_number_estimator::WindingNumberCountEstimator;

// The striped lattice threads one unit of flux through every row, so the
// vertical winding count is the lattice height and the horizontal one is
// zero; the two parallel paths of each axis agree.
#[test]
fn test_winding_striped_lattice() {
    let lat: Lattice = build_z3_striped_lat(Point { x: 4, y: 4 });
    let mut est = WindingNumberCountEstimator::new();
    est.measure(&lat).unwrap();
    assert_eq!(est.count_vertical, 4);
    assert_eq!(est.count_horizontal, 0);
    est.clear();
    assert_eq!(est.count_vertical, 0);
    assert_eq!(est.count_horizontal, 0);
}

#[test]
fn test_winding_blank_lattice() {
    let lat: Lattice = build_blank_lat(Point { x: 4, y: 4 });
    let mut est = WindingNumberCountEstimator::new();
    est.measure(&lat).unwrap();
    assert_eq!(est.count_vertical, 0);
    assert_eq!(est.count_horizontal, 0);
}

// A single raised link is not a closed string: the two parallel winding
// paths disagree and the self-check reports the fault.
#[test]
fn test_winding_mismatch_on_open_string() {
    let mut lat: Lattice = build_blank_lat(Point { x: 4, y: 4 });
    lat.out_raise_link(&Point { x: 0, y: 0 }, &Direction::E);
    let mut est = WindingNumberCountEstimator::new();
    assert_eq!(
        est.measure(&lat),
        Err(LatticeError::WindingMismatch { lattice_size: Point { x: 4, y: 4 } })
    );
    // The counts are untouched after a failed measurement.
    assert_eq!(est.count_vertical, 0);
    assert_eq!(est.count_horizontal, 0);
}

// The winding count reduced modulo 3 wraps negative counts to the
// non-negative representative.
#[test]
fn test_modulo_winding_number() {
    assert_eq!(WindingNumberCountEstimator::modulo_winding_number(0), 0);
    assert_eq!(WindingNumberCountEstimator::modulo_winding_number(4), 1);
    assert_eq!(WindingNumberCountEstimator::modulo_winding_number(-1), 2);
    assert_eq!(WindingNumberCountEstimator::modulo_winding_number(-3), 0);
    assert_eq!(WindingNumberCountEstimator::modulo_winding_number(-4), 2);
}

#[test]
fn test_simple_add_sub_from_link_direction() {
    let mut count: i64 = 0;
    WindingNumberCountEstimator::simple_add_sub_from_link_direction(&mut count, &Link::Out);
    assert_eq!(count, 1);
    WindingNumberCountEstimator::simple_add_sub_from_link_direction(&mut count, &Link::In);
    assert_eq!(count, 0);
    WindingNumberCountEstimator::simple_add_sub_from_link_direction(&mut count, &Link::Blank);
    assert_eq!(count, 0);
}

// The total-link-count estimator accumulates full scans across
// measurements and resets on clear.
#[test]
fn test_total_link_count_estimator() {
    let lat: Lattice = build_z3_striped_lat(Point { x: 4, y: 4 });
    let mut est = TotalLinkCountEstimator::new();
    est.measure(&lat);
    assert_eq!(est.count, 16);
    est.measure(&lat);
    assert_eq!(est.count, 32);
    est.clear();
    assert_eq!(est.count, 0);
}
