use z3stringnet::datamodel::BoundPoint;
use z3stringnet::datamodel::Direction;
use z3stringnet::datamodel::Link;
use z3stringnet::datamodel::Point;
use z3stringnet::datamodel::VertexLinkCount;
use z3stringnet::datamodel::cluster::decrement_location;
use z3stringnet::datamodel::cluster::increment_location;
use z3stringnet::datamodel::lattice::Lattice;
use z3stringnet::datamodel::lattice::build_blank_lat;
use z3stringnet::datamodel::lattice::build_z3_striped_lat;
use z3stringnet::datamodel::lattice::x_from_vertex_vec_position;
use z3stringnet::datamodel::lattice::y_from_vertex_vec_position;
use z3stringnet::lattice_updates::AcceptReject;
use z3stringnet::lattice_updates::Update;
use z3stringnet::lattice_updates::Z3String;
use z3stringnet::estimators::winding_number_estimator::WindingNumberCountEstimator;
use z3stringnet::oio::get_out_string_from_link;
use z3stringnet::oio::get_plaquett_out_string_from_link;
use z3stringnet::oio::increment_loc;

#[test]
fn it_works() {
    assert_eq!(2 + 2, 4);
}

// Stepping in any direction and then in the flipped direction returns to
// the start, wrap-around at the boundary included.
#[test]
fn test_increment_then_decrement_round_trip() {
    let size = Point { x: 4, y: 6 };
    for x in 0..4 {
        for y in 0..6 {
            for direction in [Direction::N, Direction::E, Direction::S, Direction::W] {
                let start = BoundPoint {
                    size,
                    location: Point { x, y },
                };
                let there = increment_location(start, &direction);
                let back = decrement_location(there, &direction);
                assert_eq!(back.location, start.location);
            }
        }
    }
}

// Point parity: a site is real exactly when its coordinate sum is even.
#[test]
fn test_point_real_parity() {
    let lat: Lattice = build_blank_lat(Point { x: 4, y: 4 });
    assert!(lat.point_real(&Point { x: 0, y: 0 }));
    assert!(!lat.point_real(&Point { x: 1, y: 0 }));
    assert!(!lat.point_real(&Point { x: 0, y: 3 }));
    assert!(lat.point_real(&Point { x: 3, y: 1 }));
    assert!(lat.point_real(&Point { x: 2, y: 2 }));
}

// Raising three times cycles back; lowering inverts raising.
#[test]
fn test_raise_lower_cycle() {
    for link in [Link::In, Link::Out, Link::Blank] {
        assert_eq!(link.raise().raise().raise(), link);
        assert_eq!(link.raise().lower(), link);
        assert_eq!(link.lower().raise(), link);
    }
    assert_eq!(Link::Blank.raise(), Link::Out);
    assert_eq!(Link::Out.raise(), Link::In);
    assert_eq!(Link::In.raise(), Link::Blank);
    assert_eq!(Link::Blank.lower(), Link::In);
}

#[test]
fn test_direction_iterator_order() {
    assert_eq!(
        Direction::iterator(),
        vec![Direction::N, Direction::E, Direction::S, Direction::W]
    );
}

// A four-step clockwise walk with the raising walker returns to its start;
// on a blank lattice it fills exactly the four plaquette links.
#[test]
fn test_plaquette_walk_closes_and_fills() {
    let mut lat: Lattice = build_blank_lat(Point { x: 4, y: 4 });
    let start = Point { x: 1, y: 2 };
    let mut walker = Z3String {
        start_loc: start,
        cur_loc: BoundPoint {
            size: lat.size,
            location: start,
        },
    };
    for direction in [Direction::N, Direction::E, Direction::S, Direction::W] {
        let (before, after) = walker.raise_step(&mut lat, &direction);
        assert_eq!(before, Link::Blank);
        assert_eq!(after, Link::Out);
    }
    assert_eq!(walker.cur_loc.location, start);
    assert_eq!(lat.number_filled_links, 4);
    assert_eq!(lat.count_non_blank_links(), 4);
}

// A local plaquette update from a random point always leaves the running
// count equal to a full scan; on a blank lattice it creates exactly four
// filled links.
#[test]
fn test_local_update_from_blank() {
    let mut lat: Lattice = build_blank_lat(Point { x: 4, y: 4 });
    let mut updater = Update {
        working_loc: BoundPoint {
            size: lat.size,
            location: Point { x: 0, y: 0 },
        },
        link_number_change: 0,
    };
    updater.update(&mut lat);
    assert_eq!(updater.link_number_change, 4);
    assert_eq!(lat.number_filled_links, 4);
    assert_eq!(lat.count_non_blank_links(), 4);
}

// The running filled-link count stays equal to an independent full scan
// over any sequence of accepted and rejected moves of both kinds.
#[test]
fn test_count_tracks_scan_over_moves() {
    let mut lat: Lattice = build_z3_striped_lat(Point { x: 4, y: 4 });
    assert_eq!(lat.count_non_blank_links(), 16);
    assert_eq!(lat.number_filled_links, 16);
    let mut updater = Update {
        working_loc: BoundPoint {
            size: lat.size,
            location: Point { x: 0, y: 0 },
        },
        link_number_change: 0,
    };
    for round in 0..30 {
        let snapshot = lat.duplicate();
        let count_before = lat.number_filled_links;
        if round % 2 == 0 {
            updater.update(&mut lat);
        } else {
            updater.random_walk_update(&mut lat).unwrap();
        }
        assert_eq!(
            lat.number_filled_links,
            count_before + updater.link_number_change
        );
        let decision = if round % 3 == 0 {
            AcceptReject::Reject
        } else {
            AcceptReject::Accept
        };
        Update::resolve_update(&mut lat, &snapshot, &decision);
        if decision == AcceptReject::Reject {
            assert_eq!(lat.number_filled_links, count_before);
        }
        assert_eq!(lat.count_non_blank_links() as i64, lat.number_filled_links);
    }
    // Every configuration these moves can reach keeps flux conservation,
    // so the winding self-check must pass.
    let mut winding = WindingNumberCountEstimator::new();
    winding.measure(&lat).unwrap();
}

// The transition classifier: orientation switches count zero, emptying a
// link counts -1, filling one +1.
#[test]
fn test_find_increase_or_decrease() {
    assert_eq!(Update::find_increase_or_decrease((Link::Blank, Link::Out)), 1);
    assert_eq!(Update::find_increase_or_decrease((Link::Blank, Link::In)), 1);
    assert_eq!(Update::find_increase_or_decrease((Link::In, Link::Blank)), -1);
    assert_eq!(Update::find_increase_or_decrease((Link::Out, Link::Blank)), -1);
    assert_eq!(Update::find_increase_or_decrease((Link::In, Link::Out)), 0);
    assert_eq!(Update::find_increase_or_decrease((Link::Out, Link::In)), 0);
}

// The random point and direction generators stay inside their ranges.
#[test]
fn test_random_draws_in_range() {
    let mut updater = Update {
        working_loc: BoundPoint {
            size: Point { x: 4, y: 6 },
            location: Point { x: 0, y: 0 },
        },
        link_number_change: 0,
    };
    for _ in 0..100 {
        updater.get_rand_point();
        let loc = updater.working_loc.location;
        assert!(0 <= loc.x && loc.x < 4);
        assert!(0 <= loc.y && loc.y < 6);
        let _dir = Direction::get_random_direction();
    }
}

// Vertex-vector positions map to the checkerboard coordinates.
#[test]
fn test_vertex_vec_positions() {
    let size = Point { x: 4, y: 4 };
    assert_eq!(x_from_vertex_vec_position(0, &size), 0);
    assert_eq!(y_from_vertex_vec_position(0, &size), 0);
    assert_eq!(x_from_vertex_vec_position(1, &size), 2);
    assert_eq!(y_from_vertex_vec_position(1, &size), 0);
    assert_eq!(x_from_vertex_vec_position(2, &size), 1);
    assert_eq!(y_from_vertex_vec_position(2, &size), 1);
    assert_eq!(x_from_vertex_vec_position(3, &size), 3);
    assert_eq!(y_from_vertex_vec_position(3, &size), 1);
    assert_eq!(x_from_vertex_vec_position(7, &size), 3);
    assert_eq!(y_from_vertex_vec_position(7, &size), 3);
}

#[test]
fn test_vertex_link_count_new_and_clear() {
    let size = Point { x: 4, y: 4 };
    let mut count = VertexLinkCount::new(2, &size);
    assert_eq!(count.xy, Point { x: 1, y: 1 });
    assert_eq!(count.n, 0);
    count.n = 5;
    count.e = 3;
    count.clear();
    assert_eq!(count.n, 0);
    assert_eq!(count.e, 0);
    assert_eq!(count.xy, Point { x: 1, y: 1 });
}

// Wrapped addition uses the true modulus, also for negative sums.
#[test]
fn test_add_wrapped_negative() {
    let p = BoundPoint {
        size: Point { x: 4, y: 6 },
        location: Point { x: 0, y: 0 },
    };
    let shifted = p.add_wrapped(Point { x: -1, y: -7 });
    assert_eq!(shifted.location, Point { x: 3, y: 5 });
    let step = increment_loc(&Direction::W, &p);
    assert_eq!(step.location, Point { x: 3, y: 0 });
}

#[test]
fn test_link_labels() {
    assert_eq!(get_out_string_from_link(&Link::In), "In");
    assert_eq!(get_out_string_from_link(&Link::Out), "Out");
    assert_eq!(get_out_string_from_link(&Link::Blank), "Blank");
    assert_eq!(
        get_plaquett_out_string_from_link(&Link::Out, true, &Direction::N),
        "N"
    );
    assert_eq!(
        get_plaquett_out_string_from_link(&Link::In, true, &Direction::E),
        "W"
    );
    assert_eq!(
        get_plaquett_out_string_from_link(&Link::Blank, false, &Direction::S),
        "B"
    );
    assert_eq!(
        get_plaquett_out_string_from_link(&Link::In, false, &Direction::W),
        "E"
    );
}
