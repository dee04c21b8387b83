use std::collections::HashMap;
use z3stringnet::datamodel::BoundPoint;
use z3stringnet::datamodel::Direction;
use z3stringnet::datamodel::Point;
use z3stringnet::datamodel::lattice::Lattice;
use z3stringnet::datamodel::lattice::build_blank_lat;
use z3stringnet::datamodel::lattice::build_z3_striped_lat;
use z3stringnet::errors::LatticeError;
use z3stringnet::estimators::cluster_size_estimator::ClusterSizeEstimator;
use z3stringnet::estimators::cluster_size_estimator::ClusterStepStatus;

#[test]
fn test_cluster_size_estimator_constructor() {
    let lat: Lattice = build_blank_lat(Point { x: 4, y: 4 });
    let cluster_size_est = ClusterSizeEstimator::new(&lat);
    assert_eq!(cluster_size_est.current_location.location.x, 0);
    assert_eq!(cluster_size_est.current_location.location.y, 0);
}

#[test]
fn test_cluster_size_estimator_striped_lat() {
    let lat: Lattice = build_z3_striped_lat(Point { x: 4, y: 4 });
    let mut cluster_size_est = ClusterSizeEstimator::new(&lat);
    cluster_size_est.init_calculation_location(Point::new(0, 0), &lat);
    while cluster_size_est.is_initialized {
        cluster_size_est.step().unwrap();
    }
    assert_eq!(cluster_size_est.clustered.len(), 4);
    for i in 0..4 {
        assert!(cluster_size_est.is_clustered(&BoundPoint {
            size: lat.size,
            location: Point { x: i, y: 0 },
        }));
    }
}

// On a blank lattice a seeded traversal reports completion at once: the
// seed has no filled links, so there is no cluster to grow.
#[test]
fn test_blank_lattice_cluster_is_empty() {
    let lat: Lattice = build_blank_lat(Point { x: 4, y: 4 });
    for x in 0..4 {
        for y in 0..4 {
            let mut est = ClusterSizeEstimator::new(&lat);
            est.init_calculation_location(Point::new(x, y), &lat);
            let status = est.step().unwrap();
            assert_eq!(status, ClusterStepStatus::Done);
            assert!(!est.is_initialized);
        }
    }
}

// Clustering the whole striped lattice marks every site and finds one
// cluster per row.
#[test]
fn test_cluster_whole_lattice_striped() {
    let lat: Lattice = build_z3_striped_lat(Point { x: 4, y: 4 });
    let mut est = ClusterSizeEstimator::new(&lat);
    est.cluster_whole_lattice(&lat).unwrap();
    assert_eq!(est.clustered_len(), 16);
    assert_eq!(est.available_cluster_num, 4);
    for x in 0..4 {
        for y in 0..4 {
            assert!(est.is_clustered(&BoundPoint {
                size: lat.size,
                location: Point { x, y },
            }));
            // Each row is one cluster, and the ids are retired in scan
            // order: row y carries id y.
            let key = (y * 4 + x) as u64;
            assert_eq!(est.clustered.get(&key), Some(&(y as u64)));
        }
    }
}

// Clustering a blank lattice marks nothing.
#[test]
fn test_cluster_whole_lattice_blank() {
    let lat: Lattice = build_blank_lat(Point { x: 4, y: 4 });
    let mut est = ClusterSizeEstimator::new(&lat);
    est.cluster_whole_lattice(&lat).unwrap();
    assert_eq!(est.clustered_len(), 0);
    assert_eq!(est.available_cluster_num, 0);
}

// A hand-built state whose next step reaches a vertex of another cluster
// reports the internal fault.
#[test]
fn test_step_into_foreign_cluster_faults() {
    let lat: Lattice = build_z3_striped_lat(Point { x: 4, y: 4 });
    let mut clustered: HashMap<u64, u64> = HashMap::new();
    // Site (1, 0) has key 0 * 4 + 1, recorded under a different cluster id.
    clustered.insert(1, 7);
    let mut est = ClusterSizeEstimator {
        clustered,
        cluster_covered_points: Vec::new(),
        stack: vec![vec![Direction::E]],
        walk_list: Vec::new(),
        current_location: BoundPoint {
            size: lat.size,
            location: Point { x: 0, y: 0 },
        },
        available_cluster_num: 0,
        is_initialized: true,
        starting_location: BoundPoint {
            size: lat.size,
            location: Point { x: 0, y: 0 },
        },
        lat: lat.duplicate(),
    };
    assert_eq!(
        est.step(),
        Err(LatticeError::ForeignCluster {
            location: Point { x: 1, y: 0 },
            direction: Direction::E,
            lattice_size: Point { x: 4, y: 4 },
        })
    );
}

// A hand-built state whose next step crosses into a vertex without filled
// links reports the internal fault.
#[test]
fn test_step_onto_bare_vertex_faults() {
    let lat: Lattice = build_blank_lat(Point { x: 4, y: 4 });
    let mut est = ClusterSizeEstimator {
        clustered: HashMap::new(),
        cluster_covered_points: Vec::new(),
        stack: vec![vec![Direction::E]],
        walk_list: Vec::new(),
        current_location: BoundPoint {
            size: lat.size,
            location: Point { x: 0, y: 0 },
        },
        available_cluster_num: 0,
        is_initialized: true,
        starting_location: BoundPoint {
            size: lat.size,
            location: Point { x: 0, y: 0 },
        },
        lat: lat.duplicate(),
    };
    assert_eq!(
        est.step(),
        Err(LatticeError::MissingFilledLinks {
            location: Point { x: 1, y: 0 },
            direction: Direction::E,
            lattice_size: Point { x: 4, y: 4 },
        })
    );
}
