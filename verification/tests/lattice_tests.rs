use z3stringnet::datamodel::BoundPoint;
use z3stringnet::datamodel::Link;
use z3stringnet::datamodel::Point;
use z3stringnet::datamodel::Vertex;
use z3stringnet::datamodel::lattice::Lattice;
use z3stringnet::datamodel::lattice::build_blank_lat;
use z3stringnet::datamodel::lattice::build_z3_striped_lat;

#[test]
fn test_get_blank_vertex_from_real_point() {
    let lat: Lattice = build_blank_lat(Point { x: 4, y: 4 });
    let loc: BoundPoint = BoundPoint {
        size: Point { x: 4, y: 4 },
        location: Point { x: 0, y: 0 },
    };
    let vertex: Vertex = lat.get_vertex_from_point(&loc);
    assert_eq!(vertex.n, Link::Blank);
    assert_eq!(vertex.e, Link::Blank);
    assert_eq!(vertex.s, Link::Blank);
    assert_eq!(vertex.w, Link::Blank);
}

#[test]
fn test_get_blank_vertex_from_fake_point() {
    let lat: Lattice = build_blank_lat(Point { x: 4, y: 4 });
    let loc: BoundPoint = BoundPoint {
        size: Point { x: 4, y: 4 },
        location: Point { x: 1, y: 0 },
    };
    let vertex: Vertex = lat.get_vertex_from_point(&loc);
    assert_eq!(vertex.n, Link::Blank);
    assert_eq!(vertex.e, Link::Blank);
    assert_eq!(vertex.s, Link::Blank);
    assert_eq!(vertex.w, Link::Blank);
}

#[test]
fn test_get_in_out_vertext_from_real_point() {
    let lat: Lattice = build_z3_striped_lat(Point { x: 4, y: 4 });
    let loc: BoundPoint = BoundPoint {
        size: Point { x: 4, y: 4 },
        location: Point { x: 0, y: 0 },
    };
    let vertex: Vertex = lat.get_vertex_from_point(&loc);
    assert_eq!(vertex.w, Link::In);
    assert_eq!(vertex.e, Link::Out);
    assert_eq!(vertex.n, Link::Blank);
    assert_eq!(vertex.s, Link::Blank);
}

#[test]
fn test_get_in_out_vertext_from_fake_point() {
    let lat: Lattice = build_z3_striped_lat(Point { x: 4, y: 4 });
    let loc: BoundPoint = BoundPoint {
        size: Point { x: 4, y: 4 },
        location: Point { x: 1, y: 0 },
    };
    let vertex: Vertex = lat.get_vertex_from_point(&loc);
    assert_eq!(vertex.w, Link::In);
    assert_eq!(vertex.e, Link::Out);
    assert_eq!(vertex.n, Link::Blank);
    assert_eq!(vertex.s, Link::Blank);
}
