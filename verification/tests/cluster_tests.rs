use z3stringnet::datamodel::BoundPoint;
use z3stringnet::datamodel::Direction;
use z3stringnet::datamodel::Link;
use z3stringnet::datamodel::Point;
use z3stringnet::datamodel::Vertex;
use z3stringnet::datamodel::cluster::add_to_direction_vec_if_filled;
use z3stringnet::datamodel::cluster::decrement_location;
use z3stringnet::datamodel::cluster::directions_of_filled_links;
use z3stringnet::datamodel::cluster::increment_location;

#[test]
fn test_increment_location() {
    let direction = Direction::E;
    let bound_point = BoundPoint {
        size: Point { x: 4, y: 4 },
        location: Point { x: 1, y: 2 },
    };
    let post_increment_bound_point: BoundPoint;
    post_increment_bound_point = increment_location(bound_point, &direction);
    let should_be = Point { x: 2, y: 2 };
    assert_eq!(post_increment_bound_point.location, should_be);
}

#[test]
fn test_decrement_location() {
    let direction = Direction::E;
    let bound_point = BoundPoint {
        size: Point { x: 4, y: 4 },
        location: Point { x: 1, y: 2 },
    };
    let post_decrement_bound_point: BoundPoint;
    post_decrement_bound_point = decrement_location(bound_point, &direction);
    let should_be = Point { x: 0, y: 2 };
    assert_eq!(post_decrement_bound_point.location, should_be);
}

#[test]
fn test_add_to_direction_vec_if_filled_if_filled() {
    let direction = Direction::N;
    let link = Link::In;
    let mut direction_vec = Vec::new();
    add_to_direction_vec_if_filled(&mut direction_vec, &direction, &link);
    assert_eq!(vec![Direction::N], direction_vec);
}

#[test]
fn test_add_to_direction_vec_if_filled_if_empty() {
    let direction = Direction::N;
    let link = Link::Blank;
    let mut direction_vec = Vec::new();
    add_to_direction_vec_if_filled(&mut direction_vec, &direction, &link);
    assert_eq!(direction_vec.len(), 0);
}

#[test]
fn test_directions_of_filled_links() {
    let test_vertex = Vertex {
        n: Link::In,
        e: Link::Blank,
        s: Link::Out,
        w: Link::Blank,
        xy: Point { x: 1, y: 1 },
    };
    let dir_vec_option: Option<Vec<Direction>> = directions_of_filled_links(&test_vertex);
    match dir_vec_option {
        // The order is N E S W, with the blanks removed.
        Some(dir_vec) => assert_eq!(vec![Direction::N, Direction::S], dir_vec),
        None => panic!("In test_directions_of_filled_links we recived None."),
    };
}

#[test]
fn test_directions_of_filled_links_when_empty() {
    let test_vertex = Vertex {
        n: Link::Blank,
        e: Link::Blank,
        s: Link::Blank,
        w: Link::Blank,
        xy: Point { x: 1, y: 1 },
    };
    let dir_vec_option: Option<Vec<Direction>> = directions_of_filled_links(&test_vertex);
    let post_match = match dir_vec_option {
        Some(_dir_vec) => panic!("In test_directions_of_filled_links we recived Some."),
        None => (),
    };
    assert_eq!(post_match, ());
}
