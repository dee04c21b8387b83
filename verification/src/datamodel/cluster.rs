//! Stepping of bound points across the torus and inspection of a vertex's
//! filled links, the primitives of the cluster traversal.

use vstd::prelude::*;
use crate::datamodel::BoundPoint;
use crate::datamodel::Direction;
use crate::datamodel::Link;
use crate::datamodel::Point;
use crate::datamodel::Vertex;
use crate::datamodel::dir_delta;
use crate::datamodel::lemma_wrap_coord_in_range;
use crate::datamodel::wrap_coord;

verus! {

/// The location reached by one unit step in direction `d`, wrapping at the
/// lattice boundary.
pub open spec fn spec_step(location: BoundPoint, d: Direction) -> BoundPoint {
    location.spec_add(dir_delta(d))
}

/// Step one unit in `direction`, wrapping via the bound point's modulus
/// arithmetic.
pub fn increment_location(location: BoundPoint, direction: &Direction) -> (r: BoundPoint)
    requires
        location.wf(),
    ensures
        r == spec_step(location, *direction),
        r.wf(),
{
    let increment: Point = match *direction {
        Direction::N => Point { x: 0, y: 1 },
        Direction::E => Point { x: 1, y: 0 },
        Direction::S => Point { x: 0, y: -1 },
        Direction::W => Point { x: -1, y: 0 },
    };
    location.add_wrapped(increment)
}

/// Reverse the input direction and step the bound point one unit that way.
pub fn decrement_location(location: BoundPoint, direction: &Direction) -> (r: BoundPoint)
    requires
        location.wf(),
    ensures
        r == spec_step(location, direction.spec_flip()),
        r.wf(),
{
    let flipped_direction: Direction = direction.flip();
    increment_location(location, &flipped_direction)
}

/// Wrapping one coordinate up by a unit and then down by a unit (or the
/// other way round) lands back on the original coordinate.
proof fn lemma_wrap_unit_cancel(x: int, m: int)
    requires
        m > 0,
        0 <= x < m,
    ensures
        wrap_coord(wrap_coord(x + 1, m) - 1, m) == x,
        wrap_coord(wrap_coord(x - 1, m) + 1, m) == x,
        wrap_coord(x, m) == x,
{
    vstd::arithmetic::div_mod::lemma_mod_self_0(m);
    vstd::arithmetic::div_mod::lemma_mod_add_multiples_vanish(x - 1, m);
    vstd::arithmetic::div_mod::lemma_small_mod(x as nat, m as nat);
    if x + 1 < m {
        vstd::arithmetic::div_mod::lemma_small_mod((x + 1) as nat, m as nat);
    }
    if 0 <= x - 1 {
        vstd::arithmetic::div_mod::lemma_small_mod((x - 1) as nat, m as nat);
    } else {
        // x == 0: stepping down wraps to m - 1, stepping back up wraps to 0.
        vstd::arithmetic::div_mod::lemma_small_mod((m - 1) as nat, m as nat);
    }
    if x + 1 == m {
        // stepping up wraps to 0; stepping back down wraps to m - 1 == x.
        vstd::arithmetic::div_mod::lemma_mod_add_multiples_vanish(-1, m);
        vstd::arithmetic::div_mod::lemma_small_mod((m - 1) as nat, m as nat);
    }
}

/// Stepping one unit in any direction and then one unit in the flipped
/// direction returns to the starting point, wrap-around included.
pub proof fn lemma_increment_then_decrement(p: BoundPoint, d: Direction)
    requires
        p.wf(),
    ensures
        spec_step(spec_step(p, d), d.spec_flip()) == p,
{
    lemma_wrap_unit_cancel(p.location.x as int, p.size.x as int);
    lemma_wrap_unit_cancel(p.location.y as int, p.size.y as int);
    lemma_wrap_coord_in_range(p.location.x + dir_delta(d).x, p.size.x as int);
    lemma_wrap_coord_in_range(p.location.y + dir_delta(d).y, p.size.y as int);
}

/// A clockwise plaquette walk N, E, S, W returns to its starting point.
pub proof fn lemma_plaquette_walk_closes(p: BoundPoint)
    requires
        p.wf(),
    ensures
        spec_step(
            spec_step(spec_step(spec_step(p, Direction::N), Direction::E), Direction::S),
            Direction::W,
        ) == p,
{
    lemma_wrap_unit_cancel(p.location.x as int, p.size.x as int);
    lemma_wrap_unit_cancel(p.location.y as int, p.size.y as int);
    lemma_wrap_coord_in_range(p.location.y + 1, p.size.y as int);
    lemma_wrap_coord_in_range(p.location.x + 1, p.size.x as int);
    // The coordinate a step leaves alone is still wrapped once more; wrapping
    // an already-wrapped value changes nothing.
    vstd::arithmetic::div_mod::lemma_mod_twice(p.location.y + 1, p.size.y as int);
    vstd::arithmetic::div_mod::lemma_mod_twice(p.location.x + 1, p.size.x as int);
}

/// The filled directions of a vertex, in the fixed order N, E, S, W.
pub open spec fn filled_directions_of(v: Vertex) -> Seq<Direction> {
    (if v.n.is_filled() {
        seq![Direction::N]
    } else {
        Seq::empty()
    }) + (if v.e.is_filled() {
        seq![Direction::E]
    } else {
        Seq::empty()
    }) + (if v.s.is_filled() {
        seq![Direction::S]
    } else {
        Seq::empty()
    }) + (if v.w.is_filled() {
        seq![Direction::W]
    } else {
        Seq::empty()
    })
}

/// Append `direction` to `keep_vec` exactly when `link` carries flux.
pub fn add_to_direction_vec_if_filled(
    keep_vec: &mut Vec<Direction>,
    direction: &Direction,
    link: &Link,
)
    ensures
        link.is_filled() ==> final(keep_vec)@ == old(keep_vec)@.push(*direction),
        !link.is_filled() ==> final(keep_vec)@ == old(keep_vec)@,
{
    match *link {
        Link::In => keep_vec.push(*direction),
        Link::Out => keep_vec.push(*direction),
        Link::Blank => (),
    }
}

/// The directions of the non-blank links of a vertex, in the order N, E, S,
/// W; `None` when the vertex has no non-blank link.
pub fn directions_of_filled_links(vertex: &Vertex) -> (r: Option<Vec<Direction>>)
    ensures
        match r {
            Some(v) => v@ == filled_directions_of(*vertex) && v@.len() > 0,
            None => filled_directions_of(*vertex).len() == 0,
        },
{
    let mut non_empty_links: Vec<Direction> = Vec::new();
    add_to_direction_vec_if_filled(&mut non_empty_links, &Direction::N, &vertex.n);
    add_to_direction_vec_if_filled(&mut non_empty_links, &Direction::E, &vertex.e);
    add_to_direction_vec_if_filled(&mut non_empty_links, &Direction::S, &vertex.s);
    add_to_direction_vec_if_filled(&mut non_empty_links, &Direction::W, &vertex.w);
    proof {
        assert(non_empty_links@ =~= filled_directions_of(*vertex));
    }
    if non_empty_links.len() > 0 {
        Some(non_empty_links)
    } else {
        None
    }
}

} // verus!
