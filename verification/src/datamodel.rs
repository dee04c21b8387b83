//! Core value types of the lattice model: links, compass directions, points,
//! and points bound to a periodic lattice size.

pub mod cluster;
pub mod lattice;

use vstd::prelude::*;

verus! {

/// Largest lattice dimension the library accepts.  It keeps every piece of
/// coordinate and index arithmetic comfortably inside `i64`/`usize` range.
pub const MAX_LATTICE_DIM: i64 = 0x10000;

/// A directed unit of flux on an edge, as seen from one of its two endpoint
/// vertices.  The same physical edge viewed from the other endpoint reports
/// the flipped value.
#[derive(Debug, Clone, Copy, Eq, PartialEq, Structural)]
pub enum Link {
    In,
    Out,
    Blank,
}

impl Link {
    /// The same edge viewed from the opposite endpoint.
    pub open spec fn spec_flip(self) -> Link {
        match self {
            Link::In => Link::Out,
            Link::Out => Link::In,
            Link::Blank => Link::Blank,
        }
    }

    /// One application of the raising operator: Blank -> Out -> In -> Blank.
    pub open spec fn spec_raise(self) -> Link {
        match self {
            Link::Blank => Link::Out,
            Link::Out => Link::In,
            Link::In => Link::Blank,
        }
    }

    /// One application of the lowering operator: Blank -> In -> Out -> Blank.
    pub open spec fn spec_lower(self) -> Link {
        match self {
            Link::Blank => Link::In,
            Link::In => Link::Out,
            Link::Out => Link::Blank,
        }
    }

    /// Whether the link carries flux.
    pub open spec fn is_filled(self) -> bool {
        self != Link::Blank
    }

    pub fn flip(&self) -> (r: Link)
        ensures
            r == self.spec_flip(),
    {
        match *self {
            Link::In => Link::Out,
            Link::Out => Link::In,
            Link::Blank => Link::Blank,
        }
    }

    pub fn soft_flip(link: &Link) -> (r: Link)
        ensures
            r == link.spec_flip(),
    {
        match link {
            Link::In => Link::Out,
            Link::Out => Link::In,
            Link::Blank => Link::Blank,
        }
    }

    /// Raise the link one step along the Blank -> Out -> In -> Blank cycle.
    pub fn raise(&self) -> (r: Link)
        ensures
            r == self.spec_raise(),
    {
        match *self {
            Link::Blank => Link::Out,
            Link::Out => Link::In,
            Link::In => Link::Blank,
        }
    }

    /// Lower the link one step along the Blank -> In -> Out -> Blank cycle.
    pub fn lower(&self) -> (r: Link)
        ensures
            r == self.spec_lower(),
    {
        match *self {
            Link::Blank => Link::In,
            Link::In => Link::Out,
            Link::Out => Link::Blank,
        }
    }
}

/// Raising a link three times returns it to its original value.
pub proof fn lemma_raise_three_times_is_identity(l: Link)
    ensures
        l.spec_raise().spec_raise().spec_raise() == l,
{
}

/// Lowering is the exact inverse of raising, in both orders.
pub proof fn lemma_lower_inverts_raise(l: Link)
    ensures
        l.spec_raise().spec_lower() == l,
        l.spec_lower().spec_raise() == l,
{
}

/// Viewing an edge from the other endpoint commutes raising into lowering:
/// lowering the stored value and flipping it is the same as raising the
/// flipped view.
pub proof fn lemma_flip_lower_is_raise_of_flip(l: Link)
    ensures
        l.spec_lower().spec_flip() == l.spec_flip().spec_raise(),
{
}

/// Relies on `rand::random_range` with the thread-local generator: the
/// draw always lies inside the given range, which `bound >= 1` keeps
/// non-empty.
#[verifier::external_body]
pub(crate) fn random_index_below(bound: i64) -> (r: i64)
    requires
        bound >= 1,
    ensures
        0 <= r < bound,
{
    rand::random_range(0..bound)
}

/// A compass direction on the square lattice.
#[derive(Debug, Clone, Copy, Eq, PartialEq, Structural)]
pub enum Direction {
    N,
    E,
    S,
    W,
}

impl Direction {
    /// The opposite compass direction.
    pub open spec fn spec_flip(self) -> Direction {
        match self {
            Direction::N => Direction::S,
            Direction::E => Direction::W,
            Direction::S => Direction::N,
            Direction::W => Direction::E,
        }
    }

    pub fn flip(&self) -> (r: Direction)
        ensures
            r == self.spec_flip(),
    {
        match *self {
            Direction::N => Direction::S,
            Direction::E => Direction::W,
            Direction::S => Direction::N,
            Direction::W => Direction::E,
        }
    }

    /// A uniformly random compass direction.
    pub fn get_random_direction() -> Direction {
        let direction_int: i64 = random_index_below(4);
        if direction_int == 0 {
            Direction::N
        } else if direction_int == 1 {
            Direction::E
        } else if direction_int == 2 {
            Direction::S
        } else {
            Direction::W
        }
    }

    /// All four directions in the fixed order N, E, S, W.
    pub fn iterator() -> (r: Vec<Direction>)
        ensures
            r@ == seq![Direction::N, Direction::E, Direction::S, Direction::W],
    {
        let mut v: Vec<Direction> = Vec::new();
        v.push(Direction::N);
        v.push(Direction::E);
        v.push(Direction::S);
        v.push(Direction::W);
        proof {
            assert(v@ =~= seq![Direction::N, Direction::E, Direction::S, Direction::W]);
        }
        v
    }
}

/// A plain integer pair.  Coordinates may transiently be negative during
/// arithmetic, before they are wrapped by a `BoundPoint`.
#[derive(Debug, Clone, Copy, Hash, Eq, PartialEq, Structural)]
pub struct Point {
    pub x: i64,
    pub y: i64,
}

impl Point {
    pub fn new(x: i64, y: i64) -> (r: Point)
        ensures
            r == (Point { x, y }),
    {
        Point { x, y }
    }
}

/// The unit step a direction takes on the lattice.
pub open spec fn dir_delta(d: Direction) -> Point {
    match d {
        Direction::N => Point { x: 0, y: 1 },
        Direction::E => Point { x: 1, y: 0 },
        Direction::S => Point { x: 0, y: -1i64 },
        Direction::W => Point { x: -1i64, y: 0 },
    }
}

/// A lattice size the model accepts: both dimensions even, at least 2, and
/// small enough for the index arithmetic to stay in range.
pub open spec fn size_ok(size: Point) -> bool {
    &&& 2 <= size.x <= MAX_LATTICE_DIM
    &&& 2 <= size.y <= MAX_LATTICE_DIM
    &&& size.x % 2 == 0
    &&& size.y % 2 == 0
}

/// Whether a proposed lattice size is acceptable, checked before any
/// simulation work begins: a bad size is a configuration error, not a
/// fault.
pub fn size_is_ok(size: &Point) -> (r: bool)
    ensures
        r == size_ok(*size),
{
    2 <= size.x && size.x <= MAX_LATTICE_DIM && 2 <= size.y && size.y <= MAX_LATTICE_DIM
        && size.x % 2 == 0 && size.y % 2 == 0
}

/// The true (Euclidean) modulus: the result always lies in `[0, m)` for
/// `m > 0`, also for negative `v`.
pub open spec fn wrap_coord(v: int, m: int) -> int {
    v % m
}

/// A `Point` paired with the lattice size; all addition wraps modulo the
/// size, so a well-formed location always lies inside the lattice.
#[derive(Debug, Clone, Copy, Hash, Eq, PartialEq, Structural)]
pub struct BoundPoint {
    pub size: Point,
    pub location: Point,
}

impl BoundPoint {
    pub open spec fn wf(self) -> bool {
        &&& size_ok(self.size)
        &&& 0 <= self.location.x < self.size.x
        &&& 0 <= self.location.y < self.size.y
    }

    /// The wrapped sum of this location and an arbitrary offset.
    pub open spec fn spec_add(self, input: Point) -> BoundPoint {
        BoundPoint {
            size: self.size,
            location: Point {
                x: wrap_coord(self.location.x + input.x, self.size.x as int) as i64,
                y: wrap_coord(self.location.y + input.y, self.size.y as int) as i64,
            },
        }
    }

    /// Add an offset to the location, wrapping by the lattice size with the
    /// true modulus (negative intermediate sums wrap to the high end).
    pub fn add_wrapped(&self, input: Point) -> (r: BoundPoint)
        requires
            size_ok(self.size),
            i64::MIN <= self.location.x + input.x <= i64::MAX,
            i64::MIN <= self.location.y + input.y <= i64::MAX,
        ensures
            r == self.spec_add(input),
            r.wf(),
    {
        let sum_x: i64 = self.location.x + input.x;
        let sum_y: i64 = self.location.y + input.y;
        proof {
            lemma_wrap_coord_in_range(sum_x as int, self.size.x as int);
            lemma_wrap_coord_in_range(sum_y as int, self.size.y as int);
        }
        let wrapped_x: i64 = match sum_x.checked_rem_euclid(self.size.x) {
            Some(v) => v,
            None => 0,
        };
        let wrapped_y: i64 = match sum_y.checked_rem_euclid(self.size.y) {
            Some(v) => v,
            None => 0,
        };
        BoundPoint {
            size: Point { x: self.size.x, y: self.size.y },
            location: Point { x: wrapped_x, y: wrapped_y },
        }
    }

    /// Whether this bound point sits at the given plain location.  Equality
    /// of bound points compares only the wrapped location, not the size.
    pub fn location_eq(&self, rhs: &Point) -> (r: bool)
        ensures
            r == (self.location == *rhs),
    {
        self.location.x == rhs.x && self.location.y == rhs.y
    }
}

/// The Euclidean modulus lies in `[0, m)` whenever `m > 0`.
pub proof fn lemma_wrap_coord_in_range(v: int, m: int)
    requires
        m > 0,
    ensures
        0 <= wrap_coord(v, m) < m,
{
    vstd::arithmetic::div_mod::lemma_mod_bound(v, m);
}

/// Per-direction tallies for one lattice site, used by estimators that
/// accumulate link statistics over many measurements.
#[derive(Debug, Clone, Copy)]
pub struct VertexLinkCount {
    pub n: u64,
    pub e: u64,
    pub s: u64,
    pub w: u64,
    pub xy: Point,
}

impl VertexLinkCount {
    /// Zeroed tallies for the real vertex stored at `vec_position` in the
    /// lattice's vertex vector.
    pub fn new(vec_position: i64, size: &Point) -> (r: VertexLinkCount)
        requires
            size_ok(*size),
            0 <= vec_position < size.x * size.y / 2,
        ensures
            r.n == 0,
            r.e == 0,
            r.s == 0,
            r.w == 0,
            r.xy == crate::datamodel::lattice::spec_position_point(vec_position as int, *size),
    {
        VertexLinkCount {
            n: 0,
            e: 0,
            s: 0,
            w: 0,
            xy: Point {
                x: crate::datamodel::lattice::x_from_vertex_vec_position(vec_position, size),
                y: crate::datamodel::lattice::y_from_vertex_vec_position(vec_position, size),
            },
        }
    }

    /// Reset the four tallies, keeping the recorded position.
    pub fn clear(&mut self)
        ensures
            final(self).n == 0,
            final(self).e == 0,
            final(self).s == 0,
            final(self).w == 0,
            final(self).xy == old(self).xy,
    {
        self.n = 0;
        self.e = 0;
        self.s = 0;
        self.w = 0;
    }
}

/// One lattice site's four outward links, together with its position.
#[derive(Debug, Clone, Copy)]
pub struct Vertex {
    pub n: Link,
    pub e: Link,
    pub s: Link,
    pub w: Link,
    pub xy: Point,
}

impl Vertex {
    /// The outward link in the given direction.
    pub open spec fn spec_link(self, d: Direction) -> Link {
        match d {
            Direction::N => self.n,
            Direction::E => self.e,
            Direction::S => self.s,
            Direction::W => self.w,
        }
    }
}

} // verus!
