//! The lattice store: one checkerboard sublattice of vertices represents
//! every edge of the torus exactly once.

use vstd::prelude::*;
use crate::datamodel::BoundPoint;
use crate::datamodel::Direction;
use crate::datamodel::Link;
use crate::datamodel::Point;
use crate::datamodel::Vertex;
use crate::datamodel::cluster::spec_step;
use crate::datamodel::cluster::increment_location;
use crate::datamodel::lemma_wrap_coord_in_range;
use crate::datamodel::size_ok;
use crate::datamodel::wrap_coord;

verus! {

/// Number of filled (non-blank) links stored at one vertex.
pub open spec fn vertex_filled_count(v: Vertex) -> int {
    (if v.n.is_filled() {
        1int
    } else {
        0int
    }) + (if v.e.is_filled() {
        1int
    } else {
        0int
    }) + (if v.s.is_filled() {
        1int
    } else {
        0int
    }) + (if v.w.is_filled() {
        1int
    } else {
        0int
    })
}

/// Total number of filled links stored in a vertex sequence.
pub open spec fn count_filled_links(s: Seq<Vertex>) -> int
    decreases s.len(),
{
    if s.len() == 0 {
        0
    } else {
        count_filled_links(s.drop_last()) + vertex_filled_count(s.last())
    }
}

/// Appending a vertex adds its own filled-link count.
pub proof fn lemma_count_filled_push(s: Seq<Vertex>, v: Vertex)
    ensures
        count_filled_links(s.push(v)) == count_filled_links(s) + vertex_filled_count(v),
{
    assert(s.push(v).drop_last() =~= s);
    assert(s.push(v).last() == v);
}

/// Replacing one vertex shifts the total count by the difference of the two
/// vertices' own counts.
pub proof fn lemma_count_filled_update(s: Seq<Vertex>, i: int, v: Vertex)
    requires
        0 <= i < s.len(),
    ensures
        count_filled_links(s.update(i, v)) == count_filled_links(s) - vertex_filled_count(s[i])
            + vertex_filled_count(v),
    decreases s.len(),
{
    if i == s.len() - 1 {
        assert(s.update(i, v).drop_last() =~= s.drop_last());
        assert(s.update(i, v).last() == v);
    } else {
        lemma_count_filled_update(s.drop_last(), i, v);
        assert(s.update(i, v).drop_last() =~= s.drop_last().update(i, v));
        assert(s.update(i, v).last() == s.last());
    }
}

/// The total count is bounded by four links per vertex.
pub proof fn lemma_count_filled_bounds(s: Seq<Vertex>)
    ensures
        0 <= count_filled_links(s) <= 4 * s.len(),
    decreases s.len(),
{
    if s.len() > 0 {
        lemma_count_filled_bounds(s.drop_last());
    }
}

/// The row of the vertex stored at `position` in the vertex vector.
pub open spec fn spec_y_from_position(position: int, size: Point) -> int {
    position * 2 / size.x as int
}

/// The column of the vertex stored at `position` in the vertex vector.
pub open spec fn spec_x_from_position(position: int, size: Point) -> int {
    if spec_y_from_position(position, size) % 2 == 0 {
        (position * 2) % size.x as int
    } else {
        (position * 2 + 1) % size.x as int
    }
}

/// The stored position of the vertex at `position` in the vertex vector.
pub open spec fn spec_position_point(position: int, size: Point) -> Point {
    Point {
        x: spec_x_from_position(position, size) as i64,
        y: spec_y_from_position(position, size) as i64,
    }
}

/// A site is real iff its coordinate sum is even; only real sites are
/// stored.
pub open spec fn spec_point_real(p: Point) -> bool {
    (p.x + p.y) % 2 == 0
}

/// Index of a real site's vertex in the vertex vector.
pub open spec fn spec_vertex_index(size: Point, p: Point) -> int {
    p.y * (size.x as int / 2) + p.x as int / 2
}

/// `v` with its outward link in direction `d` replaced by `l`.
pub open spec fn with_link(v: Vertex, d: Direction, l: Link) -> Vertex {
    match d {
        Direction::N => Vertex { n: l, e: v.e, s: v.s, w: v.w, xy: v.xy },
        Direction::E => Vertex { n: v.n, e: l, s: v.s, w: v.w, xy: v.xy },
        Direction::S => Vertex { n: v.n, e: v.e, s: l, w: v.w, xy: v.xy },
        Direction::W => Vertex { n: v.n, e: v.e, s: v.s, w: l, xy: v.xy },
    }
}

/// How a link transition changes the filled-link count: +1 for filling a
/// blank link, -1 for blanking a filled one, 0 for an orientation switch.
pub open spec fn link_count_delta(before: Link, after: Link) -> int {
    (if after.is_filled() {
        1int
    } else {
        0int
    }) - (if before.is_filled() {
        1int
    } else {
        0int
    })
}

/// The stored outward link of the real site `p` in a vertex sequence.
pub open spec fn stored_link_of(size: Point, vertices: Seq<Vertex>, p: Point, d: Direction) -> Link {
    vertices[spec_vertex_index(size, p)].spec_link(d)
}

/// The outward link of any site, real or fake, in a vertex sequence; a
/// fake site's link is the real neighbor's opposite-direction link,
/// flipped.
pub open spec fn viewed_link_of(
    size: Point,
    vertices: Seq<Vertex>,
    loc: BoundPoint,
    d: Direction,
) -> Link {
    if spec_point_real(loc.location) {
        stored_link_of(size, vertices, loc.location, d)
    } else {
        stored_link_of(size, vertices, spec_step(loc, d).location, d.spec_flip()).spec_flip()
    }
}

/// Stores the representation of the system.
///
/// All links can be defined by the vertices of one sublattice, so
/// `vertices` has length `size.x * size.y / 2`.  `number_filled_links` is
/// the running count of non-blank stored links and always equals the count
/// derivable from a full scan.
#[derive(Debug, Clone)]
pub struct Lattice {
    pub vertices: Vec<Vertex>,
    pub size: Point,
    pub number_filled_links: i64,
}

impl Lattice {
    /// Well-formedness: valid even size, one stored vertex per real site
    /// with its recorded position, and an accurate running link count.
    pub open spec fn wf(self) -> bool {
        &&& size_ok(self.size)
        &&& self.vertices@.len() == self.size.x * self.size.y / 2
        &&& forall|i: int|
            0 <= i < self.vertices@.len() ==> (#[trigger] self.vertices@[i]).xy
                == spec_position_point(i, self.size)
        &&& self.number_filled_links == count_filled_links(self.vertices@)
    }

    /// Two lattices hold the same configuration.
    pub open spec fn equiv(self, other: Lattice) -> bool {
        &&& self.size == other.size
        &&& self.vertices@ == other.vertices@
        &&& self.number_filled_links == other.number_filled_links
    }

    /// The stored outward link of the real site `p` in direction `d`.
    pub open spec fn spec_link_at(self, p: Point, d: Direction) -> Link {
        stored_link_of(self.size, self.vertices@, p, d)
    }

    /// The outward link of any site, real or fake, in direction `d`.  A
    /// fake site's link is derived by stepping one unit in `d` (landing on
    /// a real site) and flipping that site's opposite-direction link.
    pub open spec fn spec_viewed_link(self, loc: BoundPoint, d: Direction) -> Link {
        viewed_link_of(self.size, self.vertices@, loc, d)
    }

    /// An exact copy of the lattice, used to snapshot a configuration
    /// before a Monte Carlo move that may be rejected.
    pub fn duplicate(&self) -> (r: Lattice)
        ensures
            r.equiv(*self),
    {
        let mut vertices: Vec<Vertex> = Vec::new();
        let mut i: usize = 0;
        while i < self.vertices.len()
            invariant
                0 <= i <= self.vertices.len(),
                vertices@ =~= self.vertices@.take(i as int),
            decreases self.vertices.len() - i,
        {
            vertices.push(self.vertices[i]);
            proof {
                assert(vertices@ =~= self.vertices@.take(i + 1));
            }
            i = i + 1;
        }
        proof {
            assert(vertices@ =~= self.vertices@);
        }
        Lattice {
            vertices,
            size: Point { x: self.size.x, y: self.size.y },
            number_filled_links: self.number_filled_links,
        }
    }

    /// Restore the configuration saved in `snapshot`.
    pub fn restore(&mut self, snapshot: &Lattice)
        ensures
            final(self).equiv(*snapshot),
    {
        let copy: Lattice = snapshot.duplicate();
        self.vertices = copy.vertices;
        self.size = copy.size;
        self.number_filled_links = copy.number_filled_links;
    }

    /// Only one sublattice is stored, so the other sublattice's vertices
    /// are implied.  The stored ones are "real", the implied ones "fake".
    pub fn point_real(&self, p: &Point) -> (r: bool)
        requires
            p.x >= 0,
            p.y >= 0,
            p.x + p.y <= i64::MAX,
        ensures
            r == spec_point_real(*p),
    {
        ((p.x + p.y) % 2) == 0
    }

    /// The location of a real site's vertex in the vertex vector.  Integer
    /// division rounding down pairs each real site with one slot.
    pub fn get_vector_location_of_vertex(&self, loc: &Point) -> (r: i64)
        requires
            size_ok(self.size),
            0 <= loc.x < self.size.x,
            0 <= loc.y < self.size.y,
        ensures
            r == spec_vertex_index(self.size, *loc),
            0 <= r < self.size.x * self.size.y / 2,
            self.size.x * self.size.y / 2 <= 0x8000_0000,
    {
        proof {
            lemma_vertex_index_in_range(self.size, *loc);
        }
        loc.y * (self.size.x / 2) + loc.x / 2
    }

    /// The stored outward link of the real site `loc` in `direction`.
    /// Calling this for a fake site is a programmer error, excluded by
    /// precondition.
    pub fn get_link_from_point(&self, loc: &Point, direction: &Direction) -> (r: Link)
        requires
            self.wf(),
            0 <= loc.x < self.size.x,
            0 <= loc.y < self.size.y,
            spec_point_real(*loc),
        ensures
            r == self.spec_link_at(*loc, *direction),
    {
        let vloc: i64 = self.get_vector_location_of_vertex(loc);
        let vertex: Vertex = self.vertices[vloc as usize];
        match *direction {
            Direction::N => vertex.n,
            Direction::E => vertex.e,
            Direction::S => vertex.s,
            Direction::W => vertex.w,
        }
    }

    /// Read-only variant of `get_link_from_point`, with the same real-site
    /// restriction.
    pub fn safe_get_link_from_point(&self, loc: &Point, direction: &Direction) -> (r: Link)
        requires
            self.wf(),
            0 <= loc.x < self.size.x,
            0 <= loc.y < self.size.y,
            spec_point_real(*loc),
        ensures
            r == self.spec_link_at(*loc, *direction),
    {
        self.get_link_from_point(loc, direction)
    }

    /// Replace the stored outward link of the real site `loc`, keeping the
    /// running filled-link count accurate.
    fn set_link(&mut self, loc: &Point, direction: &Direction, new_link: Link)
        requires
            old(self).wf(),
            0 <= loc.x < old(self).size.x,
            0 <= loc.y < old(self).size.y,
            spec_point_real(*loc),
        ensures
            final(self).wf(),
            final(self).size == old(self).size,
            final(self).vertices@ == old(self).vertices@.update(
                spec_vertex_index(old(self).size, *loc),
                with_link(
                    old(self).vertices@[spec_vertex_index(old(self).size, *loc)],
                    *direction,
                    new_link,
                ),
            ),
            final(self).number_filled_links == old(self).number_filled_links + link_count_delta(
                old(self).spec_link_at(*loc, *direction),
                new_link,
            ),
    {
        let vloc: i64 = self.get_vector_location_of_vertex(loc);
        let idx: usize = vloc as usize;
        let old_vertex: Vertex = self.vertices[idx];
        let old_link: Link = match *direction {
            Direction::N => old_vertex.n,
            Direction::E => old_vertex.e,
            Direction::S => old_vertex.s,
            Direction::W => old_vertex.w,
        };
        let new_vertex: Vertex = match *direction {
            Direction::N => Vertex {
                n: new_link,
                e: old_vertex.e,
                s: old_vertex.s,
                w: old_vertex.w,
                xy: old_vertex.xy,
            },
            Direction::E => Vertex {
                n: old_vertex.n,
                e: new_link,
                s: old_vertex.s,
                w: old_vertex.w,
                xy: old_vertex.xy,
            },
            Direction::S => Vertex {
                n: old_vertex.n,
                e: old_vertex.e,
                s: new_link,
                w: old_vertex.w,
                xy: old_vertex.xy,
            },
            Direction::W => Vertex {
                n: old_vertex.n,
                e: old_vertex.e,
                s: old_vertex.s,
                w: new_link,
                xy: old_vertex.xy,
            },
        };
        proof {
            lemma_vertex_index_in_range(self.size, *loc);
            lemma_count_filled_update(self.vertices@, vloc as int, with_link(old_vertex, *direction, new_link));
            lemma_count_filled_bounds(self.vertices@);
        }
        self.vertices.set(idx, new_vertex);
        let filled_before: bool = match old_link {
            Link::Blank => false,
            _ => true,
        };
        let filled_after: bool = match new_link {
            Link::Blank => false,
            _ => true,
        };
        if filled_before && !filled_after {
            self.number_filled_links = self.number_filled_links - 1;
        } else if !filled_before && filled_after {
            self.number_filled_links = self.number_filled_links + 1;
        }
    }

    /// Raise the link traveling outward from the real site `loc` and return
    /// the new value.
    pub fn out_raise_link(&mut self, loc: &Point, direction: &Direction) -> (r: Link)
        requires
            old(self).wf(),
            0 <= loc.x < old(self).size.x,
            0 <= loc.y < old(self).size.y,
            spec_point_real(*loc),
        ensures
            final(self).wf(),
            final(self).size == old(self).size,
            r == old(self).spec_link_at(*loc, *direction).spec_raise(),
            final(self).vertices@ == old(self).vertices@.update(
                spec_vertex_index(old(self).size, *loc),
                with_link(old(self).vertices@[spec_vertex_index(old(self).size, *loc)], *direction, r),
            ),
            final(self).number_filled_links == old(self).number_filled_links + link_count_delta(
                old(self).spec_link_at(*loc, *direction),
                r,
            ),
    {
        let link: Link = self.get_link_from_point(loc, direction);
        let raised: Link = link.raise();
        self.set_link(loc, direction, raised);
        raised
    }

    /// Lower the link traveling outward from the real site `loc` and return
    /// the new value.
    pub fn out_lower_link(&mut self, loc: &Point, direction: &Direction) -> (r: Link)
        requires
            old(self).wf(),
            0 <= loc.x < old(self).size.x,
            0 <= loc.y < old(self).size.y,
            spec_point_real(*loc),
        ensures
            final(self).wf(),
            final(self).size == old(self).size,
            r == old(self).spec_link_at(*loc, *direction).spec_lower(),
            final(self).vertices@ == old(self).vertices@.update(
                spec_vertex_index(old(self).size, *loc),
                with_link(old(self).vertices@[spec_vertex_index(old(self).size, *loc)], *direction, r),
            ),
            final(self).number_filled_links == old(self).number_filled_links + link_count_delta(
                old(self).spec_link_at(*loc, *direction),
                r,
            ),
    {
        let link: Link = self.get_link_from_point(loc, direction);
        let lowered: Link = link.lower();
        self.set_link(loc, direction, lowered);
        lowered
    }

    /// Materialize the vertex at any in-range point, of either sublattice.
    /// For a fake point each outward link is reconstructed from the real
    /// neighbor one step away: the opposite-direction link there, flipped.
    pub fn get_vertex_from_point(&self, loc: &BoundPoint) -> (r: Vertex)
        requires
            self.wf(),
            loc.wf(),
            loc.size == self.size,
        ensures
            r.n == self.spec_viewed_link(*loc, Direction::N),
            r.e == self.spec_viewed_link(*loc, Direction::E),
            r.s == self.spec_viewed_link(*loc, Direction::S),
            r.w == self.spec_viewed_link(*loc, Direction::W),
            r.xy == loc.location,
    {
        let point_from_bound: Point = Point { x: loc.location.x, y: loc.location.y };
        let is_real: bool = self.point_real(&point_from_bound);
        if is_real {
            Vertex {
                n: self.get_link_from_point(&point_from_bound, &Direction::N),
                e: self.get_link_from_point(&point_from_bound, &Direction::E),
                s: self.get_link_from_point(&point_from_bound, &Direction::S),
                w: self.get_link_from_point(&point_from_bound, &Direction::W),
                xy: Point { x: loc.location.x, y: loc.location.y },
            }
        } else {
            proof {
                lemma_step_flips_parity(*loc, Direction::N);
                lemma_step_flips_parity(*loc, Direction::E);
                lemma_step_flips_parity(*loc, Direction::S);
                lemma_step_flips_parity(*loc, Direction::W);
            }
            // Step east; the east link seen from here is the west link of
            // the real neighbor, flipped.
            let e_new_loc: BoundPoint = increment_location(*loc, &Direction::E);
            let e_new_point: Point = Point { x: e_new_loc.location.x, y: e_new_loc.location.y };
            let east_link: Link = self.get_link_from_point(&e_new_point, &Direction::W).flip();

            let w_new_loc: BoundPoint = increment_location(*loc, &Direction::W);
            let w_new_point: Point = Point { x: w_new_loc.location.x, y: w_new_loc.location.y };
            let west_link: Link = self.get_link_from_point(&w_new_point, &Direction::E).flip();

            let n_new_loc: BoundPoint = increment_location(*loc, &Direction::N);
            let n_new_point: Point = Point { x: n_new_loc.location.x, y: n_new_loc.location.y };
            let north_link: Link = self.get_link_from_point(&n_new_point, &Direction::S).flip();

            let s_new_loc: BoundPoint = increment_location(*loc, &Direction::S);
            let s_new_point: Point = Point { x: s_new_loc.location.x, y: s_new_loc.location.y };
            let south_link: Link = self.get_link_from_point(&s_new_point, &Direction::N).flip();

            Vertex {
                n: north_link,
                e: east_link,
                s: south_link,
                w: west_link,
                xy: Point { x: loc.location.x, y: loc.location.y },
            }
        }
    }

    /// Full scan of the stored links; always equal to
    /// `number_filled_links`, which makes the running count checkable from
    /// outside.
    pub fn count_non_blank_links(&self) -> (count: u64)
        requires
            self.wf(),
        ensures
            count == count_filled_links(self.vertices@),
            count == self.number_filled_links,
    {
        proof {
            lemma_count_filled_bounds(self.vertices@);
            lemma_vertex_index_in_range(self.size, Point { x: 0, y: 0 });
        }
        let mut count: u64 = 0;
        let mut i: usize = 0;
        while i < self.vertices.len()
            invariant
                0 <= i <= self.vertices@.len(),
                self.vertices@.len() <= 0x8000_0000,
                count == count_filled_links(self.vertices@.take(i as int)),
                count <= 4 * i,
            decreases self.vertices@.len() - i,
        {
            let cur_vertex: Vertex = self.vertices[i];
            proof {
                assert(self.vertices@.take(i + 1).drop_last() =~= self.vertices@.take(i as int));
                assert(self.vertices@.take(i + 1).last() == cur_vertex);
                lemma_count_filled_bounds(self.vertices@.take(i as int));
            }
            match cur_vertex.n {
                Link::In => count += 1,
                Link::Out => count += 1,
                Link::Blank => (),
            }
            match cur_vertex.e {
                Link::In => count += 1,
                Link::Out => count += 1,
                Link::Blank => (),
            }
            match cur_vertex.s {
                Link::In => count += 1,
                Link::Out => count += 1,
                Link::Blank => (),
            }
            match cur_vertex.w {
                Link::In => count += 1,
                Link::Out => count += 1,
                Link::Blank => (),
            }
            i = i + 1;
        }
        proof {
            assert(self.vertices@.take(self.vertices@.len() as int) =~= self.vertices@);
        }
        count
    }
}

/// An even width times any height halves exactly.
pub proof fn lemma_even_product_halves(sx: int, sy: int)
    requires
        sx >= 2,
        sx % 2 == 0,
        sy >= 0,
    ensures
        sx * sy == 2 * (sx * sy / 2),
        sx * sy / 2 == (sx / 2) * sy,
{
    let h: int = sx / 2;
    vstd::arithmetic::div_mod::lemma_fundamental_div_mod(sx, 2);
    assert(sx == 2 * h);
    assert(sx * sy == 2 * (h * sy)) by (nonlinear_arith)
        requires
            sx == 2 * h,
    ;
    vstd::arithmetic::div_mod::lemma_div_multiples_vanish(h * sy, 2);
}

/// For any in-range location, the vertex index lies inside the vertex
/// vector.
pub proof fn lemma_vertex_index_in_range(size: Point, p: Point)
    requires
        size_ok(size),
        0 <= p.x < size.x,
        0 <= p.y < size.y,
    ensures
        0 <= spec_vertex_index(size, p) < size.x * size.y / 2,
        0 <= p.y * (size.x as int / 2) <= spec_vertex_index(size, p),
        size.x * size.y / 2 <= 0x8000_0000,
{
    assert(size.x * size.y / 2 <= 0x8000_0000) by (nonlinear_arith)
        requires
            2 <= size.x <= 0x10000,
            2 <= size.y <= 0x10000,
    ;
    let half: int = size.x as int / 2;
    assert(size.x == 2 * half);
    assert(p.x as int / 2 < half) by (nonlinear_arith)
        requires
            0 <= p.x < size.x,
            size.x == 2 * half,
    ;
    assert(0 <= p.x as int / 2) by (nonlinear_arith)
        requires
            0 <= p.x,
    ;
    assert(p.y * half <= (size.y - 1) * half) by (nonlinear_arith)
        requires
            p.y < size.y,
            half >= 0,
    ;
    assert(0 <= p.y * half) by (nonlinear_arith)
        requires
            0 <= p.y,
            half >= 0,
    ;
    assert(size.x * size.y / 2 == size.y * half) by (nonlinear_arith)
        requires
            size.x == 2 * half,
    ;
    assert((size.y - 1) * half + half == size.y * half) by (nonlinear_arith);
}

/// A real in-range site is recovered from its vertex index: the index
/// determines the row and the halved column, and the site's parity fixes
/// the column itself.
pub proof fn lemma_vertex_index_injective(size: Point, p1: Point, p2: Point)
    requires
        size_ok(size),
        0 <= p1.x < size.x,
        0 <= p1.y < size.y,
        0 <= p2.x < size.x,
        0 <= p2.y < size.y,
        spec_point_real(p1),
        spec_point_real(p2),
        spec_vertex_index(size, p1) == spec_vertex_index(size, p2),
    ensures
        p1 == p2,
{
    lemma_real_point_decompose(size, p1);
    lemma_real_point_decompose(size, p2);
    assert(p1.x as int == p2.x as int);
}

/// A real site's coordinates are recoverable from its vertex index.
proof fn lemma_real_point_decompose(size: Point, p: Point)
    requires
        size_ok(size),
        0 <= p.x < size.x,
        0 <= p.y < size.y,
        spec_point_real(p),
    ensures
        spec_vertex_index(size, p) / (size.x as int / 2) == p.y as int,
        spec_vertex_index(size, p) % (size.x as int / 2) == p.x as int / 2,
        p.x as int == 2 * (p.x as int / 2) + p.y as int % 2,
{
    let h: int = size.x as int / 2;
    let x: int = p.x as int;
    let y: int = p.y as int;
    vstd::arithmetic::div_mod::lemma_fundamental_div_mod(size.x as int, 2);
    assert(size.x == 2 * h);
    vstd::arithmetic::div_mod::lemma_fundamental_div_mod(x, 2);
    vstd::arithmetic::div_mod::lemma_mod_bound(x, 2);
    vstd::arithmetic::div_mod::lemma_div_pos_is_pos(x, 2);
    assert(x / 2 < h);
    vstd::arithmetic::div_mod::lemma_fundamental_div_mod_converse(
        spec_vertex_index(size, p),
        h,
        y,
        x / 2,
    );
    // The site is real, so its column has the parity of its row.
    vstd::arithmetic::div_mod::lemma_add_mod_noop(x, y, 2);
    vstd::arithmetic::div_mod::lemma_mod_bound(y, 2);
    vstd::arithmetic::div_mod::lemma_small_mod(0nat, 2nat);
    vstd::arithmetic::div_mod::lemma_small_mod(1nat, 2nat);
    vstd::arithmetic::div_mod::lemma_mod_self_0(2);
    if x % 2 == 0 && y % 2 == 1 {
        assert((x % 2 + y % 2) % 2 == 1);
        assert(false);
    }
    if x % 2 == 1 && y % 2 == 0 {
        assert((x % 2 + y % 2) % 2 == 1);
        assert(false);
    }
    assert(x % 2 == y % 2);
}

/// Wrapping by an even modulus preserves a coordinate's parity.
proof fn lemma_wrap_preserves_parity(v: int, m: int)
    requires
        m > 0,
        m % 2 == 0,
    ensures
        wrap_coord(v, m) % 2 == v % 2,
{
    vstd::arithmetic::div_mod::lemma_fundamental_div_mod(v, m);
    let q: int = v / m;
    let h: int = m / 2;
    assert(m == 2 * h);
    assert(m * q == 2 * (h * q)) by (nonlinear_arith)
        requires
            m == 2 * h,
    ;
    vstd::arithmetic::div_mod::lemma_mod_multiples_vanish(h * q, v % m, 2);
}

/// Stepping one unit in any direction flips which sublattice the location
/// belongs to: from a fake site every step lands on a real one.
pub proof fn lemma_step_flips_parity(loc: BoundPoint, d: Direction)
    requires
        loc.wf(),
    ensures
        spec_point_real(spec_step(loc, d).location) == !spec_point_real(loc.location),
{
    let delta: Point = crate::datamodel::dir_delta(d);
    let sx: int = loc.size.x as int;
    let sy: int = loc.size.y as int;
    let x: int = loc.location.x as int;
    let y: int = loc.location.y as int;
    let wx: int = wrap_coord(x + delta.x, sx);
    let wy: int = wrap_coord(y + delta.y, sy);
    lemma_wrap_coord_in_range(x + delta.x, sx);
    lemma_wrap_coord_in_range(y + delta.y, sy);
    lemma_wrap_preserves_parity(x + delta.x, sx);
    lemma_wrap_preserves_parity(y + delta.y, sy);
    // The wrapped coordinate sum has the parity of the unwrapped sum.
    vstd::arithmetic::div_mod::lemma_add_mod_noop(wx, wy, 2);
    vstd::arithmetic::div_mod::lemma_add_mod_noop(x + delta.x, y + delta.y, 2);
    assert((wx + wy) % 2 == (x + delta.x + y + delta.y) % 2);
    // The step changes the coordinate sum by exactly one unit, which flips
    // its parity.
    let s: int = x + y;
    assert(x + delta.x + y + delta.y == s + 1 || x + delta.x + y + delta.y == s - 1);
    vstd::arithmetic::div_mod::lemma_mod_add_multiples_vanish(s - 1, 2);
    assert((s + 1) % 2 == (s - 1) % 2);
    vstd::arithmetic::div_mod::lemma_add_mod_noop(s, 1, 2);
    vstd::arithmetic::div_mod::lemma_mod_bound(s, 2);
    vstd::arithmetic::div_mod::lemma_small_mod(1nat, 2nat);
    vstd::arithmetic::div_mod::lemma_mod_self_0(2);
    vstd::arithmetic::div_mod::lemma_small_mod(0nat, 2nat);
    if s % 2 == 0 {
        assert((s % 2 + 1) % 2 == 1int);
        assert((s + 1) % 2 == 1);
    } else {
        assert(s % 2 == 1);
        assert((s % 2 + 1) % 2 == 0int);
        assert((s + 1) % 2 == 0);
    }
}

/// A unit step lands inside the lattice again.
pub proof fn lemma_spec_step_wf(loc: BoundPoint, d: Direction)
    requires
        loc.wf(),
    ensures
        spec_step(loc, d).wf(),
        spec_step(loc, d).size == loc.size,
{
    let delta: Point = crate::datamodel::dir_delta(d);
    lemma_wrap_coord_in_range(loc.location.x + delta.x, loc.size.x as int);
    lemma_wrap_coord_in_range(loc.location.y + delta.y, loc.size.y as int);
}

/// Mutual consistency of the two views of one physical edge: the link seen
/// from `loc` in direction `d` is the flip of the link seen from the
/// neighbor one step along `d`, looking back.
pub proof fn lemma_viewed_link_mutual(lat: Lattice, loc: BoundPoint, d: Direction)
    requires
        lat.wf(),
        loc.wf(),
        loc.size == lat.size,
    ensures
        lat.spec_viewed_link(loc, d) == lat.spec_viewed_link(
            spec_step(loc, d),
            d.spec_flip(),
        ).spec_flip(),
{
    let loc2 = spec_step(loc, d);
    lemma_spec_step_wf(loc, d);
    lemma_step_flips_parity(loc, d);
    crate::datamodel::cluster::lemma_increment_then_decrement(loc, d);
    if spec_point_real(loc.location) {
        // The neighbor is fake; its backward link is derived from this very
        // stored link, flipped once.
        assert(spec_step(loc2, d.spec_flip()) == loc);
    } else {
        // This site is fake; its own link is derived from the neighbor's
        // stored backward link.
        assert(spec_point_real(loc2.location));
    }
}

/// Build an all-blank lattice of the given size.
pub fn build_blank_lat(size: Point) -> (r: Lattice)
    requires
        size_ok(size),
    ensures
        r.wf(),
        r.size == size,
        r.number_filled_links == 0,
        forall|i: int|
            0 <= i < r.vertices@.len() ==> {
                &&& (#[trigger] r.vertices@[i]).n == Link::Blank
                &&& r.vertices@[i].e == Link::Blank
                &&& r.vertices@[i].s == Link::Blank
                &&& r.vertices@[i].w == Link::Blank
            },
{
    proof {
        lemma_vertex_index_in_range(size, Point { x: 0, y: 0 });
    }
    let half_n: i64 = (size.x * size.y) / 2;
    let mut vertices: Vec<Vertex> = Vec::new();
    let mut i: i64 = 0;
    while i < half_n
        invariant
            0 <= i <= half_n,
            half_n == size.x * size.y / 2,
            half_n <= 0x8000_0000,
            size_ok(size),
            vertices@.len() == i,
            forall|j: int|
                0 <= j < i ==> (#[trigger] vertices@[j]) == (Vertex {
                    n: Link::Blank,
                    e: Link::Blank,
                    s: Link::Blank,
                    w: Link::Blank,
                    xy: spec_position_point(j, size),
                }),
            count_filled_links(vertices@) == 0,
        decreases half_n - i,
    {
        let cur_vertex: Vertex = Vertex {
            n: Link::Blank,
            e: Link::Blank,
            s: Link::Blank,
            w: Link::Blank,
            xy: Point {
                x: x_from_vertex_vec_position(i, &size),
                y: y_from_vertex_vec_position(i, &size),
            },
        };
        proof {
            lemma_count_filled_push(vertices@, cur_vertex);
        }
        vertices.push(cur_vertex);
        i = i + 1;
    }
    Lattice { vertices, size, number_filled_links: 0 }
}

/// Build the fixed reference "striped" configuration: every stored vertex
/// carries an Out link east and an In link west, so all horizontal links
/// are filled.  The running count equals the scan count, two filled links
/// per stored vertex.
pub fn build_z3_striped_lat(size: Point) -> (r: Lattice)
    requires
        size_ok(size),
    ensures
        r.wf(),
        r.size == size,
        r.number_filled_links == size.x * size.y,
        forall|i: int|
            0 <= i < r.vertices@.len() ==> {
                &&& (#[trigger] r.vertices@[i]).n == Link::Blank
                &&& r.vertices@[i].e == Link::Out
                &&& r.vertices@[i].s == Link::Blank
                &&& r.vertices@[i].w == Link::In
            },
{
    proof {
        lemma_vertex_index_in_range(size, Point { x: 0, y: 0 });
    }
    let half_n: i64 = (size.x * size.y) / 2;
    let mut vertices: Vec<Vertex> = Vec::new();
    let mut i: i64 = 0;
    while i < half_n
        invariant
            0 <= i <= half_n,
            half_n == size.x * size.y / 2,
            half_n <= 0x8000_0000,
            size_ok(size),
            vertices@.len() == i,
            forall|j: int|
                0 <= j < i ==> (#[trigger] vertices@[j]) == (Vertex {
                    n: Link::Blank,
                    e: Link::Out,
                    s: Link::Blank,
                    w: Link::In,
                    xy: spec_position_point(j, size),
                }),
            count_filled_links(vertices@) == 2 * i,
        decreases half_n - i,
    {
        let cur_vertex: Vertex = Vertex {
            n: Link::Blank,
            e: Link::Out,
            s: Link::Blank,
            w: Link::In,
            xy: Point {
                x: x_from_vertex_vec_position(i, &size),
                y: y_from_vertex_vec_position(i, &size),
            },
        };
        proof {
            lemma_count_filled_push(vertices@, cur_vertex);
        }
        vertices.push(cur_vertex);
        i = i + 1;
    }
    proof {
        lemma_even_product_halves(size.x as int, size.y as int);
    }
    Lattice { vertices, size, number_filled_links: size.x * size.y }
}

/// The column of the vertex stored at `position`: even rows start at
/// column 0, odd rows at column 1.
pub fn x_from_vertex_vec_position(position: i64, size: &Point) -> (r: i64)
    requires
        size_ok(*size),
        0 <= position < size.x * size.y / 2,
    ensures
        r == spec_x_from_position(position as int, *size),
        0 <= r < size.x,
{
    proof {
        lemma_vertex_index_in_range(*size, Point { x: 0, y: 0 });
        vstd::arithmetic::div_mod::lemma_mod_bound(position * 2, size.x as int);
        vstd::arithmetic::div_mod::lemma_mod_bound(position * 2 + 1, size.x as int);
    }
    let y: i64 = y_from_vertex_vec_position(position, size);
    if y % 2 == 0 {
        (position * 2) % size.x
    } else {
        (position * 2 + 1) % size.x
    }
}

/// The row of the vertex stored at `position`.
pub fn y_from_vertex_vec_position(position: i64, size: &Point) -> (r: i64)
    requires
        size_ok(*size),
        0 <= position < size.x * size.y / 2,
    ensures
        r == spec_y_from_position(position as int, *size),
        0 <= r < size.y,
{
    proof {
        lemma_vertex_index_in_range(*size, Point { x: 0, y: 0 });
        lemma_even_product_halves(size.x as int, size.y as int);
        assert(position * 2 < size.x * size.y) by (nonlinear_arith)
            requires
                position < size.x * size.y / 2,
                size.x * size.y == 2 * (size.x * size.y / 2),
        ;
        vstd::arithmetic::div_mod::lemma_div_pos_is_pos(position * 2, size.x as int);
        vstd::arithmetic::div_mod::lemma_multiply_divide_lt(position * 2, size.x as int, size.y as int);
    }
    position * 2 / size.x
}

} // verus!
