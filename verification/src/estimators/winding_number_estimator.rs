//! The winding-number engine: the net signed flux threading a
//! non-contractible loop of the torus, once along each axis, with a
//! built-in flux-conservation self-check along a second, parallel path.

use vstd::prelude::*;
use crate::datamodel::BoundPoint;
use crate::datamodel::Direction;
use crate::datamodel::Link;
use crate::datamodel::Point;
use crate::datamodel::cluster::spec_step;
use crate::datamodel::dir_delta;
use crate::datamodel::lattice::Lattice;
use crate::datamodel::lattice::lemma_spec_step_wf;
use crate::datamodel::lattice::lemma_step_flips_parity;
use crate::datamodel::lattice::lemma_vertex_index_in_range;
use crate::datamodel::lattice::lemma_vertex_index_injective;
use crate::datamodel::lattice::lemma_viewed_link_mutual;
use crate::datamodel::lattice::spec_point_real;
use crate::datamodel::lattice::spec_vertex_index;
use crate::datamodel::lattice::with_link;
use crate::datamodel::wrap_coord;
use crate::errors::LatticeError;

verus! {

/// The signed flux a link contributes: +1 Out, -1 In, 0 Blank.
pub open spec fn link_sign(l: Link) -> int {
    match l {
        Link::In => -1,
        Link::Out => 1,
        Link::Blank => 0,
    }
}

/// The contribution of row `i` to the vertical winding sum.  Even rows read
/// the east link of the real site in column 0; odd rows read the west link
/// of the real site in column 1, flipped to view the same axis direction.
/// The check path reads the same physical links one plaquette over: column
/// 2 (west, flipped) on even rows and column 1 (east) on odd rows.
pub open spec fn vertical_winding_term(lat: Lattice, i: int, check: bool) -> int {
    if !check {
        if i % 2 == 0 {
            link_sign(lat.spec_link_at(Point { x: 0, y: i as i64 }, Direction::E))
        } else {
            link_sign(lat.spec_link_at(Point { x: 1, y: i as i64 }, Direction::W).spec_flip())
        }
    } else {
        if i % 2 == 0 {
            link_sign(lat.spec_link_at(Point { x: 2, y: i as i64 }, Direction::W).spec_flip())
        } else {
            link_sign(lat.spec_link_at(Point { x: 1, y: i as i64 }, Direction::E))
        }
    }
}

/// The vertical winding sum over the first `n` rows.
pub open spec fn vertical_winding_sum(lat: Lattice, n: int, check: bool) -> int
    decreases n,
{
    if n <= 0 {
        0
    } else {
        vertical_winding_sum(lat, n - 1, check) + vertical_winding_term(lat, n - 1, check)
    }
}

/// The contribution of column `i` to the horizontal winding sum, built the
/// same way from vertical links of rows 0 and 1, with the check path on
/// rows 2 and 1.
pub open spec fn horizontal_winding_term(lat: Lattice, i: int, check: bool) -> int {
    if !check {
        if i % 2 == 0 {
            link_sign(lat.spec_link_at(Point { x: i as i64, y: 0 }, Direction::N))
        } else {
            link_sign(lat.spec_link_at(Point { x: i as i64, y: 1 }, Direction::S).spec_flip())
        }
    } else {
        if i % 2 == 0 {
            link_sign(lat.spec_link_at(Point { x: i as i64, y: 2 }, Direction::S).spec_flip())
        } else {
            link_sign(lat.spec_link_at(Point { x: i as i64, y: 1 }, Direction::N))
        }
    }
}

/// The horizontal winding sum over the first `n` columns.
pub open spec fn horizontal_winding_sum(lat: Lattice, n: int, check: bool) -> int
    decreases n,
{
    if n <= 0 {
        0
    } else {
        horizontal_winding_sum(lat, n - 1, check) + horizontal_winding_term(lat, n - 1, check)
    }
}

/// The bound point of a site of `lat`.
pub open spec fn site_bound(lat: Lattice, p: Point) -> BoundPoint {
    BoundPoint { size: lat.size, location: p }
}

/// The signed flux leaving site `p` in direction `d`, as that site views
/// the edge.
pub open spec fn dir_sign(lat: Lattice, p: Point, d: Direction) -> int {
    link_sign(lat.spec_viewed_link(site_bound(lat, p), d))
}

/// The net flux leaving a site over its four outward links.
pub open spec fn site_balance(lat: Lattice, p: Point) -> int {
    dir_sign(lat, p, Direction::N) + dir_sign(lat, p, Direction::E) + dir_sign(
        lat,
        p,
        Direction::S,
    ) + dir_sign(lat, p, Direction::W)
}

/// Flux conservation of the three-state link alphabet: every site's net
/// flux is a multiple of three.  Closed-string configurations have this
/// everywhere.
pub open spec fn flux_balanced(lat: Lattice) -> bool {
    forall|p: Point|
        0 <= p.x < lat.size.x && 0 <= p.y < lat.size.y ==> #[trigger] site_balance(lat, p) % 3
            == 0
}

/// Net flux leaving column `x` northward and southward, summed over the
/// first `n` rows.
pub open spec fn col_ns_sum(lat: Lattice, x: int, n: int) -> int
    decreases n,
{
    if n <= 0 {
        0
    } else {
        col_ns_sum(lat, x, n - 1) + dir_sign(
            lat,
            Point { x: x as i64, y: (n - 1) as i64 },
            Direction::N,
        ) + dir_sign(lat, Point { x: x as i64, y: (n - 1) as i64 }, Direction::S)
    }
}

/// Site balances of column `x`, summed over the first `n` rows.
pub open spec fn col_balance_sum(lat: Lattice, x: int, n: int) -> int
    decreases n,
{
    if n <= 0 {
        0
    } else {
        col_balance_sum(lat, x, n - 1) + site_balance(
            lat,
            Point { x: x as i64, y: (n - 1) as i64 },
        )
    }
}

/// Net flux leaving row `y` eastward and westward, summed over the first
/// `n` columns.
pub open spec fn row_ew_sum(lat: Lattice, y: int, n: int) -> int
    decreases n,
{
    if n <= 0 {
        0
    } else {
        row_ew_sum(lat, y, n - 1) + dir_sign(
            lat,
            Point { x: (n - 1) as i64, y: y as i64 },
            Direction::E,
        ) + dir_sign(lat, Point { x: (n - 1) as i64, y: y as i64 }, Direction::W)
    }
}

/// Site balances of row `y`, summed over the first `n` columns.
pub open spec fn row_balance_sum(lat: Lattice, y: int, n: int) -> int
    decreases n,
{
    if n <= 0 {
        0
    } else {
        row_balance_sum(lat, y, n - 1) + site_balance(
            lat,
            Point { x: (n - 1) as i64, y: y as i64 },
        )
    }
}

/// Flipping a link negates its signed flux.
proof fn lemma_sign_flip(l: Link)
    ensures
        link_sign(l.spec_flip()) == -link_sign(l),
{
}

/// The coordinates of a unit step, spelled out with the wrap-around made
/// explicit.
proof fn lemma_step_coords(loc: BoundPoint, d: Direction)
    ensures
        loc.wf() ==> ({
            let delta = dir_delta(d);
            let stepped = spec_step(loc, d);
            &&& stepped.size == loc.size
            &&& (loc.location.x + delta.x < loc.size.x && 0 <= loc.location.x + delta.x
                ==> stepped.location.x == loc.location.x + delta.x)
            &&& (loc.location.x + delta.x == loc.size.x ==> stepped.location.x == 0)
            &&& (loc.location.x + delta.x == -1 ==> stepped.location.x == loc.size.x - 1)
            &&& (loc.location.y + delta.y < loc.size.y && 0 <= loc.location.y + delta.y
                ==> stepped.location.y == loc.location.y + delta.y)
            &&& (loc.location.y + delta.y == loc.size.y ==> stepped.location.y == 0)
            &&& (loc.location.y + delta.y == -1 ==> stepped.location.y == loc.size.y - 1)
        }),
{
    if loc.wf() {
        let delta = dir_delta(d);
        let sx: int = loc.size.x as int;
        let sy: int = loc.size.y as int;
        let vx: int = loc.location.x + delta.x;
        let vy: int = loc.location.y + delta.y;
        vstd::arithmetic::div_mod::lemma_mod_self_0(sx);
        vstd::arithmetic::div_mod::lemma_mod_self_0(sy);
        vstd::arithmetic::div_mod::lemma_mod_add_multiples_vanish(-1, sx);
        vstd::arithmetic::div_mod::lemma_mod_add_multiples_vanish(-1, sy);
        vstd::arithmetic::div_mod::lemma_small_mod((sx - 1) as nat, sx as nat);
        vstd::arithmetic::div_mod::lemma_small_mod((sy - 1) as nat, sy as nat);
        if 0 <= vx < sx {
            vstd::arithmetic::div_mod::lemma_small_mod(vx as nat, sx as nat);
        }
        if 0 <= vy < sy {
            vstd::arithmetic::div_mod::lemma_small_mod(vy as nat, sy as nat);
        }
    }
}

/// The signed flux of one physical edge, seen from its two endpoints, is
/// equal and opposite.
proof fn lemma_dir_sign_mutual(lat: Lattice, p: Point, d: Direction)
    requires
        lat.wf(),
        0 <= p.x < lat.size.x,
        0 <= p.y < lat.size.y,
    ensures
        dir_sign(lat, p, d) == -dir_sign(
            lat,
            spec_step(site_bound(lat, p), d).location,
            d.spec_flip(),
        ),
{
    let loc = site_bound(lat, p);
    lemma_viewed_link_mutual(lat, loc, d);
    lemma_spec_step_wf(loc, d);
    lemma_sign_flip(lat.spec_viewed_link(spec_step(loc, d), d.spec_flip()));
    assert(site_bound(lat, spec_step(loc, d).location) == spec_step(loc, d));
}

/// Both vertical winding terms read an eastward flux: the main path the
/// flux leaving column 0, the check path the flux leaving column 1.
proof fn lemma_vertical_terms_as_flux(lat: Lattice, i: int)
    requires
        lat.wf(),
        lat.size.x >= 4,
        0 <= i < lat.size.y,
    ensures
        vertical_winding_term(lat, i, false) == dir_sign(
            lat,
            Point { x: 0, y: i as i64 },
            Direction::E,
        ),
        vertical_winding_term(lat, i, true) == dir_sign(
            lat,
            Point { x: 1, y: i as i64 },
            Direction::E,
        ),
{
    let p0 = Point { x: 0, y: i as i64 };
    let p1 = Point { x: 1, y: i as i64 };
    lemma_step_coords(site_bound(lat, p0), Direction::E);
    lemma_step_coords(site_bound(lat, p1), Direction::E);
}

/// Both horizontal winding terms read a northward flux: the main path the
/// flux leaving row 0, the check path the flux leaving row 1.
proof fn lemma_horizontal_terms_as_flux(lat: Lattice, i: int)
    requires
        lat.wf(),
        lat.size.y >= 4,
        0 <= i < lat.size.x,
    ensures
        horizontal_winding_term(lat, i, false) == dir_sign(
            lat,
            Point { x: i as i64, y: 0 },
            Direction::N,
        ),
        horizontal_winding_term(lat, i, true) == dir_sign(
            lat,
            Point { x: i as i64, y: 1 },
            Direction::N,
        ),
{
    let p0 = Point { x: i as i64, y: 0 };
    let p1 = Point { x: i as i64, y: 1 };
    lemma_step_coords(site_bound(lat, p0), Direction::N);
    lemma_step_coords(site_bound(lat, p1), Direction::N);
}

/// Per row, the flux difference between the two vertical paths is the
/// balance of the column-1 site minus its vertical flux.
proof fn lemma_vertical_row_difference(lat: Lattice, i: int)
    requires
        lat.wf(),
        lat.size.x >= 4,
        0 <= i < lat.size.y,
    ensures
        dir_sign(lat, Point { x: 1, y: i as i64 }, Direction::E) - dir_sign(
            lat,
            Point { x: 0, y: i as i64 },
            Direction::E,
        ) == site_balance(lat, Point { x: 1, y: i as i64 }) - dir_sign(
            lat,
            Point { x: 1, y: i as i64 },
            Direction::N,
        ) - dir_sign(lat, Point { x: 1, y: i as i64 }, Direction::S),
{
    let p1 = Point { x: 1, y: i as i64 };
    lemma_step_coords(site_bound(lat, p1), Direction::W);
    lemma_dir_sign_mutual(lat, p1, Direction::W);
}

/// Per column, the flux difference between the two horizontal paths is
/// the balance of the row-1 site minus its horizontal flux.
proof fn lemma_horizontal_col_difference(lat: Lattice, i: int)
    requires
        lat.wf(),
        lat.size.y >= 4,
        0 <= i < lat.size.x,
    ensures
        dir_sign(lat, Point { x: i as i64, y: 1 }, Direction::N) - dir_sign(
            lat,
            Point { x: i as i64, y: 0 },
            Direction::N,
        ) == site_balance(lat, Point { x: i as i64, y: 1 }) - dir_sign(
            lat,
            Point { x: i as i64, y: 1 },
            Direction::E,
        ) - dir_sign(lat, Point { x: i as i64, y: 1 }, Direction::W),
{
    let p1 = Point { x: i as i64, y: 1 };
    lemma_step_coords(site_bound(lat, p1), Direction::S);
    lemma_dir_sign_mutual(lat, p1, Direction::S);
}

/// A site's southward flux is the negated northward flux of the site
/// below it, wrapping at the boundary.
proof fn lemma_south_is_neg_north_below(lat: Lattice, x: int, i: int)
    requires
        lat.wf(),
        0 <= x < lat.size.x,
        0 <= i < lat.size.y,
    ensures
        dir_sign(lat, Point { x: x as i64, y: i as i64 }, Direction::S) == -dir_sign(
            lat,
            Point {
                x: x as i64,
                y: (if i == 0 {
                    lat.size.y - 1
                } else {
                    i - 1
                }) as i64,
            },
            Direction::N,
        ),
{
    let p = Point { x: x as i64, y: i as i64 };
    lemma_step_coords(site_bound(lat, p), Direction::S);
    lemma_dir_sign_mutual(lat, p, Direction::S);
}

/// A site's westward flux is the negated eastward flux of the site to its
/// left, wrapping at the boundary.
proof fn lemma_west_is_neg_east_left(lat: Lattice, y: int, i: int)
    requires
        lat.wf(),
        0 <= i < lat.size.x,
        0 <= y < lat.size.y,
    ensures
        dir_sign(lat, Point { x: i as i64, y: y as i64 }, Direction::W) == -dir_sign(
            lat,
            Point {
                x: (if i == 0 {
                    lat.size.x - 1
                } else {
                    i - 1
                }) as i64,
                y: y as i64,
            },
            Direction::E,
        ),
{
    let p = Point { x: i as i64, y: y as i64 };
    lemma_step_coords(site_bound(lat, p), Direction::W);
    lemma_dir_sign_mutual(lat, p, Direction::W);
}

/// Partial sums of a column's vertical flux telescope.
proof fn lemma_col_ns_partial(lat: Lattice, x: int, n: int)
    requires
        lat.wf(),
        0 <= x < lat.size.x,
        1 <= n <= lat.size.y,
    ensures
        col_ns_sum(lat, x, n) == dir_sign(
            lat,
            Point { x: x as i64, y: (n - 1) as i64 },
            Direction::N,
        ) - dir_sign(
            lat,
            Point { x: x as i64, y: (lat.size.y - 1) as i64 },
            Direction::N,
        ),
    decreases n,
{
    lemma_south_is_neg_north_below(lat, x, n - 1);
    assert(col_ns_sum(lat, x, n) == col_ns_sum(lat, x, n - 1) + dir_sign(
        lat,
        Point { x: x as i64, y: (n - 1) as i64 },
        Direction::N,
    ) + dir_sign(lat, Point { x: x as i64, y: (n - 1) as i64 }, Direction::S));
    if n > 1 {
        lemma_col_ns_partial(lat, x, n - 1);
        assert(dir_sign(lat, Point { x: x as i64, y: (n - 1) as i64 }, Direction::S)
            == -dir_sign(lat, Point { x: x as i64, y: (n - 2) as i64 }, Direction::N));
    } else {
        assert(col_ns_sum(lat, x, 0) == 0);
        assert(dir_sign(lat, Point { x: x as i64, y: 0 }, Direction::S) == -dir_sign(
            lat,
            Point { x: x as i64, y: (lat.size.y - 1) as i64 },
            Direction::N,
        ));
    }
}

/// Partial sums of a row's horizontal flux telescope.
proof fn lemma_row_ew_partial(lat: Lattice, y: int, n: int)
    requires
        lat.wf(),
        0 <= y < lat.size.y,
        1 <= n <= lat.size.x,
    ensures
        row_ew_sum(lat, y, n) == dir_sign(
            lat,
            Point { x: (n - 1) as i64, y: y as i64 },
            Direction::E,
        ) - dir_sign(
            lat,
            Point { x: (lat.size.x - 1) as i64, y: y as i64 },
            Direction::E,
        ),
    decreases n,
{
    lemma_west_is_neg_east_left(lat, y, n - 1);
    assert(row_ew_sum(lat, y, n) == row_ew_sum(lat, y, n - 1) + dir_sign(
        lat,
        Point { x: (n - 1) as i64, y: y as i64 },
        Direction::E,
    ) + dir_sign(lat, Point { x: (n - 1) as i64, y: y as i64 }, Direction::W));
    if n > 1 {
        lemma_row_ew_partial(lat, y, n - 1);
        assert(dir_sign(lat, Point { x: (n - 1) as i64, y: y as i64 }, Direction::W)
            == -dir_sign(lat, Point { x: (n - 2) as i64, y: y as i64 }, Direction::E));
    } else {
        assert(row_ew_sum(lat, y, 0) == 0);
        assert(dir_sign(lat, Point { x: 0, y: y as i64 }, Direction::W) == -dir_sign(
            lat,
            Point { x: (lat.size.x - 1) as i64, y: y as i64 },
            Direction::E,
        ));
    }
}

/// The difference of the two vertical winding sums accumulates the
/// column-1 balances, less the telescoping vertical flux.
proof fn lemma_vertical_diff_sum(lat: Lattice, n: int)
    requires
        lat.wf(),
        lat.size.x >= 4,
        0 <= n <= lat.size.y,
    ensures
        vertical_winding_sum(lat, n, true) - vertical_winding_sum(lat, n, false)
            == col_balance_sum(lat, 1, n) - col_ns_sum(lat, 1, n),
    decreases n,
{
    if n > 0 {
        lemma_vertical_diff_sum(lat, n - 1);
        lemma_vertical_terms_as_flux(lat, n - 1);
        lemma_vertical_row_difference(lat, n - 1);
    }
}

/// The difference of the two horizontal winding sums accumulates the
/// row-1 balances, less the telescoping horizontal flux.
proof fn lemma_horizontal_diff_sum(lat: Lattice, n: int)
    requires
        lat.wf(),
        lat.size.y >= 4,
        0 <= n <= lat.size.x,
    ensures
        horizontal_winding_sum(lat, n, true) - horizontal_winding_sum(lat, n, false)
            == row_balance_sum(lat, 1, n) - row_ew_sum(lat, 1, n),
    decreases n,
{
    if n > 0 {
        lemma_horizontal_diff_sum(lat, n - 1);
        lemma_horizontal_terms_as_flux(lat, n - 1);
        lemma_horizontal_col_difference(lat, n - 1);
    }
}

/// On a balanced lattice a column's balance sum is a multiple of three.
proof fn lemma_col_balance_sum_mod(lat: Lattice, x: int, n: int)
    requires
        lat.wf(),
        flux_balanced(lat),
        0 <= x < lat.size.x,
        0 <= n <= lat.size.y,
    ensures
        col_balance_sum(lat, x, n) % 3 == 0,
    decreases n,
{
    vstd::arithmetic::div_mod::lemma_small_mod(0nat, 3nat);
    if n > 0 {
        lemma_col_balance_sum_mod(lat, x, n - 1);
        let b = site_balance(lat, Point { x: x as i64, y: (n - 1) as i64 });
        assert(b % 3 == 0);
        vstd::arithmetic::div_mod::lemma_add_mod_noop(col_balance_sum(lat, x, n - 1), b, 3);
    }
}

/// On a balanced lattice a row's balance sum is a multiple of three.
proof fn lemma_row_balance_sum_mod(lat: Lattice, y: int, n: int)
    requires
        lat.wf(),
        flux_balanced(lat),
        0 <= y < lat.size.y,
        0 <= n <= lat.size.x,
    ensures
        row_balance_sum(lat, y, n) % 3 == 0,
    decreases n,
{
    vstd::arithmetic::div_mod::lemma_small_mod(0nat, 3nat);
    if n > 0 {
        lemma_row_balance_sum_mod(lat, y, n - 1);
        let b = site_balance(lat, Point { x: (n - 1) as i64, y: y as i64 });
        assert(b % 3 == 0);
        vstd::arithmetic::div_mod::lemma_add_mod_noop(row_balance_sum(lat, y, n - 1), b, 3);
    }
}

/// Two integers whose difference is a multiple of three agree modulo
/// three.
proof fn lemma_mod3_equal(a: int, b: int)
    requires
        (a - b) % 3 == 0,
    ensures
        a % 3 == b % 3,
{
    vstd::arithmetic::div_mod::lemma_fundamental_div_mod(a - b, 3);
    let k = (a - b) / 3;
    assert(a == 3 * k + b);
    vstd::arithmetic::div_mod::lemma_mod_multiples_vanish(k, b, 3);
}

/// Flux conservation makes the winding number path-independent: on any
/// flux-balanced lattice, the winding sums computed along the two
/// independent parallel paths of an axis agree modulo 3, for both axes.
/// Every configuration reachable by closed-string moves is flux-balanced,
/// so the engine's runtime self-check cannot fire there.
pub proof fn lemma_winding_paths_agree(lat: Lattice)
    requires
        lat.wf(),
        lat.size.x >= 4,
        lat.size.y >= 4,
        flux_balanced(lat),
    ensures
        wrap_coord(vertical_winding_sum(lat, lat.size.y as int, true), 3) == wrap_coord(
            vertical_winding_sum(lat, lat.size.y as int, false),
            3,
        ),
        wrap_coord(horizontal_winding_sum(lat, lat.size.x as int, true), 3) == wrap_coord(
            horizontal_winding_sum(lat, lat.size.x as int, false),
            3,
        ),
{
    let sy: int = lat.size.y as int;
    let sx: int = lat.size.x as int;
    lemma_vertical_diff_sum(lat, sy);
    lemma_col_ns_partial(lat, 1, sy);
    lemma_col_balance_sum_mod(lat, 1, sy);
    lemma_mod3_equal(
        vertical_winding_sum(lat, sy, true),
        vertical_winding_sum(lat, sy, false),
    );
    lemma_horizontal_diff_sum(lat, sx);
    lemma_row_ew_partial(lat, 1, sx);
    lemma_row_balance_sum_mod(lat, 1, sx);
    lemma_mod3_equal(
        horizontal_winding_sum(lat, sx, true),
        horizontal_winding_sum(lat, sx, false),
    );
}

/// Flux balance everywhere but at the two endpoints of a walk in
/// progress: the starting site carries one extra unit of outgoing flux and
/// the current site one unit less, modulo 3.  When the walk closes the two
/// cancel and the lattice is balanced again.
pub open spec fn flux_balanced_except(lat: Lattice, s: Point, c: Point) -> bool {
    &&& forall|p: Point|
        0 <= p.x < lat.size.x && 0 <= p.y < lat.size.y && p != s && p != c
            ==> #[trigger] site_balance(lat, p) % 3 == 0
    &&& (s == c ==> flux_balanced(lat))
    &&& (s != c ==> (site_balance(lat, s) - 1) % 3 == 0 && (site_balance(lat, c) + 1) % 3 == 0)
}

/// After one stored link is replaced, a site's viewed link in a given
/// direction is unchanged, unless the site is an endpoint of the touched
/// edge looking along it.
proof fn lemma_viewed_after_set(
    lat: Lattice,
    lat2: Lattice,
    tp: Point,
    td: Direction,
    l: Link,
    p: Point,
    d: Direction,
)
    requires
        lat.wf(),
        lat2.wf(),
        lat2.size == lat.size,
        0 <= tp.x < lat.size.x,
        0 <= tp.y < lat.size.y,
        spec_point_real(tp),
        lat2.vertices@ == lat.vertices@.update(
            spec_vertex_index(lat.size, tp),
            with_link(lat.vertices@[spec_vertex_index(lat.size, tp)], td, l),
        ),
        0 <= p.x < lat.size.x,
        0 <= p.y < lat.size.y,
    ensures
        lat2.spec_viewed_link(site_bound(lat2, p), d) == (if p == tp && d == td {
            l
        } else if p == spec_step(site_bound(lat, tp), td).location && d == td.spec_flip() {
            l.spec_flip()
        } else {
            lat.spec_viewed_link(site_bound(lat, p), d)
        }),
{
    let ti = spec_vertex_index(lat.size, tp);
    let tp_bound = site_bound(lat, tp);
    let q = spec_step(tp_bound, td).location;
    lemma_vertex_index_in_range(lat.size, tp);
    lemma_spec_step_wf(tp_bound, td);
    lemma_step_flips_parity(tp_bound, td);
    crate::datamodel::cluster::lemma_increment_then_decrement(tp_bound, td);
    let loc = site_bound(lat, p);
    if spec_point_real(p) {
        lemma_vertex_index_in_range(lat.size, p);
        if spec_vertex_index(lat.size, p) == ti {
            lemma_vertex_index_injective(lat.size, p, tp);
        }
    } else {
        let nbr = spec_step(loc, d).location;
        lemma_spec_step_wf(loc, d);
        lemma_step_flips_parity(loc, d);
        lemma_vertex_index_in_range(lat.size, nbr);
        crate::datamodel::cluster::lemma_increment_then_decrement(loc, d);
        if spec_vertex_index(lat.size, nbr) == ti {
            lemma_vertex_index_injective(lat.size, nbr, tp);
            // The neighbor is the touched site; if this view also looks
            // along the touched direction, this site is the other endpoint.
            if d.spec_flip() == td {
                assert(spec_step(loc, d) == tp_bound);
                assert(spec_step(spec_step(loc, d), d.spec_flip()) == loc);
                assert(spec_step(tp_bound, td) == loc);
                assert(p == q);
            }
        }
    }
}

/// Replacing one stored link moves the flux balances of exactly the two
/// endpoints of the touched edge, by opposite amounts.
pub proof fn lemma_balance_after_link_set(
    lat: Lattice,
    lat2: Lattice,
    tp: Point,
    td: Direction,
    l: Link,
)
    requires
        lat.wf(),
        lat2.wf(),
        lat2.size == lat.size,
        0 <= tp.x < lat.size.x,
        0 <= tp.y < lat.size.y,
        spec_point_real(tp),
        lat2.vertices@ == lat.vertices@.update(
            spec_vertex_index(lat.size, tp),
            with_link(lat.vertices@[spec_vertex_index(lat.size, tp)], td, l),
        ),
    ensures
        ({
            let q = spec_step(site_bound(lat, tp), td).location;
            let delta = link_sign(l) - link_sign(lat.spec_link_at(tp, td));
            &&& site_balance(lat2, tp) == site_balance(lat, tp) + delta
            &&& site_balance(lat2, q) == site_balance(lat, q) - delta
            &&& forall|p: Point|
                0 <= p.x < lat.size.x && 0 <= p.y < lat.size.y && p != tp && p != q
                    ==> #[trigger] site_balance(lat2, p) == site_balance(lat, p)
        }),
{
    let tp_bound = site_bound(lat, tp);
    let q = spec_step(tp_bound, td).location;
    lemma_vertex_index_in_range(lat.size, tp);
    lemma_spec_step_wf(tp_bound, td);
    lemma_step_flips_parity(tp_bound, td);
    assert(q != tp);
    // The old view from the far endpoint is the stored link, flipped.
    lemma_viewed_link_mutual(lat, tp_bound, td);
    assert(site_bound(lat, q) == spec_step(tp_bound, td));
    assert(lat.spec_viewed_link(site_bound(lat, q), td.spec_flip()) == lat.spec_link_at(
        tp,
        td,
    ).spec_flip());
    assert forall|p: Point|
        0 <= p.x < lat.size.x && 0 <= p.y < lat.size.y && p != tp && p != q implies #[trigger]
    site_balance(lat2, p) == site_balance(lat, p) by {
        lemma_viewed_after_set(lat, lat2, tp, td, l, p, Direction::N);
        lemma_viewed_after_set(lat, lat2, tp, td, l, p, Direction::E);
        lemma_viewed_after_set(lat, lat2, tp, td, l, p, Direction::S);
        lemma_viewed_after_set(lat, lat2, tp, td, l, p, Direction::W);
    };
    lemma_viewed_after_set(lat, lat2, tp, td, l, tp, Direction::N);
    lemma_viewed_after_set(lat, lat2, tp, td, l, tp, Direction::E);
    lemma_viewed_after_set(lat, lat2, tp, td, l, tp, Direction::S);
    lemma_viewed_after_set(lat, lat2, tp, td, l, tp, Direction::W);
    lemma_viewed_after_set(lat, lat2, tp, td, l, q, Direction::N);
    lemma_viewed_after_set(lat, lat2, tp, td, l, q, Direction::E);
    lemma_viewed_after_set(lat, lat2, tp, td, l, q, Direction::S);
    lemma_viewed_after_set(lat, lat2, tp, td, l, q, Direction::W);
    lemma_sign_flip(l);
    lemma_sign_flip(lat.spec_link_at(tp, td));
}

/// Flux balance depends only on the stored configuration, so it survives
/// restoring a snapshot: two lattices holding the same configuration are
/// balanced together.
pub proof fn lemma_flux_balanced_equiv(lat1: Lattice, lat2: Lattice)
    requires
        lat1.equiv(lat2),
        flux_balanced(lat2),
    ensures
        flux_balanced(lat1),
{
    assert forall|p: Point| 0 <= p.x < lat1.size.x && 0 <= p.y < lat1.size.y implies #[trigger]
    site_balance(lat1, p) % 3 == 0 by {
        assert(site_balance(lat2, p) % 3 == 0);
        assert(site_bound(lat1, p) == site_bound(lat2, p));
        assert(site_balance(lat1, p) == site_balance(lat2, p));
    };
}

/// A lattice whose stored links are all blank is flux-balanced: every
/// viewed link is blank and carries no flux.
pub proof fn lemma_all_blank_balanced(lat: Lattice)
    requires
        lat.wf(),
        forall|i: int|
            0 <= i < lat.vertices@.len() ==> {
                &&& (#[trigger] lat.vertices@[i]).n == Link::Blank
                &&& lat.vertices@[i].e == Link::Blank
                &&& lat.vertices@[i].s == Link::Blank
                &&& lat.vertices@[i].w == Link::Blank
            },
    ensures
        flux_balanced(lat),
{
    assert forall|p: Point| 0 <= p.x < lat.size.x && 0 <= p.y < lat.size.y implies #[trigger]
    site_balance(lat, p) % 3 == 0 by {
        let loc = site_bound(lat, p);
        if spec_point_real(p) {
            lemma_vertex_index_in_range(lat.size, p);
        } else {
            lemma_spec_step_wf(loc, Direction::N);
            lemma_spec_step_wf(loc, Direction::E);
            lemma_spec_step_wf(loc, Direction::S);
            lemma_spec_step_wf(loc, Direction::W);
            lemma_vertex_index_in_range(lat.size, spec_step(loc, Direction::N).location);
            lemma_vertex_index_in_range(lat.size, spec_step(loc, Direction::E).location);
            lemma_vertex_index_in_range(lat.size, spec_step(loc, Direction::S).location);
            lemma_vertex_index_in_range(lat.size, spec_step(loc, Direction::W).location);
        }
        assert(site_balance(lat, p) == 0);
        vstd::arithmetic::div_mod::lemma_small_mod(0nat, 3nat);
    };
}

/// The striped reference configuration is flux-balanced: every site
/// passes one unit of flux straight through, east in and east out.
pub proof fn lemma_striped_balanced(lat: Lattice)
    requires
        lat.wf(),
        forall|i: int|
            0 <= i < lat.vertices@.len() ==> {
                &&& (#[trigger] lat.vertices@[i]).n == Link::Blank
                &&& lat.vertices@[i].e == Link::Out
                &&& lat.vertices@[i].s == Link::Blank
                &&& lat.vertices@[i].w == Link::In
            },
    ensures
        flux_balanced(lat),
{
    assert forall|p: Point| 0 <= p.x < lat.size.x && 0 <= p.y < lat.size.y implies #[trigger]
    site_balance(lat, p) % 3 == 0 by {
        let loc = site_bound(lat, p);
        if spec_point_real(p) {
            lemma_vertex_index_in_range(lat.size, p);
        } else {
            lemma_spec_step_wf(loc, Direction::N);
            lemma_spec_step_wf(loc, Direction::E);
            lemma_spec_step_wf(loc, Direction::S);
            lemma_spec_step_wf(loc, Direction::W);
            lemma_vertex_index_in_range(lat.size, spec_step(loc, Direction::N).location);
            lemma_vertex_index_in_range(lat.size, spec_step(loc, Direction::E).location);
            lemma_vertex_index_in_range(lat.size, spec_step(loc, Direction::S).location);
            lemma_vertex_index_in_range(lat.size, spec_step(loc, Direction::W).location);
        }
        assert(site_balance(lat, p) == 0);
        vstd::arithmetic::div_mod::lemma_small_mod(0nat, 3nat);
    };
}

/// A snapshot of the winding computation for display purposes.
#[derive(Debug)]
pub struct WindingNumberCountEstimatorDisplay {
    pub local_text: String,
    pub position: Point,
}

/// Winding numbers of the most recent measurement, one per axis.
#[derive(Debug)]
pub struct WindingNumberCountEstimator {
    pub count_horizontal: i64,
    pub count_vertical: i64,
}

impl WindingNumberCountEstimator {
    pub fn new() -> (r: WindingNumberCountEstimator)
        ensures
            r.count_horizontal == 0,
            r.count_vertical == 0,
    {
        WindingNumberCountEstimator { count_horizontal: 0, count_vertical: 0 }
    }

    /// Add the link's signed flux to a running winding count.
    pub fn simple_add_sub_from_link_direction(num_in: &mut i64, link_in: &Link)
        requires
            i64::MIN < *old(num_in),
            *old(num_in) < i64::MAX,
        ensures
            *final(num_in) == *old(num_in) + link_sign(*link_in),
    {
        match link_in {
            Link::In => *num_in -= 1,
            Link::Out => *num_in += 1,
            _ => (),
        }
    }

    /// The winding count reduced modulo 3, the size of the link alphabet;
    /// negative counts wrap to the non-negative representative.
    pub fn modulo_winding_number(x: i64) -> (r: u64)
        ensures
            r as int == wrap_coord(x as int, 3),
            r < 3,
    {
        proof {
            vstd::arithmetic::div_mod::lemma_mod_bound(x as int, 3int);
        }
        let modulus_by: i64 = 3;
        let to_return: i64 = match x.checked_rem_euclid(modulus_by) {
            Some(v) => v,
            None => 0,
        };
        to_return as u64
    }

    /// Compute the winding number along each axis, following two
    /// independent parallel paths per axis; the two paths must agree
    /// modulo 3, a flux-conservation self-check whose failure is an
    /// internal fault.  On success the per-axis counts are stored.
    pub fn measure(&mut self, lat: &Lattice) -> (r: Result<(), LatticeError>)
        requires
            lat.wf(),
            lat.size.x >= 4,
            lat.size.y >= 4,
        ensures
            ({
                let vs = vertical_winding_sum(*lat, lat.size.y as int, false);
                let vsc = vertical_winding_sum(*lat, lat.size.y as int, true);
                let hs = horizontal_winding_sum(*lat, lat.size.x as int, false);
                let hsc = horizontal_winding_sum(*lat, lat.size.x as int, true);
                &&& (r is Ok <==> wrap_coord(vs, 3) == wrap_coord(vsc, 3) && wrap_coord(hs, 3)
                    == wrap_coord(hsc, 3))
                &&& (r is Ok ==> final(self).count_vertical == vs && final(self).count_horizontal
                    == hs)
                &&& (r is Err ==> r == Err::<(), LatticeError>(
                    LatticeError::WindingMismatch { lattice_size: lat.size },
                ) && *final(self) == *old(self))
            }),
    {
        // Count the winding number along the column at the origin, and
        // along the parallel column one plaquette over as a safety check.
        let mut vert_winding_count: i64 = 0;
        let mut vert_winding_count_check: i64 = 0;

        let mut i: i64 = 0;
        while i < lat.size.y
            invariant
                lat.wf(),
                lat.size.x >= 4,
                lat.size.y >= 4,
                0 <= i <= lat.size.y,
                vert_winding_count == vertical_winding_sum(*lat, i as int, false),
                vert_winding_count_check == vertical_winding_sum(*lat, i as int, true),
                -i <= vert_winding_count <= i,
                -i <= vert_winding_count_check <= i,
            decreases lat.size.y - i,
        {
            let cur_point: Point;
            let cur_point_check: Point;
            let cur_grab_direction: Direction;
            let cur_grab_direction_check: Direction;
            if i % 2 == 0 {
                cur_point = Point { x: 0, y: i };
                cur_point_check = Point { x: 2, y: i };
                cur_grab_direction = Direction::E;
                cur_grab_direction_check = Direction::W;
            } else {
                cur_point = Point { x: 1, y: i };
                cur_point_check = Point { x: 1, y: i };
                cur_grab_direction = Direction::W;
                cur_grab_direction_check = Direction::E;
            }

            let cur_link: Link = lat.safe_get_link_from_point(&cur_point, &cur_grab_direction);
            let cur_link_check: Link = lat.safe_get_link_from_point(
                &cur_point_check,
                &cur_grab_direction_check,
            );
            let maybe_flipped_link: Link = if i % 2 == 1 {
                cur_link.flip()
            } else {
                cur_link
            };
            let maybe_flipped_link_check: Link = if i % 2 == 0 {
                cur_link_check.flip()
            } else {
                cur_link_check
            };

            Self::simple_add_sub_from_link_direction(&mut vert_winding_count, &maybe_flipped_link);
            Self::simple_add_sub_from_link_direction(
                &mut vert_winding_count_check,
                &maybe_flipped_link_check,
            );
            i = i + 1;
        }

        let mod_count: u64 = Self::modulo_winding_number(vert_winding_count);
        let mod_count_check: u64 = Self::modulo_winding_number(vert_winding_count_check);
        if mod_count != mod_count_check {
            return Err(LatticeError::WindingMismatch { lattice_size: lat.size });
        }

        // The same along the rows at the origin for the horizontal axis.
        let mut horz_winding_count: i64 = 0;
        let mut horz_winding_count_check: i64 = 0;

        let mut i: i64 = 0;
        while i < lat.size.x
            invariant
                lat.wf(),
                lat.size.x >= 4,
                lat.size.y >= 4,
                0 <= i <= lat.size.x,
                horz_winding_count == horizontal_winding_sum(*lat, i as int, false),
                horz_winding_count_check == horizontal_winding_sum(*lat, i as int, true),
                -i <= horz_winding_count <= i,
                -i <= horz_winding_count_check <= i,
            decreases lat.size.x - i,
        {
            let cur_point: Point;
            let cur_point_check: Point;
            let cur_grab_direction: Direction;
            let cur_grab_direction_check: Direction;
            if i % 2 == 0 {
                cur_point = Point { x: i, y: 0 };
                cur_point_check = Point { x: i, y: 2 };
                cur_grab_direction = Direction::N;
                cur_grab_direction_check = Direction::S;
            } else {
                cur_point = Point { x: i, y: 1 };
                cur_point_check = Point { x: i, y: 1 };
                cur_grab_direction = Direction::S;
                cur_grab_direction_check = Direction::N;
            }

            let cur_link: Link = lat.safe_get_link_from_point(&cur_point, &cur_grab_direction);
            let cur_link_check: Link = lat.safe_get_link_from_point(
                &cur_point_check,
                &cur_grab_direction_check,
            );
            let maybe_flipped_link: Link = if i % 2 == 1 {
                cur_link.flip()
            } else {
                cur_link
            };
            let maybe_flipped_link_check: Link = if i % 2 == 0 {
                cur_link_check.flip()
            } else {
                cur_link_check
            };

            Self::simple_add_sub_from_link_direction(&mut horz_winding_count, &maybe_flipped_link);
            Self::simple_add_sub_from_link_direction(
                &mut horz_winding_count_check,
                &maybe_flipped_link_check,
            );
            i = i + 1;
        }

        let mod_count: u64 = Self::modulo_winding_number(horz_winding_count);
        let mod_count_check: u64 = Self::modulo_winding_number(horz_winding_count_check);
        if mod_count != mod_count_check {
            return Err(LatticeError::WindingMismatch { lattice_size: lat.size });
        }

        self.count_horizontal = horz_winding_count;
        self.count_vertical = vert_winding_count;
        Ok(())
    }

    /// Reset both winding counts.
    pub fn clear(&mut self)
        ensures
            final(self).count_horizontal == 0,
            final(self).count_vertical == 0,
    {
        self.count_vertical = 0;
        self.count_horizontal = 0;
    }
}

} // verus!
