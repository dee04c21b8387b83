//! The Monte Carlo update engine: a closed-loop walker that raises links
//! along a path, plaquette and random-walk move generators, and the
//! keep-or-roll-back step of the Metropolis decision.

use vstd::prelude::*;
use crate::datamodel::BoundPoint;
use crate::datamodel::Direction;
use crate::datamodel::Link;
use crate::datamodel::Point;
use crate::datamodel::cluster::increment_location;
use crate::datamodel::cluster::lemma_plaquette_walk_closes;
use crate::datamodel::cluster::spec_step;
use crate::datamodel::lattice::Lattice;
use crate::datamodel::lattice::lemma_count_filled_bounds;
use crate::datamodel::lattice::lemma_step_flips_parity;
use crate::datamodel::lattice::link_count_delta;
use crate::datamodel::Vertex;
use crate::datamodel::lattice::spec_point_real;
use crate::datamodel::lattice::spec_vertex_index;
use crate::datamodel::lattice::viewed_link_of;
use crate::datamodel::lattice::with_link;
use crate::datamodel::lemma_flip_lower_is_raise_of_flip;
use crate::datamodel::random_index_below;
use crate::datamodel::size_ok;
use crate::errors::LatticeError;
use crate::estimators::winding_number_estimator::flux_balanced;
use crate::estimators::winding_number_estimator::flux_balanced_except;
use crate::estimators::winding_number_estimator::lemma_balance_after_link_set;
use crate::estimators::winding_number_estimator::link_sign;
use crate::estimators::winding_number_estimator::site_balance;
use crate::estimators::winding_number_estimator::site_bound;

verus! {

/// Which kind of Monte Carlo move to propose.
#[derive(Debug, Clone, Copy, Eq, PartialEq, Structural)]
pub enum UpdateType {
    Local,
    Walk,
}

/// The Metropolis decision for a proposed move.
#[derive(Debug, Clone, Copy, Eq, PartialEq, Structural)]
pub enum AcceptReject {
    Accept,
    Reject,
}

/// The real site whose stored link a raise step across `(loc, d)` touches:
/// `loc` itself when real, else the neighbor one step along `d`.
pub open spec fn walk_touch_point(loc: BoundPoint, d: Direction) -> Point {
    if spec_point_real(loc.location) {
        loc.location
    } else {
        spec_step(loc, d).location
    }
}

/// The stored direction that raise step touches: `d` from a real site,
/// the flipped direction when read back from the neighbor.
pub open spec fn walk_touch_dir(loc: BoundPoint, d: Direction) -> Direction {
    if spec_point_real(loc.location) {
        d
    } else {
        d.spec_flip()
    }
}

/// The stored vertices after one raise step across `(loc, d)`: the real
/// endpoint's link toward the crossed edge is replaced, raised as seen
/// from `loc`.
pub open spec fn spec_raise_step_vertices(
    size: Point,
    vertices: Seq<Vertex>,
    loc: BoundPoint,
    d: Direction,
) -> Seq<Vertex> {
    let before = viewed_link_of(size, vertices, loc, d);
    let stored_after = if spec_point_real(loc.location) {
        before.spec_raise()
    } else {
        before.spec_raise().spec_flip()
    };
    let ti = spec_vertex_index(size, walk_touch_point(loc, d));
    vertices.update(ti, with_link(vertices[ti], walk_touch_dir(loc, d), stored_after))
}

/// The stored vertices after the 4-step clockwise plaquette raise with its
/// lower-left corner at `base`.
pub open spec fn spec_plaquette_vertices(
    size: Point,
    vertices: Seq<Vertex>,
    base: BoundPoint,
) -> Seq<Vertex> {
    let after_n = spec_raise_step_vertices(size, vertices, base, Direction::N);
    let loc_n = spec_step(base, Direction::N);
    let after_e = spec_raise_step_vertices(size, after_n, loc_n, Direction::E);
    let loc_e = spec_step(loc_n, Direction::E);
    let after_s = spec_raise_step_vertices(size, after_e, loc_e, Direction::S);
    let loc_s = spec_step(loc_e, Direction::S);
    spec_raise_step_vertices(size, after_s, loc_s, Direction::W)
}

proof fn lemma_mod3_small_facts()
    ensures
        (0int) % 3 == 0,
        (3int) % 3 == 0,
        (-3int) % 3 == 0,
{
    vstd::arithmetic::div_mod::lemma_small_mod(0nat, 3nat);
    vstd::arithmetic::div_mod::lemma_mod_self_0(3);
    vstd::arithmetic::div_mod::lemma_mod_multiples_vanish(-1, 0, 3);
}

/// Shifting by amounts that agree modulo 3 gives the same remainder.
proof fn lemma_mod3_shift(x: int, du: int, e: int)
    requires
        (du - e) % 3 == 0,
    ensures
        (x + du) % 3 == (x + e) % 3,
{
    vstd::arithmetic::div_mod::lemma_fundamental_div_mod(du - e, 3);
    let k = (du - e) / 3;
    assert(x + du == 3 * k + (x + e));
    vstd::arithmetic::div_mod::lemma_mod_multiples_vanish(k, x + e, 3);
}

/// One raise step moves the walk's flux deficit with the walker: the site
/// stepped from gains one unit of outgoing flux modulo 3 and the site
/// stepped onto loses one, every other site's balance unchanged.  A walk
/// that is balanced except at its endpoints stays so, with the current
/// endpoint advanced; when the walker returns to its start the deficits
/// cancel and the lattice is flux-balanced again.
#[verifier::rlimit(100)]
pub proof fn lemma_raise_step_moves_imbalance(
    pre: Lattice,
    post: Lattice,
    loc: BoundPoint,
    d: Direction,
    links: (Link, Link),
    s: Point,
)
    requires
        0 <= s.x < pre.size.x,
        0 <= s.y < pre.size.y,
        pre.wf(),
        post.wf(),
        post.size == pre.size,
        loc.wf(),
        loc.size == pre.size,
        links.0 == pre.spec_viewed_link(loc, d),
        links.1 == links.0.spec_raise(),
        post.vertices@ == pre.vertices@.update(
            spec_vertex_index(pre.size, walk_touch_point(loc, d)),
            with_link(
                pre.vertices@[spec_vertex_index(pre.size, walk_touch_point(loc, d))],
                walk_touch_dir(loc, d),
                if spec_point_real(loc.location) {
                    links.1
                } else {
                    links.1.spec_flip()
                },
            ),
        ),
        flux_balanced_except(pre, s, loc.location),
    ensures
        flux_balanced_except(post, s, spec_step(loc, d).location),
{
    let u = loc.location;
    let v = spec_step(loc, d).location;
    let tp = walk_touch_point(loc, d);
    let td = walk_touch_dir(loc, d);
    crate::datamodel::lattice::lemma_spec_step_wf(loc, d);
    lemma_step_flips_parity(loc, d);
    crate::datamodel::cluster::lemma_increment_then_decrement(loc, d);
    lemma_mod3_small_facts();
    let du = site_balance(post, u) - site_balance(pre, u);
    let dv = site_balance(post, v) - site_balance(pre, v);
    if spec_point_real(u) {
        // The stored link is the walker's own view; raising it adds one
        // unit of outgoing flux here and removes one across the edge.
        assert(site_bound(pre, u) == loc);
        lemma_balance_after_link_set(pre, post, tp, td, links.1);
        assert(du == link_sign(links.1) - link_sign(links.0));
        assert(dv == -du);
    } else {
        // The stored link lives at the real neighbor; lowering it there is
        // the same raise seen from the walker's side.
        assert(site_bound(pre, v) == spec_step(loc, d));
        let stored = pre.spec_link_at(v, d.spec_flip());
        assert(links.0 == stored.spec_flip());
        crate::datamodel::lemma_flip_lower_is_raise_of_flip(stored);
        assert(links.1.spec_flip() == stored.spec_lower());
        lemma_balance_after_link_set(pre, post, tp, td, links.1.spec_flip());
        // The far endpoint of the touched edge is the walker's old site.
        assert(spec_step(spec_step(loc, d), d.spec_flip()) == loc);
        assert(site_bound(pre, tp) == spec_step(loc, d));
        assert(spec_step(site_bound(pre, tp), td).location == u);
        assert(dv == link_sign(stored.spec_lower()) - link_sign(stored));
        assert(du == -dv);
    }
    assert((du - 1) % 3 == 0);
    assert((dv + 1) % 3 == 0);
    assert(u != v);
    assert forall|p: Point|
        0 <= p.x < post.size.x && 0 <= p.y < post.size.y && p != s && p != v implies #[trigger]
    site_balance(post, p) % 3 == 0 by {
        if p == u {
            // Only possible when the start is elsewhere: the old current
            // site returns to balance as the deficit moves on.
            assert(s != u);
            lemma_mod3_shift(site_balance(pre, u), du, 1);
        } else {
            assert(site_balance(post, p) == site_balance(pre, p));
        }
    };
    if s == v {
        // The walker has come back to its start: both corrections cancel.
        assert forall|p: Point|
            0 <= p.x < post.size.x && 0 <= p.y < post.size.y implies #[trigger] site_balance(
            post,
            p,
        ) % 3 == 0 by {
            if p == u {
                if s == u {
                    assert(false);
                } else {
                    lemma_mod3_shift(site_balance(pre, u), du, 1);
                }
            } else if p == v {
                lemma_mod3_shift(site_balance(pre, v), dv, -1);
            } else {
                assert(site_balance(post, p) == site_balance(pre, p));
            }
        };
    } else {
        if s == u {
            // First step away from the start: it keeps the positive unit.
            lemma_mod3_shift(site_balance(pre, s), du, 1);
        } else {
            assert(site_balance(post, s) == site_balance(pre, s));
        }
        lemma_mod3_shift(site_balance(pre, v), dv, -1);
    }
}

/// A string operator walking the lattice: it steps across one link at a
/// time and raises it, as seen from the walker's own side.
#[derive(Debug)]
pub struct Z3String {
    pub start_loc: Point,
    pub cur_loc: BoundPoint,
}

impl Z3String {
    fn increment_cur_loc(&mut self, direction: &Direction)
        requires
            old(self).cur_loc.wf(),
        ensures
            final(self).start_loc == old(self).start_loc,
            final(self).cur_loc == spec_step(old(self).cur_loc, *direction),
            final(self).cur_loc.wf(),
    {
        self.cur_loc = increment_location(self.cur_loc, direction);
    }

    /// Take one step from the current position in `direction`, raising the
    /// link crossed, as seen from the walker.  From a real site the stored
    /// link is raised directly; from a fake site the walker first steps
    /// (landing on a real site) and lowers the opposite-direction link
    /// there, which viewed from the walker's side is the same raise.
    /// Returns the crossed link's value before and after the step.
    pub fn raise_step(&mut self, lat: &mut Lattice, direction: &Direction) -> (links: (Link, Link))
        requires
            old(self).cur_loc.wf(),
            old(lat).wf(),
            old(self).cur_loc.size == old(lat).size,
        ensures
            final(self).start_loc == old(self).start_loc,
            final(self).cur_loc == spec_step(old(self).cur_loc, *direction),
            final(self).cur_loc.wf(),
            final(lat).wf(),
            final(lat).size == old(lat).size,
            links.0 == old(lat).spec_viewed_link(old(self).cur_loc, *direction),
            links.1 == links.0.spec_raise(),
            final(lat).number_filled_links == old(lat).number_filled_links + link_count_delta(
                links.0,
                links.1,
            ),
            final(lat).vertices@ == old(lat).vertices@.update(
                spec_vertex_index(old(lat).size, walk_touch_point(old(self).cur_loc, *direction)),
                with_link(
                    old(lat).vertices@[spec_vertex_index(
                        old(lat).size,
                        walk_touch_point(old(self).cur_loc, *direction),
                    )],
                    walk_touch_dir(old(self).cur_loc, *direction),
                    if spec_point_real(old(self).cur_loc.location) {
                        links.1
                    } else {
                        links.1.spec_flip()
                    },
                ),
            ),
    {
        let pre_raise_link: Link;
        let post_raise_link: Link;
        if lat.point_real(&self.cur_loc.location) {
            pre_raise_link = lat.get_link_from_point(&self.cur_loc.location, direction);
            post_raise_link = lat.out_raise_link(&self.cur_loc.location, direction);
            self.increment_cur_loc(direction);
        } else {
            proof {
                lemma_step_flips_parity(self.cur_loc, *direction);
            }
            self.increment_cur_loc(direction);
            let fliped_dir: Direction = direction.flip();
            pre_raise_link = lat.get_link_from_point(&self.cur_loc.location, &fliped_dir).flip();
            post_raise_link = lat.out_lower_link(&self.cur_loc.location, &fliped_dir).flip();
            proof {
                lemma_flip_lower_is_raise_of_flip(
                    old(lat).spec_link_at(self.cur_loc.location, fliped_dir),
                );
            }
        }
        (pre_raise_link, post_raise_link)
    }
}

/// Proposes ergodic updates of the Z3 string-net model: clockwise
/// plaquette raises and closed random-walk raises.  After a proposal,
/// `link_number_change` holds the net change in the filled-link count.
#[derive(Debug)]
pub struct Update {
    pub working_loc: BoundPoint,
    pub link_number_change: i64,
}

impl Update {
    /// By how much one raise step changed the number of filled links:
    /// an orientation switch counts 0, filling a blank link +1, blanking a
    /// filled one -1.  A link never maps to itself under raise or lower,
    /// so those transitions are excluded by precondition.
    pub fn find_increase_or_decrease(before_after_links: (Link, Link)) -> (r: i8)
        requires
            before_after_links.1 == before_after_links.0.spec_raise() || before_after_links.1
                == before_after_links.0.spec_lower(),
        ensures
            r as int == link_count_delta(before_after_links.0, before_after_links.1),
    {
        let (before_link, after_link): (Link, Link) = before_after_links;
        match before_link {
            Link::In => match after_link {
                Link::Blank => -1,
                Link::Out => 0,
                Link::In => {
                    proof {
                        assert(false);
                    }
                    0
                },
            },
            Link::Out => match after_link {
                Link::In => 0,
                Link::Blank => -1,
                Link::Out => {
                    proof {
                        assert(false);
                    }
                    0
                },
            },
            Link::Blank => match after_link {
                Link::In => 1,
                Link::Out => 1,
                Link::Blank => {
                    proof {
                        assert(false);
                    }
                    0
                },
            },
        }
    }

    /// Move the working location to a uniformly random lattice point.
    pub fn get_rand_point(&mut self)
        requires
            size_ok(old(self).working_loc.size),
        ensures
            final(self).working_loc.size == old(self).working_loc.size,
            final(self).working_loc.wf(),
            final(self).link_number_change == old(self).link_number_change,
    {
        let x: i64 = random_index_below(self.working_loc.size.x);
        let y: i64 = random_index_below(self.working_loc.size.y);
        self.working_loc.location = Point { x, y };
    }

    /// Propose a local plaquette move: from a random point, walk the
    /// 4-step clockwise loop N, E, S, W with the raising walker.  The
    /// walker provably returns to its starting point, and the running
    /// filled-link count tracks the move's net change.
    pub fn update(&mut self, lat: &mut Lattice)
        requires
            old(lat).wf(),
            old(self).working_loc.size == old(lat).size,
        ensures
            final(lat).wf(),
            final(lat).size == old(lat).size,
            final(self).working_loc.size == old(self).working_loc.size,
            final(lat).number_filled_links == old(lat).number_filled_links
                + final(self).link_number_change,
            final(self).working_loc.wf(),
            final(lat).vertices@ == spec_plaquette_vertices(
                old(lat).size,
                old(lat).vertices@,
                final(self).working_loc,
            ),
            flux_balanced(*old(lat)) ==> flux_balanced(*final(lat)),
    {
        self.get_rand_point();
        let mut z3string: Z3String = Z3String {
            start_loc: Point { x: self.working_loc.location.x, y: self.working_loc.location.y },
            cur_loc: BoundPoint {
                size: Point { x: self.working_loc.size.x, y: self.working_loc.size.y },
                location: Point { x: self.working_loc.location.x, y: self.working_loc.location.y },
            },
        };
        let ghost start_bound: BoundPoint = z3string.cur_loc;
        let mut totatal_link_number_change: i64 = 0;

        let ghost lat0 = *lat;
        let ghost loc0 = z3string.cur_loc;
        let before_after_links: (Link, Link) = z3string.raise_step(lat, &Direction::N);
        let ghost links_n = before_after_links;
        let number_increase_or_decrease: i8 = Update::find_increase_or_decrease(before_after_links);
        totatal_link_number_change = totatal_link_number_change + (number_increase_or_decrease as i64);

        let ghost lat1 = *lat;
        let ghost loc1 = z3string.cur_loc;
        let before_after_links: (Link, Link) = z3string.raise_step(lat, &Direction::E);
        let ghost links_e = before_after_links;
        let number_increase_or_decrease: i8 = Update::find_increase_or_decrease(before_after_links);
        totatal_link_number_change = totatal_link_number_change + (number_increase_or_decrease as i64);

        let ghost lat2 = *lat;
        let ghost loc2 = z3string.cur_loc;
        let before_after_links: (Link, Link) = z3string.raise_step(lat, &Direction::S);
        let ghost links_s = before_after_links;
        let number_increase_or_decrease: i8 = Update::find_increase_or_decrease(before_after_links);
        totatal_link_number_change = totatal_link_number_change + (number_increase_or_decrease as i64);

        let ghost lat3 = *lat;
        let ghost loc3 = z3string.cur_loc;
        let before_after_links: (Link, Link) = z3string.raise_step(lat, &Direction::W);
        let ghost links_w = before_after_links;
        let number_increase_or_decrease: i8 = Update::find_increase_or_decrease(before_after_links);
        totatal_link_number_change = totatal_link_number_change + (number_increase_or_decrease as i64);

        // The closed-loop invariant: the clockwise plaquette walk is back
        // at its starting point, statically rather than by a runtime check.
        proof {
            lemma_plaquette_walk_closes(start_bound);
        }
        assert(z3string.cur_loc == start_bound);
        assert(z3string.cur_loc.location == z3string.start_loc);
        // The four raise steps are exactly the plaquette raise at the drawn
        // base point.
        proof {
            assert(start_bound == self.working_loc);
            assert(lat1.vertices@ == spec_raise_step_vertices(
                lat0.size,
                lat0.vertices@,
                loc0,
                Direction::N,
            ));
            assert(lat2.vertices@ == spec_raise_step_vertices(
                lat1.size,
                lat1.vertices@,
                loc1,
                Direction::E,
            ));
            assert(lat3.vertices@ == spec_raise_step_vertices(
                lat2.size,
                lat2.vertices@,
                loc2,
                Direction::S,
            ));
            assert(lat.vertices@ == spec_raise_step_vertices(
                lat3.size,
                lat3.vertices@,
                loc3,
                Direction::W,
            ));
            assert(lat.vertices@ == spec_plaquette_vertices(
                lat0.size,
                lat0.vertices@,
                start_bound,
            ));
        }
        // A plaquette raise is a closed loop: it carries the flux deficit
        // around four sites and back, preserving flux balance.
        proof {
            if flux_balanced(lat0) {
                let s = start_bound.location;
                assert(flux_balanced_except(lat0, s, loc0.location));
                lemma_raise_step_moves_imbalance(lat0, lat1, loc0, Direction::N, links_n, s);
                lemma_raise_step_moves_imbalance(lat1, lat2, loc1, Direction::E, links_e, s);
                lemma_raise_step_moves_imbalance(lat2, lat3, loc2, Direction::S, links_s, s);
                lemma_raise_step_moves_imbalance(lat3, *lat, loc3, Direction::W, links_w, s);
                assert(flux_balanced_except(*lat, s, s));
            }
        }
        self.link_number_change = totatal_link_number_change;
    }

    /// Propose a random-walk move: from a random point, take raise steps
    /// in uniformly random directions until the walker returns to its
    /// starting point.  The walk length is unbounded and data-dependent; a
    /// very large step budget guards the loop, and exhausting it reports a
    /// fault instead of looping forever.  In every outcome the running
    /// filled-link count tracks the net change of the steps taken.
    pub fn random_walk_update(&mut self, lat: &mut Lattice) -> (r: Result<(), LatticeError>)
        requires
            old(lat).wf(),
            old(self).working_loc.size == old(lat).size,
        ensures
            final(lat).wf(),
            final(lat).size == old(lat).size,
            final(self).working_loc.size == old(self).working_loc.size,
            final(lat).number_filled_links == old(lat).number_filled_links
                + final(self).link_number_change,
            r is Err ==> r == Err::<(), LatticeError>(
                LatticeError::WalkUnfinished {
                    location: final(self).working_loc.location,
                    lattice_size: old(lat).size,
                },
            ),
            flux_balanced(*old(lat)) && r is Ok ==> flux_balanced(*final(lat)),
    {
        self.get_rand_point();
        let mut z3string: Z3String = Z3String {
            start_loc: Point { x: self.working_loc.location.x, y: self.working_loc.location.y },
            cur_loc: BoundPoint {
                size: Point { x: self.working_loc.size.x, y: self.working_loc.size.y },
                location: Point { x: self.working_loc.location.x, y: self.working_loc.location.y },
            },
        };
        let mut total_link_number_change: i64 = 0;
        let ghost start_count: int = lat.number_filled_links as int;
        proof {
            crate::datamodel::lattice::lemma_vertex_index_in_range(
                lat.size,
                Point { x: 0, y: 0 },
            );
            lemma_count_filled_bounds(lat.vertices@);
        }

        // Take the first step before the loop so that the current and
        // starting locations differ.
        let cur_direction: Direction = Direction::get_random_direction();
        let ghost lat_pre = *lat;
        let ghost loc_pre = z3string.cur_loc;
        let before_after_links: (Link, Link) = z3string.raise_step(lat, &cur_direction);
        let number_increase_or_decrease: i8 = Update::find_increase_or_decrease(before_after_links);
        proof {
            lemma_count_filled_bounds(lat.vertices@);
            if flux_balanced(*old(lat)) {
                assert(flux_balanced_except(lat_pre, z3string.start_loc, loc_pre.location));
                lemma_raise_step_moves_imbalance(
                    lat_pre,
                    *lat,
                    loc_pre,
                    cur_direction,
                    before_after_links,
                    z3string.start_loc,
                );
            }
        }
        total_link_number_change = total_link_number_change + (number_increase_or_decrease as i64);

        let mut fuel: u64 = 0xFFFF_FFFF_FFFF_FFFF;
        while !z3string.cur_loc.location_eq(&z3string.start_loc)
            invariant
                lat.wf(),
                lat.size == old(lat).size,
                z3string.cur_loc.wf(),
                z3string.cur_loc.size == lat.size,
                lat.vertices@.len() <= 0x8000_0000,
                0 <= start_count <= 4 * lat.vertices@.len(),
                start_count == old(lat).number_filled_links,
                total_link_number_change == lat.number_filled_links - start_count,
                self.working_loc.size == old(self).working_loc.size,
                z3string.start_loc == self.working_loc.location,
                0 <= z3string.start_loc.x < lat.size.x,
                0 <= z3string.start_loc.y < lat.size.y,
                flux_balanced(*old(lat)) ==> flux_balanced_except(
                    *lat,
                    z3string.start_loc,
                    z3string.cur_loc.location,
                ),
            decreases fuel,
        {
            if fuel == 0 {
                self.link_number_change = total_link_number_change;
                return Err(LatticeError::WalkUnfinished {
                    location: z3string.start_loc,
                    lattice_size: lat.size,
                });
            }
            fuel = fuel - 1;
            let cur_direction: Direction = Direction::get_random_direction();
            let ghost lat_pre = *lat;
            let ghost loc_pre = z3string.cur_loc;
            let before_after_links: (Link, Link) = z3string.raise_step(lat, &cur_direction);
            let number_increase_or_decrease: i8 = Update::find_increase_or_decrease(
                before_after_links,
            );
            proof {
                lemma_count_filled_bounds(lat.vertices@);
                if flux_balanced(*old(lat)) {
                    lemma_raise_step_moves_imbalance(
                        lat_pre,
                        *lat,
                        loc_pre,
                        cur_direction,
                        before_after_links,
                        z3string.start_loc,
                    );
                }
            }
            total_link_number_change = total_link_number_change + (number_increase_or_decrease
                as i64);
        }
        self.link_number_change = total_link_number_change;
        // The walker is back at its start, so the two flux corrections of
        // the open walk have cancelled.
        proof {
            if flux_balanced(*old(lat)) {
                assert(z3string.cur_loc.location == z3string.start_loc);
                assert(flux_balanced_except(*lat, z3string.start_loc, z3string.start_loc));
            }
        }
        Ok(())
    }

    /// Keep or roll back a proposed move: on `Reject` the lattice is
    /// restored in full from the snapshot taken before the proposal, on
    /// `Accept` it is left exactly as the move produced it.
    pub fn resolve_update(lat: &mut Lattice, original_lat: &Lattice, decision: &AcceptReject)
        ensures
            *decision is Accept ==> *final(lat) == *old(lat),
            *decision is Reject ==> final(lat).equiv(*original_lat),
    {
        match *decision {
            AcceptReject::Reject => lat.restore(original_lat),
            AcceptReject::Accept => (),
        }
    }
}

} // verus!
