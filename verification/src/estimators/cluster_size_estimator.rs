//! The cluster traversal engine: an explicit-stack depth-first search over
//! the graph of non-blank links, exposed as a resumable step-by-step state
//! machine, plus a run-to-completion driver that clusters the whole lattice.

use vstd::prelude::*;
use std::collections::HashMap;
use crate::datamodel::BoundPoint;
use crate::datamodel::Direction;
use crate::datamodel::Point;
use crate::datamodel::Vertex;
use crate::datamodel::cluster::decrement_location;
use crate::datamodel::cluster::directions_of_filled_links;
use crate::datamodel::cluster::filled_directions_of;
use crate::datamodel::cluster::increment_location;
use crate::datamodel::cluster::lemma_increment_then_decrement;
use crate::datamodel::cluster::spec_step;
use crate::datamodel::lattice::Lattice;
use crate::datamodel::size_ok;
use crate::errors::LatticeError;

verus! {

broadcast use vstd::std_specs::hash::group_hash_axioms;

/// Total number of sites of the lattice, both sublattices together.
pub open spec fn total_sites(size: Point) -> int {
    size.x * size.y
}

/// The key under which a site is recorded in the clustered map.
pub open spec fn spec_site_key(size: Point, p: Point) -> int {
    p.y * size.x + p.x
}

/// The materialized vertex of any site, real or fake.
pub open spec fn spec_viewed_vertex(lat: Lattice, loc: BoundPoint) -> Vertex {
    Vertex {
        n: lat.spec_viewed_link(loc, Direction::N),
        e: lat.spec_viewed_link(loc, Direction::E),
        s: lat.spec_viewed_link(loc, Direction::S),
        w: lat.spec_viewed_link(loc, Direction::W),
        xy: loc.location,
    }
}

/// The per-frame direction sequences held by a traversal stack.
pub open spec fn stack_views(stack: Seq<Vec<Direction>>) -> Seq<Seq<Direction>> {
    Seq::new(stack.len(), |i: int| stack[i]@)
}

/// Total number of directions left to try over all stack frames.
pub open spec fn stack_content(s: Seq<Seq<Direction>>) -> int
    decreases s.len(),
{
    if s.len() == 0 {
        0
    } else {
        stack_content(s.drop_last()) + s.last().len()
    }
}

proof fn lemma_content_nonneg(s: Seq<Seq<Direction>>)
    ensures
        stack_content(s) >= 0,
    decreases s.len(),
{
    if s.len() > 0 {
        lemma_content_nonneg(s.drop_last());
    }
}

proof fn lemma_content_push(s: Seq<Seq<Direction>>, x: Seq<Direction>)
    ensures
        stack_content(s.push(x)) == stack_content(s) + x.len(),
{
    assert(s.push(x).drop_last() =~= s);
    assert(s.push(x).last() == x);
}

proof fn lemma_content_update_last(s: Seq<Seq<Direction>>, x: Seq<Direction>)
    requires
        s.len() > 0,
    ensures
        stack_content(s.update(s.len() - 1, x)) == stack_content(s) - s.last().len() + x.len(),
{
    assert(s.update(s.len() - 1, x) =~= s.drop_last().push(x));
    lemma_content_push(s.drop_last(), x);
}

/// Site `p` is either assigned to a cluster or has no filled links.
pub open spec fn site_covered(est: ClusterSizeEstimator, lat: Lattice, p: Point) -> bool {
    ||| est.clustered@.contains_key(spec_site_key(lat.size, p) as u64)
    ||| filled_directions_of(
        spec_viewed_vertex(lat, BoundPoint { size: lat.size, location: p }),
    ).len() == 0
}

/// Termination measure of a traversal: claiming a site repays five units,
/// and every step consumes a frame direction, a walk entry, or the active
/// flag.
pub open spec fn traversal_measure(est: ClusterSizeEstimator) -> int {
    5 * (total_sites(est.lat.size) - est.clustered@.len()) + stack_content(
        stack_views(est.stack@),
    ) + est.walk_list@.len() + (if est.is_initialized {
        1int
    } else {
        0int
    })
}

/// The keys smaller than `n`.
pub open spec fn key_range(n: int) -> Set<u64> {
    Set::new(|k: u64| (k as int) < n)
}

proof fn lemma_key_range_len(n: int)
    requires
        0 <= n <= u64::MAX,
    ensures
        key_range(n).finite(),
        key_range(n).len() == n,
    decreases n,
{
    if n == 0 {
        assert(key_range(0) =~= Set::empty());
    } else {
        lemma_key_range_len(n - 1);
        assert(key_range(n) =~= key_range(n - 1).insert((n - 1) as u64));
        vstd::set::axiom_set_insert_len(key_range(n - 1), (n - 1) as u64);
    }
}

/// For an in-range site, the site key is in range and its arithmetic stays
/// small.
pub proof fn lemma_site_key_in_range(size: Point, p: Point)
    requires
        size_ok(size),
        0 <= p.x < size.x,
        0 <= p.y < size.y,
    ensures
        0 <= spec_site_key(size, p) < total_sites(size),
        0 <= p.y * size.x <= spec_site_key(size, p),
        total_sites(size) <= 0x1_0000_0000,
{
    assert(size.x * size.y <= 0x1_0000_0000) by (nonlinear_arith)
        requires
            2 <= size.x <= 0x10000,
            2 <= size.y <= 0x10000,
    ;
    assert(0 <= p.y * size.x) by (nonlinear_arith)
        requires
            0 <= p.y,
            0 <= size.x,
    ;
    assert(p.y * size.x + p.x < size.x * size.y) by (nonlinear_arith)
        requires
            0 <= p.x < size.x,
            0 <= p.y < size.y,
    ;
}

/// The key of an in-range site.
fn site_key(size: Point, p: &Point) -> (r: u64)
    requires
        size_ok(size),
        0 <= p.x < size.x,
        0 <= p.y < size.y,
    ensures
        r as int == spec_site_key(size, *p),
        (r as int) < total_sites(size),
{
    proof {
        lemma_site_key_in_range(size, *p);
    }
    (p.y * size.x + p.x) as u64
}

/// The status a traversal step reports.
#[derive(Debug, Clone, Copy, Eq, PartialEq, Structural)]
pub enum ClusterStepStatus {
    /// A new vertex was claimed for the cluster being grown.
    Exploring,
    /// The step walked back: a closed loop or an exhausted frame.
    Backtracking,
    /// The cluster is fully explored.
    Done,
}

/// A snapshot of the traversal for step-by-step display.
pub struct ClusterSizeEstimatorDisplay {
    pub local_text: String,
    pub tmp: bool,
    pub cluster_size_est_current: ClusterSizeEstimator,
}

/// Resumable cluster traversal state.
///
/// `stack` holds, per path vertex, the directions not yet tried;
/// `walk_list` the directions actually taken; `clustered` maps each visited
/// site's key to its cluster id.  One traversal grows the single cluster
/// numbered `available_cluster_num`, seeded by
/// `init_calculation_location`.
#[derive(Debug, Clone)]
pub struct ClusterSizeEstimator {
    pub clustered: HashMap<u64, u64>,
    pub cluster_covered_points: Vec<BoundPoint>,
    pub stack: Vec<Vec<Direction>>,
    pub walk_list: Vec<Direction>,
    pub current_location: BoundPoint,
    pub available_cluster_num: u64,
    pub is_initialized: bool,
    pub starting_location: BoundPoint,
    pub lat: Lattice,
}

impl ClusterSizeEstimator {
    /// The part of well-formedness that survives an aborted step: a valid
    /// owned lattice copy, in-range locations and keys, and a cluster id no
    /// larger than the number of clustered sites.
    pub open spec fn wf_core(self) -> bool {
        &&& self.lat.wf()
        &&& self.current_location.wf()
        &&& self.current_location.size == self.lat.size
        &&& self.starting_location.wf()
        &&& self.starting_location.size == self.lat.size
        &&& forall|k: u64|
            self.clustered@.dom().contains(k) ==> (k as int) < total_sites(self.lat.size)
        &&& self.available_cluster_num <= self.clustered@.len()
    }

    /// Well-formedness of the traversal state: additionally, an active
    /// traversal holds one more stack frame than steps taken.
    pub open spec fn wf(self) -> bool {
        &&& self.wf_core()
        &&& (self.is_initialized ==> self.stack@.len() == self.walk_list@.len() + 1)
    }

    /// The size of the owned lattice copy.
    pub open spec fn spec_lat_size(self) -> Point {
        self.lat.size
    }

    /// A clustered map never holds more sites than the lattice has.
    pub proof fn lemma_clustered_card(self)
        requires
            self.wf_core(),
        ensures
            self.clustered@.len() <= total_sites(self.lat.size),
    {
        lemma_site_key_in_range(self.lat.size, Point { x: 0, y: 0 });
        lemma_key_range_len(total_sites(self.lat.size));
        assert(self.clustered@.dom().subset_of(key_range(total_sites(self.lat.size))));
        vstd::set_lib::lemma_len_subset(
            self.clustered@.dom(),
            key_range(total_sites(self.lat.size)),
        );
    }

    /// A fresh, uninitialized traversal over a copy of `lat`.
    pub fn new(lat: &Lattice) -> (r: ClusterSizeEstimator)
        requires
            lat.wf(),
        ensures
            r.wf(),
            !r.is_initialized,
            r.clustered@ == Map::<u64, u64>::empty(),
            r.cluster_covered_points@.len() == 0,
            r.stack@.len() == 0,
            r.walk_list@.len() == 0,
            r.current_location == (BoundPoint { size: lat.size, location: Point { x: 0, y: 0 } }),
            r.starting_location == (BoundPoint { size: lat.size, location: Point { x: 0, y: 0 } }),
            r.available_cluster_num == 0,
            r.spec_lat_size() == lat.size,
            r.lat.equiv(*lat),
    {
        ClusterSizeEstimator {
            clustered: HashMap::new(),
            cluster_covered_points: Vec::new(),
            stack: Vec::new(),
            walk_list: Vec::new(),
            current_location: BoundPoint {
                size: Point { x: lat.size.x, y: lat.size.y },
                location: Point { x: 0, y: 0 },
            },
            available_cluster_num: 0,
            is_initialized: false,
            starting_location: BoundPoint {
                size: Point { x: lat.size.x, y: lat.size.y },
                location: Point { x: 0, y: 0 },
            },
            lat: lat.duplicate(),
        }
    }

    /// Whether the given location has been assigned to a cluster.
    pub fn is_clustered(&self, loc: &BoundPoint) -> (r: bool)
        requires
            loc.wf(),
        ensures
            r == self.clustered@.contains_key(spec_site_key(loc.size, loc.location) as u64),
    {
        let key: u64 = site_key(loc.size, &loc.location);
        self.clustered.contains_key(&key)
    }

    /// How many sites have been assigned to a cluster.
    pub fn clustered_len(&self) -> (r: usize)
        ensures
            r == self.clustered@.len(),
    {
        self.clustered.len()
    }

    /// Seed a traversal at `point`: claim it for the active cluster, push
    /// its filled directions as the first frame, and record a copy of the
    /// lattice to walk on.
    pub fn init_calculation_location(&mut self, point: Point, lat: &Lattice)
        requires
            lat.wf(),
            0 <= point.x < lat.size.x,
            0 <= point.y < lat.size.y,
            old(self).stack@.len() == 0,
            old(self).walk_list@.len() == 0,
            old(self).available_cluster_num <= old(self).clustered@.len(),
            forall|k: u64|
                old(self).clustered@.dom().contains(k) ==> (k as int) < total_sites(lat.size),
        ensures
            final(self).wf(),
            final(self).is_initialized,
            final(self).spec_lat_size() == lat.size,
            final(self).lat.equiv(*lat),
            final(self).current_location == (BoundPoint { size: lat.size, location: point }),
            final(self).starting_location == (BoundPoint { size: lat.size, location: point }),
            final(self).clustered@ == old(self).clustered@.insert(
                spec_site_key(lat.size, point) as u64,
                old(self).available_cluster_num,
            ),
            final(self).available_cluster_num == old(self).available_cluster_num,
            final(self).walk_list@ == old(self).walk_list@,
            stack_views(final(self).stack@) == stack_views(old(self).stack@).push(
                filled_directions_of(
                    spec_viewed_vertex(
                        *lat,
                        BoundPoint { size: lat.size, location: point },
                    ),
                ),
            ),
            final(self).cluster_covered_points@ == old(self).cluster_covered_points@.push(
                BoundPoint { size: lat.size, location: point },
            ),
    {
        proof {
            lemma_site_key_in_range(lat.size, point);
        }
        self.current_location = BoundPoint {
            size: Point { x: lat.size.x, y: lat.size.y },
            location: point,
        };
        let key: u64 = site_key(lat.size, &point);
        let ghost pre_clustered = self.clustered@;
        self.clustered.insert(key, self.available_cluster_num);
        proof {
            assert(pre_clustered.dom().finite());
            vstd::set::axiom_set_insert_len(pre_clustered.dom(), key);
            assert(self.clustered@.dom() =~= pre_clustered.dom().insert(key));
        }
        self.starting_location = BoundPoint {
            size: Point { x: lat.size.x, y: lat.size.y },
            location: point,
        };
        let vertex: Vertex = lat.get_vertex_from_point(&self.current_location);
        let vertex_available: Vec<Direction> = match directions_of_filled_links(&vertex) {
            Some(to_return_directions) => to_return_directions,
            None => Vec::new(),
        };
        let ghost pre_stack = self.stack@;
        self.stack.push(vertex_available);
        proof {
            assert(stack_views(self.stack@) =~= stack_views(pre_stack).push(
                filled_directions_of(
                    spec_viewed_vertex(*lat, BoundPoint { size: lat.size, location: point }),
                ),
            ));
        }
        self.cluster_covered_points.push(self.current_location);
        self.is_initialized = true;
        self.lat = lat.duplicate();
    }

    /// One step of the traversal.
    ///
    /// Pop the top frame.  If it still holds a direction, take it: step
    /// there, push the shortened frame back, and record the step in the
    /// walk list.  An unvisited vertex is claimed for the active cluster
    /// and its filled directions become a new frame (`Exploring`); a vertex
    /// of the same cluster closes a loop, so the step is walked back
    /// (`Backtracking`); a vertex of a different cluster is an internal
    /// fault, as is a claimed vertex without filled links.  An empty frame
    /// walks back one step, and with nothing left to walk back the cluster
    /// is fully explored (`Done`).
    pub fn step(&mut self) -> (r: Result<ClusterStepStatus, LatticeError>)
        requires
            old(self).wf(),
            old(self).is_initialized,
        ensures
            final(self).wf_core(),
            r is Ok ==> final(self).wf(),
            final(self).lat == old(self).lat,
            final(self).available_cluster_num == old(self).available_cluster_num,
            final(self).starting_location == old(self).starting_location,
            final(self).cluster_covered_points@ == old(self).cluster_covered_points@,
            forall|k: u64|
                old(self).clustered@.contains_key(k) ==> final(self).clustered@.contains_key(k)
                    && final(self).clustered@[k] == old(self).clustered@[k],
            final(self).is_initialized == !(r == Ok::<ClusterStepStatus, LatticeError>(
                ClusterStepStatus::Done,
            )),
            ({
                let frame = old(self).stack@.last()@;
                let views = stack_views(old(self).stack@);
                if frame.len() == 0 && old(self).walk_list@.len() == 0 {
                    &&& r == Ok::<ClusterStepStatus, LatticeError>(ClusterStepStatus::Done)
                    &&& stack_views(final(self).stack@) == views.drop_last()
                    &&& final(self).walk_list@ == old(self).walk_list@
                    &&& final(self).clustered@ == old(self).clustered@
                    &&& final(self).current_location == old(self).current_location
                } else if frame.len() == 0 {
                    &&& r == Ok::<ClusterStepStatus, LatticeError>(ClusterStepStatus::Backtracking)
                    &&& stack_views(final(self).stack@) == views.drop_last()
                    &&& final(self).walk_list@ == old(self).walk_list@.drop_last()
                    &&& final(self).clustered@ == old(self).clustered@
                    &&& final(self).current_location == spec_step(
                        old(self).current_location,
                        old(self).walk_list@.last().spec_flip(),
                    )
                } else {
                    let d = frame.last();
                    let stepped = spec_step(old(self).current_location, d);
                    let k = spec_site_key(old(self).lat.size, stepped.location) as u64;
                    let popped_views = views.update(views.len() - 1, frame.drop_last());
                    if !old(self).clustered@.contains_key(k) {
                        let dirs = filled_directions_of(
                            spec_viewed_vertex(old(self).lat, stepped),
                        );
                        &&& final(self).clustered@ == old(self).clustered@.insert(
                            k,
                            old(self).available_cluster_num,
                        )
                        &&& final(self).walk_list@ == old(self).walk_list@.push(d)
                        &&& final(self).current_location == stepped
                        &&& if dirs.len() == 0 {
                            &&& r == Err::<ClusterStepStatus, LatticeError>(
                                LatticeError::MissingFilledLinks {
                                    location: stepped.location,
                                    direction: d,
                                    lattice_size: old(self).lat.size,
                                },
                            )
                            &&& stack_views(final(self).stack@) == popped_views
                        } else {
                            &&& r == Ok::<ClusterStepStatus, LatticeError>(
                                ClusterStepStatus::Exploring,
                            )
                            &&& stack_views(final(self).stack@) == popped_views.push(dirs)
                        }
                    } else if old(self).clustered@[k] == old(self).available_cluster_num {
                        &&& r == Ok::<ClusterStepStatus, LatticeError>(
                            ClusterStepStatus::Backtracking,
                        )
                        &&& stack_views(final(self).stack@) == popped_views
                        &&& final(self).walk_list@ == old(self).walk_list@
                        &&& final(self).clustered@ == old(self).clustered@
                        &&& final(self).current_location == old(self).current_location
                    } else {
                        &&& r == Err::<ClusterStepStatus, LatticeError>(
                            LatticeError::ForeignCluster {
                                location: stepped.location,
                                direction: d,
                                lattice_size: old(self).lat.size,
                            },
                        )
                        &&& stack_views(final(self).stack@) == popped_views
                        &&& final(self).walk_list@ == old(self).walk_list@.push(d)
                        &&& final(self).clustered@ == old(self).clustered@
                        &&& final(self).current_location == stepped
                    }
                }
            }),
    {
        let ghost pre = *old(self);
        let mut filled_directions: Vec<Direction> = match self.stack.pop() {
            Some(to_return_directions) => to_return_directions,
            None => {
                proof {
                    assert(false);
                }
                Vec::new()
            },
        };
        proof {
            assert(stack_views(self.stack@) =~= stack_views(pre.stack@).drop_last());
        }
        if filled_directions.len() == 0 {
            match self.walk_list.pop() {
                Some(reverse_step_dir) => {
                    self.current_location = decrement_location(
                        self.current_location,
                        &reverse_step_dir,
                    );
                    Ok(ClusterStepStatus::Backtracking)
                },
                None => {
                    // The stack is empty once this frame is gone, so the
                    // cluster has been fully explored.
                    self.is_initialized = false;
                    Ok(ClusterStepStatus::Done)
                },
            }
        } else {
            let direction: Direction = match filled_directions.pop() {
                Some(to_return_direction) => to_return_direction,
                None => {
                    proof {
                        assert(false);
                    }
                    Direction::N
                },
            };
            let ghost loc_before = self.current_location;
            self.stack.push(filled_directions);
            proof {
                assert(stack_views(self.stack@) =~= stack_views(pre.stack@).update(
                    stack_views(pre.stack@).len() - 1,
                    pre.stack@.last()@.drop_last(),
                ));
            }
            self.current_location = increment_location(self.current_location, &direction);
            self.walk_list.push(direction);
            let key: u64 = site_key(self.lat.size, &self.current_location.location);
            if self.clustered.contains_key(&key) {
                let cur_loc_cluster_num: u64 = match self.clustered.get(&key) {
                    Some(to_return_cluster_num) => *to_return_cluster_num,
                    None => {
                        proof {
                            assert(false);
                        }
                        0
                    },
                };
                if cur_loc_cluster_num == self.available_cluster_num {
                    // Loop closure inside the active cluster: walk the step
                    // back.
                    let last_direction: Direction = match self.walk_list.pop() {
                        Some(to_return_direction) => to_return_direction,
                        None => {
                            proof {
                                assert(false);
                            }
                            Direction::N
                        },
                    };
                    self.current_location = decrement_location(
                        self.current_location,
                        &last_direction,
                    );
                    proof {
                        lemma_increment_then_decrement(loc_before, direction);
                        assert(self.walk_list@ =~= pre.walk_list@);
                    }
                    Ok(ClusterStepStatus::Backtracking)
                } else {
                    Err(LatticeError::ForeignCluster {
                        location: self.current_location.location,
                        direction,
                        lattice_size: self.lat.size,
                    })
                }
            } else {
                let ghost pre_clustered = self.clustered@;
                self.clustered.insert(key, self.available_cluster_num);
                proof {
                    assert(pre_clustered.dom().finite());
                    vstd::set::axiom_set_insert_len(pre_clustered.dom(), key);
                    assert(self.clustered@.dom() =~= pre_clustered.dom().insert(key));
                }
                let vertex: Vertex = self.lat.get_vertex_from_point(&self.current_location);
                match directions_of_filled_links(&vertex) {
                    Some(to_return_directions) => {
                        let ghost mid_stack = self.stack@;
                        self.stack.push(to_return_directions);
                        proof {
                            assert(stack_views(self.stack@) =~= stack_views(mid_stack).push(
                                filled_directions_of(spec_viewed_vertex(pre.lat, self.current_location)),
                            ));
                        }
                        Ok(ClusterStepStatus::Exploring)
                    },
                    None => Err(LatticeError::MissingFilledLinks {
                        location: self.current_location.location,
                        direction,
                        lattice_size: self.lat.size,
                    }),
                }
            }
        }
    }

    /// Cluster the whole lattice: scan every site, skip those already
    /// clustered, and run a traversal to completion from every unclustered
    /// seed with at least one filled link, giving each cluster a fresh id.
    /// On success, every site is either clustered or has no filled links,
    /// the traversal state is fully retired, and every site claimed by this
    /// run carries an id between the old and the final fresh id.  A fault
    /// reports the exact inconsistency found: a reached site recorded under
    /// another cluster's id, or a claimed site without filled links.
    pub fn cluster_whole_lattice(&mut self, lat: &Lattice) -> (r: Result<(), LatticeError>)
        requires
            lat.wf(),
            old(self).wf(),
            !old(self).is_initialized,
            old(self).stack@.len() == 0,
            old(self).walk_list@.len() == 0,
            old(self).spec_lat_size() == lat.size,
        ensures
            final(self).wf_core(),
            r is Ok ==> final(self).wf() && !final(self).is_initialized,
            r is Ok ==> final(self).stack@.len() == 0 && final(self).walk_list@.len() == 0,
            final(self).available_cluster_num >= old(self).available_cluster_num,
            forall|k: u64|
                (#[trigger] old(self).clustered@.contains_key(k))
                    ==> final(self).clustered@.contains_key(k)
                    && final(self).clustered@[k] == old(self).clustered@[k],
            forall|k: u64|
                (#[trigger] final(self).clustered@.contains_key(k))
                    && !old(self).clustered@.contains_key(k)
                    ==> old(self).available_cluster_num <= final(self).clustered@[k]
                    <= final(self).available_cluster_num,
            r is Ok ==> forall|k: u64|
                (#[trigger] final(self).clustered@.contains_key(k))
                    && !old(self).clustered@.contains_key(k) ==> final(self).clustered@[k]
                    < final(self).available_cluster_num,
            r is Ok ==> forall|p: Point|
                0 <= p.x < lat.size.x && 0 <= p.y < lat.size.y ==> #[trigger] site_covered(
                    *final(self),
                    *lat,
                    p,
                ),
            (match r {
                Err(LatticeError::ForeignCluster { location, lattice_size, .. }) => {
                    &&& lattice_size == lat.size
                    &&& final(self).is_initialized
                    &&& final(self).clustered@.contains_key(
                        spec_site_key(lat.size, location) as u64,
                    )
                    &&& final(self).clustered@[spec_site_key(lat.size, location) as u64]
                        != final(self).available_cluster_num
                },
                Err(LatticeError::MissingFilledLinks { location, lattice_size, .. }) => {
                    &&& lattice_size == lat.size
                    &&& final(self).is_initialized
                    &&& final(self).clustered@.contains_key(
                        spec_site_key(lat.size, location) as u64,
                    )
                    &&& filled_directions_of(
                        spec_viewed_vertex(
                            final(self).lat,
                            BoundPoint { size: lat.size, location },
                        ),
                    ).len() == 0
                },
                Err(_) => false,
                Ok(_) => true,
            }),
    {
        let mut i: i64 = 0;
        while i < lat.size.x
            invariant
                lat.wf(),
                self.wf(),
                !self.is_initialized,
                self.stack@.len() == 0,
                self.walk_list@.len() == 0,
                self.spec_lat_size() == lat.size,
                0 <= i <= lat.size.x,
                self.available_cluster_num >= old(self).available_cluster_num,
                forall|k: u64|
                    (#[trigger] old(self).clustered@.contains_key(k))
                        ==> self.clustered@.contains_key(k)
                        && self.clustered@[k] == old(self).clustered@[k],
                forall|k: u64|
                    (#[trigger] self.clustered@.contains_key(k))
                        && !old(self).clustered@.contains_key(k)
                        ==> old(self).available_cluster_num <= self.clustered@[k]
                        < self.available_cluster_num,
                forall|p: Point|
                    0 <= p.x < i && 0 <= p.y < lat.size.y ==> #[trigger] site_covered(
                        *self,
                        *lat,
                        p,
                    ),
            decreases lat.size.x - i,
        {
            let mut j: i64 = 0;
            while j < lat.size.y
                invariant
                    lat.wf(),
                    self.wf(),
                    !self.is_initialized,
                    self.stack@.len() == 0,
                    self.walk_list@.len() == 0,
                    self.spec_lat_size() == lat.size,
                    0 <= i < lat.size.x,
                    0 <= j <= lat.size.y,
                    self.available_cluster_num >= old(self).available_cluster_num,
                    forall|k: u64|
                        (#[trigger] old(self).clustered@.contains_key(k))
                            ==> self.clustered@.contains_key(k)
                            && self.clustered@[k] == old(self).clustered@[k],
                    forall|k: u64|
                        (#[trigger] self.clustered@.contains_key(k))
                            && !old(self).clustered@.contains_key(k)
                            ==> old(self).available_cluster_num <= self.clustered@[k]
                            < self.available_cluster_num,
                    forall|p: Point|
                        0 <= p.x < i && 0 <= p.y < lat.size.y ==> #[trigger] site_covered(
                            *self,
                            *lat,
                            p,
                        ),
                    forall|p: Point|
                        p.x == i && 0 <= p.y < j ==> #[trigger] site_covered(*self, *lat, p),
                decreases lat.size.y - j,
            {
                let cur_point: Point = Point::new(i, j);
                let key: u64 = site_key(lat.size, &cur_point);
                let ghost cur_bound = BoundPoint { size: lat.size, location: cur_point };
                if self.clustered.contains_key(&key) {
                    // Already part of a cluster; nothing to do.
                } else {
                    let bound: BoundPoint = BoundPoint {
                        size: Point { x: lat.size.x, y: lat.size.y },
                        location: cur_point,
                    };
                    let vertex: Vertex = lat.get_vertex_from_point(&bound);
                    proof {
                        assert(vertex == spec_viewed_vertex(*lat, cur_bound));
                    }
                    match directions_of_filled_links(&vertex) {
                        Some(_) => {
                            let ghost before_init = *self;
                            self.init_calculation_location(cur_point, lat);
                            proof {
                                assert(before_init.clustered@.dom().finite());
                                vstd::set::axiom_set_insert_len(before_init.clustered@.dom(), key);
                                assert(self.clustered@.dom() =~= before_init.clustered@.dom()
                                    .insert(key));
                                self.lemma_clustered_card();
                                lemma_content_nonneg(stack_views(self.stack@));
                                assert forall|p: Point|
                                    0 <= p.x < i && 0 <= p.y < lat.size.y implies #[trigger]
                                site_covered(*self, *lat, p) by {
                                    assert(site_covered(before_init, *lat, p));
                                };
                                assert forall|p: Point| p.x == i && 0 <= p.y < j implies #[trigger]
                                site_covered(*self, *lat, p) by {
                                    assert(site_covered(before_init, *lat, p));
                                };
                            }
                            while self.is_initialized
                                invariant
                                    lat.wf(),
                                    self.wf(),
                                    self.spec_lat_size() == lat.size,
                                    !self.is_initialized ==> self.stack@.len() == 0
                                        && self.walk_list@.len() == 0,
                                    self.available_cluster_num + 1 <= self.clustered@.len(),
                                    self.clustered@.len() <= total_sites(lat.size),
                                    stack_content(stack_views(self.stack@)) >= 0,
                                    self.clustered@.contains_key(
                                        spec_site_key(lat.size, cur_point) as u64,
                                    ),
                                    0 <= i < lat.size.x,
                                    0 <= j < lat.size.y,
                                    self.available_cluster_num
                                        >= old(self).available_cluster_num,
                                    forall|k: u64|
                                        (#[trigger] old(self).clustered@.contains_key(k))
                                            ==> self.clustered@.contains_key(k)
                                            && self.clustered@[k] == old(self).clustered@[k],
                                    forall|k: u64|
                                        (#[trigger] self.clustered@.contains_key(k))
                                            && !old(self).clustered@.contains_key(k)
                                            ==> old(self).available_cluster_num
                                            <= self.clustered@[k] <= self.available_cluster_num,
                                    forall|p: Point|
                                        0 <= p.x < i && 0 <= p.y < lat.size.y
                                            ==> #[trigger] site_covered(*self, *lat, p),
                                    forall|p: Point|
                                        p.x == i && 0 <= p.y < j ==> #[trigger] site_covered(
                                            *self,
                                            *lat,
                                            p,
                                        ),
                                decreases traversal_measure(*self),
                            {
                                let ghost pre = *self;
                                let step_result: Result<ClusterStepStatus, LatticeError> =
                                    self.step();
                                proof {
                                    let views = stack_views(pre.stack@);
                                    let frame = pre.stack@.last()@;
                                    lemma_content_nonneg(stack_views(self.stack@));
                                    lemma_content_nonneg(views);
                                    if frame.len() == 0 {
                                        assert(stack_content(views) == stack_content(
                                            views.drop_last(),
                                        ) + frame.len());
                                    } else {
                                        let d = frame.last();
                                        let stepped = spec_step(pre.current_location, d);
                                        let k = spec_site_key(
                                            pre.lat.size,
                                            stepped.location,
                                        ) as u64;
                                        let popped = views.update(
                                            views.len() - 1,
                                            frame.drop_last(),
                                        );
                                        lemma_content_update_last(views, frame.drop_last());
                                        if !pre.clustered@.contains_key(k) {
                                            let dirs = filled_directions_of(
                                                spec_viewed_vertex(pre.lat, stepped),
                                            );
                                            assert(dirs.len() <= 4);
                                            assert(pre.clustered@.dom().finite());
                                            vstd::set::axiom_set_insert_len(
                                                pre.clustered@.dom(),
                                                k,
                                            );
                                            assert(self.clustered@.dom()
                                                =~= pre.clustered@.dom().insert(k));
                                            if dirs.len() != 0 {
                                                lemma_content_push(popped, dirs);
                                            }
                                        }
                                    }
                                    if self.wf_core() {
                                        self.lemma_clustered_card();
                                    }
                                    assert forall|p: Point|
                                        0 <= p.x < i && 0 <= p.y < lat.size.y implies #[trigger]
                                    site_covered(*self, *lat, p) by {
                                        assert(site_covered(pre, *lat, p));
                                        let kp = spec_site_key(lat.size, p) as u64;
                                        if pre.clustered@.contains_key(kp) {
                                            assert(self.clustered@.contains_key(kp));
                                        }
                                    };
                                    assert forall|p: Point|
                                        p.x == i && 0 <= p.y < j implies #[trigger] site_covered(
                                        *self,
                                        *lat,
                                        p,
                                    ) by {
                                        assert(site_covered(pre, *lat, p));
                                        let kp = spec_site_key(lat.size, p) as u64;
                                        if pre.clustered@.contains_key(kp) {
                                            assert(self.clustered@.contains_key(kp));
                                        }
                                    };
                                }
                                match step_result {
                                    Ok(_) => (),
                                    Err(e) => {
                                        return Err(e);
                                    },
                                }
                            }
                            proof {
                                self.lemma_clustered_card();
                                lemma_site_key_in_range(lat.size, Point { x: 0, y: 0 });
                            }
                            let ghost after_traversal = *self;
                            // The traversal is complete; the next cluster
                            // gets a fresh, unused id.
                            self.available_cluster_num = self.available_cluster_num + 1;
                            proof {
                                assert(self.clustered@ == after_traversal.clustered@);
                                assert forall|p: Point|
                                    0 <= p.x < i && 0 <= p.y < lat.size.y implies #[trigger]
                                site_covered(*self, *lat, p) by {
                                    assert(site_covered(after_traversal, *lat, p));
                                };
                                assert forall|p: Point| p.x == i && 0 <= p.y < j implies #[trigger]
                                site_covered(*self, *lat, p) by {
                                    assert(site_covered(after_traversal, *lat, p));
                                };
                            }
                        },
                        None => {
                            // A vertex without filled links belongs to no
                            // cluster.
                        },
                    }
                }
                proof {
                    assert(site_covered(*self, *lat, cur_point));
                    assert forall|p: Point| p.x == i && 0 <= p.y < j + 1 implies #[trigger]
                    site_covered(*self, *lat, p) by {
                        if p.y < j {
                            assert(site_covered(*self, *lat, p));
                        } else {
                            assert(p == cur_point);
                        }
                    };
                }
                j = j + 1;
            }
            proof {
                assert forall|p: Point|
                    0 <= p.x < i + 1 && 0 <= p.y < lat.size.y implies #[trigger] site_covered(
                    *self,
                    *lat,
                    p,
                ) by {
                    assert(site_covered(*self, *lat, p));
                };
            }
            i = i + 1;
        }
        Ok(())
    }

    /// A display snapshot of the current traversal state.
    pub fn display(&self, local_text: String) -> ClusterSizeEstimatorDisplay {
        ClusterSizeEstimatorDisplay {
            local_text,
            tmp: true,
            cluster_size_est_current: self.clone(),
        }
    }
}

} // verus!
