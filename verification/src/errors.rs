//! Internal-fault error kind.
//!
//! Precondition violations are excluded statically by `requires` clauses, and
//! Monte Carlo rejection is a normal outcome, not an error.  What remains are
//! internal consistency faults that abort the current run, and configuration
//! problems reported before any simulation work begins.  Each fault carries
//! the diagnostic context of where it was detected.

use vstd::prelude::*;
use crate::datamodel::Direction;
use crate::datamodel::Point;

verus! {

/// A fault detected while operating on the lattice.
#[derive(Debug, Clone, Copy, Eq, PartialEq, Structural)]
pub enum LatticeError {
    /// The cluster traversal reached a vertex already assigned to a
    /// different cluster; the traversal visits one connected component per
    /// run, so this indicates a bug in move generation or coordinate
    /// arithmetic.
    ForeignCluster { location: Point, direction: Direction, lattice_size: Point },
    /// A vertex reached across a filled link reported no filled links of
    /// its own.
    MissingFilledLinks { location: Point, direction: Direction, lattice_size: Point },
    /// The winding sums along two parallel paths of the same axis disagree,
    /// breaking the flux-conservation self-check.
    WindingMismatch { lattice_size: Point },
    /// A random walk exhausted its step budget before returning to its
    /// starting point.
    WalkUnfinished { location: Point, lattice_size: Point },
}

impl LatticeError {
    /// A short human-readable name for the fault.
    pub fn describe(&self) -> (r: &'static str)
        ensures
            r@.len() > 0,
    {
        proof {
            reveal_strlit("cluster traversal reached a vertex of a different cluster");
            reveal_strlit("vertex reached across a filled link has no filled links");
            reveal_strlit("winding sums along parallel paths disagree");
            reveal_strlit("random walk did not return to its starting point");
        }
        match *self {
            LatticeError::ForeignCluster { .. } => "cluster traversal reached a vertex of a different cluster",
            LatticeError::MissingFilledLinks { .. } => "vertex reached across a filled link has no filled links",
            LatticeError::WindingMismatch { .. } => "winding sums along parallel paths disagree",
            LatticeError::WalkUnfinished { .. } => "random walk did not return to its starting point",
        }
    }
}

} // verus!
