//! Accumulates the total number of filled links over a series of
//! measurements.

use vstd::prelude::*;
use crate::datamodel::lattice::Lattice;
use crate::datamodel::lattice::count_filled_links;

verus! {

/// Running total of filled links summed over the measurements of one bin.
#[derive(Debug)]
pub struct TotalLinkCountEstimator {
    pub count: u64,
}

impl TotalLinkCountEstimator {
    pub fn new() -> (r: TotalLinkCountEstimator)
        ensures
            r.count == 0,
    {
        TotalLinkCountEstimator { count: 0 }
    }

    /// Add the lattice's current filled-link count to the running total.
    pub fn measure(&mut self, lat: &Lattice)
        requires
            lat.wf(),
            old(self).count + count_filled_links(lat.vertices@) <= u64::MAX,
        ensures
            final(self).count == old(self).count + count_filled_links(lat.vertices@),
    {
        let scan: u64 = lat.count_non_blank_links();
        self.count = self.count + scan;
    }

    /// Reset the running total before a new bin of measurements.
    pub fn clear(&mut self)
        ensures
            final(self).count == 0,
    {
        self.count = 0;
    }
}

} // verus!
