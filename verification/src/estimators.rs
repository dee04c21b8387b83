//! Observables computed from the lattice: cluster connectivity, winding
//! numbers, and the total filled-link count.  File output and floating-point
//! averaging live outside the library; these types expose the exact integer
//! quantities they are computed from.

pub mod cluster_size_estimator;
pub mod total_link_count_estimator;
pub mod winding_number_estimator;
