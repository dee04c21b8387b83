//! Verified core of a Z3 string-net Monte Carlo simulation on a toroidal
//! lattice.
//!
//! The lattice stores one checkerboard sublattice of vertices; every edge of
//! the torus appears exactly once among the stored links.  On top of that
//! representation sit the raise/lower link state machine, the closed-loop
//! walker that generates Monte Carlo moves, the cluster-connectivity
//! traversal, and the winding-number computation.

pub mod datamodel;
pub mod errors;
pub mod estimators;
pub mod lattice_updates;
pub mod oio;
