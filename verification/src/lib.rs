//! Recursive binary search over sorted `u32` sequences, verified, together
//! with a seed-driven randomized test harness that checks the search against
//! a linear-scan oracle.

pub mod harness;
pub mod random;
pub mod search;
pub mod sorting;
