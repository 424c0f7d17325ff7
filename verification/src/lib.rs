//! Fixed-step integration of point masses under mutual Newtonian gravitation.
//!
//! The library is parametric in the numbers it computes with: a
//! [`vector::Vector`] supplies the displacement arithmetic and the real
//! numbers that go with it. The order of the kinematic update and the force
//! pass, the order of the pairwise summation, the tick budget, the checks on a
//! configuration and the reading of body rows are fixed and proved here.

pub mod vector;
pub mod units;
pub mod row;
pub mod body;
pub mod simulate;
