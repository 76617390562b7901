//! A world of point masses under mutual gravity: the live bodies and their
//! snapshot, the two-phase simulation step, and the run/pause controls.

pub mod control;
pub mod ids;
pub mod laws;
pub mod vector;
pub mod world;
