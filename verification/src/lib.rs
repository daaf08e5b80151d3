//! Groups as a trait, with randomised trials of the group axioms and the
//! additive group of the 64-bit integers as an instance.

pub mod group;
