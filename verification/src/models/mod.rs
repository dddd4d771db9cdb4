//! The records of the laboratory instruments, each with its table of
//! predicates.

pub mod enums;
pub mod base;
pub mod bravo;
pub mod synth;
