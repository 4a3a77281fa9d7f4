//! The Thumb instruction forms: most are lowered to the ARM family that does
//! the same work.

pub mod alu;
pub mod branch;
pub mod load;
pub mod stack;
