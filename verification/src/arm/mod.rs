//! The ARM instruction families: their 32-bit encodings and their executors.

pub mod arithmetic;
pub mod branch;
pub mod halfword;
pub mod interrupt;
pub mod multiply;
pub mod transfer;
