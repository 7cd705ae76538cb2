//! A typed, verified model of CPU-identification data.
//!
//! Raw CPUID queries return flat quadruples of 32-bit registers. This crate
//! gives them structure in three layers: checked access to single bits and
//! bit spans inside a fixed-width register (`bitview`), named flag and range
//! schemas over one register with set algebra (`register`), and a catalog
//! driven decoder from the flat record sequence (`raw`) into a nested
//! model (`model`, `decode`) with a leaf-by-leaf compatibility verdict
//! (`compat`).

pub mod bitview;
pub mod register;
pub mod raw;
pub mod model;
pub mod decode;
pub mod compat;
