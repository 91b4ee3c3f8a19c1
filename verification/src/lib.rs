//! Regression checking for image-producing programs: load a manifest of
//! (reference, output) file pairs, compare each decoded pair byte-wise within
//! a fixed tolerance, and report the first failure in manifest order.

pub mod compare;
pub mod manifest;
pub mod orchestrate;
pub mod outcome;
pub mod render;
