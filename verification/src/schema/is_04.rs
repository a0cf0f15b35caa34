//! Records of IS-04.

pub mod v1_0_x;
