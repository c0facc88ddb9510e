//! The derivatives segment.

pub mod model;
