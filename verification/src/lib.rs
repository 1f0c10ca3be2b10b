pub mod config;
pub mod geometry;
pub mod machine;
pub mod props;
mod rng;
pub mod target;
