pub mod bvh;
pub mod config;
pub mod geometry;
pub mod hitable;
pub mod perlin;
pub mod permutation;
mod random;
pub mod render;
pub mod texture;
