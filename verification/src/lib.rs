//! Verified frame, extent, tiling, capture and protocol logic of the Gravlume GPU renderer.

pub mod extent;
pub mod surface;
pub mod tiles;
pub mod progress;
pub mod capabilities;
pub mod errors;
pub mod budget;
pub mod frame;
pub mod capture;
pub mod timing;
pub mod renderer;
pub mod shader;
pub mod plan;
pub mod inspection;
pub mod benchmark;
