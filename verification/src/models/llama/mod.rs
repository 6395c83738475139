pub mod config;
pub mod model;
pub mod weights;
