pub mod common;
pub mod greedy;
