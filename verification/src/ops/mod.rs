pub mod embedding;
pub mod linear;
pub mod rms_norm;
pub mod rope;
pub mod sdpa;
pub mod shape;
