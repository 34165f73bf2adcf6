//! Exact geometry and game rules for a small entity-component game.

pub mod baseball;
pub mod hello;
pub mod quad_mesh;
pub mod scalar;
