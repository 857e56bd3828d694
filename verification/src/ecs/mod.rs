//! Entity-component world and its systems.

pub mod components;
pub mod systems;
pub mod world;
