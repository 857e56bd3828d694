//! Core of a small 3D racing engine: an entity-component world, the systems
//! that act on it, mesh data for the renderer, the debug overlay's state and
//! the demo scene.
//!
//! Real-valued quantities (positions, colours, angles, frame rates) are held
//! as their IEEE-754 bit patterns; the float arithmetic on them happens in the
//! application around this library.

pub mod bits;
pub mod ecs;
pub mod game;
pub mod render;
pub mod text;
pub mod ui;
