//! The red hat boy of "Walk the Dog": his typestate machine, his sprite
//! sheet lookups and the collision boxes of the scene.

pub mod boy;
pub mod geometry;
pub mod laws;
pub mod machine;
pub mod platform;
pub mod sheet;
pub mod states;
