//! Navigation agents on integer world coordinates: commanding them toward
//! destinations and moving them along the paths a navigation engine hands back.

pub mod geometry;
pub mod agent;
pub mod systems;
