//! Spatial core of a tile-based movement game: a generated grid map enclosed
//! by walls, an index of the cells that hold blocking occupants, and a
//! discrete, collision-aware movement rule for the player.
pub mod components;
pub mod map_builder;
pub mod resources;
pub mod systems;
