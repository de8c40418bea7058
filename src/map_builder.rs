//! Grid maps: their tiles, their generation, and the session that owns one.
pub mod counting;
pub mod gamemap;
pub mod map;
