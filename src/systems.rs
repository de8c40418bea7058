//! What happens on each input event: the occupancy index and the movement rule.
pub mod occupancy;
pub mod player_input;
