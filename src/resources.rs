use vstd::prelude::*;

verus! {

/// Whose turn it is; the map's tiles are spawned when the player's turn begins.
#[derive(Debug, Clone, Copy, Eq, PartialEq, Structural, Hash)]
pub enum TurnState {
    PlayerTurn,
}

/// Width of the screen in world units.
pub const SCREEN_WIDTH: i64 = 640;

/// Height of the screen in world units.
pub const SCREEN_HEIGHT: i64 = 480;

/// Side of one square tile in world units, and of one cell of the sprite sheet.
pub const SPRITE_SIZE: i64 = 16;

/// Offset of a tile's centre from its lower-left corner in world units.
pub const SPRITE_BUFFER: i64 = 8;

/// Columns (and rows) of the sprite sheet.
pub const SHEET_COLUMNS: usize = 16;

} // verus!
