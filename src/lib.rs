//! A tile-based movement puzzle: a player walks across a fixed grid of tiles
//! and may cross from one cell to the next only where both cells have a door
//! facing each other. Rotating a tile turns its doors, and turns the player
//! too when it stands on that tile.

pub mod direction;
pub mod fault;
pub mod grid;
pub mod player;
pub mod tile;
pub mod world;
