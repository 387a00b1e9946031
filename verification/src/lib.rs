//! A falling-sand simulation engine: a dense 2-D grid of material cells,
//! advanced one generation per `step` by local neighbour-inspection rules.

pub mod grid;
pub mod input;
pub mod session;
pub mod tile;
pub mod tiles;
pub mod world;

pub use grid::{Grid, GridModel, WorldIter};
pub use session::{EditAction, UserState};
pub use tile::{Pos2i, Tile, TileType};
pub use world::World;
