//! The cell value types of the simulation: a material kind, a cosmetic
//! variant, and signed 2-D grid coordinates.

use vstd::prelude::*;

verus! {

/// The closed set of materials a cell can hold. `Air` is the empty state;
/// `Wall` is inert; the rest are dispatched by the update engine.
#[derive(Clone, Copy, PartialEq, Eq, Structural, Debug)]
pub enum TileType {
    Air,
    Sand,
    Dirt,
    Stone,
    Water,
    Lava,
    Wall,
    Fire,
    Acid,
}

impl Default for TileType {
    /// The material initially selected for painting.
    fn default() -> (t: Self)
        ensures
            t == TileType::Sand,
    {
        TileType::Sand
    }
}

/// One cell of the grid: a material and a cosmetic variant index.
/// The variant only selects a colour alternate; the update rules copy it
/// onto a converted cell but never branch on it.
#[derive(Clone, Copy, PartialEq, Eq, Structural, Debug)]
pub struct Tile {
    pub variant: u8,
    pub tile_type: TileType,
}

/// The empty cell: `Air` with variant 0.
pub open spec fn air_tile() -> Tile {
    Tile { variant: 0, tile_type: TileType::Air }
}

/// Returns the empty cell, `Air` with variant 0.
pub fn tile_air() -> (t: Tile)
    ensures
        t == air_tile(),
{
    Tile { variant: 0, tile_type: TileType::Air }
}

/// Coordinates of a cell in the simulation grid. `x` grows to the right
/// and `y` grows downward; values outside the grid are legal and simply
/// address no cell.
#[derive(Clone, Copy, PartialEq, Eq, Structural, Debug)]
pub struct Pos2i {
    pub x: i64,
    pub y: i64,
}

impl Pos2i {
    /// Builds a position from an `(x, y)` pair.
    pub fn from_pair(pos: (i64, i64)) -> (p: Pos2i)
        ensures
            p.x == pos.0 && p.y == pos.1,
    {
        Pos2i { x: pos.0, y: pos.1 }
    }

    /// Component-wise translation.
    pub fn add(self, rhs: Pos2i) -> (p: Pos2i)
        requires
            i64::MIN <= self.x + rhs.x <= i64::MAX,
            i64::MIN <= self.y + rhs.y <= i64::MAX,
        ensures
            p.x == self.x + rhs.x,
            p.y == self.y + rhs.y,
    {
        Pos2i { x: self.x + rhs.x, y: self.y + rhs.y }
    }
}

} // verus!
