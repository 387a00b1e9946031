//! The simulation world: the grid that a session owns, with the same
//! bounds-checked access and stepping as the grid itself plus a resize
//! operation preserving the overlapping top-left region.

use vstd::prelude::*;

use crate::grid::{Grid, GridModel};
use crate::tile::{air_tile, Pos2i};

pub use crate::grid::WorldIter;
pub use crate::tile::Tile;

verus! {

/// The simulation world owned by a ticking and editing session.
pub struct World {
    grid: Grid,
}

impl View for World {
    type V = GridModel;

    closed spec fn view(&self) -> GridModel {
        self.grid@
    }
}

impl World {
    /// Shorthand for the model's well-formedness.
    pub open spec fn wf(&self) -> bool {
        self@.wf()
    }

    /// Allocates a `size.0 x size.1` world with every cell set to `Air`.
    pub fn new(size: (u64, u64)) -> (w: World)
        requires
            size.0 <= u32::MAX,
            size.1 <= u32::MAX,
            size.0 * size.1 <= usize::MAX,
            size.0 * size.1 <= i64::MAX,
        ensures
            w.wf(),
            w@.width == size.0,
            w@.height == size.1,
            forall|i: int| 0 <= i < w@.tiles.len() ==> w@.tiles[i] == air_tile(),
    {
        World { grid: Grid::new(size) }
    }

    /// The world's `(width, height)`.
    pub fn size(&self) -> (s: (u64, u64))
        ensures
            s.0 == self@.width,
            s.1 == self@.height,
    {
        self.grid.size()
    }

    /// Replaces the world with one of `new_size`, keeping every cell of
    /// the overlapping top-left region and filling the rest with `Air`.
    pub fn resize(&mut self, new_size: (u64, u64))
        requires
            old(self).wf(),
            new_size.0 <= u32::MAX,
            new_size.1 <= u32::MAX,
            new_size.0 * new_size.1 <= usize::MAX,
            new_size.0 * new_size.1 <= i64::MAX,
        ensures
            final(self).wf(),
            final(self)@.width == new_size.0,
            final(self)@.height == new_size.1,
            forall|x: int, y: int|
                final(self)@.in_bounds(x, y) ==> #[trigger] final(self)@.at(x, y) == if old(
                    self,
                )@.in_bounds(x, y) {
                    old(self)@.at(x, y)
                } else {
                    air_tile()
                },
    {
        let (old_w, old_h) = self.grid.size();
        let mut grid = Grid::new(new_size);
        let max_x: u64 = if old_w < new_size.0 {
            old_w
        } else {
            new_size.0
        };
        let max_y: u64 = if old_h < new_size.1 {
            old_h
        } else {
            new_size.1
        };
        proof {
            assert forall|px: int, py: int| grid@.in_bounds(px, py) implies #[trigger] grid@.at(
                px,
                py,
            ) == air_tile() by {
                crate::grid::lemma_flat_in_range(grid@, px, py);
            }
        }
        let mut x: u64 = 0;
        while x < max_x
            invariant
                self.wf(),
                self@ == old(self)@,
                grid.wf(),
                grid@.width == new_size.0,
                grid@.height == new_size.1,
                x <= max_x,
                max_x <= self@.width,
                max_x <= grid@.width,
                max_y <= self@.height,
                max_y <= grid@.height,
                forall|px: int, py: int|
                    grid@.in_bounds(px, py) ==> #[trigger] grid@.at(px, py) == if px < x && py
                        < max_y && self@.in_bounds(px, py) {
                        self@.at(px, py)
                    } else {
                        air_tile()
                    },
            decreases max_x - x,
        {
            let mut y: u64 = 0;
            while y < max_y
                invariant
                    self.wf(),
                    self@ == old(self)@,
                    grid.wf(),
                    grid@.width == new_size.0,
                    grid@.height == new_size.1,
                    x < max_x,
                    y <= max_y,
                    max_x <= self@.width,
                    max_x <= grid@.width,
                    max_y <= self@.height,
                    max_y <= grid@.height,
                    forall|px: int, py: int|
                        grid@.in_bounds(px, py) ==> #[trigger] grid@.at(px, py) == if (px < x || (
                        px == x && py < y)) && px < max_x && py < max_y && self@.in_bounds(
                            px,
                            py,
                        ) {
                            self@.at(px, py)
                        } else {
                            air_tile()
                        },
                decreases max_y - y,
            {
                let pos = Pos2i { x: x as i64, y: y as i64 };
                let tile = self.grid.get_tile(pos).unwrap();
                proof {
                    crate::grid::lemma_put_at(grid@, x as int, y as int, tile);
                }
                grid.set_tile(pos, tile);
                y = y + 1;
            }
            x = x + 1;
        }
        self.grid = grid;
    }

    /// Overwrites the cell at `pos`; writes outside the world are ignored.
    pub fn set_tile(&mut self, pos: Pos2i, tile: Tile)
        requires
            old(self).wf(),
        ensures
            final(self).wf(),
            final(self)@ == old(self)@.put(pos.x as int, pos.y as int, tile),
    {
        self.grid.set_tile(pos, tile);
    }

    /// The cell at `pos`, or `None` if `pos` lies outside the world.
    pub fn get_tile(&self, pos: Pos2i) -> (r: Option<Tile>)
        requires
            self.wf(),
        ensures
            r == self@.get(pos.x as int, pos.y as int),
    {
        self.grid.get_tile(pos)
    }

    /// A row-major cursor over the world's `(position, tile)` pairs.
    pub fn iter_tiles(&self) -> (it: WorldIter<'_>)
        requires
            self.wf(),
        ensures
            it.model() == self@,
            it.cursor() == 0,
    {
        self.grid.iter_tiles()
    }

    /// A copy of the whole tile buffer, for undo history.
    pub fn snapshot(&self) -> (r: Vec<Tile>)
        ensures
            r@ == self@.tiles,
    {
        self.grid.snapshot()
    }

    /// Overwrites the whole tile buffer with a previously taken snapshot
    /// of a world of the same dimensions.
    pub fn restore(&mut self, tiles: Vec<Tile>)
        requires
            old(self).wf(),
            tiles@.len() == old(self)@.tiles.len(),
        ensures
            final(self).wf(),
            final(self)@.width == old(self)@.width,
            final(self)@.height == old(self)@.height,
            final(self)@.tiles == tiles@,
    {
        self.grid.restore(tiles);
    }

    /// Advances the simulation by one tick; see `Grid::step`.
    pub fn step(&mut self)
        requires
            old(self).wf(),
        ensures
            final(self).wf(),
            final(self)@.width == old(self)@.width,
            final(self)@.height == old(self)@.height,
            exists|dirs: Seq<int>|
                #![auto]
                dirs.len() == old(self)@.tiles.len() && crate::tiles::valid_dirs(dirs) && final(
                    self
                )@ == crate::tiles::spec_step(old(self)@, dirs),
    {
        self.grid.step();
    }

    /// Sets every cell to `Air`, in place.
    pub fn clear(&mut self)
        requires
            old(self).wf(),
        ensures
            final(self).wf(),
            final(self)@.width == old(self)@.width,
            final(self)@.height == old(self)@.height,
            final(self)@.tiles.len() == old(self)@.tiles.len(),
            forall|i: int|
                0 <= i < final(self)@.tiles.len() ==> final(self)@.tiles[i] == air_tile(),
    {
        self.grid.clear();
    }
}

impl Clone for World {
    /// A deep copy with the same model.
    fn clone(&self) -> (r: Self)
        ensures
            r@ == self@,
    {
        World { grid: self.grid.clone() }
    }
}

} // verus!
