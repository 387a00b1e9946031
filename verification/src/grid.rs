//! The simulation grid: a dense row-major array of tiles with
//! bounds-checked access, snapshot/restore, and row-major enumeration.

use vstd::prelude::*;

use crate::tile::{air_tile, Pos2i, Tile, TileType};

verus! {

/// The mathematical model of a grid: its tiles as a sequence in row-major
/// order (`x` varying fastest) together with its dimensions.
pub struct GridModel {
    pub tiles: Seq<Tile>,
    pub width: int,
    pub height: int,
}

impl GridModel {
    /// Well-formedness: the tile sequence has exactly `width * height`
    /// entries and the dimensions fit the machine limits the executable
    /// representation needs.
    pub open spec fn wf(self) -> bool {
        &&& self.tiles.len() == self.width * self.height
        &&& 0 <= self.width <= u32::MAX
        &&& 0 <= self.height <= u32::MAX
        &&& self.width * self.height <= usize::MAX
        &&& self.width * self.height <= i64::MAX
    }

    /// Whether `(x, y)` addresses a stored cell.
    pub open spec fn in_bounds(self, x: int, y: int) -> bool {
        0 <= x < self.width && 0 <= y < self.height
    }

    /// The flat row-major index of `(x, y)`.
    pub open spec fn flat(self, x: int, y: int) -> int {
        y * self.width + x
    }

    /// The tile stored at `(x, y)`; meaningful only in bounds.
    pub open spec fn at(self, x: int, y: int) -> Tile {
        self.tiles[self.flat(x, y)]
    }

    /// Bounds-checked read: `None` outside the grid.
    pub open spec fn get(self, x: int, y: int) -> Option<Tile> {
        if self.in_bounds(x, y) {
            Some(self.at(x, y))
        } else {
            None
        }
    }

    /// Bounds-checked write: out-of-bounds writes leave the grid unchanged.
    pub open spec fn put(self, x: int, y: int, t: Tile) -> GridModel {
        if self.in_bounds(x, y) {
            GridModel { tiles: self.tiles.update(self.flat(x, y), t), ..self }
        } else {
            self
        }
    }

    /// The position of flat index `i` in row-major order.
    pub open spec fn pos_of(self, i: int) -> Pos2i {
        Pos2i { x: (i % self.width) as i64, y: (i / self.width) as i64 }
    }

    /// The row-major enumeration of the grid: one `(position, tile)` pair
    /// per stored cell, `x` varying fastest.
    pub open spec fn pairs(self) -> Seq<(Pos2i, Tile)> {
        Seq::new(self.tiles.len(), |i: int| (self.pos_of(i), self.tiles[i]))
    }
}

/// A flat index stays inside the tile sequence of a well-formed grid.
pub proof fn lemma_flat_in_range(g: GridModel, x: int, y: int)
    requires
        g.wf(),
        g.in_bounds(x, y),
    ensures
        0 <= g.flat(x, y) < g.tiles.len(),
        0 <= y * g.width,
{
    assert((y + 1) * g.width <= g.height * g.width) by (nonlinear_arith)
        requires
            y + 1 <= g.height,
            g.width >= 0,
    ;
    assert(y * g.width + g.width == (y + 1) * g.width) by (nonlinear_arith);
    assert(y * g.width >= 0) by (nonlinear_arith)
        requires
            y >= 0,
            g.width >= 0,
    ;
    assert(g.height * g.width == g.width * g.height) by (nonlinear_arith);
}

/// Outside the stored range, reads return no cell and writes leave the
/// grid unchanged, for every grid and position.
pub proof fn lemma_out_of_bounds_access(g: GridModel, x: int, y: int, t: Tile)
    requires
        !g.in_bounds(x, y),
    ensures
        g.get(x, y) is None,
        g.put(x, y, t) == g,
{
}

/// After every cell has been set to `Air`, the row-major enumeration
/// yields only `Air` cells, whatever the grid held before.
pub proof fn lemma_cleared_enumeration_air(g: GridModel)
    requires
        forall|i: int| 0 <= i < g.tiles.len() ==> g.tiles[i] == crate::tile::air_tile(),
    ensures
        forall|k: int|
            0 <= k < g.pairs().len() ==> (#[trigger] g.pairs()[k]).1.tile_type
                == crate::tile::TileType::Air,
{
}

/// Restoring a snapshot with no intervening mutation reproduces the
/// original grid exactly.
pub proof fn lemma_snapshot_restore_identity(g: GridModel, snap: Seq<Tile>, restored: GridModel)
    requires
        snap == g.tiles,
        restored.width == g.width,
        restored.height == g.height,
        restored.tiles == snap,
    ensures
        restored == g,
{
}

/// How a bounds-checked write reads back: the written cell holds the new
/// tile and every other cell is unchanged.
pub proof fn lemma_put_at(g: GridModel, x: int, y: int, t: Tile)
    requires
        g.wf(),
        g.in_bounds(x, y),
    ensures
        g.put(x, y, t).at(x, y) == t,
        forall|px: int, py: int|
            g.in_bounds(px, py) && !(px == x && py == y) ==> #[trigger] g.put(x, y, t).at(px, py)
                == g.at(px, py),
        g.put(x, y, t).width == g.width,
        g.put(x, y, t).height == g.height,
        g.put(x, y, t).tiles.len() == g.tiles.len(),
        g.put(x, y, t).wf(),
{
    lemma_flat_in_range(g, x, y);
    assert forall|px: int, py: int|
        g.in_bounds(px, py) && !(px == x && py == y) implies #[trigger] g.put(x, y, t).at(px, py)
        == g.at(px, py) by {
        lemma_flat_in_range(g, px, py);
        assert(py * g.width + px != y * g.width + x) by (nonlinear_arith)
            requires
                0 <= x < g.width,
                0 <= y < g.height,
                0 <= px < g.width,
                0 <= py < g.height,
                !(px == x && py == y),
        ;
    }
}

/// The falling sand simulation grid. `(x, y)` coordinates extend
/// respectively to the right and to the bottom; tiles are stored in
/// row-major order, `x` varying fastest.
pub struct Grid {
    tiles: Vec<Tile>,
    size: (u64, u64),
}

impl View for Grid {
    type V = GridModel;

    closed spec fn view(&self) -> GridModel {
        GridModel {
            tiles: self.tiles@,
            width: self.size.0 as int,
            height: self.size.1 as int,
        }
    }
}

impl Grid {
    /// Shorthand for the model's well-formedness.
    pub open spec fn wf(&self) -> bool {
        self@.wf()
    }

    /// Allocates a `size.0 x size.1` grid with every cell set to `Air`.
    pub fn new(size: (u64, u64)) -> (g: Grid)
        requires
            size.0 <= u32::MAX,
            size.1 <= u32::MAX,
            size.0 * size.1 <= usize::MAX,
            size.0 * size.1 <= i64::MAX,
        ensures
            g.wf(),
            g@.width == size.0,
            g@.height == size.1,
            forall|i: int| 0 <= i < g@.tiles.len() ==> g@.tiles[i] == air_tile(),
    {
        let n: usize = (size.0 * size.1) as usize;
        let mut tiles: Vec<Tile> = Vec::new();
        while tiles.len() < n
            invariant
                tiles.len() <= n,
                forall|i: int| 0 <= i < tiles.len() ==> tiles[i] == air_tile(),
            decreases n - tiles.len(),
        {
            tiles.push(crate::tile::tile_air());
        }
        Grid { tiles, size }
    }

    /// The grid's `(width, height)`.
    pub fn size(&self) -> (s: (u64, u64))
        ensures
            s.0 == self@.width,
            s.1 == self@.height,
    {
        self.size
    }

    /// The flat index of `position`, or `None` if it lies outside the grid.
    pub fn index_of(&self, position: Pos2i) -> (r: Option<usize>)
        requires
            self.wf(),
        ensures
            self@.in_bounds(position.x as int, position.y as int) ==> r == Some(
                self@.flat(position.x as int, position.y as int) as usize,
            ),
            !self@.in_bounds(position.x as int, position.y as int) ==> r is None,
    {
        if 0 <= position.x && position.x < self.size.0 as i64 && 0 <= position.y && position.y
            < self.size.1 as i64 {
            proof {
                lemma_flat_in_range(self@, position.x as int, position.y as int);
            }
            Some((position.y * self.size.0 as i64 + position.x) as usize)
        } else {
            None
        }
    }

    /// Overwrites the cell at `pos`; writes outside the grid are ignored,
    /// so update rules may probe neighbour offsets freely.
    pub fn set_tile(&mut self, pos: Pos2i, tile: Tile)
        requires
            old(self).wf(),
        ensures
            final(self).wf(),
            final(self)@ == old(self)@.put(pos.x as int, pos.y as int, tile),
    {
        proof {
            if self@.in_bounds(pos.x as int, pos.y as int) {
                lemma_flat_in_range(self@, pos.x as int, pos.y as int);
            }
        }
        if let Some(idx) = self.index_of(pos) {
            self.tiles.set(idx, tile);
        }
    }

    /// The cell at `pos`, or `None` if `pos` lies outside the grid.
    pub fn get_tile(&self, pos: Pos2i) -> (r: Option<Tile>)
        requires
            self.wf(),
        ensures
            r == self@.get(pos.x as int, pos.y as int),
    {
        proof {
            if self@.in_bounds(pos.x as int, pos.y as int) {
                lemma_flat_in_range(self@, pos.x as int, pos.y as int);
            }
        }
        match self.index_of(pos) {
            Some(idx) => Some(self.tiles[idx]),
            None => None,
        }
    }

    /// A copy of the whole tile buffer, for undo history.
    pub fn snapshot(&self) -> (r: Vec<Tile>)
        ensures
            r@ == self@.tiles,
    {
        let mut r: Vec<Tile> = Vec::new();
        let mut i: usize = 0;
        while i < self.tiles.len()
            invariant
                i <= self.tiles.len(),
                r@ =~= self@.tiles.subrange(0, i as int),
            decreases self.tiles.len() - i,
        {
            r.push(self.tiles[i]);
            i = i + 1;
        }
        proof {
            assert(r@ =~= self@.tiles);
        }
        r
    }

    /// Overwrites the whole tile buffer with a previously taken snapshot.
    /// The snapshot must come from a grid of the same dimensions.
    pub fn restore(&mut self, tiles: Vec<Tile>)
        requires
            old(self).wf(),
            tiles@.len() == old(self)@.tiles.len(),
        ensures
            final(self).wf(),
            final(self)@.width == old(self)@.width,
            final(self)@.height == old(self)@.height,
            final(self)@.tiles == tiles@,
    {
        self.tiles = tiles;
    }

    /// Sets every cell to `Air`, in place.
    pub fn clear(&mut self)
        requires
            old(self).wf(),
        ensures
            final(self).wf(),
            final(self)@.width == old(self)@.width,
            final(self)@.height == old(self)@.height,
            final(self)@.tiles.len() == old(self)@.tiles.len(),
            forall|i: int|
                0 <= i < final(self)@.tiles.len() ==> final(self)@.tiles[i] == air_tile(),
    {
        let mut i: usize = 0;
        while i < self.tiles.len()
            invariant
                i <= self.tiles.len(),
                self@.tiles.len() == old(self)@.tiles.len(),
                self@.width == old(self)@.width,
                self@.height == old(self)@.height,
                forall|j: int| 0 <= j < i ==> self@.tiles[j] == air_tile(),
            decreases self.tiles.len() - i,
        {
            self.tiles.set(i, crate::tile::tile_air());
            i = i + 1;
        }
    }

    /// Advances the simulation by one tick. Every cell of the previous
    /// generation is dispatched once, in row-major order, each rule writing
    /// into a buffer that started as a copy of the previous generation; the
    /// buffer then replaces the grid wholesale. The result is one tick of
    /// the update engine under some sequence of lateral tie-breaks, one per
    /// cell.
    pub fn step(&mut self)
        requires
            old(self).wf(),
        ensures
            final(self).wf(),
            final(self)@.width == old(self)@.width,
            final(self)@.height == old(self)@.height,
            exists|dirs: Seq<int>|
                #![auto]
                dirs.len() == old(self)@.tiles.len() && crate::tiles::valid_dirs(dirs) && final(
                    self
                )@ == crate::tiles::spec_step(old(self)@, dirs),
    {
        let ghost prev = self@;
        let mut next_gen = self.clone();
        let ghost mut dirs: Seq<int> = Seq::empty();
        let w = self.size.0 as usize;
        let n = self.tiles.len();
        let mut i: usize = 0;
        while i < n
            invariant
                self.wf(),
                self@ == prev,
                n == prev.tiles.len(),
                w as int == prev.width,
                i <= n,
                dirs.len() == i as int,
                crate::tiles::valid_dirs(dirs),
                next_gen.wf(),
                next_gen@.width == prev.width,
                next_gen@.height == prev.height,
                next_gen@ == crate::tiles::spec_step_prefix(prev, dirs, i as int),
            decreases n - i,
        {
            proof {
                assert(prev.width * prev.height > 0) by (nonlinear_arith)
                    requires
                        prev.tiles.len() == prev.width * prev.height,
                        prev.tiles.len() > 0,
                ;
                assert(prev.width > 0) by (nonlinear_arith)
                    requires
                        prev.width * prev.height > 0,
                        prev.width >= 0,
                        prev.height >= 0,
                ;
            }
            let x = i % w;
            let y = i / w;
            proof {
                assert(0 <= (i as int) % (w as int) < w as int) by (nonlinear_arith)
                    requires
                        w as int >= 1,
                        i as int >= 0,
                ;
                assert((i as int) / (w as int) < prev.height) by (nonlinear_arith)
                    requires
                        w as int >= 1,
                        0 <= i as int,
                        (i as int) < (w as int) * prev.height,
                ;
                assert(0 <= (i as int) / (w as int)) by (nonlinear_arith)
                    requires
                        w as int >= 1,
                        0 <= i as int,
                ;
            }
            let pos = Pos2i { x: x as i64, y: y as i64 };
            let tile = self.tiles[i];
            let ghost pre = next_gen@;
            let ghost xi: int = pos.x as int;
            let ghost yi: int = pos.y as int;
            match tile.tile_type {
                TileType::Sand => {
                    crate::tiles::update_falling_tile(&mut next_gen, pos, tile);
                    proof {
                        let d = choose|d: int|
                            crate::tiles::valid_dir(d) && next_gen@ == crate::tiles::spec_falling(
                                pre,
                                xi,
                                yi,
                                tile,
                                d,
                            );
                        crate::tiles::lemma_step_prefix_push(prev, dirs, d, i as int);
                        dirs = dirs.push(d);
                    }
                },
                TileType::Dirt => {
                    crate::tiles::update_falling_tile(&mut next_gen, pos, tile);
                    proof {
                        let d = choose|d: int|
                            crate::tiles::valid_dir(d) && next_gen@ == crate::tiles::spec_falling(
                                pre,
                                xi,
                                yi,
                                tile,
                                d,
                            );
                        crate::tiles::lemma_step_prefix_push(prev, dirs, d, i as int);
                        dirs = dirs.push(d);
                    }
                },
                TileType::Water => {
                    crate::tiles::update_water(&mut next_gen, pos, tile);
                    proof {
                        let d = choose|d: int|
                            crate::tiles::valid_dir(d) && next_gen@ == crate::tiles::spec_water(
                                pre,
                                xi,
                                yi,
                                tile,
                                d,
                            );
                        crate::tiles::lemma_step_prefix_push(prev, dirs, d, i as int);
                        dirs = dirs.push(d);
                    }
                },
                TileType::Lava => {
                    crate::tiles::update_lava(&mut next_gen, pos, tile);
                    proof {
                        let d = choose|d: int|
                            crate::tiles::valid_dir(d) && next_gen@ == crate::tiles::spec_lava(
                                pre,
                                xi,
                                yi,
                                tile,
                                d,
                            );
                        crate::tiles::lemma_step_prefix_push(prev, dirs, d, i as int);
                        dirs = dirs.push(d);
                    }
                },
                TileType::Stone => {
                    crate::tiles::update_falling_tile(&mut next_gen, pos, tile);
                    proof {
                        let d = choose|d: int|
                            crate::tiles::valid_dir(d) && next_gen@ == crate::tiles::spec_falling(
                                pre,
                                xi,
                                yi,
                                tile,
                                d,
                            );
                        crate::tiles::lemma_step_prefix_push(prev, dirs, d, i as int);
                        dirs = dirs.push(d);
                    }
                },
                TileType::Acid => {
                    crate::tiles::update_acid(&mut next_gen, pos, tile);
                    proof {
                        let d = choose|d: int|
                            crate::tiles::valid_dir(d) && next_gen@ == crate::tiles::spec_acid(
                                pre,
                                xi,
                                yi,
                                tile,
                                d,
                            );
                        crate::tiles::lemma_step_prefix_push(prev, dirs, d, i as int);
                        dirs = dirs.push(d);
                    }
                },
                _ => {
                    proof {
                        crate::tiles::lemma_step_prefix_push(prev, dirs, 1int, i as int);
                        dirs = dirs.push(1int);
                    }
                },
            }
            i = i + 1;
        }
        let ghost result = next_gen@;
        self.tiles = next_gen.tiles;
        proof {
            assert(self@ == result);
            assert(result == crate::tiles::spec_step(prev, dirs));
            assert(dirs.len() == prev.tiles.len() && crate::tiles::valid_dirs(dirs) && self@
                == crate::tiles::spec_step(prev, dirs));
        }
    }

    /// A row-major cursor over the grid's `(position, tile)` pairs.
    pub fn iter_tiles(&self) -> (it: WorldIter<'_>)
        requires
            self.wf(),
        ensures
            it.model() == self@,
            it.cursor() == 0,
    {
        WorldIter::from_world(self)
    }
}

impl Clone for Grid {
    /// A deep copy with the same model.
    fn clone(&self) -> (r: Self)
        ensures
            r@ == self@,
    {
        Grid { tiles: self.snapshot(), size: self.size }
    }
}

/// A cursor yielding a grid's `(position, tile)` pairs in row-major order,
/// `x` varying fastest.
pub struct WorldIter<'a> {
    world: &'a Grid,
    index: usize,
}

impl<'a> WorldIter<'a> {
    /// The grid being walked.
    pub closed spec fn model(&self) -> GridModel {
        self.world@
    }

    /// How many pairs have been yielded so far.
    pub closed spec fn cursor(&self) -> int {
        self.index as int
    }

    /// Starts a cursor at the first cell of `world`.
    pub fn from_world(world: &'a Grid) -> (it: WorldIter<'a>)
        requires
            world.wf(),
        ensures
            it.model() == world@,
            it.cursor() == 0,
    {
        WorldIter { world, index: 0 }
    }

    /// The next `(position, tile)` pair, or `None` once every cell has
    /// been yielded.
    pub fn next(&mut self) -> (r: Option<(Pos2i, Tile)>)
        requires
            old(self).model().wf(),
            0 <= old(self).cursor(),
        ensures
            final(self).model() == old(self).model(),
            old(self).cursor() < old(self).model().tiles.len() ==> {
                &&& r == Some(old(self).model().pairs()[old(self).cursor()])
                &&& final(self).cursor() == old(self).cursor() + 1
            },
            old(self).cursor() >= old(self).model().tiles.len() ==> {
                &&& r is None
                &&& final(self).cursor() == old(self).cursor()
            },
    {
        if self.index < self.world.tiles.len() {
            proof {
                assert(self.world@.width * self.world@.height > 0) by (nonlinear_arith)
                    requires
                        self.world@.tiles.len() == self.world@.width * self.world@.height,
                        self.world@.tiles.len() > 0,
                ;
                assert(self.world@.width > 0) by (nonlinear_arith)
                    requires
                        self.world@.width * self.world@.height > 0,
                ;
            }
            let idx = self.index;
            let w = self.world.size.0 as usize;
            proof {
                assert(0 <= (idx as int) % (w as int) < w as int) by (nonlinear_arith)
                    requires
                        w as int >= 1,
                        idx as int >= 0,
                ;
                assert((idx as int) / (w as int) < self.world@.height) by (nonlinear_arith)
                    requires
                        w as int >= 1,
                        0 <= idx as int,
                        (idx as int) < (w as int) * self.world@.height,
                ;
                assert(0 <= (idx as int) / (w as int)) by (nonlinear_arith)
                    requires
                        w as int >= 1,
                        0 <= idx as int,
                ;
            }
            let pos = Pos2i { x: (idx % w) as i64, y: (idx / w) as i64 };
            let tile = self.world.tiles[idx];
            self.index = idx + 1;
            Some((pos, tile))
        } else {
            None
        }
    }
}

} // verus!
