//! The per-material update rules of the simulation engine.
//!
//! Each rule reads the neighbourhood of its cell and writes the cell's fate
//! into the generation buffer it is handed. Every rule exists in two forms:
//! one taking the lateral tie-break direction as an argument, with an exact
//! contract, and one drawing the direction from the process random number
//! generator, whose contract states what holds for every possible draw.

use rand::Rng;
use vstd::prelude::*;

use crate::grid::{Grid, GridModel};
use crate::tile::{air_tile, Pos2i, Tile, TileType};

verus! {

/// A lateral tie-break direction: one step right (`1`) or left (`-1`).
pub open spec fn valid_dir(d: int) -> bool {
    d == 1 || d == -1
}

/// Whether a falling solid may move into a cell holding `t`.
pub open spec fn solid_can_enter(t: Tile) -> bool {
    t.tile_type == TileType::Air || t.tile_type == TileType::Water
}

/// A `Stone` tile carrying `variant`.
pub open spec fn stone_of(variant: u8) -> Tile {
    Tile { variant, tile_type: TileType::Stone }
}

/// Whether acid consumes a neighbour holding `t`.
pub open spec fn dissolvable(t: Tile) -> bool {
    t.tile_type != TileType::Air && t.tile_type != TileType::Acid && t.tile_type != TileType::Wall
}

/// The falling-solid rule (`Sand`, `Dirt`, `Stone`) at `(x, y)` with
/// tie-break `dir`: swap with the cell below when it holds air or water,
/// otherwise move onto the `dir`-side diagonal-down cell when that holds
/// air or water, leaving air behind; otherwise stay.
pub open spec fn spec_falling(g: GridModel, x: int, y: int, tile: Tile, dir: int) -> GridModel {
    let below = g.get(x, y + 1);
    if below is Some && solid_can_enter(below->0) {
        g.put(x, y + 1, tile).put(x, y, below->0)
    } else {
        let diag = g.get(x + dir, y + 1);
        if diag is Some && solid_can_enter(diag->0) {
            g.put(x + dir, y + 1, tile).put(x, y, air_tile())
        } else {
            g
        }
    }
}

/// The fluid-movement rule at `(x, y)` with tie-break `dir`: move down
/// into air, else diagonally down on the `dir` side into air, else
/// laterally on the `dir` side into air; otherwise stay.
pub open spec fn spec_fluid(g: GridModel, x: int, y: int, tile: Tile, dir: int) -> GridModel {
    let below = g.get(x, y + 1);
    if below is Some && below->0.tile_type == TileType::Air {
        g.put(x, y + 1, tile).put(x, y, air_tile())
    } else {
        let diag = g.get(x + dir, y + 1);
        if diag is Some && diag->0.tile_type == TileType::Air {
            g.put(x + dir, y + 1, tile).put(x, y, air_tile())
        } else {
            let side = g.get(x + dir, y);
            if side is Some && side->0.tile_type == TileType::Air {
                g.put(x + dir, y, tile).put(x, y, air_tile())
            } else {
                g
            }
        }
    }
}

/// Whether the cell at `(x, y)` exists and holds material `tt`.
pub open spec fn neighbour_matches(g: GridModel, x: int, y: int, tt: TileType) -> bool {
    g.get(x, y) is Some && g.get(x, y)->0.tile_type == tt
}

/// The first orthogonal neighbour offset of `(x, y)` holding material
/// `tt`, scanning right, left, below, above in that priority order.
pub open spec fn spec_neighbour_of_type(g: GridModel, x: int, y: int, tt: TileType) -> Option<
    (int, int),
> {
    if neighbour_matches(g, x + 1, y, tt) {
        Some((1int, 0int))
    } else if neighbour_matches(g, x - 1, y, tt) {
        Some((-1int, 0int))
    } else if neighbour_matches(g, x, y + 1, tt) {
        Some((0int, 1int))
    } else if neighbour_matches(g, x, y - 1, tt) {
        Some((0int, -1int))
    } else {
        None
    }
}

/// The reactive-pair rule shared by `Water` and `Lava`: when a neighbour
/// of the opposing material exists, both cells become `Stone` carrying the
/// acting cell's variant and no movement happens; otherwise the acting
/// cell moves as a fluid.
pub open spec fn spec_reactive(
    g: GridModel,
    x: int,
    y: int,
    tile: Tile,
    opposing: TileType,
    dir: int,
) -> GridModel {
    match spec_neighbour_of_type(g, x, y, opposing) {
        Some(off) => g.put(x, y, stone_of(tile.variant)).put(
            x + off.0,
            y + off.1,
            stone_of(tile.variant),
        ),
        None => spec_fluid(g, x, y, tile, dir),
    }
}

/// The `Water` rule: react with an adjacent `Lava`, else flow.
pub open spec fn spec_water(g: GridModel, x: int, y: int, tile: Tile, dir: int) -> GridModel {
    spec_reactive(g, x, y, tile, TileType::Lava, dir)
}

/// The `Lava` rule: react with an adjacent `Water`, else flow.
pub open spec fn spec_lava(g: GridModel, x: int, y: int, tile: Tile, dir: int) -> GridModel {
    spec_reactive(g, x, y, tile, TileType::Water, dir)
}

/// The first orthogonal neighbour offset of `(x, y)` that acid dissolves,
/// scanning right, left, below, above in that priority order.
pub open spec fn spec_acid_target(g: GridModel, x: int, y: int) -> Option<(int, int)> {
    if g.get(x + 1, y) is Some && dissolvable(g.get(x + 1, y)->0) {
        Some((1int, 0int))
    } else if g.get(x - 1, y) is Some && dissolvable(g.get(x - 1, y)->0) {
        Some((-1int, 0int))
    } else if g.get(x, y + 1) is Some && dissolvable(g.get(x, y + 1)->0) {
        Some((0int, 1int))
    } else if g.get(x, y - 1) is Some && dissolvable(g.get(x, y - 1)->0) {
        Some((0int, -1int))
    } else {
        None
    }
}

/// The `Acid` rule: consume the first dissolvable orthogonal neighbour
/// (both cells become air), else flow as a fluid.
pub open spec fn spec_acid(g: GridModel, x: int, y: int, tile: Tile, dir: int) -> GridModel {
    match spec_acid_target(g, x, y) {
        Some(off) => g.put(x + off.0, y + off.1, air_tile()).put(x, y, air_tile()),
        None => spec_fluid(g, x, y, tile, dir),
    }
}

/// The `Fire` rule: move onto the `dir`-side diagonal-down cell when it
/// holds air (swapping the cells); extinguish to air when that cell holds
/// anything but air or fire, or lies outside the grid; otherwise stay.
pub open spec fn spec_fire(g: GridModel, x: int, y: int, tile: Tile, dir: int) -> GridModel {
    match g.get(x + dir, y + 1) {
        Some(d) => if d.tile_type == TileType::Air {
            g.put(x + dir, y + 1, tile).put(x, y, d)
        } else if d.tile_type != TileType::Fire {
            g.put(x, y, air_tile())
        } else {
            g
        },
        None => g.put(x, y, air_tile()),
    }
}

/// One cell's contribution to a tick: the rule selected by the cell's
/// material in the previous generation, applied to the generation buffer.
/// `Air` and `Wall` are inert and `Fire` is not dispatched.
pub open spec fn spec_dispatch(g: GridModel, x: int, y: int, tile: Tile, dir: int) -> GridModel {
    match tile.tile_type {
        TileType::Sand => spec_falling(g, x, y, tile, dir),
        TileType::Dirt => spec_falling(g, x, y, tile, dir),
        TileType::Water => spec_water(g, x, y, tile, dir),
        TileType::Lava => spec_lava(g, x, y, tile, dir),
        TileType::Stone => spec_falling(g, x, y, tile, dir),
        TileType::Acid => spec_acid(g, x, y, tile, dir),
        _ => g,
    }
}

/// Whether every entry of `dirs` is a lateral direction.
pub open spec fn valid_dirs(dirs: Seq<int>) -> bool {
    forall|i: int| 0 <= i < dirs.len() ==> valid_dir(#[trigger] dirs[i])
}

/// The generation buffer after the first `n` cells of the previous
/// generation `prev` have been dispatched, in row-major order, with
/// `dirs[i]` the tie-break drawn for cell `i`. The buffer starts as a
/// copy of `prev`, so earlier cells' writes are visible to later rules
/// within the same tick.
pub open spec fn spec_step_prefix(prev: GridModel, dirs: Seq<int>, n: int) -> GridModel
    decreases n,
{
    if n <= 0 {
        prev
    } else {
        let g = spec_step_prefix(prev, dirs, n - 1);
        spec_dispatch(g, (n - 1) % prev.width, (n - 1) / prev.width, prev.tiles[n - 1], dirs[n - 1])
    }
}

/// One whole tick of the update engine on the previous generation `prev`,
/// with `dirs` the tie-breaks drawn for its cells.
pub open spec fn spec_step(prev: GridModel, dirs: Seq<int>) -> GridModel {
    spec_step_prefix(prev, dirs, prev.tiles.len() as int)
}

/// A tick prefix only reads the tie-breaks of the cells it covers, so
/// appending one more leaves it unchanged.
pub proof fn lemma_step_prefix_push(prev: GridModel, dirs: Seq<int>, d: int, n: int)
    requires
        0 <= n <= dirs.len(),
    ensures
        spec_step_prefix(prev, dirs.push(d), n) == spec_step_prefix(prev, dirs, n),
    decreases n,
{
    if n > 0 {
        lemma_step_prefix_push(prev, dirs, d, n - 1);
        assert(dirs.push(d)[n - 1] == dirs[n - 1]);
    }
}

/// Relies on rand::Rng::gen_ratio, documented to return a bool that is
/// true with the given probability and to panic only when the denominator
/// is zero or smaller than the numerator. Only that some direction comes
/// back is assumed, never which one.
#[verifier::external_body]
fn random_direction() -> (r: i64)
    ensures
        r == 1 || r == -1,
{
    if rand::thread_rng().gen_ratio(1, 2) {
        1
    } else {
        -1
    }
}

/// Applies the falling-solid rule with an explicit tie-break direction.
pub fn update_falling_tile_dir(world: &mut Grid, position: Pos2i, tile: Tile, dir: i64)
    requires
        old(world).wf(),
        dir == 1 || dir == -1,
        i64::MIN < position.x < i64::MAX,
        position.y < i64::MAX,
    ensures
        final(world).wf(),
        final(world)@ == spec_falling(
            old(world)@,
            position.x as int,
            position.y as int,
            tile,
            dir as int,
        ),
{
    let down_pos = position.add(Pos2i { x: 0, y: 1 });
    if let Some(down_tile) = world.get_tile(down_pos) {
        if down_tile.tile_type == TileType::Air || down_tile.tile_type == TileType::Water {
            world.set_tile(down_pos, tile);
            world.set_tile(position, down_tile);
            return;
        }
    }
    let diag_pos = position.add(Pos2i { x: dir, y: 1 });
    if let Some(next_tile) = world.get_tile(diag_pos) {
        if next_tile.tile_type == TileType::Air || next_tile.tile_type == TileType::Water {
            world.set_tile(diag_pos, tile);
            world.set_tile(position, crate::tile::tile_air());
            return;
        }
    }
}

/// Applies the falling-solid rule with a randomly drawn tie-break.
/// Whatever direction comes back, the down-move has priority, so a cell
/// with air or water below always swaps with it.
pub fn update_falling_tile(world: &mut Grid, position: Pos2i, tile: Tile)
    requires
        old(world).wf(),
        i64::MIN < position.x < i64::MAX,
        position.y < i64::MAX,
    ensures
        final(world).wf(),
        exists|dir: int|
            valid_dir(dir) && final(world)@ == spec_falling(
                old(world)@,
                position.x as int,
                position.y as int,
                tile,
                dir,
            ),
{
    let dir = random_direction();
    update_falling_tile_dir(world, position, tile, dir);
    proof {
        let d: int = dir as int;
        assert(valid_dir(d) && world@ == spec_falling(
            old(world)@,
            position.x as int,
            position.y as int,
            tile,
            d,
        ));
    }
}

/// Applies the fluid-movement rule with an explicit tie-break direction.
pub fn update_fluid_dir(world: &mut Grid, position: Pos2i, tile: Tile, dir: i64)
    requires
        old(world).wf(),
        dir == 1 || dir == -1,
        i64::MIN < position.x < i64::MAX,
        position.y < i64::MAX,
    ensures
        final(world).wf(),
        final(world)@ == spec_fluid(
            old(world)@,
            position.x as int,
            position.y as int,
            tile,
            dir as int,
        ),
{
    let down_pos = position.add(Pos2i { x: 0, y: 1 });
    if let Some(down_tile) = world.get_tile(down_pos) {
        if down_tile.tile_type == TileType::Air {
            world.set_tile(down_pos, tile);
            world.set_tile(position, crate::tile::tile_air());
            return;
        }
    }
    let diag_pos = position.add(Pos2i { x: dir, y: 1 });
    if let Some(next_diag_tile) = world.get_tile(diag_pos) {
        if next_diag_tile.tile_type == TileType::Air {
            world.set_tile(diag_pos, tile);
            world.set_tile(position, crate::tile::tile_air());
            return;
        }
    }
    let next_pos = position.add(Pos2i { x: dir, y: 0 });
    if let Some(next_tile) = world.get_tile(next_pos) {
        if next_tile.tile_type == TileType::Air {
            world.set_tile(next_pos, tile);
            world.set_tile(position, crate::tile::tile_air());
        }
    }
}

/// Applies the fluid-movement rule with a randomly drawn tie-break.
pub fn update_fluid(world: &mut Grid, position: Pos2i, tile: Tile)
    requires
        old(world).wf(),
        i64::MIN < position.x < i64::MAX,
        position.y < i64::MAX,
    ensures
        final(world).wf(),
        exists|dir: int|
            valid_dir(dir) && final(world)@ == spec_fluid(
                old(world)@,
                position.x as int,
                position.y as int,
                tile,
                dir,
            ),
{
    let dir = random_direction();
    update_fluid_dir(world, position, tile, dir);
    proof {
        let d: int = dir as int;
        assert(valid_dir(d) && world@ == spec_fluid(
            old(world)@,
            position.x as int,
            position.y as int,
            tile,
            d,
        ));
    }
}

/// The offsets of an optional position, for relating an executable
/// neighbour-scan result to its specification.
pub open spec fn pos_offsets(r: Option<Pos2i>) -> Option<(int, int)> {
    match r {
        Some(p) => Some((p.x as int, p.y as int)),
        None => None,
    }
}

/// Scans the four orthogonal neighbours of `pos` (right, left, below,
/// above, in that priority order) for a cell of material `tile_type` and
/// returns the offset of the first match.
pub fn neigbour_of_type(world: &mut Grid, pos: Pos2i, tile_type: TileType) -> (r: Option<Pos2i>)
    requires
        old(world).wf(),
        i64::MIN < pos.x < i64::MAX,
        i64::MIN < pos.y < i64::MAX,
    ensures
        *final(world) == *old(world),
        pos_offsets(r) == spec_neighbour_of_type(
            old(world)@,
            pos.x as int,
            pos.y as int,
            tile_type,
        ),
{
    if let Some(right_tile) = world.get_tile(pos.add(Pos2i { x: 1, y: 0 })) {
        if right_tile.tile_type == tile_type {
            return Some(Pos2i { x: 1, y: 0 });
        }
    }
    if let Some(left_tile) = world.get_tile(pos.add(Pos2i { x: -1, y: 0 })) {
        if left_tile.tile_type == tile_type {
            return Some(Pos2i { x: -1, y: 0 });
        }
    }
    if let Some(below_tile) = world.get_tile(pos.add(Pos2i { x: 0, y: 1 })) {
        if below_tile.tile_type == tile_type {
            return Some(Pos2i { x: 0, y: 1 });
        }
    }
    if let Some(above_tile) = world.get_tile(pos.add(Pos2i { x: 0, y: -1 })) {
        if above_tile.tile_type == tile_type {
            return Some(Pos2i { x: 0, y: -1 });
        }
    }
    None
}

/// Applies the `Water` rule with an explicit tie-break direction.
pub fn update_water_dir(world: &mut Grid, position: Pos2i, tile: Tile, dir: i64)
    requires
        old(world).wf(),
        dir == 1 || dir == -1,
        i64::MIN < position.x < i64::MAX,
        i64::MIN < position.y < i64::MAX,
    ensures
        final(world).wf(),
        final(world)@ == spec_water(
            old(world)@,
            position.x as int,
            position.y as int,
            tile,
            dir as int,
        ),
{
    if let Some(off) = neigbour_of_type(world, position, TileType::Lava) {
        world.set_tile(position, Tile { variant: tile.variant, tile_type: TileType::Stone });
        world.set_tile(
            position.add(off),
            Tile { variant: tile.variant, tile_type: TileType::Stone },
        );
        return;
    }
    update_fluid_dir(world, position, tile, dir);
}

/// Applies the `Water` rule with a randomly drawn tie-break. A reaction
/// with adjacent `Lava` does not depend on the draw.
pub fn update_water(world: &mut Grid, position: Pos2i, tile: Tile)
    requires
        old(world).wf(),
        i64::MIN < position.x < i64::MAX,
        i64::MIN < position.y < i64::MAX,
    ensures
        final(world).wf(),
        exists|dir: int|
            valid_dir(dir) && final(world)@ == spec_water(
                old(world)@,
                position.x as int,
                position.y as int,
                tile,
                dir,
            ),
{
    let dir = random_direction();
    update_water_dir(world, position, tile, dir);
    proof {
        let d: int = dir as int;
        assert(valid_dir(d) && world@ == spec_water(
            old(world)@,
            position.x as int,
            position.y as int,
            tile,
            d,
        ));
    }
}

/// Applies the `Lava` rule with an explicit tie-break direction.
pub fn update_lava_dir(world: &mut Grid, position: Pos2i, tile: Tile, dir: i64)
    requires
        old(world).wf(),
        dir == 1 || dir == -1,
        i64::MIN < position.x < i64::MAX,
        i64::MIN < position.y < i64::MAX,
    ensures
        final(world).wf(),
        final(world)@ == spec_lava(
            old(world)@,
            position.x as int,
            position.y as int,
            tile,
            dir as int,
        ),
{
    if let Some(off) = neigbour_of_type(world, position, TileType::Water) {
        world.set_tile(position, Tile { variant: tile.variant, tile_type: TileType::Stone });
        world.set_tile(
            position.add(off),
            Tile { variant: tile.variant, tile_type: TileType::Stone },
        );
        return;
    }
    update_fluid_dir(world, position, tile, dir);
}

/// Applies the `Lava` rule with a randomly drawn tie-break. A reaction
/// with adjacent `Water` does not depend on the draw.
pub fn update_lava(world: &mut Grid, position: Pos2i, tile: Tile)
    requires
        old(world).wf(),
        i64::MIN < position.x < i64::MAX,
        i64::MIN < position.y < i64::MAX,
    ensures
        final(world).wf(),
        exists|dir: int|
            valid_dir(dir) && final(world)@ == spec_lava(
                old(world)@,
                position.x as int,
                position.y as int,
                tile,
                dir,
            ),
{
    let dir = random_direction();
    update_lava_dir(world, position, tile, dir);
    proof {
        let d: int = dir as int;
        assert(valid_dir(d) && world@ == spec_lava(
            old(world)@,
            position.x as int,
            position.y as int,
            tile,
            d,
        ));
    }
}

/// Applies the `Acid` rule with an explicit tie-break direction.
pub fn update_acid_dir(world: &mut Grid, position: Pos2i, tile: Tile, dir: i64)
    requires
        old(world).wf(),
        dir == 1 || dir == -1,
        i64::MIN < position.x < i64::MAX,
        i64::MIN < position.y < i64::MAX,
    ensures
        final(world).wf(),
        final(world)@ == spec_acid(
            old(world)@,
            position.x as int,
            position.y as int,
            tile,
            dir as int,
        ),
{
    let right_pos = position.add(Pos2i { x: 1, y: 0 });
    if let Some(right_tile) = world.get_tile(right_pos) {
        if right_tile.tile_type != TileType::Air && right_tile.tile_type != TileType::Acid
            && right_tile.tile_type != TileType::Wall {
            world.set_tile(right_pos, crate::tile::tile_air());
            world.set_tile(position, crate::tile::tile_air());
            return;
        }
    }
    let left_pos = position.add(Pos2i { x: -1, y: 0 });
    if let Some(left_tile) = world.get_tile(left_pos) {
        if left_tile.tile_type != TileType::Air && left_tile.tile_type != TileType::Acid
            && left_tile.tile_type != TileType::Wall {
            world.set_tile(left_pos, crate::tile::tile_air());
            world.set_tile(position, crate::tile::tile_air());
            return;
        }
    }
    let below_pos = position.add(Pos2i { x: 0, y: 1 });
    if let Some(below_tile) = world.get_tile(below_pos) {
        if below_tile.tile_type != TileType::Air && below_tile.tile_type != TileType::Acid
            && below_tile.tile_type != TileType::Wall {
            world.set_tile(below_pos, crate::tile::tile_air());
            world.set_tile(position, crate::tile::tile_air());
            return;
        }
    }
    let above_pos = position.add(Pos2i { x: 0, y: -1 });
    if let Some(above_tile) = world.get_tile(above_pos) {
        if above_tile.tile_type != TileType::Air && above_tile.tile_type != TileType::Acid
            && above_tile.tile_type != TileType::Wall {
            world.set_tile(above_pos, crate::tile::tile_air());
            world.set_tile(position, crate::tile::tile_air());
            return;
        }
    }
    update_fluid_dir(world, position, tile, dir);
}

/// Applies the `Acid` rule with a randomly drawn tie-break. Consuming a
/// dissolvable neighbour does not depend on the draw.
pub fn update_acid(world: &mut Grid, position: Pos2i, tile: Tile)
    requires
        old(world).wf(),
        i64::MIN < position.x < i64::MAX,
        i64::MIN < position.y < i64::MAX,
    ensures
        final(world).wf(),
        exists|dir: int|
            valid_dir(dir) && final(world)@ == spec_acid(
                old(world)@,
                position.x as int,
                position.y as int,
                tile,
                dir,
            ),
{
    let dir = random_direction();
    update_acid_dir(world, position, tile, dir);
    proof {
        let d: int = dir as int;
        assert(valid_dir(d) && world@ == spec_acid(
            old(world)@,
            position.x as int,
            position.y as int,
            tile,
            d,
        ));
    }
}

/// Applies the `Fire` rule with an explicit tie-break direction.
pub fn update_fire_dir(world: &mut Grid, position: Pos2i, tile: Tile, dir: i64)
    requires
        old(world).wf(),
        dir == 1 || dir == -1,
        i64::MIN < position.x < i64::MAX,
        position.y < i64::MAX,
    ensures
        final(world).wf(),
        final(world)@ == spec_fire(
            old(world)@,
            position.x as int,
            position.y as int,
            tile,
            dir as int,
        ),
{
    let diag_pos = position.add(Pos2i { x: dir, y: 1 });
    if let Some(down_tile) = world.get_tile(diag_pos) {
        if down_tile.tile_type == TileType::Air {
            world.set_tile(diag_pos, tile);
            world.set_tile(position, down_tile);
            return;
        } else if down_tile.tile_type != TileType::Fire {
            world.set_tile(position, crate::tile::tile_air());
        }
    } else {
        world.set_tile(position, crate::tile::tile_air());
    }
}

/// Applies the `Fire` rule with a randomly drawn tie-break.
pub fn update_fire(world: &mut Grid, position: Pos2i, tile: Tile)
    requires
        old(world).wf(),
        i64::MIN < position.x < i64::MAX,
        position.y < i64::MAX,
    ensures
        final(world).wf(),
        exists|dir: int|
            valid_dir(dir) && final(world)@ == spec_fire(
                old(world)@,
                position.x as int,
                position.y as int,
                tile,
                dir,
            ),
{
    let dir = random_direction();
    update_fire_dir(world, position, tile, dir);
    proof {
        let d: int = dir as int;
        assert(valid_dir(d) && world@ == spec_fire(
            old(world)@,
            position.x as int,
            position.y as int,
            tile,
            d,
        ));
    }
}

/// Whether every cell of the grid holds material `tt`.
pub open spec fn all_of_type(g: GridModel, tt: TileType) -> bool {
    forall|i: int| 0 <= i < g.tiles.len() ==> (#[trigger] g.tiles[i]).tile_type == tt
}

/// A falling solid with air or water directly below swaps with it,
/// whatever lateral tie-break is drawn: the solid moves down, the
/// displaced content moves up, and in particular a cell over air leaves
/// `Air` behind.
pub proof fn lemma_falling_down_deterministic(g: GridModel, x: int, y: int, tile: Tile)
    requires
        g.wf(),
        g.in_bounds(x, y),
        g.in_bounds(x, y + 1),
        solid_can_enter(g.at(x, y + 1)),
    ensures
        forall|d: int| #[trigger]
            spec_falling(g, x, y, tile, d) == g.put(x, y + 1, tile).put(x, y, g.at(x, y + 1)),
        forall|d: int| (#[trigger] spec_falling(g, x, y, tile, d)).at(x, y + 1) == tile,
        g.at(x, y + 1).tile_type == TileType::Air ==> forall|d: int|
            (#[trigger] spec_falling(g, x, y, tile, d)).at(x, y).tile_type == TileType::Air,
{
    let moved = g.put(x, y + 1, tile);
    crate::grid::lemma_put_at(g, x, y + 1, tile);
    crate::grid::lemma_put_at(moved, x, y, g.at(x, y + 1));
}

/// A `Water` cell with `Lava` directly to its right reacts in one tick:
/// both cells become `Stone` carrying the water's variant, and the water
/// does not take part in fluid movement, whatever tie-break is drawn.
pub proof fn lemma_water_lava_react(g: GridModel, x: int, y: int, tile: Tile)
    requires
        g.wf(),
        g.in_bounds(x, y),
        g.in_bounds(x + 1, y),
        g.at(x + 1, y).tile_type == TileType::Lava,
    ensures
        forall|d: int| #[trigger]
            spec_water(g, x, y, tile, d) == g.put(x, y, stone_of(tile.variant)).put(
                x + 1,
                y,
                stone_of(tile.variant),
            ),
        forall|d: int| (#[trigger] spec_water(g, x, y, tile, d)).at(x, y) == stone_of(tile.variant),
        forall|d: int|
            (#[trigger] spec_water(g, x, y, tile, d)).at(x + 1, y) == stone_of(tile.variant),
{
    let s = g.put(x, y, stone_of(tile.variant));
    crate::grid::lemma_put_at(g, x, y, stone_of(tile.variant));
    crate::grid::lemma_put_at(s, x + 1, y, stone_of(tile.variant));
}

/// An `Acid` cell with a dissolvable neighbour to its right (such as
/// `Sand`) consumes it in one tick: both cells become `Air`, whatever
/// tie-break is drawn.
pub proof fn lemma_acid_dissolves_right(g: GridModel, x: int, y: int, tile: Tile)
    requires
        g.wf(),
        g.in_bounds(x, y),
        g.in_bounds(x + 1, y),
        dissolvable(g.at(x + 1, y)),
    ensures
        forall|d: int| (#[trigger] spec_acid(g, x, y, tile, d)).at(x, y) == air_tile(),
        forall|d: int| (#[trigger] spec_acid(g, x, y, tile, d)).at(x + 1, y) == air_tile(),
{
    let s = g.put(x + 1, y, air_tile());
    crate::grid::lemma_put_at(g, x + 1, y, air_tile());
    crate::grid::lemma_put_at(s, x, y, air_tile());
}

/// An `Acid` cell whose orthogonal neighbours are all missing, `Air`,
/// `Acid` or `Wall` dissolves nothing and falls back to fluid movement.
pub proof fn lemma_acid_falls_back(g: GridModel, x: int, y: int, tile: Tile, d: int)
    requires
        g.get(x + 1, y) is Some ==> !dissolvable(g.get(x + 1, y)->0),
        g.get(x - 1, y) is Some ==> !dissolvable(g.get(x - 1, y)->0),
        g.get(x, y + 1) is Some ==> !dissolvable(g.get(x, y + 1)->0),
        g.get(x, y - 1) is Some ==> !dissolvable(g.get(x, y - 1)->0),
    ensures
        spec_acid(g, x, y, tile, d) == spec_fluid(g, x, y, tile, d),
{
}

/// Stepping a grid that is entirely `Air` or entirely `Wall` dispatches
/// no rule that changes anything: the prefix of a tick leaves the grid
/// unchanged.
pub proof fn lemma_step_prefix_inert(g: GridModel, dirs: Seq<int>, n: int)
    requires
        all_of_type(g, TileType::Air) || all_of_type(g, TileType::Wall),
        0 <= n <= g.tiles.len(),
    ensures
        spec_step_prefix(g, dirs, n) == g,
    decreases n,
{
    if n > 0 {
        lemma_step_prefix_inert(g, dirs, n - 1);
        assert(g.tiles[n - 1].tile_type == TileType::Air || g.tiles[n - 1].tile_type
            == TileType::Wall);
    }
}

/// One tick leaves a grid that is entirely `Air` or entirely `Wall`
/// unchanged, whatever tie-breaks are drawn.
pub proof fn lemma_step_inert(g: GridModel, dirs: Seq<int>)
    requires
        all_of_type(g, TileType::Air) || all_of_type(g, TileType::Wall),
    ensures
        spec_step(g, dirs) == g,
{
    lemma_step_prefix_inert(g, dirs, g.tiles.len() as int);
}

/// Any number of ticks on the previous generations `draws[0]`,
/// `draws[1]`, ... applied in order.
pub open spec fn spec_step_many(g: GridModel, draws: Seq<Seq<int>>) -> GridModel
    decreases draws.len(),
{
    if draws.len() == 0 {
        g
    } else {
        spec_step_many(spec_step(g, draws[0]), draws.drop_first())
    }
}

/// Any number of ticks leaves a grid that is entirely `Air` or entirely
/// `Wall` unchanged, whatever tie-breaks are drawn in each tick.
pub proof fn lemma_step_many_inert(g: GridModel, draws: Seq<Seq<int>>)
    requires
        all_of_type(g, TileType::Air) || all_of_type(g, TileType::Wall),
    ensures
        spec_step_many(g, draws) == g,
    decreases draws.len(),
{
    if draws.len() > 0 {
        lemma_step_inert(g, draws[0]);
        lemma_step_many_inert(g, draws.drop_first());
    }
}

/// The colour table: the RGBA colour of a material, with the variant
/// selecting among alternates for dappled materials.
pub open spec fn spec_color(tile_type: TileType, variant: u8) -> (u8, u8, u8, u8) {
    match tile_type {
        TileType::Sand => if variant % 2 == 0 {
            (220u8, 204u8, 171u8, 255u8)
        } else {
            (204u8, 180u8, 149u8, 255u8)
        },
        TileType::Stone => if variant % 2 == 0 {
            (132u8, 132u8, 132u8, 255u8)
        } else {
            (124u8, 124u8, 124u8, 255u8)
        },
        TileType::Water => (12u8, 84u8, 220u8, 255u8),
        TileType::Lava => (255u8, 0u8, 0u8, 255u8),
        TileType::Wall => if variant % 2 == 0 {
            (212u8, 212u8, 212u8, 255u8)
        } else {
            (220u8, 220u8, 220u8, 255u8)
        },
        TileType::Fire => (238u8, 88u8, 34u8, 255u8),
        TileType::Acid => (0u8, 255u8, 126u8, 255u8),
        _ => (0u8, 0u8, 0u8, 0u8),
    }
}

/// The RGBA colour a cell is painted with.
pub fn get_color(tile_type: TileType, variant: u8) -> (c: (u8, u8, u8, u8))
    ensures
        c == spec_color(tile_type, variant),
{
    match tile_type {
        TileType::Sand => if variant % 2 == 0 {
            (220, 204, 171, 255)
        } else {
            (204, 180, 149, 255)
        },
        TileType::Stone => if variant % 2 == 0 {
            (132, 132, 132, 255)
        } else {
            (124, 124, 124, 255)
        },
        TileType::Water => (12, 84, 220, 255),
        TileType::Lava => (255, 0, 0, 255),
        TileType::Wall => if variant % 2 == 0 {
            (212, 212, 212, 255)
        } else {
            (220, 220, 220, 255)
        },
        TileType::Fire => (238, 88, 34, 255),
        TileType::Acid => (0, 255, 126, 255),
        _ => (0, 0, 0, 0),
    }
}

} // verus!

