//! Session-level editing of the world: painting tiles with a round
//! brush, the user's panel state, and the undo / clear actions. The
//! window layer only translates raw input into the plain values these
//! functions take.

use rand::Rng;
use vstd::prelude::*;

use crate::grid::GridModel;
use crate::tile::{Pos2i, Tile, TileType};
use crate::world::World;

verus! {

/// A pending whole-world edit requested through the panel.
#[derive(Clone, Copy, PartialEq, Eq, Structural, Debug)]
pub enum EditAction {
    Undo,
    Clear,
}

/// The state behind the control panel: what is painted, how large the
/// brush is, whether the simulation ticks, a pending whole-world edit,
/// and the undo history of world snapshots.
pub struct UserState {
    pub current_tile: TileType,
    pub brush_size: u64,
    pub running: bool,
    pub edit_action_flag: Option<EditAction>,
    pub action_stack: Vec<World>,
}

/// Whether every world on an undo stack is well-formed.
pub open spec fn wf_stack(stack: Seq<World>) -> bool {
    forall|i: int| 0 <= i < stack.len() ==> (#[trigger] stack[i]).wf()
}

impl Default for UserState {
    /// A fresh panel: painting sand, zero brush, paused, nothing pending,
    /// empty history.
    fn default() -> (s: Self)
        ensures
            s.current_tile == TileType::Sand,
            s.brush_size == 0,
            !s.running,
            s.edit_action_flag is None,
            s.action_stack@.len() == 0,
    {
        UserState {
            current_tile: TileType::Sand,
            brush_size: 0,
            running: false,
            edit_action_flag: None,
            action_stack: Vec::new(),
        }
    }
}

/// Relies on rand::Rng::gen_range, documented to sample a value within
/// the given range and to panic only when the range is empty. Only that
/// the result lies in the range is assumed, never which value comes back.
#[verifier::external_body]
fn random_variant() -> (r: u8)
    ensures
        r <= 8,
{
    rand::thread_rng().gen_range(0..=8)
}

/// One painting touch at `(x, y)` with variant `variant`: placing a
/// material only succeeds over `Air`, while erasing (placing `Air`)
/// overwrites anything; writes outside the world are ignored.
pub open spec fn spec_place_tile(
    g: GridModel,
    x: int,
    y: int,
    tt: TileType,
    variant: u8,
) -> GridModel {
    if g.get(x, y) is Some && g.get(x, y)->0.tile_type != TileType::Air && tt != TileType::Air {
        g
    } else {
        g.put(x, y, Tile { variant, tile_type: tt })
    }
}

/// Paints one cell with an explicit variant.
pub fn place_tile_with_variant(world: &mut World, pos: Pos2i, tile: TileType, variant: u8)
    requires
        old(world).wf(),
    ensures
        final(world).wf(),
        final(world)@ == spec_place_tile(old(world)@, pos.x as int, pos.y as int, tile, variant),
{
    if let Some(clicked_tile) = world.get_tile(pos) {
        if clicked_tile.tile_type != TileType::Air && tile != TileType::Air {
            return;
        }
    }
    world.set_tile(pos, Tile { tile_type: tile, variant });
}

/// Paints one cell with a randomly drawn variant. Whatever variant comes
/// back, a non-`Air` material never overwrites an occupied cell, and the
/// placed cell's material is always `tile`.
pub fn place_tile(world: &mut World, pos: Pos2i, tile: TileType)
    requires
        old(world).wf(),
    ensures
        final(world).wf(),
        exists|v: u8|
            v <= 8 && final(world)@ == spec_place_tile(
                old(world)@,
                pos.x as int,
                pos.y as int,
                tile,
                v,
            ),
{
    let variant = random_variant();
    place_tile_with_variant(world, pos, tile, variant);
    proof {
        assert(variant <= 8 && world@ == spec_place_tile(
            old(world)@,
            pos.x as int,
            pos.y as int,
            tile,
            variant,
        ));
    }
}

/// Whether every drawn variant lies in the cosmetic range.
pub open spec fn valid_variants(vars: Seq<u8>) -> bool {
    forall|i: int| 0 <= i < vars.len() ==> #[trigger] vars[i] <= 8
}

/// The world after the first `n` cells of a brush stroke centred at
/// `(cx, cy)` with radius `half`. Cell `k` of the stroke addresses the
/// offset `(k / side - half, k % side - half)` of the `side x side`
/// bounding square (`side == 2 * half + 1`); offsets outside the brush
/// disc are skipped, the rest are painted with variant `vars[k]`.
pub open spec fn spec_paint_prefix(
    g: GridModel,
    cx: int,
    cy: int,
    half: int,
    tt: TileType,
    vars: Seq<u8>,
    n: int,
) -> GridModel
    decreases n,
{
    if n <= 0 {
        g
    } else {
        let g1 = spec_paint_prefix(g, cx, cy, half, tt, vars, n - 1);
        let k = n - 1;
        let side = 2 * half + 1;
        let dx = k / side - half;
        let dy = k % side - half;
        if dx * dx + dy * dy > half * half - 1 {
            g1
        } else {
            spec_place_tile(g1, cx + dx, cy + dy, tt, vars[k])
        }
    }
}

/// A whole brush stroke: every cell of the bounding square, in row-major
/// order of the square.
pub open spec fn spec_paint(
    g: GridModel,
    cx: int,
    cy: int,
    half: int,
    tt: TileType,
    vars: Seq<u8>,
) -> GridModel {
    spec_paint_prefix(g, cx, cy, half, tt, vars, (2 * half + 1) * (2 * half + 1))
}

/// A stroke prefix only reads the variants of the cells it covers, so
/// appending one more leaves it unchanged.
pub proof fn lemma_paint_prefix_push(
    g: GridModel,
    cx: int,
    cy: int,
    half: int,
    tt: TileType,
    vars: Seq<u8>,
    v: u8,
    n: int,
)
    requires
        0 <= n <= vars.len(),
    ensures
        spec_paint_prefix(g, cx, cy, half, tt, vars.push(v), n) == spec_paint_prefix(
            g,
            cx,
            cy,
            half,
            tt,
            vars,
            n,
        ),
    decreases n,
{
    if n > 0 {
        lemma_paint_prefix_push(g, cx, cy, half, tt, vars, v, n - 1);
        assert(vars.push(v)[n - 1] == vars[n - 1]);
    }
}

/// Paints a filled disc of radius `brush_size` centred on `center`,
/// touching each cell of the bounding square once in row-major order.
/// Every touch draws its own variant; which cells are touched and what
/// material they receive does not depend on the draws.
pub fn paint_brush(world: &mut World, center: Pos2i, brush_size: u64, tile: TileType)
    requires
        old(world).wf(),
        (2 * brush_size + 1) * (2 * brush_size + 1) <= usize::MAX,
        2 * brush_size * brush_size <= i64::MAX,
        i64::MIN <= center.x - brush_size,
        center.x + brush_size <= i64::MAX,
        i64::MIN <= center.y - brush_size,
        center.y + brush_size <= i64::MAX,
    ensures
        final(world).wf(),
        exists|vars: Seq<u8>|
            #![auto]
            vars.len() == (2 * brush_size + 1) * (2 * brush_size + 1) && valid_variants(vars)
                && final(world)@ == spec_paint(
                old(world)@,
                center.x as int,
                center.y as int,
                brush_size as int,
                tile,
                vars,
            ),
{
    proof {
        assert(2 * (brush_size as int) + 1 <= usize::MAX) by (nonlinear_arith)
            requires
                (2 * (brush_size as int) + 1) * (2 * (brush_size as int) + 1) <= usize::MAX,
                brush_size as int >= 0,
        ;
    }
    let side: usize = (2 * brush_size + 1) as usize;
    let total: usize = side * side;
    let half: i64 = brush_size as i64;
    let ghost cx: int = center.x as int;
    let ghost cy: int = center.y as int;
    let ghost h: int = half as int;
    let ghost mut vars: Seq<u8> = Seq::empty();
    let mut k: usize = 0;
    while k < total
        invariant
            world.wf(),
            k <= total,
            side as int == 2 * h + 1,
            total as int == side as int * side as int,
            h == brush_size as int,
            half as int == h,
            0 <= h <= i64::MAX,
            2 * h * h <= i64::MAX,
            i64::MIN <= cx - h,
            cx + h <= i64::MAX,
            i64::MIN <= cy - h,
            cy + h <= i64::MAX,
            cx == center.x as int,
            cy == center.y as int,
            vars.len() == k as int,
            valid_variants(vars),
            world@ == spec_paint_prefix(old(world)@, cx, cy, h, tile, vars, k as int),
        decreases total - k,
    {
        let dxu: usize = k / side;
        let dyu: usize = k % side;
        proof {
            assert((k as int) / (side as int) < side as int) by (nonlinear_arith)
                requires
                    side as int >= 1,
                    0 <= k as int,
                    (k as int) < (side as int) * (side as int),
            ;
            assert(0 <= (k as int) % (side as int) < side as int) by (nonlinear_arith)
                requires
                    side as int >= 1,
                    0 <= k as int,
            ;
            assert(0 <= (k as int) / (side as int)) by (nonlinear_arith)
                requires
                    side as int >= 1,
                    0 <= k as int,
            ;
        }
        proof {
            assert(2 * h + 1 <= i64::MAX) by (nonlinear_arith)
                requires
                    2 * h * h <= i64::MAX,
                    0 <= h,
            ;
        }
        let dx: i64 = dxu as i64 - half;
        let dy: i64 = dyu as i64 - half;
        let ghost dxi: int = dx as int;
        let ghost dyi: int = dy as int;
        proof {
            assert(dxi * dxi <= h * h) by (nonlinear_arith)
                requires
                    -h <= dxi <= h,
                    h >= 0,
            ;
            assert(dyi * dyi <= h * h) by (nonlinear_arith)
                requires
                    -h <= dyi <= h,
                    h >= 0,
            ;
            assert(dxi * dxi >= 0) by (nonlinear_arith);
            assert(dyi * dyi >= 0) by (nonlinear_arith);
            assert(h * h >= 0) by (nonlinear_arith);
            assert(2 * h * h == h * h + h * h) by (nonlinear_arith);
        }
        let ghost pre = world@;
        if !(dx * dx + dy * dy > half * half - 1) {
            let pos = Pos2i { x: center.x + dx, y: center.y + dy };
            place_tile(world, pos, tile);
            proof {
                let v = choose|v: u8|
                    v <= 8 && world@ == #[trigger] spec_place_tile(pre, cx + dxi, cy + dyi, tile, v);
                lemma_paint_prefix_push(old(world)@, cx, cy, h, tile, vars, v, k as int);
                vars = vars.push(v);
            }
        } else {
            proof {
                lemma_paint_prefix_push(old(world)@, cx, cy, h, tile, vars, 0u8, k as int);
                vars = vars.push(0u8);
            }
        }
        k = k + 1;
    }
    proof {
        assert(vars.len() == (2 * (brush_size as int) + 1) * (2 * (brush_size as int) + 1)
            && valid_variants(vars) && world@ == spec_paint(
            old(world)@,
            cx,
            cy,
            brush_size as int,
            tile,
            vars,
        ));
    }
}

/// Performs the pending whole-world edit, if any: `Clear` empties the
/// world, `Undo` replaces it with the most recent snapshot on the stack.
/// The flag is consumed; nothing else of the panel state changes.
pub fn apply_edit_action(world: &mut World, state: &mut UserState)
    requires
        old(world).wf(),
        wf_stack(old(state).action_stack@),
        old(state).edit_action_flag == Some(EditAction::Undo) ==> old(
            state,
        ).action_stack@.len() > 0,
    ensures
        final(world).wf(),
        wf_stack(final(state).action_stack@),
        final(state).edit_action_flag is None,
        final(state).current_tile == old(state).current_tile,
        final(state).brush_size == old(state).brush_size,
        final(state).running == old(state).running,
        old(state).edit_action_flag is None ==> {
            &&& final(world)@ == old(world)@
            &&& final(state).action_stack@ == old(state).action_stack@
        },
        old(state).edit_action_flag == Some(EditAction::Clear) ==> {
            &&& final(world)@.width == old(world)@.width
            &&& final(world)@.height == old(world)@.height
            &&& final(world)@.tiles.len() == old(world)@.tiles.len()
            &&& forall|i: int|
                0 <= i < final(world)@.tiles.len() ==> final(world)@.tiles[i]
                    == crate::tile::air_tile()
            &&& final(state).action_stack@ == old(state).action_stack@
        },
        old(state).edit_action_flag == Some(EditAction::Undo) ==> {
            &&& final(world)@ == old(state).action_stack@.last()@
            &&& final(state).action_stack@ == old(state).action_stack@.drop_last()
        },
{
    if let Some(edit_action) = state.edit_action_flag.take() {
        match edit_action {
            EditAction::Undo => {
                let last_world = state.action_stack.pop();
                *world = last_world.unwrap();
            },
            EditAction::Clear => {
                world.clear();
            },
        }
    }
}

} // verus!
