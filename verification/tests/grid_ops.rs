use poussiere::{Grid, Pos2i, Tile, TileType};

fn p(x: i64, y: i64) -> Pos2i {
    Pos2i { x, y }
}

fn tile(tt: TileType, variant: u8) -> Tile {
    Tile { variant, tile_type: tt }
}

#[test]
fn new_grid_is_air() {
    let g = Grid::new((3, 2));
    assert_eq!(g.size(), (3, 2));
    for x in 0..3 {
        for y in 0..2 {
            let t = g.get_tile(p(x, y)).unwrap();
            assert_eq!(t.tile_type, TileType::Air);
            assert_eq!(t.variant, 0);
        }
    }
}

#[test]
fn get_out_of_bounds_is_none() {
    let g = Grid::new((3, 3));
    assert!(g.get_tile(p(-1, 0)).is_none());
    assert!(g.get_tile(p(0, -1)).is_none());
    assert!(g.get_tile(p(3, 0)).is_none());
    assert!(g.get_tile(p(0, 3)).is_none());
    assert!(g.get_tile(p(i64::MIN, i64::MAX)).is_none());
    assert!(g.get_tile(p(2, 2)).is_some());
}

#[test]
fn set_out_of_bounds_is_ignored() {
    let mut g = Grid::new((2, 2));
    g.set_tile(p(-1, 0), tile(TileType::Sand, 1));
    g.set_tile(p(2, 0), tile(TileType::Sand, 1));
    g.set_tile(p(0, -7), tile(TileType::Sand, 1));
    g.set_tile(p(0, 2), tile(TileType::Sand, 1));
    for x in 0..2 {
        for y in 0..2 {
            assert_eq!(g.get_tile(p(x, y)).unwrap().tile_type, TileType::Air);
        }
    }
}

#[test]
fn set_then_get_in_bounds() {
    let mut g = Grid::new((4, 4));
    g.set_tile(p(2, 3), tile(TileType::Lava, 5));
    let t = g.get_tile(p(2, 3)).unwrap();
    assert_eq!(t.tile_type, TileType::Lava);
    assert_eq!(t.variant, 5);
    assert_eq!(g.get_tile(p(3, 2)).unwrap().tile_type, TileType::Air);
}

#[test]
fn clear_yields_only_air() {
    let mut g = Grid::new((3, 3));
    g.set_tile(p(0, 0), tile(TileType::Wall, 1));
    g.set_tile(p(1, 1), tile(TileType::Sand, 2));
    g.set_tile(p(2, 2), tile(TileType::Acid, 3));
    g.clear();
    let mut it = g.iter_tiles();
    let mut count = 0;
    while let Some((_, t)) = it.next() {
        assert_eq!(t.tile_type, TileType::Air);
        assert_eq!(t.variant, 0);
        count += 1;
    }
    assert_eq!(count, 9);
}

#[test]
fn iteration_is_row_major() {
    let mut g = Grid::new((2, 2));
    g.set_tile(p(0, 0), tile(TileType::Sand, 0));
    g.set_tile(p(1, 0), tile(TileType::Water, 0));
    g.set_tile(p(0, 1), tile(TileType::Stone, 0));
    g.set_tile(p(1, 1), tile(TileType::Wall, 0));
    let mut it = g.iter_tiles();
    let expected = [
        (0, 0, TileType::Sand),
        (1, 0, TileType::Water),
        (0, 1, TileType::Stone),
        (1, 1, TileType::Wall),
    ];
    for (x, y, tt) in expected {
        let (pos, t) = it.next().unwrap();
        assert_eq!(pos.x, x);
        assert_eq!(pos.y, y);
        assert_eq!(t.tile_type, tt);
    }
    assert!(it.next().is_none());
}

#[test]
fn snapshot_restore_round_trip() {
    let mut g = Grid::new((3, 2));
    g.set_tile(p(0, 0), tile(TileType::Dirt, 4));
    g.set_tile(p(2, 1), tile(TileType::Fire, 7));
    let snap = g.snapshot();
    g.set_tile(p(0, 0), tile(TileType::Water, 0));
    g.clear();
    g.restore(snap);
    assert_eq!(g.get_tile(p(0, 0)).unwrap().tile_type, TileType::Dirt);
    assert_eq!(g.get_tile(p(0, 0)).unwrap().variant, 4);
    assert_eq!(g.get_tile(p(2, 1)).unwrap().tile_type, TileType::Fire);
    assert_eq!(g.get_tile(p(2, 1)).unwrap().variant, 7);
    assert_eq!(g.get_tile(p(1, 0)).unwrap().tile_type, TileType::Air);
}

#[test]
fn snapshot_unaffected_by_later_edits() {
    let mut g = Grid::new((2, 1));
    g.set_tile(p(0, 0), tile(TileType::Stone, 1));
    let snap = g.snapshot();
    g.set_tile(p(0, 0), tile(TileType::Acid, 2));
    assert_eq!(snap[0].tile_type, TileType::Stone);
    assert_eq!(g.get_tile(p(0, 0)).unwrap().tile_type, TileType::Acid);
}

#[test]
fn clone_is_deep() {
    let mut g = Grid::new((2, 2));
    g.set_tile(p(1, 1), tile(TileType::Lava, 3));
    let copy = g.clone();
    g.set_tile(p(1, 1), tile(TileType::Air, 0));
    assert_eq!(copy.get_tile(p(1, 1)).unwrap().tile_type, TileType::Lava);
    assert_eq!(g.get_tile(p(1, 1)).unwrap().tile_type, TileType::Air);
}

#[test]
fn zero_sized_grid() {
    let g = Grid::new((0, 5));
    assert_eq!(g.size(), (0, 5));
    assert!(g.get_tile(p(0, 0)).is_none());
    let mut it = g.iter_tiles();
    assert!(it.next().is_none());
}
