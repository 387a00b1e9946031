use poussiere::tiles::{
    get_color, update_acid, update_acid_dir, update_falling_tile, update_falling_tile_dir,
    update_fire_dir, update_fluid_dir, update_lava, update_water, update_water_dir,
};
use poussiere::{Grid, Pos2i, Tile, TileType};

fn p(x: i64, y: i64) -> Pos2i {
    Pos2i { x, y }
}

fn tile(tt: TileType, variant: u8) -> Tile {
    Tile { variant, tile_type: tt }
}

#[test]
fn sand_falls_down_regardless_of_tie_break() {
    for dir in [1i64, -1] {
        let mut g = Grid::new((3, 3));
        let sand = tile(TileType::Sand, 2);
        g.set_tile(p(1, 0), sand);
        update_falling_tile_dir(&mut g, p(1, 0), sand, dir);
        assert_eq!(g.get_tile(p(1, 0)).unwrap().tile_type, TileType::Air);
        assert_eq!(g.get_tile(p(1, 1)).unwrap().tile_type, TileType::Sand);
        assert_eq!(g.get_tile(p(1, 1)).unwrap().variant, 2);
    }
}

#[test]
fn sand_falls_down_with_random_tie_break() {
    let mut g = Grid::new((3, 3));
    let sand = tile(TileType::Sand, 0);
    g.set_tile(p(1, 0), sand);
    update_falling_tile(&mut g, p(1, 0), sand);
    assert_eq!(g.get_tile(p(1, 0)).unwrap().tile_type, TileType::Air);
    assert_eq!(g.get_tile(p(1, 1)).unwrap().tile_type, TileType::Sand);
}

#[test]
fn sand_swaps_with_water_below() {
    let mut g = Grid::new((1, 2));
    let sand = tile(TileType::Sand, 1);
    let water = tile(TileType::Water, 6);
    g.set_tile(p(0, 0), sand);
    g.set_tile(p(0, 1), water);
    update_falling_tile_dir(&mut g, p(0, 0), sand, 1);
    assert_eq!(g.get_tile(p(0, 0)).unwrap().tile_type, TileType::Water);
    assert_eq!(g.get_tile(p(0, 0)).unwrap().variant, 6);
    assert_eq!(g.get_tile(p(0, 1)).unwrap().tile_type, TileType::Sand);
}

#[test]
fn sand_moves_diagonally_when_blocked() {
    let mut g = Grid::new((3, 2));
    let sand = tile(TileType::Sand, 0);
    g.set_tile(p(1, 0), sand);
    g.set_tile(p(1, 1), tile(TileType::Stone, 0));
    let mut right = g.clone();
    update_falling_tile_dir(&mut right, p(1, 0), sand, 1);
    assert_eq!(right.get_tile(p(1, 0)).unwrap().tile_type, TileType::Air);
    assert_eq!(right.get_tile(p(2, 1)).unwrap().tile_type, TileType::Sand);
    let mut left = g.clone();
    update_falling_tile_dir(&mut left, p(1, 0), sand, -1);
    assert_eq!(left.get_tile(p(1, 0)).unwrap().tile_type, TileType::Air);
    assert_eq!(left.get_tile(p(0, 1)).unwrap().tile_type, TileType::Sand);
}

#[test]
fn sand_moves_to_some_diagonal_with_random_tie_break() {
    let mut g = Grid::new((3, 2));
    let sand = tile(TileType::Sand, 0);
    g.set_tile(p(1, 0), sand);
    g.set_tile(p(1, 1), tile(TileType::Stone, 0));
    update_falling_tile(&mut g, p(1, 0), sand);
    assert_eq!(g.get_tile(p(1, 0)).unwrap().tile_type, TileType::Air);
    let went_left = g.get_tile(p(0, 1)).unwrap().tile_type == TileType::Sand;
    let went_right = g.get_tile(p(2, 1)).unwrap().tile_type == TileType::Sand;
    assert!(went_left != went_right);
}

#[test]
fn blocked_sand_stays() {
    let mut g = Grid::new((1, 2));
    let sand = tile(TileType::Sand, 3);
    g.set_tile(p(0, 0), sand);
    g.set_tile(p(0, 1), tile(TileType::Wall, 0));
    update_falling_tile(&mut g, p(0, 0), sand);
    assert_eq!(g.get_tile(p(0, 0)).unwrap().tile_type, TileType::Sand);
    assert_eq!(g.get_tile(p(0, 1)).unwrap().tile_type, TileType::Wall);
}

#[test]
fn fluid_prefers_down_then_diagonal_then_lateral() {
    let water = tile(TileType::Water, 0);

    let mut down = Grid::new((1, 2));
    down.set_tile(p(0, 0), water);
    update_fluid_dir(&mut down, p(0, 0), water, 1);
    assert_eq!(down.get_tile(p(0, 1)).unwrap().tile_type, TileType::Water);
    assert_eq!(down.get_tile(p(0, 0)).unwrap().tile_type, TileType::Air);

    let mut diag = Grid::new((2, 2));
    diag.set_tile(p(0, 0), water);
    diag.set_tile(p(0, 1), tile(TileType::Stone, 0));
    update_fluid_dir(&mut diag, p(0, 0), water, 1);
    assert_eq!(diag.get_tile(p(1, 1)).unwrap().tile_type, TileType::Water);
    assert_eq!(diag.get_tile(p(0, 0)).unwrap().tile_type, TileType::Air);

    let mut lateral = Grid::new((2, 2));
    lateral.set_tile(p(0, 0), water);
    lateral.set_tile(p(0, 1), tile(TileType::Stone, 0));
    lateral.set_tile(p(1, 1), tile(TileType::Stone, 0));
    update_fluid_dir(&mut lateral, p(0, 0), water, 1);
    assert_eq!(lateral.get_tile(p(1, 0)).unwrap().tile_type, TileType::Water);
    assert_eq!(lateral.get_tile(p(0, 0)).unwrap().tile_type, TileType::Air);
}

#[test]
fn water_and_lava_turn_to_stone() {
    let mut g = Grid::new((2, 1));
    let water = tile(TileType::Water, 5);
    g.set_tile(p(0, 0), water);
    g.set_tile(p(1, 0), tile(TileType::Lava, 2));
    update_water(&mut g, p(0, 0), water);
    let a = g.get_tile(p(0, 0)).unwrap();
    let b = g.get_tile(p(1, 0)).unwrap();
    assert_eq!(a.tile_type, TileType::Stone);
    assert_eq!(b.tile_type, TileType::Stone);
    assert_eq!(a.variant, 5);
    assert_eq!(b.variant, 5);
}

#[test]
fn water_lava_react_within_a_step() {
    let mut g = Grid::new((2, 1));
    g.set_tile(p(0, 0), tile(TileType::Water, 1));
    g.set_tile(p(1, 0), tile(TileType::Lava, 2));
    g.step();
    assert_eq!(g.get_tile(p(0, 0)).unwrap().tile_type, TileType::Stone);
    assert_eq!(g.get_tile(p(1, 0)).unwrap().tile_type, TileType::Stone);
}

#[test]
fn lava_reacts_with_water_neighbour() {
    let mut g = Grid::new((2, 1));
    let lava = tile(TileType::Lava, 7);
    g.set_tile(p(0, 0), lava);
    g.set_tile(p(1, 0), tile(TileType::Water, 3));
    update_lava(&mut g, p(0, 0), lava);
    assert_eq!(g.get_tile(p(0, 0)).unwrap().tile_type, TileType::Stone);
    assert_eq!(g.get_tile(p(0, 0)).unwrap().variant, 7);
    assert_eq!(g.get_tile(p(1, 0)).unwrap().tile_type, TileType::Stone);
}

#[test]
fn reaction_without_movement_same_tick() {
    // A reacting water cell must not also flow that tick, even though the
    // cell below it is free.
    let mut g = Grid::new((2, 2));
    let water = tile(TileType::Water, 0);
    g.set_tile(p(0, 0), water);
    g.set_tile(p(1, 0), tile(TileType::Lava, 0));
    update_water(&mut g, p(0, 0), water);
    assert_eq!(g.get_tile(p(0, 0)).unwrap().tile_type, TileType::Stone);
    assert_eq!(g.get_tile(p(0, 1)).unwrap().tile_type, TileType::Air);
}

#[test]
fn acid_dissolves_right_neighbour() {
    let mut g = Grid::new((2, 1));
    let acid = tile(TileType::Acid, 4);
    g.set_tile(p(0, 0), acid);
    g.set_tile(p(1, 0), tile(TileType::Sand, 1));
    update_acid(&mut g, p(0, 0), acid);
    assert_eq!(g.get_tile(p(0, 0)).unwrap().tile_type, TileType::Air);
    assert_eq!(g.get_tile(p(1, 0)).unwrap().tile_type, TileType::Air);
}

#[test]
fn acid_scan_priority_is_right_first() {
    let mut g = Grid::new((3, 1));
    let acid = tile(TileType::Acid, 0);
    g.set_tile(p(0, 0), tile(TileType::Sand, 0));
    g.set_tile(p(1, 0), acid);
    g.set_tile(p(2, 0), tile(TileType::Dirt, 0));
    update_acid_dir(&mut g, p(1, 0), acid, 1);
    assert_eq!(g.get_tile(p(0, 0)).unwrap().tile_type, TileType::Sand);
    assert_eq!(g.get_tile(p(1, 0)).unwrap().tile_type, TileType::Air);
    assert_eq!(g.get_tile(p(2, 0)).unwrap().tile_type, TileType::Air);
}

#[test]
fn acid_ignores_wall_air_acid_and_flows() {
    let mut g = Grid::new((3, 2));
    let acid = tile(TileType::Acid, 0);
    g.set_tile(p(0, 0), tile(TileType::Wall, 0));
    g.set_tile(p(1, 0), acid);
    g.set_tile(p(2, 0), tile(TileType::Acid, 1));
    update_acid(&mut g, p(1, 0), acid);
    // Nothing dissolved; the acid fell straight down instead.
    assert_eq!(g.get_tile(p(0, 0)).unwrap().tile_type, TileType::Wall);
    assert_eq!(g.get_tile(p(2, 0)).unwrap().tile_type, TileType::Acid);
    assert_eq!(g.get_tile(p(1, 0)).unwrap().tile_type, TileType::Air);
    assert_eq!(g.get_tile(p(1, 1)).unwrap().tile_type, TileType::Acid);
}

#[test]
fn fire_moves_diagonally_into_air() {
    let mut g = Grid::new((2, 2));
    let fire = tile(TileType::Fire, 0);
    g.set_tile(p(0, 0), fire);
    update_fire_dir(&mut g, p(0, 0), fire, 1);
    assert_eq!(g.get_tile(p(0, 0)).unwrap().tile_type, TileType::Air);
    assert_eq!(g.get_tile(p(1, 1)).unwrap().tile_type, TileType::Fire);
}

#[test]
fn fire_extinguishes_on_occupied_target() {
    let mut g = Grid::new((2, 2));
    let fire = tile(TileType::Fire, 0);
    g.set_tile(p(0, 0), fire);
    g.set_tile(p(1, 1), tile(TileType::Stone, 0));
    update_fire_dir(&mut g, p(0, 0), fire, 1);
    assert_eq!(g.get_tile(p(0, 0)).unwrap().tile_type, TileType::Air);
    assert_eq!(g.get_tile(p(1, 1)).unwrap().tile_type, TileType::Stone);
}

#[test]
fn fire_extinguishes_at_grid_edge() {
    let mut g = Grid::new((2, 1));
    let fire = tile(TileType::Fire, 0);
    g.set_tile(p(0, 0), fire);
    update_fire_dir(&mut g, p(0, 0), fire, 1);
    assert_eq!(g.get_tile(p(0, 0)).unwrap().tile_type, TileType::Air);
}

#[test]
fn step_moves_single_sand_down() {
    let mut g = Grid::new((3, 3));
    g.set_tile(p(1, 0), tile(TileType::Sand, 0));
    g.step();
    assert_eq!(g.get_tile(p(1, 0)).unwrap().tile_type, TileType::Air);
    assert_eq!(g.get_tile(p(1, 1)).unwrap().tile_type, TileType::Sand);
    for x in 0..3 {
        for y in 0..3 {
            if (x, y) != (1, 1) {
                assert_eq!(g.get_tile(p(x, y)).unwrap().tile_type, TileType::Air);
            }
        }
    }
}

#[test]
fn step_moves_water_down() {
    let mut g = Grid::new((1, 2));
    g.set_tile(p(0, 0), tile(TileType::Water, 0));
    g.step();
    assert_eq!(g.get_tile(p(0, 0)).unwrap().tile_type, TileType::Air);
    assert_eq!(g.get_tile(p(0, 1)).unwrap().tile_type, TileType::Water);
}

#[test]
fn stepping_all_air_changes_nothing() {
    let mut g = Grid::new((4, 3));
    for _ in 0..5 {
        g.step();
        let mut it = g.iter_tiles();
        while let Some((_, t)) = it.next() {
            assert_eq!(t.tile_type, TileType::Air);
        }
    }
}

#[test]
fn stepping_all_wall_changes_nothing() {
    let mut g = Grid::new((3, 3));
    for x in 0..3 {
        for y in 0..3 {
            g.set_tile(p(x, y), tile(TileType::Wall, (x + y) as u8));
        }
    }
    for _ in 0..4 {
        g.step();
    }
    for x in 0..3 {
        for y in 0..3 {
            let t = g.get_tile(p(x, y)).unwrap();
            assert_eq!(t.tile_type, TileType::Wall);
            assert_eq!(t.variant, (x + y) as u8);
        }
    }
}

#[test]
fn sand_settles_into_a_pile() {
    // Dropping sand in one column for a few ticks must end with all of it
    // resting in the bottom rows, conserving the number of sand cells.
    let mut g = Grid::new((5, 5));
    g.set_tile(p(2, 0), tile(TileType::Sand, 0));
    g.set_tile(p(2, 1), tile(TileType::Sand, 0));
    g.set_tile(p(2, 2), tile(TileType::Sand, 0));
    for _ in 0..10 {
        g.step();
    }
    let mut sand_count = 0;
    let mut it = g.iter_tiles();
    while let Some((_, t)) = it.next() {
        if t.tile_type == TileType::Sand {
            sand_count += 1;
        }
    }
    assert_eq!(sand_count, 3);
    assert_eq!(g.get_tile(p(2, 4)).unwrap().tile_type, TileType::Sand);
}

#[test]
fn color_table_exact_values() {
    assert_eq!(get_color(TileType::Sand, 0), (220, 204, 171, 255));
    assert_eq!(get_color(TileType::Sand, 1), (204, 180, 149, 255));
    assert_eq!(get_color(TileType::Stone, 2), (132, 132, 132, 255));
    assert_eq!(get_color(TileType::Stone, 3), (124, 124, 124, 255));
    assert_eq!(get_color(TileType::Water, 0), (12, 84, 220, 255));
    assert_eq!(get_color(TileType::Lava, 4), (255, 0, 0, 255));
    assert_eq!(get_color(TileType::Wall, 0), (212, 212, 212, 255));
    assert_eq!(get_color(TileType::Wall, 1), (220, 220, 220, 255));
    assert_eq!(get_color(TileType::Fire, 0), (238, 88, 34, 255));
    assert_eq!(get_color(TileType::Acid, 0), (0, 255, 126, 255));
    assert_eq!(get_color(TileType::Air, 0), (0, 0, 0, 0));
    assert_eq!(get_color(TileType::Dirt, 0), (0, 0, 0, 0));
}

#[test]
fn update_water_without_lava_flows() {
    let mut g = Grid::new((1, 2));
    let water = tile(TileType::Water, 0);
    g.set_tile(p(0, 0), water);
    update_water(&mut g, p(0, 0), water);
    assert_eq!(g.get_tile(p(0, 0)).unwrap().tile_type, TileType::Air);
    assert_eq!(g.get_tile(p(0, 1)).unwrap().tile_type, TileType::Water);
}

#[test]
fn water_reacts_before_moving_in_dir_variant() {
    for dir in [1i64, -1] {
        let mut g = Grid::new((2, 2));
        let water = tile(TileType::Water, 9);
        g.set_tile(p(0, 0), water);
        g.set_tile(p(1, 0), tile(TileType::Lava, 0));
        update_water_dir(&mut g, p(0, 0), water, dir);
        assert_eq!(g.get_tile(p(0, 0)).unwrap().tile_type, TileType::Stone);
        assert_eq!(g.get_tile(p(1, 0)).unwrap().tile_type, TileType::Stone);
        assert_eq!(g.get_tile(p(0, 0)).unwrap().variant, 9);
    }
}
