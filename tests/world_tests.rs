use tile_world::grid::{generate, Cell, ConfigurationError, Grid, MIN_SIDE};
use tile_world::screen::{board_draws, to_screen, Coord, ScreenPlacement, TileColor};
use tile_world::world::{Car, Direction, Directions, WorldState};

fn expected_walls() -> Vec<(usize, usize)> {
    let mut walls = Vec::new();
    for i in 10..20 {
        walls.push((i, 5));
        walls.push((5, i));
        walls.push((i, 25));
        walls.push((25, i));
    }
    for i in 0..5 {
        for j in 0..2 {
            walls.push((10 - i, 5 + j + i));
            walls.push((10 - i, 25 - j - i));
            walls.push((20 + i, 5 + j + i));
            walls.push((20 + i, 25 - j - i));
        }
    }
    walls
}

fn check_pattern(grid: &Grid, width: usize, height: usize) {
    assert_eq!(grid.width(), width);
    assert_eq!(grid.height(), height);
    let walls = expected_walls();
    for x in 0..width {
        for y in 0..height {
            let want = if walls.contains(&(x, y)) { Cell::Wall } else { Cell::Empty };
            assert_eq!(grid.cell(x, y), want, "cell ({x}, {y})");
        }
    }
}

fn world_at(x: i64, y: i64, vx: i64, vy: i64) -> WorldState {
    WorldState::new(generate(32, 32).unwrap(), Coord { x, y }, Coord { x: vx, y: vy })
}

#[test]
fn generate_32_matches_pattern() {
    let grid = generate(32, 32).unwrap();
    check_pattern(&grid, 32, 32);
}

#[test]
fn generate_smallest_and_uneven_sizes() {
    check_pattern(&generate(26, 26).unwrap(), 26, 26);
    check_pattern(&generate(40, 27).unwrap(), 40, 27);
    check_pattern(&generate(26, 50).unwrap(), 26, 50);
}

#[test]
fn generate_counts_walls() {
    let grid = generate(32, 32).unwrap();
    let mut count = 0;
    for x in 0..32 {
        for y in 0..32 {
            if grid.cell(x, y) == Cell::Wall {
                count += 1;
            }
        }
    }
    let mut distinct = expected_walls();
    distinct.sort();
    distinct.dedup();
    assert_eq!(count, distinct.len());
    assert_eq!(grid.cell(20, 5), Cell::Wall);
    assert_eq!(grid.cell(22, 5), Cell::Empty);
    assert_eq!(grid.cell(25, 22), Cell::Empty);
    assert_eq!(grid.cell(0, 0), Cell::Empty);
}

#[test]
fn generate_rejects_small_sizes() {
    assert_eq!(generate(25, 25).err(), Some(ConfigurationError { width: 25, height: 25 }));
    assert_eq!(generate(25, 40).err(), Some(ConfigurationError { width: 25, height: 40 }));
    assert_eq!(generate(40, 25).err(), Some(ConfigurationError { width: 40, height: 25 }));
    assert_eq!(generate(0, 0).err(), Some(ConfigurationError { width: 0, height: 0 }));
    assert!(generate(MIN_SIDE, MIN_SIDE).is_ok());
}

#[test]
fn generate_is_repeatable() {
    let a = generate(32, 32).unwrap();
    let b = generate(32, 32).unwrap();
    assert_eq!(a.width(), b.width());
    assert_eq!(a.height(), b.height());
    for x in 0..32 {
        for y in 0..32 {
            assert_eq!(a.cell(x, y), b.cell(x, y));
        }
    }
}

#[test]
fn right_moves_one_to_the_right() {
    let mut world = world_at(10, 10, 10, 10);
    world.apply_input(Directions::none().with(Direction::Right));
    assert_eq!(world.car, Car { position: Coord { x: 11, y: 10 }, velocity: Coord { x: 10, y: 10 } });
}

#[test]
fn up_and_left_compose() {
    let mut world = world_at(10, 10, 0, 0);
    world.apply_input(Directions::none().with(Direction::Up).with(Direction::Left));
    assert_eq!(world.car.position, Coord { x: 9, y: 11 });
    assert_eq!(world.car.velocity, Coord { x: 0, y: 0 });
}

#[test]
fn down_moves_one_down() {
    let mut world = world_at(3, 0, 0, 0);
    world.apply_input(Directions::none().with(Direction::Down));
    assert_eq!(world.car.position, Coord { x: 3, y: -1 });
}

#[test]
fn no_keys_change_nothing() {
    for (x, y, vx, vy) in [(10, 10, 10, 10), (-4, 7, 0, 3), (i64::MAX, i64::MIN, -1, 1)] {
        let mut world = world_at(x, y, vx, vy);
        world.apply_input(Directions::none());
        assert_eq!(world.car, Car { position: Coord { x, y }, velocity: Coord { x: vx, y: vy } });
    }
}

#[test]
fn opposite_keys_cancel() {
    let all = Directions::none()
        .with(Direction::Up)
        .with(Direction::Down)
        .with(Direction::Left)
        .with(Direction::Right);
    let mut world = world_at(10, 10, 1, 2);
    world.apply_input(all);
    assert_eq!(world.car.position, Coord { x: 10, y: 10 });
}

#[test]
fn car_passes_through_walls_and_edges() {
    let mut world = world_at(5, 9, 0, 0);
    world.apply_input(Directions::none().with(Direction::Up));
    assert_eq!(world.car.position, Coord { x: 5, y: 10 });
    assert_eq!(world.board.cell(5, 10), Cell::Wall);
    let mut world = world_at(0, 0, 0, 0);
    world.apply_input(Directions::none().with(Direction::Left).with(Direction::Down));
    assert_eq!(world.car.position, Coord { x: -1, y: -1 });
}

#[test]
fn held_key_moves_every_tick() {
    let mut world = world_at(10, 10, 0, 0);
    let right = Directions::none().with(Direction::Right);
    for _ in 0..3 {
        world.apply_input(right);
    }
    assert_eq!(world.car.position, Coord { x: 13, y: 10 });
}

#[test]
fn directions_membership() {
    let keys = Directions::none().with(Direction::Left);
    assert!(keys.contains(Direction::Left));
    assert!(!keys.contains(Direction::Right));
    assert!(!Directions::none().contains(Direction::Up));
}

#[test]
fn to_screen_scales_by_tile_size() {
    assert_eq!(to_screen(Coord { x: 10, y: 10 }, 32), ScreenPlacement { x: 320, y: 320, scale: 32 });
    assert_eq!(to_screen(Coord { x: -3, y: 7 }, 16), ScreenPlacement { x: -48, y: 112, scale: 16 });
    assert_eq!(
        to_screen(Coord { x: i64::MAX, y: i64::MIN }, i64::MAX),
        ScreenPlacement {
            x: i64::MAX as i128 * i64::MAX as i128,
            y: i64::MIN as i128 * i64::MAX as i128,
            scale: i64::MAX
        }
    );
}

#[test]
fn to_screen_twice_is_equal() {
    let pos = Coord { x: 10, y: 10 };
    assert_eq!(to_screen(pos, 32), to_screen(pos, 32));
}

#[test]
fn tick_moves_then_places_car() {
    let mut world = world_at(10, 10, 0, 0);
    let placed = world.tick(Directions::none().with(Direction::Right), 32);
    assert_eq!(world.car.position, Coord { x: 11, y: 10 });
    assert_eq!(placed, ScreenPlacement { x: 352, y: 320, scale: 32 });
    assert_eq!(world.car_placement(32), placed);
}

#[test]
fn world_reports_board_size() {
    let world = WorldState::new(generate(30, 28).unwrap(), Coord { x: 1, y: 2 }, Coord { x: 0, y: 0 });
    assert_eq!(world.width(), 30);
    assert_eq!(world.height(), 28);
}

#[test]
fn board_draws_one_per_cell() {
    let grid = generate(32, 27).unwrap();
    let draws = board_draws(&grid, 32);
    assert_eq!(draws.len(), 32);
    for x in 0..32 {
        assert_eq!(draws[x].len(), 27);
        for y in 0..27 {
            let d = draws[x][y];
            assert_eq!(d.placement, ScreenPlacement { x: x as i128 * 32, y: y as i128 * 32, scale: 32 });
            let want = if grid.cell(x, y) == Cell::Wall { TileColor::Black } else { TileColor::White };
            assert_eq!(d.color, want);
        }
    }
    assert_eq!(draws[5][10].color, TileColor::Black);
    assert_eq!(draws[0][0].color, TileColor::White);
}
