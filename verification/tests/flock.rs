use herding::flock::{
    flocks, heading, herd_dir, push_away, sheep_herding, take_snapshot, Creature, HerdClock,
    HERD_UPDATE_BUCKETS, HERD_UPDATE_INTERVAL,
};
use herding::grid::{
    cell_coord, cell_key, spatial_cell, FlockMember, SpatialGrid, HERD_MAX_NEIGHBORS,
};
use herding::movement::HopMovementController;
use herding::sheep::{Sheep, SheepColor, SheepState};
use herding::timer::TimerMode;
use herding::vec2::Vec2;

fn creature(id: u64, x: i32, y: i32) -> Creature {
    Creature {
        id,
        position: Vec2::new(x, y),
        height: 0,
        sheep: Sheep::with_wait(SheepColor::White, 2_000_000),
        movement: HopMovementController::default(),
    }
}

fn member(id: u64, x: i32, y: i32) -> FlockMember {
    FlockMember { id, position: Vec2::new(x, y) }
}

#[test]
fn cells_are_one_herd_radius_wide() {
    assert_eq!(cell_coord(0), 0);
    assert_eq!(cell_coord(9_999), 0);
    assert_eq!(cell_coord(10_000), 1);
    assert_eq!(cell_coord(-1), -1);
    assert_eq!(cell_coord(-10_000), -1);
    assert_eq!(cell_coord(-10_001), -2);
    assert_eq!(cell_coord(i32::MAX), 214_748);
    assert_eq!(cell_coord(i32::MIN), -214_749);
    assert_eq!(spatial_cell(Vec2::new(25_000, -25_000)), (2, -3));
    assert_eq!(spatial_cell(Vec2::new(-27_600, 7_600)), (-3, 0));
}

#[test]
fn different_cells_have_different_keys() {
    let cells = [(0, 0), (0, 1), (1, 0), (-1, 0), (0, -1), (-1, -1), (214_748, -214_749)];
    for a in cells {
        for b in cells {
            assert_eq!(cell_key(a.0, a.1) == cell_key(b.0, b.1), a == b);
        }
    }
    assert_eq!(cell_key(0, 0), (1u64 << 63) + (1u64 << 31));
    assert_eq!(cell_key(i32::MIN, i32::MIN), 0);
    assert_eq!(cell_key(i32::MAX, i32::MAX), u64::MAX);
}

#[test]
fn the_grid_files_every_member_under_its_cell() {
    let snapshot = vec![
        member(1, 500, 500),
        member(2, 15_000, 500),
        member(3, 9_999, 9_999),
        member(4, -1, 0),
        member(5, 0, 0),
    ];
    let grid = SpatialGrid::build(&snapshot);
    assert_eq!(grid.lookup(0, 0), Some(&vec![0, 2, 4]));
    assert_eq!(grid.lookup(1, 0), Some(&vec![1]));
    assert_eq!(grid.lookup(-1, 0), Some(&vec![3]));
    assert_eq!(grid.lookup(0, 1), None);
    assert_eq!(grid.cells.len(), 3);
    let empty = SpatialGrid::build(&Vec::new());
    assert_eq!(empty.lookup(0, 0), None);
}

#[test]
fn neighbours_are_other_sheep_within_the_herd_radius() {
    let snapshot = vec![
        member(1, 0, 0),
        member(2, 10_000, 0),
        member(3, 10_001, 0),
        member(4, -6_000, -8_000),
        member(5, 0, 0),
        member(6, 25_000, 0),
    ];
    let grid = SpatialGrid::build(&snapshot);
    assert_eq!(grid.neighbors(&snapshot, 1, Vec2::zero()), vec![3, 4, 1]);
    assert_eq!(grid.neighbors(&snapshot, 5, Vec2::zero()), vec![3, 0, 1]);
    assert_eq!(grid.neighbors(&snapshot, 99, Vec2::zero()), vec![3, 0, 4, 1]);
    assert_eq!(grid.neighbors(&snapshot, 6, Vec2::new(25_000, 0)), Vec::<usize>::new());
    assert_eq!(grid.neighbors(&snapshot, 7, Vec2::new(1_000_000, 0)), Vec::<usize>::new());
}

#[test]
fn the_scan_runs_row_by_row_through_the_nine_cells() {
    let mut snapshot = Vec::new();
    let mut id = 0;
    for (dx, dy) in [(1, 1), (0, 0), (-1, -1), (1, -1), (0, 1), (-1, 0), (0, -1), (1, 0), (-1, 1)] {
        snapshot.push(member(id, 5_000 + dx * 6_000, 5_000 + dy * 6_000));
        id += 1;
    }
    let grid = SpatialGrid::build(&snapshot);
    let found = grid.neighbors(&snapshot, 100, Vec2::new(5_000, 5_000));
    assert_eq!(found, vec![2, 6, 3, 5, 1, 7, 8, 4, 0]);
}

#[test]
fn the_scan_stops_at_the_cap() {
    let mut snapshot = Vec::new();
    for i in 0..30u64 {
        snapshot.push(member(i, 100 + i as i32, 100));
    }
    for i in 30..40u64 {
        snapshot.push(member(i, -100, -100));
    }
    let grid = SpatialGrid::build(&snapshot);
    let found = grid.neighbors(&snapshot, 1_000, Vec2::new(50, 50));
    assert_eq!(found.len(), HERD_MAX_NEIGHBORS);
    let mut expected: Vec<usize> = (30..40).collect();
    expected.extend(0..10);
    assert_eq!(found, expected);
    let own = grid.neighbors(&snapshot, 35, Vec2::new(-100, -100));
    let mut expected: Vec<usize> = (30..35).chain(36..40).collect();
    expected.extend(0..11);
    assert_eq!(own, expected);
}

#[test]
fn crowding_neighbours_push_away() {
    let pos = Vec2::zero();
    assert_eq!(push_away(pos, Vec2::new(1_200, 0)), Vec2::new(-500, 0));
    assert_eq!(push_away(pos, Vec2::new(0, -600)), Vec2::new(0, 750));
    assert_eq!(push_away(pos, Vec2::new(2_400, 0)), Vec2::zero());
    assert_eq!(push_away(pos, Vec2::new(2_399, 0)), Vec2::zero());
    assert_eq!(push_away(pos, Vec2::new(2_300, 0)), Vec2::new(-41, 0));
    assert_eq!(push_away(pos, pos), Vec2::zero());
    assert_eq!(push_away(pos, Vec2::new(1, 0)), Vec2::new(-999, 0));
}

#[test]
fn the_heading_blends_cohesion_and_separation() {
    let pos = Vec2::zero();
    let none = herd_dir(pos, 0, (0, 0), (0, 0));
    assert_eq!(none, Vec2::zero());
    assert_eq!(herd_dir(pos, 1, (3_000, 4_000), (0, 0)), Vec2::new(600, 800));
    assert_eq!(herd_dir(pos, 2, (6_001, 8_001), (0, 0)), Vec2::new(600, 800));
    assert_eq!(herd_dir(pos, 1, (1_200, 0), (-500, 0)), Vec2::new(-1000, 0));
    assert_eq!(herd_dir(pos, 1, (0, 0), (0, 0)), Vec2::zero());
    assert_eq!(herd_dir(pos, 3, (0, 0), (0, -7)), Vec2::new(0, -1000));
    assert_eq!(herd_dir(Vec2::new(5, 5), 1, (5, 1_005), (300, 0)), Vec2::new(857, 514));
    assert_eq!(herd_dir(pos, 1, (0, 5_000), (300, 0)), Vec2::new(316, 948));
    assert_eq!(herd_dir(pos, 4, (0, 20_000), (-4_000, 0)), Vec2::new(-316, 948));
    assert_eq!(herd_dir(pos, 1, (0, 1), (1, 0)), Vec2::new(1000, 0));
}

#[test]
fn a_lone_pair_heads_for_each_other() {
    let snapshot = vec![member(1, 0, 0), member(2, 3_000, 4_000)];
    let grid = SpatialGrid::build(&snapshot);
    assert_eq!(heading(&grid, &snapshot, 1, Vec2::zero()), Vec2::new(600, 800));
    assert_eq!(heading(&grid, &snapshot, 2, Vec2::new(3_000, 4_000)), Vec2::new(-600, -800));
    let close = vec![member(1, 0, 0), member(2, 1_200, 0)];
    let grid = SpatialGrid::build(&close);
    assert_eq!(heading(&grid, &close, 1, Vec2::zero()), Vec2::new(-1000, 0));
    assert_eq!(heading(&grid, &close, 2, Vec2::new(1_200, 0)), Vec2::new(1000, 0));
    assert_eq!(heading(&grid, &close, 3, Vec2::new(50_000, 0)), Vec2::zero());
}

#[test]
fn only_wandering_and_evading_sheep_flock() {
    let mut flock = vec![
        creature(1, 0, 0),
        creature(2, 1, 1),
        creature(3, 2, 2),
        creature(4, 3, 3),
        creature(5, 4, 4),
    ];
    flock[1].sheep.state = SheepState::Evading(Vec2::zero());
    flock[2].sheep.state = SheepState::Spooked(Vec2::zero());
    flock[3].sheep.state = SheepState::BeingCounted;
    flock[4].sheep.state = SheepState::BeingAbducted;
    assert!(flocks(&flock[0].sheep));
    assert!(flocks(&flock[1].sheep));
    assert!(!flocks(&flock[2].sheep));
    assert!(!flocks(&flock[3].sheep));
    assert!(!flocks(&flock[4].sheep));
    assert_eq!(take_snapshot(&flock), vec![member(1, 0, 0), member(2, 1, 1)]);
}

#[test]
fn the_herd_clock_serves_one_group_per_refresh() {
    let mut clock = HerdClock::new();
    assert_eq!(clock.bucket, 0);
    assert_eq!(clock.timer.duration(), HERD_UPDATE_INTERVAL);
    assert_eq!(clock.timer.mode, TimerMode::Repeating);
    assert!(!clock.tick(99_999));
    assert_eq!(clock.bucket, 0);
    let mut served = Vec::new();
    for _ in 0..8 {
        assert!(clock.tick(100_000));
        served.push(clock.bucket);
    }
    assert_eq!(served, vec![1, 2, 3, 0, 1, 2, 3, 0]);
    assert_eq!(HERD_UPDATE_BUCKETS, 4);
    clock.bucket = u64::MAX;
    assert!(clock.tick(100_000));
    assert_eq!(clock.bucket, 0);
}

#[test]
fn a_refresh_renews_the_headings_of_one_group() {
    let mut flock = vec![
        creature(1, 0, 0),
        creature(2, 3_000, 4_000),
        creature(5, 3_000, 4_000),
        creature(9, 0, 0),
    ];
    flock[3].sheep.state = SheepState::Spooked(Vec2::zero());
    flock[3].sheep.herd_dir = Vec2::new(1, 2);
    let before = flock.clone();
    let mut clock = HerdClock::new();
    sheep_herding(&mut clock, 50_000, &mut flock);
    assert_eq!(flock, before);
    sheep_herding(&mut clock, 50_000, &mut flock);
    assert_eq!(clock.bucket, 1);
    assert_eq!(flock[0].sheep.herd_dir, Vec2::new(600, 800));
    assert_eq!(flock[1].sheep.herd_dir, Vec2::zero());
    assert_eq!(flock[2].sheep.herd_dir, Vec2::new(-600, -800));
    assert_eq!(flock[3].sheep.herd_dir, Vec2::new(1, 2));
    for (now, then) in flock.iter().zip(before.iter()) {
        assert_eq!(now.position, then.position);
        assert_eq!(now.sheep.state, then.sheep.state);
        assert_eq!(now.movement, then.movement);
        assert_eq!(now.id, then.id);
    }
    sheep_herding(&mut clock, 100_000, &mut flock);
    assert_eq!(clock.bucket, 2);
    assert_eq!(flock[1].sheep.herd_dir, Vec2::new(-600, -800));
}

#[test]
fn a_heading_is_at_most_four_refreshes_old() {
    let mut flock: Vec<Creature> = (0..12).map(|i| creature(i, (i as i32) * 700, 0)).collect();
    for c in flock.iter_mut() {
        c.sheep.herd_dir = Vec2::new(7, 7);
    }
    let mut clock = HerdClock::new();
    for round in 1..=4 {
        sheep_herding(&mut clock, 100_000, &mut flock);
        let renewed = flock.iter().filter(|c| c.sheep.herd_dir != Vec2::new(7, 7)).count();
        assert_eq!(renewed, 3 * round);
    }
}

#[test]
fn a_refresh_needs_two_sheep() {
    let mut flock = vec![creature(1, 0, 0), creature(5, 10, 0)];
    flock[1].sheep.state = SheepState::BeingCounted;
    flock[0].sheep.herd_dir = Vec2::new(3, 3);
    let mut clock = HerdClock::new();
    sheep_herding(&mut clock, 100_000, &mut flock);
    assert_eq!(clock.bucket, 1);
    assert_eq!(flock[0].sheep.herd_dir, Vec2::new(3, 3));
    let mut nobody: Vec<Creature> = Vec::new();
    sheep_herding(&mut clock, 100_000, &mut nobody);
    assert!(nobody.is_empty());
    assert_eq!(clock.bucket, 2);
    flock[1].sheep.state = SheepState::Evading(Vec2::zero());
    flock.push(creature(6, 100_000, 100_000));
    sheep_herding(&mut clock, 300_000, &mut flock);
    assert_eq!(clock.bucket, 3);
    assert_eq!(flock[0].sheep.herd_dir, Vec2::new(3, 3));
    sheep_herding(&mut clock, 100_000, &mut flock);
    sheep_herding(&mut clock, 100_000, &mut flock);
    assert_eq!(clock.bucket, 1);
    assert_eq!(flock[0].sheep.herd_dir, Vec2::new(-1000, 0));
    assert_eq!(flock[1].sheep.herd_dir, Vec2::new(1000, 0));
}
