use herding::fixed::{div_trunc, isqrt, saturate, wide_product, MICROS_PER_SECOND, UNIT};
use herding::level::{clamp_component, goal_position, handle_random_teleport, LevelBounds, GOAL_RADIUS};
use herding::movement::HopMovementController;
use herding::timer::{Timer, TimerMode};
use herding::vec2::{direction, norm_squared, Vec2};

fn arena() -> LevelBounds {
    LevelBounds { min: Vec2::new(-27_600, -39_600), max: Vec2::new(27_600, 7_600) }
}

#[test]
fn scale_constants() {
    assert_eq!(UNIT, 1000);
    assert_eq!(MICROS_PER_SECOND, 1_000_000);
    assert_eq!(GOAL_RADIUS, 6000);
    assert_eq!(goal_position(), Vec2::new(0, 8200));
}

#[test]
fn isqrt_is_the_floor_of_the_root() {
    assert_eq!(isqrt(0), 0);
    assert_eq!(isqrt(1), 1);
    assert_eq!(isqrt(2), 1);
    assert_eq!(isqrt(3), 1);
    assert_eq!(isqrt(4), 2);
    assert_eq!(isqrt(99), 9);
    assert_eq!(isqrt(100), 10);
    assert_eq!(isqrt(2_000_000_000_000), 1_414_213);
    assert_eq!(isqrt(u128::MAX), u64::MAX);
    assert_eq!(isqrt((u64::MAX as u128) * (u64::MAX as u128)), u64::MAX);
    assert_eq!(isqrt((u64::MAX as u128) * (u64::MAX as u128) - 1), u64::MAX - 1);
}

#[test]
fn division_rounds_toward_zero() {
    assert_eq!(div_trunc(7, 2), 3);
    assert_eq!(div_trunc(-7, 2), -3);
    assert_eq!(div_trunc(-1, 1000), 0);
    assert_eq!(div_trunc(0, 5), 0);
    assert_eq!(wide_product(u32::MAX, u32::MAX), 18_446_744_065_119_617_025);
}

#[test]
fn saturate_limits_to_the_i32_range() {
    assert_eq!(saturate(5), 5);
    assert_eq!(saturate(-5), -5);
    assert_eq!(saturate(i32::MAX as i128 + 1), i32::MAX);
    assert_eq!(saturate(i32::MIN as i128 - 1), i32::MIN);
    assert_eq!(saturate(i128::MAX), i32::MAX);
}

#[test]
fn vector_arithmetic() {
    let a = Vec2::new(3000, -4000);
    let b = Vec2::new(-1000, 500);
    assert_eq!(a.add(b), Vec2::new(2000, -3500));
    assert_eq!(a.sub(b), Vec2::new(4000, -4500));
    assert_eq!(a.neg(), Vec2::new(-3000, 4000));
    assert_eq!(a.perp(), Vec2::new(4000, 3000));
    assert_eq!(a.scale(550, 1000), Vec2::new(1650, -2200));
    assert_eq!(Vec2::new(1, -1).scale(999, 1000), Vec2::new(0, 0));
    assert_eq!(a.length_squared(), 25_000_000);
    assert_eq!(a.distance_squared(b), 16_000_000 + 20_250_000);
    assert_eq!(Vec2::zero(), Vec2::new(0, 0));
    assert_eq!(Vec2::unit_x(), Vec2::new(1000, 0));
}

#[test]
fn vector_arithmetic_saturates() {
    let big = Vec2::new(i32::MAX, i32::MIN);
    assert_eq!(big.add(Vec2::new(1, -1)), big);
    assert_eq!(big.neg(), Vec2::new(-i32::MAX, i32::MAX));
    assert_eq!(Vec2::new(0, i32::MIN).perp(), Vec2::new(i32::MAX, 0));
    assert_eq!(big.scale(3, 1), big);
    assert_eq!(
        Vec2::new(i32::MIN, i32::MIN).distance_squared(Vec2::new(i32::MAX, i32::MAX)),
        2 * (u32::MAX as u128) * (u32::MAX as u128)
    );
}

#[test]
fn normalize_gives_a_unit_vector_in_thousandths() {
    assert_eq!(Vec2::new(3000, 4000).normalize_or(Vec2::unit_x()), Vec2::new(600, 800));
    assert_eq!(Vec2::new(-3, 4).normalize_or(Vec2::unit_x()), Vec2::new(-600, 800));
    assert_eq!(Vec2::new(1000, 1000).normalize_or_zero(), Vec2::new(707, 707));
    assert_eq!(Vec2::new(0, -7).normalize_or_zero(), Vec2::new(0, -1000));
    assert_eq!(Vec2::new(i32::MAX, 0).normalize_or_zero(), Vec2::new(1000, 0));
    assert_eq!(Vec2::new(i32::MIN, i32::MIN).normalize_or_zero(), Vec2::new(-707, -707));
}

#[test]
fn normalize_of_zero_is_the_fallback() {
    assert_eq!(Vec2::zero().normalize_or(Vec2::unit_x()), Vec2::unit_x());
    assert_eq!(Vec2::zero().normalize_or(Vec2::new(5, 6)), Vec2::new(5, 6));
    assert_eq!(Vec2::zero().normalize_or_zero(), Vec2::zero());
    let p = Vec2::new(12, 34);
    assert_eq!(p.direction_to(p, Vec2::unit_x()), Vec2::unit_x());
}

#[test]
fn direction_between_far_points_is_exact() {
    let a = Vec2::new(i32::MIN, 0);
    let b = Vec2::new(i32::MAX, 0);
    assert_eq!(a.direction_to(b, Vec2::zero()), Vec2::new(1000, 0));
    assert_eq!(b.direction_to(a, Vec2::zero()), Vec2::new(-1000, 0));
    assert_eq!(direction(4_294_967_295, 4_294_967_295, Vec2::zero()), Vec2::new(707, 707));
    assert_eq!(norm_squared(-4_294_967_296, 4_294_967_296), 1u128 << 65);
}

#[test]
fn clamp_moves_a_point_to_the_nearest_point_inside() {
    let bounds = arena();
    assert_eq!(bounds.clamp_to_bounds(Vec2::new(0, 0)), Vec2::new(0, 0));
    assert_eq!(bounds.clamp_to_bounds(Vec2::new(30_000, 0)), Vec2::new(27_600, 0));
    assert_eq!(bounds.clamp_to_bounds(Vec2::new(-30_000, 9_000)), Vec2::new(-27_600, 7_600));
    assert_eq!(bounds.clamp_to_bounds(Vec2::new(5, -50_000)), Vec2::new(5, -39_600));
    assert_eq!(bounds.clamp_to_bounds(bounds.min), bounds.min);
    assert_eq!(bounds.clamp_to_bounds(bounds.max), bounds.max);
    assert_eq!(clamp_component(7, 7, 7), 7);
    assert_eq!(clamp_component(-9, 0, 5), 0);
    assert!(bounds.is_well_formed());
    assert!(bounds.holds(bounds.min) && bounds.holds(bounds.max) && bounds.holds(Vec2::zero()));
    assert!(!bounds.holds(Vec2::new(27_601, 0)) && !bounds.holds(Vec2::new(0, -39_601)));
    let inverted = LevelBounds { min: Vec2::new(1, 0), max: Vec2::new(0, 0) };
    assert!(!inverted.is_well_formed());
}

#[test]
fn clamp_offset_adds_before_it_clamps() {
    let bounds =
        LevelBounds { min: Vec2::new(i32::MIN, i32::MIN), max: Vec2::new(i32::MAX, i32::MAX) };
    assert_eq!(
        bounds.clamp_offset(Vec2::new(i32::MAX, 0), Vec2::new(5, 5)),
        Vec2::new(i32::MAX, 5)
    );
    let small = arena();
    assert_eq!(
        small.clamp_offset(Vec2::new(27_000, 7_000), Vec2::new(1_000, -1_000)),
        Vec2::new(27_600, 6_000)
    );
}

#[test]
fn a_degenerate_arena_holds_one_point() {
    let bounds = LevelBounds { min: Vec2::new(3, 4), max: Vec2::new(3, 4) };
    assert_eq!(bounds.clamp_to_bounds(Vec2::new(100, -100)), Vec2::new(3, 4));
    assert_eq!(bounds.random_point(), Vec2::new(3, 4));
}

#[test]
fn random_points_lie_inside_the_arena() {
    let bounds = arena();
    let mut distinct = false;
    let first = bounds.random_point();
    for _ in 0..500 {
        let p = bounds.random_point();
        assert!(bounds.min.x <= p.x && p.x <= bounds.max.x);
        assert!(bounds.min.y <= p.y && p.y <= bounds.max.y);
        if p != first {
            distinct = true;
        }
    }
    assert!(distinct);
}

#[test]
fn random_points_cover_a_narrow_arena() {
    let bounds = LevelBounds { min: Vec2::new(-1, 10), max: Vec2::new(1, 10) };
    let mut seen = [false; 3];
    for _ in 0..300 {
        let p = bounds.random_point();
        assert_eq!(p.y, 10);
        seen[(p.x + 1) as usize] = true;
    }
    assert_eq!(seen, [true; 3]);
}

#[test]
fn teleport_points_the_intent_at_the_new_place() {
    let bounds = arena();
    let mut controller = HopMovementController::default();
    controller.intent = Vec2::new(100_000, 100_000);
    let before = controller;
    let pos = handle_random_teleport(&bounds, &mut controller);
    assert!(bounds.min.x <= pos.x && pos.x <= bounds.max.x);
    assert!(bounds.min.y <= pos.y && pos.y <= bounds.max.y);
    assert_eq!(controller.intent, pos);
    assert_eq!(controller.timer, before.timer);
    assert_eq!(controller.airborne, before.airborne);
}

#[test]
fn one_shot_timer_stops_at_its_duration() {
    let mut t = Timer::new(1_000, TimerMode::Once);
    assert!(!t.is_finished());
    t.tick(400);
    assert_eq!(t.elapsed(), 400);
    assert_eq!(t.fraction(), 400);
    assert_eq!(t.remaining(), 600);
    assert!(!t.is_finished() && !t.just_finished());
    t.tick(700);
    assert_eq!(t.elapsed(), 1_000);
    assert_eq!(t.fraction(), 1000);
    assert_eq!(t.remaining(), 0);
    assert!(t.is_finished() && t.just_finished());
    t.tick(50);
    assert_eq!(t.elapsed(), 1_000);
    assert!(t.is_finished() && !t.just_finished());
    t.reset();
    assert_eq!(t.elapsed(), 0);
    assert_eq!(t.duration(), 1_000);
    assert!(!t.is_finished() && !t.just_finished());
}

#[test]
fn repeating_timer_wraps_around() {
    let mut t = Timer::new(100_000, TimerMode::Repeating);
    t.tick(60_000);
    assert!(!t.just_finished());
    t.tick(60_000);
    assert!(t.just_finished() && t.is_finished());
    assert_eq!(t.elapsed(), 20_000);
    t.tick(10_000);
    assert!(!t.just_finished() && !t.is_finished());
    assert_eq!(t.elapsed(), 30_000);
    t.tick(370_000);
    assert!(t.just_finished());
    assert_eq!(t.elapsed(), 0);
}

#[test]
fn timer_edge_cases() {
    let mut zero = Timer::new(0, TimerMode::Once);
    assert_eq!(zero.fraction(), 1000);
    zero.tick(0);
    assert!(zero.is_finished() && zero.just_finished());
    let mut zero_repeating = Timer::new(0, TimerMode::Repeating);
    zero_repeating.tick(5);
    assert!(zero_repeating.just_finished());
    assert_eq!(zero_repeating.elapsed(), 0);
    let mut long = Timer::new(u64::MAX, TimerMode::Once);
    long.set_elapsed(u64::MAX - 1);
    long.tick(u64::MAX);
    assert!(long.is_finished());
    assert_eq!(long.elapsed(), u64::MAX);
    let mut t = Timer::new(10, TimerMode::Once);
    t.set_duration(40);
    t.set_elapsed(10);
    assert_eq!(t.fraction(), 250);
}
