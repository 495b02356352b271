//! What a sheep does from tick to tick: it strolls, gives way to dangers,
//! runs from barks, walks up to the goal, and rises when it is abducted.

use vstd::prelude::*;
use crate::chance::{random_duration, random_heading, spec_is_heading};
use crate::fixed::{clamp_int, wide_product};
use crate::level::LevelBounds;
use crate::movement::HopMovementController;
use crate::sheep::{Sheep, SheepState, CALM_WAIT};
use crate::timer::{Timer, TimerMode};
use crate::vec2::{lemma_scale_grows, lemma_unit_component_bound, Vec2};

verus! {

/// How far beyond the interaction radius a spooked sheep runs.
pub const SPOOK_MARGIN: u32 = 8_000;

/// How much the flock's heading counts when a sheep gives way to a danger.
pub const HERD_EVADE_BLEND: u32 = 550;

/// How much chance counts against the flock's heading when a sheep strolls.
pub const HERD_WANDER_JITTER: u32 = 350;

/// How fast a sheep walks and hops while it is being counted.
pub const COUNTED_SPEED_MULT: u32 = 800;

/// How fast an abducted sheep rises, in thousandths of a unit per second.
pub const ABDUCTION_ASCENT_SPEED: u32 = 6_000;

/// The height at which abductors fly.
pub const UFO_HEIGHT: u32 = 15_000;

/// How far below the abductor a rising sheep is taken in.
pub const ABDUCTION_CATCH_MARGIN: u32 = 2_000;

/// Something that sheep give way to, such as the player.
#[derive(Debug, Copy, Clone, PartialEq, Eq, Structural)]
pub struct DangerActor {
    pub position: Vec2,
    /// How near the actor must come for a sheep to react.
    pub interact_radius: u32,
}

/// Whether `a` and `b` are less than `radius` apart.
pub open spec fn spec_within(a: Vec2, b: Vec2, radius: int) -> bool {
    a.spec_distance_squared(b) < radius * radius
}

/// Whether `a` and `b` are more than `radius` apart.
pub open spec fn spec_beyond(a: Vec2, b: Vec2, radius: int) -> bool {
    a.spec_distance_squared(b) > radius * radius
}

/// The place of the last of `dangers` that is near enough to `pos` for a
/// sheep there to react, if there is one.
pub open spec fn spec_latest_danger(dangers: Seq<DangerActor>, pos: Vec2) -> Option<Vec2>
    decreases dangers.len(),
{
    if dangers.len() == 0 {
        None
    } else if spec_within(pos, dangers.last().position, dangers.last().interact_radius as int) {
        Some(dangers.last().position)
    } else {
        spec_latest_danger(dangers.drop_last(), pos)
    }
}

/// How far a sheep shifts its intent in a tick of `delta` microseconds when
/// it heads along `dir` with strides of `step_distance`, before its speed
/// is applied.
pub open spec fn spec_step_vector(dir: Vec2, delta: u32, step_distance: u32) -> Vec2 {
    dir.spec_scale(delta * step_distance, 1_000_000_000)
}

/// The movement state after the sheep has set its speed to `speed` and
/// shifted its intent along `dir` for a tick of `delta`.
pub open spec fn spec_moved(
    movement: HopMovementController,
    speed: u32,
    dir: Vec2,
    delta: u32,
    step_distance: u32,
) -> HopMovementController {
    HopMovementController {
        move_speed_mult: speed,
        intent: movement.intent.spec_add(
            spec_step_vector(dir, delta, step_distance).spec_scale(speed as int, 1000),
        ),
        ..movement
    }
}

/// The squared distance that a step from `pos` along `dir` covers once its
/// end is held inside `bounds`.
pub open spec fn spec_clamped_displacement(pos: Vec2, dir: Vec2, bounds: LevelBounds) -> int {
    pos.spec_distance_squared(bounds.spec_clamp(pos.x + dir.x, pos.y + dir.y))
}

/// Whether a step from `pos` along `dir` ends inside `bounds`.
pub open spec fn spec_unobstructed(pos: Vec2, dir: Vec2, bounds: LevelBounds) -> bool {
    &&& bounds.min.x <= pos.x + dir.x <= bounds.max.x
    &&& bounds.min.y <= pos.y + dir.y <= bounds.max.y
}

/// The four directions a sheep chooses from when it gives way: the one it
/// prefers, the two across it, and the one opposite.
pub open spec fn spec_candidates(preferred: Vec2) -> Seq<Vec2> {
    seq![
        preferred,
        preferred.spec_perp(),
        preferred.spec_perp().spec_neg(),
        preferred.spec_neg(),
    ]
}

/// The first of the `n` first candidates that covers the most ground.
pub open spec fn spec_best_candidate(pos: Vec2, preferred: Vec2, bounds: LevelBounds, n: int)
    -> Vec2
    decreases n,
{
    if n <= 1 {
        preferred
    } else {
        let best = spec_best_candidate(pos, preferred, bounds, n - 1);
        let next = spec_candidates(preferred)[n - 1];
        if spec_clamped_displacement(pos, next, bounds) > spec_clamped_displacement(
            pos,
            best,
            bounds,
        ) {
            next
        } else {
            best
        }
    }
}

/// The direction in which a sheep at `pos` gives way when it would like
/// to go along `preferred`: that direction if nothing is in the way, and
/// else the candidate that the walls block the least.
pub open spec fn spec_pick_evasion_dir(pos: Vec2, preferred: Vec2, bounds: LevelBounds) -> Vec2 {
    if spec_unobstructed(pos, preferred, bounds) {
        preferred
    } else {
        spec_best_candidate(pos, preferred, bounds, 4)
    }
}

/// The direction along which a sheep at `pos` gives way to a danger at
/// `danger`: away from the danger, around walls, and drawn toward the
/// flock's heading.
pub open spec fn spec_evasion_steer(pos: Vec2, danger: Vec2, herd_dir: Vec2, bounds: LevelBounds)
    -> Vec2 {
    let preferred = danger.spec_direction_to(pos, Vec2 { x: 1000, y: 0 });
    let dir = spec_pick_evasion_dir(pos, preferred, bounds);
    dir.spec_add(herd_dir.spec_scale(HERD_EVADE_BLEND as int, 1000)).spec_normalize_or(dir)
}

/// A sheep that has calmed down: it wanders again, after a short wait.
pub open spec fn spec_calmed(sheep: Sheep) -> Sheep {
    Sheep { state: SheepState::Wander(Timer::spec_new(CALM_WAIT, TimerMode::Once)), ..sheep }
}

/// A sheep and its movement state after one tick of the state machine.
///
/// * A wandering sheep moves at its default speed and starts to evade
///   when a danger is near.
/// * An evading sheep keeps its eye on the latest danger that is near and
///   gives way to it; once no danger is near it calms down. Without any
///   danger in the arena nothing happens.
/// * A spooked sheep loses its heading. It runs from the place of the
///   bark until it is farther away than the first danger's radius and the
///   margin, and then calms down; a well-trained sheep instead walks up
///   to the place of the bark until it is inside the radius. Without any
///   danger in the arena nothing else happens.
/// * A sheep that is being counted loses its heading and walks slowly up
///   to the goal, if there is one.
/// * A sheep that is being abducted loses its heading and stays put.
pub open spec fn spec_state_update(
    sheep: Sheep,
    movement: HopMovementController,
    pos: Vec2,
    dangers: Seq<DangerActor>,
    goal: Option<Vec2>,
    bounds: LevelBounds,
    well_trained: bool,
    delta: u32,
) -> (Sheep, HopMovementController) {
    let calm = Sheep { herd_dir: Vec2 { x: 0, y: 0 }, ..sheep };
    let unit_x = Vec2 { x: 1000, y: 0 };
    match sheep.state {
        SheepState::Wander(_) => (
            match spec_latest_danger(dangers, pos) {
                Some(danger) => Sheep { state: SheepState::Evading(danger), ..sheep },
                None => sheep,
            },
            HopMovementController { move_speed_mult: sheep.default_speed_mult, ..movement },
        ),
        SheepState::Evading(_) => if dangers.len() == 0 {
            (sheep, movement)
        } else {
            match spec_latest_danger(dangers, pos) {
                Some(danger) => (
                    Sheep { state: SheepState::Evading(danger), ..sheep },
                    spec_moved(
                        movement,
                        sheep.default_speed_mult,
                        spec_evasion_steer(pos, danger, sheep.herd_dir, bounds),
                        delta,
                        sheep.step_distance,
                    ),
                ),
                None => (spec_calmed(sheep), movement),
            }
        },
        SheepState::Spooked(danger) => if dangers.len() == 0 {
            (calm, movement)
        } else if well_trained {
            if spec_within(pos, danger, dangers[0].interact_radius as int) {
                (spec_calmed(calm), movement)
            } else {
                (
                    calm,
                    spec_moved(
                        movement,
                        sheep.default_speed_mult,
                        pos.spec_direction_to(danger, unit_x),
                        delta,
                        sheep.step_distance,
                    ),
                )
            }
        } else {
            if spec_beyond(pos, danger, dangers[0].interact_radius + SPOOK_MARGIN) {
                (spec_calmed(calm), movement)
            } else {
                (
                    calm,
                    spec_moved(
                        movement,
                        sheep.spooked_speed_mult,
                        danger.spec_direction_to(pos, unit_x),
                        delta,
                        sheep.step_distance,
                    ),
                )
            }
        },
        SheepState::BeingCounted => match goal {
            Some(goal_pos) => (
                calm,
                spec_moved(
                    HopMovementController { hop_speed_mult: COUNTED_SPEED_MULT, ..movement },
                    COUNTED_SPEED_MULT,
                    pos.spec_direction_to(goal_pos, unit_x),
                    delta,
                    sheep.step_distance,
                ),
            ),
            None => (calm, movement),
        },
        SheepState::BeingAbducted => (calm, HopMovementController { intent: pos, ..movement }),
    }
}

/// A sheep and its movement state after `delta` microseconds of strolling.
///
/// Only a wandering sheep strolls. When its idle timer runs out, it sets
/// its intent one stride away, inside `bounds`: along `random_dir` if it
/// has no heading, and else along its heading with `random_dir` mixed in.
/// Then it idles for `wait` microseconds.
pub open spec fn spec_wander(
    sheep: Sheep,
    movement: HopMovementController,
    pos: Vec2,
    bounds: LevelBounds,
    delta: u32,
    random_dir: Vec2,
    wait: u64,
) -> (Sheep, HopMovementController) {
    match sheep.state {
        SheepState::Wander(timer) => {
            let ticked = timer.spec_tick(delta as u64);
            let idle = Sheep { state: SheepState::Wander(ticked), ..sheep };
            if ticked.just_finished {
                let dir = spec_wander_dir(sheep.herd_dir, random_dir);
                let stride = dir.spec_scale(sheep.step_distance as int, 1000);
                (
                    idle.spec_reset_timer(wait),
                    HopMovementController {
                        intent: bounds.spec_clamp(pos.x + stride.x, pos.y + stride.y),
                        ..movement
                    },
                )
            } else {
                (idle, movement)
            }
        },
        _ => (sheep, movement),
    }
}

/// The direction of a stroll.
pub open spec fn spec_wander_dir(herd_dir: Vec2, random_dir: Vec2) -> Vec2 {
    if herd_dir.is_zero() {
        random_dir
    } else {
        herd_dir.spec_add(
            random_dir.spec_scale(HERD_WANDER_JITTER as int, 1000),
        ).spec_normalize_or(random_dir)
    }
}

/// The height of an abducted sheep after `delta` microseconds: it rises at
/// a steady speed and stops at the height of the abductor.
pub open spec fn spec_abduction_height(height: u32, delta: u32) -> int {
    let risen = height + ABDUCTION_ASCENT_SPEED * delta / 1_000_000;
    if risen > UFO_HEIGHT {
        UFO_HEIGHT as int
    } else {
        risen
    }
}

/// Whether `a` and `b` are less than `radius` apart.
pub fn within(a: Vec2, b: Vec2, radius: u64) -> (r: bool)
    requires
        radius <= 0x2_0000_0000,
    ensures
        r == spec_within(a, b, radius as int),
{
    let rr: u128 = radius as u128;
    assert(rr * rr <= 0x2_0000_0000 * 0x2_0000_0000) by (nonlinear_arith)
        requires
            0 <= rr <= 0x2_0000_0000,
    ;
    a.distance_squared(b) < rr * rr
}

/// Whether `a` and `b` are more than `radius` apart.
pub fn beyond(a: Vec2, b: Vec2, radius: u64) -> (r: bool)
    requires
        radius <= 0x2_0000_0000,
    ensures
        r == spec_beyond(a, b, radius as int),
{
    let rr: u128 = radius as u128;
    assert(rr * rr <= 0x2_0000_0000 * 0x2_0000_0000) by (nonlinear_arith)
        requires
            0 <= rr <= 0x2_0000_0000,
    ;
    a.distance_squared(b) > rr * rr
}

/// The place of the last of `dangers` that is near enough to `pos` for a
/// sheep there to react.
pub fn latest_danger(dangers: &[DangerActor], pos: Vec2) -> (found: Option<Vec2>)
    ensures
        found == spec_latest_danger(dangers@, pos),
{
    let mut found: Option<Vec2> = None;
    let mut i: usize = 0;
    proof {
        assert(dangers@.take(0) =~= Seq::<DangerActor>::empty());
    }
    while i < dangers.len()
        invariant
            i <= dangers.len(),
            found == spec_latest_danger(dangers@.take(i as int), pos),
        decreases dangers.len() - i,
    {
        let actor = dangers[i];
        proof {
            let next = dangers@.take(i as int + 1);
            assert(next.drop_last() =~= dangers@.take(i as int));
            assert(next.last() == actor);
        }
        if within(pos, actor.position, actor.interact_radius as u64) {
            found = Some(actor.position);
        }
        i += 1;
    }
    proof {
        assert(dangers@.take(dangers.len() as int) =~= dangers@);
    }
    found
}

/// The squared distance that a step from `pos` along `dir` covers once its
/// end is held inside `bounds`.
pub fn clamped_displacement(pos: Vec2, dir: Vec2, bounds: &LevelBounds) -> (d: u128)
    requires
        bounds.wf(),
    ensures
        d == spec_clamped_displacement(pos, dir, *bounds),
{
    pos.distance_squared(bounds.clamp_offset(pos, dir))
}

/// Chooses the direction in which a sheep at `pos` gives way when it would
/// like to go along `preferred`.
///
/// The choice is one of four candidates: `preferred`, the two directions
/// across it, and the opposite one. If a step along `preferred` ends
/// inside `bounds`, that is the choice. Otherwise it is the candidate
/// whose step, held inside `bounds`, covers the most ground; among equals
/// the earlier candidate wins.
pub fn pick_evasion_dir(pos: Vec2, preferred: Vec2, bounds: &LevelBounds) -> (dir: Vec2)
    requires
        bounds.wf(),
    ensures
        dir == spec_pick_evasion_dir(pos, preferred, *bounds),
        spec_candidates(preferred).contains(dir),
        spec_unobstructed(pos, preferred, *bounds) ==> dir == preferred,
        !spec_unobstructed(pos, preferred, *bounds) ==> forall|i: int|
            0 <= i < 4 ==> spec_clamped_displacement(pos, dir, *bounds)
                >= spec_clamped_displacement(pos, #[trigger] spec_candidates(preferred)[i], *bounds),
{
    let ghost cands = spec_candidates(preferred);
    assert(cands[0] == preferred);
    let px: i64 = pos.x as i64 + preferred.x as i64;
    let py: i64 = pos.y as i64 + preferred.y as i64;
    if bounds.min.x as i64 <= px && px <= bounds.max.x as i64 && bounds.min.y as i64 <= py && py
        <= bounds.max.y as i64 {
        return preferred;
    }
    let candidates = [preferred.perp(), preferred.perp().neg(), preferred.neg()];
    let mut best_dir = preferred;
    let mut best_score = clamped_displacement(pos, preferred, bounds);
    let mut i: usize = 0;
    while i < 3
        invariant
            i <= 3,
            bounds.wf(),
            cands == spec_candidates(preferred),
            forall|j: int| 0 <= j < 3 ==> candidates[j] == cands[j + 1],
            best_dir == spec_best_candidate(pos, preferred, *bounds, i as int + 1),
            best_score == spec_clamped_displacement(pos, best_dir, *bounds),
            exists|j: int| 0 <= j <= i && j < 4 && best_dir == cands[j],
            forall|j: int|
                0 <= j <= i && j < 4 ==> best_score >= spec_clamped_displacement(
                    pos,
                    #[trigger] cands[j],
                    *bounds,
                ),
        decreases 3 - i,
    {
        let dir = candidates[i];
        let score = clamped_displacement(pos, dir, bounds);
        if score > best_score {
            best_score = score;
            best_dir = dir;
            assert(best_dir == cands[i as int + 1]);
        }
        i += 1;
    }
    best_dir
}

/// Holding the end of a step inside an interval that holds its start never
/// makes the step longer.
pub proof fn lemma_clamped_step_is_shorter(p: int, d: int, lo: int, hi: int)
    requires
        lo <= p <= hi,
    ensures
        (clamp_int(p + d, lo, hi) - p) * (clamp_int(p + d, lo, hi) - p) <= d * d,
        lo <= p + d <= hi ==> clamp_int(p + d, lo, hi) - p == d,
{
    let m = clamp_int(p + d, lo, hi) - p;
    assert(m * m <= d * d) by (nonlinear_arith)
        requires
            (0 <= m <= d) || (d <= m <= 0),
    ;
}

/// Inside the arena the chosen direction is one of the four candidates, and
/// no candidate covers more ground than it does once the steps are held
/// inside the bounds.
pub proof fn lemma_evasion_covers_most_ground(pos: Vec2, preferred: Vec2, bounds: LevelBounds)
    requires
        bounds.wf(),
        bounds.contains(pos),
        preferred.x > i32::MIN,
        preferred.y > i32::MIN,
    ensures
        spec_candidates(preferred).contains(spec_pick_evasion_dir(pos, preferred, bounds)),
        forall|i: int|
            0 <= i < 4 ==> spec_clamped_displacement(
                pos,
                spec_pick_evasion_dir(pos, preferred, bounds),
                bounds,
            ) >= spec_clamped_displacement(pos, #[trigger] spec_candidates(preferred)[i], bounds),
{
    let cands = spec_candidates(preferred);
    let chosen = spec_pick_evasion_dir(pos, preferred, bounds);
    reveal_with_fuel(spec_best_candidate, 5);
    assert(cands[0] == preferred);
    if spec_unobstructed(pos, preferred, bounds) {
        let full = preferred.x * preferred.x + preferred.y * preferred.y;
        lemma_clamped_step_is_shorter(
            pos.x as int,
            preferred.x as int,
            bounds.min.x as int,
            bounds.max.x as int,
        );
        lemma_clamped_step_is_shorter(
            pos.y as int,
            preferred.y as int,
            bounds.min.y as int,
            bounds.max.y as int,
        );
        assert(spec_clamped_displacement(pos, preferred, bounds) == full);
        assert forall|i: int| 0 <= i < 4 implies spec_clamped_displacement(pos, chosen, bounds)
            >= spec_clamped_displacement(pos, #[trigger] cands[i], bounds) by {
            let c = cands[i];
            lemma_clamped_step_is_shorter(
                pos.x as int,
                c.x as int,
                bounds.min.x as int,
                bounds.max.x as int,
            );
            lemma_clamped_step_is_shorter(
                pos.y as int,
                c.y as int,
                bounds.min.y as int,
                bounds.max.y as int,
            );
            assert(c.x * c.x + c.y * c.y == full) by (nonlinear_arith)
                requires
                    (c.x == preferred.x && c.y == preferred.y) || (c.x == -preferred.y && c.y
                        == preferred.x) || (c.x == preferred.y && c.y == -preferred.x) || (c.x
                        == -preferred.x && c.y == -preferred.y),
                    full == preferred.x * preferred.x + preferred.y * preferred.y,
            ;
        }
    } else {
        assert(chosen == cands[0] || chosen == cands[1] || chosen == cands[2] || chosen
            == cands[3]);
    }
}

/// Sets the speed of the sheep and shifts its intent along `dir` for a tick
/// of `delta` microseconds.
pub fn advance(
    movement: &mut HopMovementController,
    speed: u32,
    dir: Vec2,
    delta: u32,
    step_distance: u32,
)
    ensures
        *final(movement) == spec_moved(*old(movement), speed, dir, delta, step_distance),
        old(movement).wf() ==> final(movement).wf(),
{
    movement.move_speed_mult = speed;
    movement.apply_movement(dir.scale(wide_product(delta, step_distance), 1_000_000_000));
}

/// One tick of the state machine for a sheep at `position`.
pub fn sheep_state_update(
    sheep: &mut Sheep,
    movement: &mut HopMovementController,
    position: Vec2,
    dangers: &[DangerActor],
    goal: Option<Vec2>,
    bounds: &LevelBounds,
    well_trained: bool,
    delta: u32,
)
    requires
        old(sheep).state is Evading && spec_latest_danger(dangers@, position) is Some
            ==> bounds.wf(),
    ensures
        (*final(sheep), *final(movement)) == spec_state_update(
            *old(sheep),
            *old(movement),
            position,
            dangers@,
            goal,
            *bounds,
            well_trained,
            delta,
        ),
        old(sheep).state is BeingCounted ==> final(sheep).state is BeingCounted,
        old(sheep).state is BeingAbducted ==> final(sheep).state is BeingAbducted,
        final(sheep).state is BeingAbducted ==> old(sheep).state is BeingAbducted,
        old(sheep).wf() ==> final(sheep).wf(),
        old(movement).wf() ==> final(movement).wf(),
{
    let unit_x = Vec2::unit_x();
    match sheep.state {
        SheepState::Wander(_) => {
            movement.move_speed_mult = sheep.default_speed_mult;
            match latest_danger(dangers, position) {
                Some(danger) => {
                    sheep.state = SheepState::Evading(danger);
                },
                None => {},
            }
        },
        SheepState::Evading(_) => {
            if dangers.len() > 0 {
                match latest_danger(dangers, position) {
                    Some(danger) => {
                        sheep.state = SheepState::Evading(danger);
                        let preferred = danger.direction_to(position, unit_x);
                        let dir = pick_evasion_dir(position, preferred, bounds);
                        let steer = dir.add(
                            sheep.herd_dir.scale(HERD_EVADE_BLEND as u64, 1000),
                        ).normalize_or(dir);
                        advance(
                            movement,
                            sheep.default_speed_mult,
                            steer,
                            delta,
                            sheep.step_distance,
                        );
                    },
                    None => {
                        sheep.state = SheepState::Wander(Timer::new(CALM_WAIT, TimerMode::Once));
                    },
                }
            }
        },
        SheepState::Spooked(danger) => {
            sheep.herd_dir = Vec2::zero();
            if dangers.len() > 0 {
                let radius = dangers[0].interact_radius;
                if well_trained {
                    if within(position, danger, radius as u64) {
                        sheep.state = SheepState::Wander(Timer::new(CALM_WAIT, TimerMode::Once));
                    } else {
                        let dir = position.direction_to(danger, unit_x);
                        advance(
                            movement,
                            sheep.default_speed_mult,
                            dir,
                            delta,
                            sheep.step_distance,
                        );
                    }
                } else {
                    if beyond(position, danger, radius as u64 + SPOOK_MARGIN as u64) {
                        sheep.state = SheepState::Wander(Timer::new(CALM_WAIT, TimerMode::Once));
                    } else {
                        let dir = danger.direction_to(position, unit_x);
                        advance(
                            movement,
                            sheep.spooked_speed_mult,
                            dir,
                            delta,
                            sheep.step_distance,
                        );
                    }
                }
            }
        },
        SheepState::BeingCounted => {
            sheep.herd_dir = Vec2::zero();
            match goal {
                Some(goal_pos) => {
                    let dir = position.direction_to(goal_pos, unit_x);
                    movement.hop_speed_mult = COUNTED_SPEED_MULT;
                    advance(movement, COUNTED_SPEED_MULT, dir, delta, sheep.step_distance);
                },
                None => {},
            }
        },
        SheepState::BeingAbducted => {
            sheep.herd_dir = Vec2::zero();
            movement.intent = position;
        },
    }
}

/// The direction of a stroll: `random_dir` for a sheep without a heading,
/// and else the heading with `random_dir` mixed in.
pub fn wander_dir(herd_dir: Vec2, random_dir: Vec2) -> (dir: Vec2)
    ensures
        dir == spec_wander_dir(herd_dir, random_dir),
{
    if herd_dir.x == 0 && herd_dir.y == 0 {
        random_dir
    } else {
        herd_dir.add(random_dir.scale(HERD_WANDER_JITTER as u64, 1000)).normalize_or(random_dir)
    }
}

/// The direction of a stroll is of unit size at most if the drawn direction
/// is.
pub proof fn lemma_wander_dir_is_unit_sized(herd_dir: Vec2, random_dir: Vec2)
    requires
        -1000 <= random_dir.x <= 1000,
        -1000 <= random_dir.y <= 1000,
    ensures
        -1000 <= spec_wander_dir(herd_dir, random_dir).x <= 1000,
        -1000 <= spec_wander_dir(herd_dir, random_dir).y <= 1000,
{
    if !herd_dir.is_zero() {
        let mixed = herd_dir.spec_add(random_dir.spec_scale(HERD_WANDER_JITTER as int, 1000));
        if !mixed.is_zero() {
            lemma_unit_component_bound(mixed.x as int, mixed.x as int, mixed.y as int);
            lemma_unit_component_bound(mixed.y as int, mixed.x as int, mixed.y as int);
        }
    }
}

/// A stroll is at most one stride long: when a stroll begins for a sheep
/// that stands inside the arena, with a drawn direction of unit size at
/// most, the new intent lies inside the arena and, along either axis, no
/// farther from the sheep than its stride. The rounding of a unit vector
/// to thousandths is why the bound is stated by components.
pub proof fn lemma_stroll_is_one_stride(
    sheep: Sheep,
    movement: HopMovementController,
    pos: Vec2,
    bounds: LevelBounds,
    delta: u32,
    random_dir: Vec2,
    wait: u64,
)
    requires
        spec_stroll_due(sheep, delta),
        bounds.wf(),
        bounds.contains(pos),
        -1000 <= random_dir.x <= 1000,
        -1000 <= random_dir.y <= 1000,
    ensures
        spec_within_stride(
            spec_wander(sheep, movement, pos, bounds, delta, random_dir, wait).1.intent,
            pos,
            sheep.step_distance,
        ),
        bounds.contains(
            spec_wander(sheep, movement, pos, bounds, delta, random_dir, wait).1.intent,
        ),
{
    let dir = spec_wander_dir(sheep.herd_dir, random_dir);
    lemma_wander_dir_is_unit_sized(sheep.herd_dir, random_dir);
    lemma_scale_grows(dir.x as int, sheep.step_distance as int);
    lemma_scale_grows(dir.y as int, sheep.step_distance as int);
}

/// Whether `intent` lies no farther from `pos` than `step_distance`, along
/// either axis.
pub open spec fn spec_within_stride(intent: Vec2, pos: Vec2, step_distance: u32) -> bool {
    &&& -step_distance <= intent.x - pos.x <= step_distance
    &&& -step_distance <= intent.y - pos.y <= step_distance
}

/// Lets `delta` microseconds of strolling pass for a sheep at `position`,
/// with the direction and the next idle time already drawn.
pub fn wander_step(
    sheep: &mut Sheep,
    movement: &mut HopMovementController,
    position: Vec2,
    bounds: &LevelBounds,
    delta: u32,
    random_dir: Vec2,
    wait: u64,
)
    requires
        spec_stroll_due(*old(sheep), delta) ==> bounds.wf(),
    ensures
        (*final(sheep), *final(movement)) == spec_wander(
            *old(sheep),
            *old(movement),
            position,
            *bounds,
            delta,
            random_dir,
            wait,
        ),
        bounds.wf() && bounds.contains(old(movement).intent) ==> bounds.contains(
            final(movement).intent,
        ),
        spec_stroll_due(*old(sheep), delta) ==> bounds.contains(final(movement).intent),
        spec_stroll_due(*old(sheep), delta) && bounds.contains(position) && -1000 <= random_dir.x
            <= 1000 && -1000 <= random_dir.y <= 1000 ==> spec_within_stride(
            final(movement).intent,
            position,
            old(sheep).step_distance,
        ),
        !spec_stroll_due(*old(sheep), delta) ==> final(movement).intent == old(movement).intent,
        old(sheep).wf() ==> final(sheep).wf(),
        old(movement).wf() ==> final(movement).wf(),
{
    proof {
        if spec_stroll_due(*old(sheep), delta) && bounds.contains(position) && -1000
            <= random_dir.x <= 1000 && -1000 <= random_dir.y <= 1000 {
            lemma_stroll_is_one_stride(
                *old(sheep),
                *old(movement),
                position,
                *bounds,
                delta,
                random_dir,
                wait,
            );
        }
    }
    match sheep.state {
        SheepState::Wander(timer) => {
            let mut timer = timer;
            timer.tick(delta as u64);
            sheep.state = SheepState::Wander(timer);
            if timer.just_finished() {
                let dir = wander_dir(sheep.herd_dir, random_dir);
                let stride = dir.scale(sheep.step_distance as u64, 1000);
                movement.intent = bounds.clamp_offset(position, stride);
                sheep.reset_timer_to(wait);
            }
        },
        _ => {},
    }
}

/// Whether a tick of `delta` microseconds ends the idle time of the sheep,
/// so that a stroll begins.
pub open spec fn spec_stroll_due(sheep: Sheep, delta: u32) -> bool {
    match sheep.state {
        SheepState::Wander(timer) => timer.spec_tick(delta as u64).just_finished,
        _ => false,
    }
}

/// Whether a tick of `delta` microseconds ends the idle time of the sheep.
pub fn stroll_due(sheep: &Sheep, delta: u32) -> (due: bool)
    ensures
        due == spec_stroll_due(*sheep, delta),
{
    match sheep.state {
        SheepState::Wander(timer) => {
            let mut timer = timer;
            timer.tick(delta as u64);
            timer.just_finished()
        },
        _ => false,
    }
}

/// Lets `delta` microseconds of strolling pass for a sheep at `position`.
/// When a stroll begins, its direction and the idle time after it are
/// drawn at random: the direction is a unit vector, the idle time lies
/// between the sheep's shortest and longest. Until then the idle timer just
/// runs on.
pub fn sheep_wander(
    sheep: &mut Sheep,
    movement: &mut HopMovementController,
    position: Vec2,
    bounds: &LevelBounds,
    delta: u32,
)
    requires
        spec_stroll_due(*old(sheep), delta) ==> bounds.wf() && old(sheep).wf(),
    ensures
        spec_stroll_due(*old(sheep), delta) ==> exists|random_dir: Vec2, wait: u64|
            spec_is_heading(random_dir) && -1000 <= random_dir.x <= 1000 && -1000 <= random_dir.y
                <= 1000 && !random_dir.is_zero() && old(sheep).min_wait <= wait < old(sheep).max_wait && (*final(sheep), *final(movement)) == #[trigger] spec_wander(
                *old(sheep),
                *old(movement),
                position,
                *bounds,
                delta,
                random_dir,
                wait,
            ),
        spec_stroll_due(*old(sheep), delta) ==> bounds.contains(final(movement).intent),
        spec_stroll_due(*old(sheep), delta) && bounds.contains(position) ==> spec_within_stride(
            final(movement).intent,
            position,
            old(sheep).step_distance,
        ),
        !spec_stroll_due(*old(sheep), delta) ==> (*final(sheep), *final(movement)) == spec_wander(
            *old(sheep),
            *old(movement),
            position,
            *bounds,
            delta,
            Vec2 { x: 1000, y: 0 },
            0,
        ) && *final(movement) == *old(movement),
        old(sheep).wf() ==> final(sheep).wf(),
        old(movement).wf() ==> final(movement).wf(),
        bounds.wf() && bounds.contains(old(movement).intent) ==> bounds.contains(
            final(movement).intent,
        ),
{
    if stroll_due(sheep, delta) {
        let random_dir = random_heading();
        let wait = random_duration(sheep.min_wait, sheep.max_wait);
        wander_step(sheep, movement, position, bounds, delta, random_dir, wait);
        assert((*final(sheep), *final(movement)) == spec_wander(
            *old(sheep),
            *old(movement),
            position,
            *bounds,
            delta,
            random_dir,
            wait,
        ));
    } else {
        wander_step(sheep, movement, position, bounds, delta, Vec2::unit_x(), 0);
    }
}

/// Lets `delta` microseconds pass for a sheep at `height` that may be on
/// its way up to an abductor. Returns its new height, and whether it has
/// come near enough to the abductor to be taken out of the arena. A sheep
/// that is not being abducted stays where it is.
pub fn sheep_abduction_update(sheep: &Sheep, height: u32, delta: u32) -> (r: (u32, bool))
    ensures
        !(sheep.state is BeingAbducted) ==> r == (height, false),
        sheep.state is BeingAbducted ==> r.0 == spec_abduction_height(height, delta) && r.1 == (r.0
            >= UFO_HEIGHT - ABDUCTION_CATCH_MARGIN),
{
    if !sheep.is_being_abducted() {
        return (height, false);
    }
    let rise: u64 = wide_product(ABDUCTION_ASCENT_SPEED, delta) / 1_000_000;
    let risen: u64 = height as u64 + rise;
    let new_height: u32 = if risen > UFO_HEIGHT as u64 {
        UFO_HEIGHT
    } else {
        risen as u32
    };
    (new_height, new_height >= UFO_HEIGHT - ABDUCTION_CATCH_MARGIN)
}

} // verus!
