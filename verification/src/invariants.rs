//! What holds of every sheep at every tick, whatever the order of events.

use vstd::prelude::*;
use crate::behavior::{spec_state_update, spec_wander, DangerActor};
use crate::fixed::trunc_div;
use crate::flock::{spec_refreshed_creature, Creature};
use crate::grid::FlockMember;
use crate::level::LevelBounds;
use crate::movement::{spec_lerp, HopMovementController};
use crate::scoring::spec_goal_transition;
use crate::sheep::{spec_spawn_movement, Sheep};
use crate::vec2::Vec2;

verus! {

/// A point part of the way from one coordinate to another lies between the
/// two, and at the ends of the way it is at the ends.
pub proof fn lemma_lerp_between(from: int, to: int, t: int)
    requires
        0 <= t <= 1000,
    ensures
        from <= to ==> from <= spec_lerp(from, to, t) <= to,
        to <= from ==> to <= spec_lerp(from, to, t) <= from,
        t == 0 ==> spec_lerp(from, to, t) == from,
        t == 1000 ==> spec_lerp(from, to, t) == to,
{
    let span = to - from;
    if span >= 0 {
        assert(0 <= span * t && (span * t) / 1000 <= span && 0 <= (span * t) / 1000 && (t == 1000
            ==> (span * t) / 1000 == span) && (t == 0 ==> (span * t) / 1000 == 0))
            by (nonlinear_arith)
            requires
                0 <= t <= 1000,
                span >= 0,
        ;
    } else {
        assert(0 < (-span) * t || t == 0) by (nonlinear_arith)
            requires
                0 <= t <= 1000,
                span < 0,
        ;
        assert(0 <= ((-span) * t) / 1000 <= -span && (-span) * t == -(span * t) && (t == 1000
            ==> ((-span) * t) / 1000 == -span) && (t == 0 ==> ((-span) * t) / 1000 == 0) && (
        span * t >= 0 ==> t == 0)) by (nonlinear_arith)
            requires
                0 <= t <= 1000,
                span < 0,
        ;
        if t == 0 {
            assert(span * t == 0) by (nonlinear_arith)
                requires
                    t == 0,
            ;
        }
        assert(trunc_div(span * t, 1000) == -(((-span) * t) / 1000));
    }
}

/// The integrator never moves an actor out of the arena: an actor that
/// stands inside the bounds, with a hop that began inside them, stands
/// inside them after the step, and so does its intent.
pub proof fn lemma_step_stays_inside(
    controller: HopMovementController,
    delta: u32,
    position: Vec2,
    height: u32,
    bounds: LevelBounds,
)
    requires
        bounds.wf(),
        bounds.contains(position),
        controller.within(bounds),
    ensures
        bounds.contains(controller.spec_step_outcome(delta, position, height, bounds).position),
        controller.spec_step(delta, position, bounds).within(bounds),
        bounds.contains(controller.spec_step(delta, position, bounds).intent),
{
    let after = controller.spec_step(delta, position, bounds);
    if after.airborne && after.current_hop_src is Some && after.current_hop_dest is Some {
        let src = after.current_hop_src->0;
        let dest = bounds.spec_clamp(
            after.current_hop_dest->0.x as int,
            after.current_hop_dest->0.y as int,
        );
        let t = after.timer.spec_fraction();
        assert(0 <= t <= 1000) by {
            if !(after.timer.duration == 0 || after.timer.elapsed >= after.timer.duration) {
                let e = after.timer.elapsed as int;
                let d = after.timer.duration as int;
                assert(0 <= (e * 1000) / d <= 1000) by (nonlinear_arith)
                    requires
                        0 <= e < d,
                ;
            }
        }
        lemma_lerp_between(src.x as int, dest.x as int, t);
        lemma_lerp_between(src.y as int, dest.y as int, t);
    }
}

/// Nothing but the integrator touches the start of a hop: the state
/// machine, a stroll, a refresh of the flock and the setting up of a sheep
/// leave a hop that began inside the bounds as it is.
pub proof fn lemma_behavior_keeps_hops_inside(
    sheep: Sheep,
    movement: HopMovementController,
    position: Vec2,
    dangers: Seq<DangerActor>,
    goal: Option<Vec2>,
    bounds: LevelBounds,
    well_trained: bool,
    delta: u32,
    random_dir: Vec2,
    wait: u64,
    moon_gravity: bool,
    hyper_sheep: bool,
)
    requires
        movement.within(bounds),
    ensures
        spec_state_update(
            sheep,
            movement,
            position,
            dangers,
            goal,
            bounds,
            well_trained,
            delta,
        ).1.within(bounds),
        spec_wander(sheep, movement, position, bounds, delta, random_dir, wait).1.within(bounds),
        spec_spawn_movement(position, moon_gravity, hyper_sheep).within(bounds),
{
}

/// A sheep that is being counted is never abducted: no request, no bark,
/// no tick of the state machine, no check of the goal, no stroll and no
/// refresh of the flock takes it from being counted to being abducted.
pub proof fn lemma_counted_is_never_abducted(
    creature: Creature,
    dangers: Seq<DangerActor>,
    goal: Option<Vec2>,
    bounds: LevelBounds,
    well_trained: bool,
    delta: u32,
    bark_origin: Vec2,
    goal_pos: Vec2,
    random_dir: Vec2,
    wait: u64,
    snapshot: Seq<FlockMember>,
    bucket: u64,
)
    requires
        creature.sheep.state is BeingCounted,
    ensures
        creature.sheep.spec_start_abduction().state is BeingCounted,
        creature.sheep.spec_become_spooked(bark_origin).state is BeingCounted,
        spec_state_update(
            creature.sheep,
            creature.movement,
            creature.position,
            dangers,
            goal,
            bounds,
            well_trained,
            delta,
        ).0.state is BeingCounted,
        spec_goal_transition(creature.sheep, creature.position, goal_pos).state is BeingCounted,
        spec_wander(
            creature.sheep,
            creature.movement,
            creature.position,
            bounds,
            delta,
            random_dir,
            wait,
        ).0.state is BeingCounted,
        spec_refreshed_creature(creature, snapshot, bucket).sheep.state is BeingCounted,
{
}

/// Abduction begins only on request: a sheep that is abducted after a
/// bark, a tick of the state machine, a check of the goal, a stroll or a
/// refresh of the flock was abducted before.
pub proof fn lemma_abduction_begins_on_request(
    creature: Creature,
    dangers: Seq<DangerActor>,
    goal: Option<Vec2>,
    bounds: LevelBounds,
    well_trained: bool,
    delta: u32,
    bark_origin: Vec2,
    goal_pos: Vec2,
    random_dir: Vec2,
    wait: u64,
    snapshot: Seq<FlockMember>,
    bucket: u64,
)
    requires
        !(creature.sheep.state is BeingAbducted),
    ensures
        !(creature.sheep.spec_become_spooked(bark_origin).state is BeingAbducted),
        !(spec_state_update(
            creature.sheep,
            creature.movement,
            creature.position,
            dangers,
            goal,
            bounds,
            well_trained,
            delta,
        ).0.state is BeingAbducted),
        !(spec_goal_transition(creature.sheep, creature.position, goal_pos).state
            is BeingAbducted),
        !(spec_wander(
            creature.sheep,
            creature.movement,
            creature.position,
            bounds,
            delta,
            random_dir,
            wait,
        ).0.state is BeingAbducted),
        !(spec_refreshed_creature(creature, snapshot, bucket).sheep.state is BeingAbducted),
{
}

} // verus!
