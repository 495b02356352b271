//! Hop movement: an actor waits on the ground, then leaps in a parabola
//! toward the point it intends to reach.

use vstd::prelude::*;
use crate::chance::random_index;
use crate::fixed::wide_product;
use crate::level::LevelBounds;
use crate::timer::{Timer, TimerMode};
use crate::vec2::Vec2;

verus! {

/// The squared distance to the intent above which an actor bothers to hop.
pub const HOP_THRESHOLD_SQUARED: u128 = 400_000;

/// The movement state of one actor.
#[derive(Debug, Copy, Clone, PartialEq, Eq, Structural)]
pub struct HopMovementController {
    /// The point on the ground plane the actor wants to reach.
    pub intent: Vec2,
    /// Where the hop in progress began.
    pub current_hop_src: Option<Vec2>,
    /// Where the hop in progress ends.
    pub current_hop_dest: Option<Vec2>,
    /// How far a shift of the intent carries, in thousandths.
    pub move_speed_mult: u32,
    /// How fast the hop timer runs, in thousandths.
    pub hop_speed_mult: u32,
    /// The wait on the ground between two hops, in microseconds.
    pub time_between_hops: u64,
    /// The time a hop takes, in microseconds.
    pub hop_time_length: u64,
    /// The height of a hop at its peak, in thousandths of a unit.
    pub jump_height_mult: u32,
    pub airborne: bool,
    /// Counts the wait on the ground and the time in the air in turn.
    pub timer: Timer,
}

/// What one step of the integrator did to an actor.
#[derive(Debug, Copy, Clone, PartialEq, Eq, Structural)]
pub struct HopStep {
    /// Where the actor stands on the ground plane after the step.
    pub position: Vec2,
    /// How high above the ground it is.
    pub height: u32,
    /// Whether a hop began in this step.
    pub just_hopped: bool,
}

/// The height of a hop at the fraction `t` of its flight, for a hop that
/// peaks at `mult`: `mult * 4 * t * (1 - t)`, all in thousandths.
pub open spec fn spec_jump_height(t: int, mult: int) -> int {
    mult * 4 * t * (1000 - t) / 1_000_000
}

/// The point at the fraction `t` (in thousandths) of the way from `from` to
/// `to`, on one axis.
pub open spec fn spec_lerp(from: int, to: int, t: int) -> int {
    from + crate::fixed::trunc_div((to - from) * t, 1000)
}

impl HopMovementController {
    /// The controller an actor starts with.
    pub open spec fn spec_default() -> HopMovementController {
        HopMovementController {
            intent: Vec2 { x: 0, y: 0 },
            current_hop_src: None,
            current_hop_dest: None,
            move_speed_mult: 3000,
            hop_speed_mult: 1000,
            time_between_hops: 200_000,
            hop_time_length: 300_000,
            jump_height_mult: 1000,
            airborne: false,
            timer: Timer::spec_new(500_000, TimerMode::Once),
        }
    }

    /// The endpoints of a hop are set exactly while the actor is in the air.
    pub open spec fn wf(&self) -> bool {
        &&& self.airborne <==> self.current_hop_src is Some
        &&& self.airborne <==> self.current_hop_dest is Some
    }

    /// The hop in progress, if there is one, started inside `bounds`.
    pub open spec fn within(&self, bounds: LevelBounds) -> bool {
        self.current_hop_src matches Some(src) ==> bounds.contains(src)
    }

    /// The time that a tick of `delta` microseconds is worth to this actor.
    pub open spec fn spec_scaled_delta(&self, delta: u32) -> u64 {
        (delta * self.hop_speed_mult / 1000) as u64
    }

    /// Whether a tick of `delta` makes an actor at `current_pos` leave the
    /// ground: its timer has run out, it is not in the air, and its intent
    /// is far enough away.
    pub open spec fn spec_hop_starts(&self, delta: u32, current_pos: Vec2) -> bool {
        &&& self.timer.spec_tick(self.spec_scaled_delta(delta)).finished
        &&& !self.airborne
        &&& self.intent.spec_distance_squared(current_pos) > HOP_THRESHOLD_SQUARED
    }

    /// The controller after a tick of `delta` with the actor at
    /// `current_pos`.
    ///
    /// The timer runs at the actor's hop speed. When it has run out, an
    /// actor in the air lands and starts to wait; an actor on the ground
    /// leaps toward its intent if that is far enough away, and otherwise
    /// keeps waiting.
    pub open spec fn spec_update(&self, delta: u32, current_pos: Vec2) -> HopMovementController {
        let ticked = self.timer.spec_tick(self.spec_scaled_delta(delta));
        if !ticked.finished {
            HopMovementController { timer: ticked, ..*self }
        } else if self.airborne {
            HopMovementController {
                airborne: false,
                current_hop_src: None,
                current_hop_dest: None,
                timer: (Timer { duration: self.time_between_hops, ..ticked }).spec_reset(),
                ..*self
            }
        } else if self.intent.spec_distance_squared(current_pos) > HOP_THRESHOLD_SQUARED {
            HopMovementController {
                airborne: true,
                current_hop_src: Some(current_pos),
                current_hop_dest: Some(self.intent),
                timer: (Timer { duration: self.hop_time_length, ..ticked }).spec_reset(),
                ..*self
            }
        } else {
            HopMovementController { timer: ticked, ..*self }
        }
    }

    /// The controller after one step of the integrator: the intent is
    /// brought inside `bounds`, then the tick is applied.
    pub open spec fn spec_step(&self, delta: u32, position: Vec2, bounds: LevelBounds)
        -> HopMovementController {
        (HopMovementController {
            intent: bounds.spec_clamp(self.intent.x as int, self.intent.y as int),
            ..*self
        }).spec_update(delta, position)
    }

    /// Where an actor is after one step of the integrator. On the ground it
    /// stays where it was. In the air it is on the straight line from the
    /// start of its hop to the end, which is first brought inside `bounds`,
    /// as far along as the timer has run, and as high as the parabola says.
    pub open spec fn spec_step_outcome(
        &self,
        delta: u32,
        position: Vec2,
        height: u32,
        bounds: LevelBounds,
    ) -> HopStep {
        let after = self.spec_step(delta, position, bounds);
        let just_hopped = (HopMovementController {
            intent: bounds.spec_clamp(self.intent.x as int, self.intent.y as int),
            ..*self
        }).spec_hop_starts(delta, position);
        if after.airborne && after.current_hop_src is Some && after.current_hop_dest is Some {
            let src = after.current_hop_src->0;
            let dest = bounds.spec_clamp(
                after.current_hop_dest->0.x as int,
                after.current_hop_dest->0.y as int,
            );
            let t = after.timer.spec_fraction();
            HopStep {
                position: Vec2 {
                    x: spec_lerp(src.x as int, dest.x as int, t) as i32,
                    y: spec_lerp(src.y as int, dest.y as int, t) as i32,
                },
                height: spec_jump_height(t, after.jump_height_mult as int) as u32,
                just_hopped,
            }
        } else {
            HopStep { position, height, just_hopped }
        }
    }

    pub fn new(
        move_speed_mult: u32,
        hop_speed_mult: u32,
        time_between_hops: u64,
        hop_time_length: u64,
    ) -> (c: Self)
        ensures
            c == (HopMovementController {
                move_speed_mult,
                hop_speed_mult,
                time_between_hops,
                hop_time_length,
                ..HopMovementController::spec_default()
            }),
            c.wf(),
    {
        HopMovementController {
            intent: Vec2 { x: 0, y: 0 },
            current_hop_src: None,
            current_hop_dest: None,
            move_speed_mult,
            hop_speed_mult,
            time_between_hops,
            hop_time_length,
            jump_height_mult: 1000,
            airborne: false,
            timer: Timer::new(500_000, TimerMode::Once),
        }
    }

    /// Points the intent at the place where the actor was put down.
    pub fn on_add(&mut self, position: Vec2)
        ensures
            *final(self) == (HopMovementController { intent: position, ..*old(self) }),
            old(self).wf() ==> final(self).wf(),
    {
        self.intent = position;
    }

    /// Moves the intent by `direction`, scaled by the actor's speed.
    pub fn apply_movement(&mut self, direction: Vec2)
        ensures
            *final(self) == (HopMovementController {
                intent: old(self).intent.spec_add(
                    direction.spec_scale(old(self).move_speed_mult as int, 1000),
                ),
                ..*old(self)
            }),
            old(self).wf() ==> final(self).wf(),
    {
        self.intent = self.intent.add(direction.scale(self.move_speed_mult as u64, 1000));
    }

    /// Advances the hop timer by `delta` microseconds for an actor that
    /// stands at `current_pos`. Returns whether a hop has just begun.
    pub fn update(&mut self, delta: u32, current_pos: Vec2) -> (just_hopped: bool)
        ensures
            *final(self) == old(self).spec_update(delta, current_pos),
            just_hopped == old(self).spec_hop_starts(delta, current_pos),
            old(self).wf() ==> final(self).wf(),
    {
        let scaled: u64 = wide_product(delta, self.hop_speed_mult) / 1000;
        self.timer.tick(scaled);
        if self.timer.is_finished() {
            if self.airborne {
                self.airborne = false;
                self.current_hop_src = None;
                self.current_hop_dest = None;
                self.timer.set_duration(self.time_between_hops);
                self.timer.reset();
            } else if self.intent.distance_squared(current_pos) > HOP_THRESHOLD_SQUARED {
                self.airborne = true;
                self.timer.set_duration(self.hop_time_length);
                self.timer.reset();
                self.current_hop_src = Some(current_pos);
                self.current_hop_dest = Some(self.intent);
                return true;
            }
        }
        false
    }

    /// One step of the integrator for an actor at `position` and `height`:
    /// brings the intent inside `bounds`, advances the hop timer by `delta`
    /// microseconds, and moves the actor along its hop.
    ///
    /// An actor that was inside `bounds` is inside `bounds` afterwards.
    pub fn step(&mut self, delta: u32, position: Vec2, height: u32, bounds: &LevelBounds) -> (out:
        HopStep)
        requires
            bounds.wf(),
        ensures
            *final(self) == old(self).spec_step(delta, position, *bounds),
            out == old(self).spec_step_outcome(delta, position, height, *bounds),
            bounds.contains(final(self).intent),
            old(self).wf() ==> final(self).wf(),
            out.height <= final(self).jump_height_mult || out.height == height,
            bounds.contains(position) && old(self).within(*bounds) ==> bounds.contains(
                out.position,
            ) && final(self).within(*bounds),
    {
        self.intent = bounds.clamp_to_bounds(self.intent);
        let just_hopped = self.update(delta, position);
        if self.airborne {
            if let (Some(src), Some(dest)) = (self.current_hop_src, self.current_hop_dest) {
                let dest = bounds.clamp_to_bounds(dest);
                let t = self.timer.fraction();
                let x = lerp(src.x, dest.x, t);
                let y = lerp(src.y, dest.y, t);
                let h = jump_height(t, self.jump_height_mult);
                return HopStep { position: Vec2 { x, y }, height: h, just_hopped };
            }
        }
        HopStep { position, height, just_hopped }
    }
}

impl Default for HopMovementController {
    fn default() -> (c: Self)
        ensures
            c == HopMovementController::spec_default(),
            c.wf(),
    {
        HopMovementController::new(3000, 1000, 200_000, 300_000)
    }
}

/// The point at the fraction `t` of the way from `from` to `to`. The result
/// lies between the two, ends included.
pub fn lerp(from: i32, to: i32, t: u32) -> (r: i32)
    requires
        t <= 1000,
    ensures
        r == spec_lerp(from as int, to as int, t as int),
        from <= to ==> from <= r <= to,
        to <= from ==> to <= r <= from,
        t == 0 ==> r == from,
        t == 1000 ==> r == to,
{
    let span: i64 = to as i64 - from as i64;
    let f: i64 = t as i64;
    assert(span >= 0 ==> 0 <= span * f <= span * 1000 && (span * f) / 1000 <= span && (t == 1000
        ==> (span * f) / 1000 == span) && (t == 0 ==> (span * f) / 1000 == 0))
        by (nonlinear_arith)
        requires
            0 <= f <= 1000,
            f == t,
    ;
    assert(span < 0 ==> 0 <= (-span) * f <= (-span) * 1000 && ((-span) * f) / 1000 <= -span
        && (-span) * f == -(span * f) && (t == 1000 ==> ((-span) * f) / 1000 == -span) && (t == 0
        ==> ((-span) * f) / 1000 == 0)) by (nonlinear_arith)
        requires
            0 <= f <= 1000,
            f == t,
    ;
    let moved: i64 = span * f / 1000;
    (from as i64 + moved) as i32
}

/// The height of a hop at the fraction `t` of its flight.
pub fn jump_height(t: u32, mult: u32) -> (h: u32)
    requires
        t <= 1000,
    ensures
        h == spec_jump_height(t as int, mult as int),
        h <= mult,
        t == 0 || t == 1000 ==> h == 0,
        t == 500 ==> h == mult,
{
    let a: u64 = wide_product(t, 1000 - t);
    assert(a <= 250_000 && (t == 500 ==> a == 250_000) && (t == 0 || t == 1000 ==> a == 0))
        by (nonlinear_arith)
        requires
            a == t * (1000 - t),
            0 <= t <= 1000,
    ;
    let m: u64 = mult as u64 * 4;
    assert(m * a <= m * 250_000 && (m * a) / 1_000_000 <= mult && (a == 250_000 ==> (m * a)
        / 1_000_000 == mult) && (a == 0 ==> (m * a) / 1_000_000 == 0)) by (nonlinear_arith)
        requires
            m == mult * 4,
            0 <= a <= 250_000,
            mult >= 0,
    ;
    assert(mult * 4 * t * (1000 - t) == m * a) by (nonlinear_arith)
        requires
            m == mult * 4,
            a == t * (1000 - t),
    ;
    (m * a / 1_000_000) as u32
}

/// Picks which of `variants` footstep sounds accompanies a hop.
pub fn pick_step_sound(variants: usize) -> (choice: Option<usize>)
    ensures
        variants == 0 <==> choice is None,
        choice matches Some(i) ==> i < variants,
{
    if variants == 0 {
        None
    } else {
        Some(random_index(variants))
    }
}

} // verus!
