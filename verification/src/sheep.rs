//! The flock: what a sheep is, the states it moves through, and how it is
//! set up when it enters the arena.

use vstd::prelude::*;
use crate::chance::{random_duration, roll};
use crate::items::Charm;
use crate::modifiers::Modifier;
use crate::movement::HopMovementController;
use crate::state::GameState;
use crate::timer::{Timer, TimerMode};
use crate::vec2::Vec2;

verus! {

/// How long a sheep that has just calmed down waits before it wanders on.
pub const CALM_WAIT: u64 = 500_000;

/// The wool of a sheep, which decides what it scores at the goal.
#[derive(Debug, Copy, Clone, PartialEq, Eq, Hash, Structural)]
pub enum SheepColor {
    White,
    Black,
    Blue,
    Red,
    Gold,
}

impl Default for SheepColor {
    fn default() -> (c: Self)
        ensures
            c == SheepColor::White,
    {
        SheepColor::White
    }
}

/// What a sheep is doing. A sheep is in exactly one of these states.
#[derive(Debug, Copy, Clone, PartialEq, Eq, Structural)]
pub enum SheepState {
    /// Idling; the timer says when the next stroll starts.
    Wander(Timer),
    /// A danger is near, at the given place: move away from it.
    Evading(Vec2),
    /// A bark came from the given place: run.
    Spooked(Vec2),
    /// Near the goal: walk up to it.
    BeingCounted,
    /// Caught by a beam: rise into the sky.
    BeingAbducted,
}

/// One sheep of the flock.
#[derive(Debug, Copy, Clone, PartialEq, Eq, Structural)]
pub struct Sheep {
    pub state: SheepState,
    pub color: SheepColor,
    /// The length of a stride, in thousandths of a unit.
    pub step_distance: u32,
    /// The shortest idle time between two strolls, in microseconds.
    pub min_wait: u64,
    /// The idle time between two strolls stays below this, in microseconds.
    pub max_wait: u64,
    /// The speed of the sheep at ease, in thousandths.
    pub default_speed_mult: u32,
    /// The speed of the sheep on the run, in thousandths.
    pub spooked_speed_mult: u32,
    /// The heading of the sheep's neighbours, or zero if it has none.
    pub herd_dir: Vec2,
}

/// A sheep that is about to enter the arena, with its movement state and the
/// place where it is put down.
#[derive(Debug, Copy, Clone, PartialEq, Eq, Structural)]
pub struct SheepSpawn {
    pub sheep: Sheep,
    pub movement: HopMovementController,
    pub position: Vec2,
}

/// The colour a sheep enters the arena with: a white sheep turns black when
/// the roll says so, every other sheep keeps its colour.
pub open spec fn spec_spawn_color(color: SheepColor, roll: bool) -> SheepColor {
    if color == SheepColor::White && roll {
        SheepColor::Black
    } else {
        color
    }
}

/// How fast a sheep moves: 2.0, and 1.3 times as much when hyper.
pub open spec fn spec_move_speed_mult(hyper: bool) -> u32 {
    if hyper {
        2600
    } else {
        2000
    }
}

/// How fast a sheep's hop timer runs: 2.5, halved under moon gravity and
/// doubled when hyper.
pub open spec fn spec_hop_speed_mult(moon: bool, hyper: bool) -> u32 {
    if moon && hyper {
        2500
    } else if moon {
        1250
    } else if hyper {
        5000
    } else {
        2500
    }
}

/// How long a sheep rests between hops: 0.2 s, a tenth of that when hyper.
pub open spec fn spec_time_between_hops(hyper: bool) -> u64 {
    if hyper {
        20_000
    } else {
        200_000
    }
}

/// How long a hop lasts: 0.3 s, and 0.5 s more under moon gravity.
pub open spec fn spec_hop_time_length(moon: bool) -> u64 {
    if moon {
        800_000
    } else {
        300_000
    }
}

/// How high a sheep hops: 1.0, six times as high under moon gravity.
pub open spec fn spec_jump_height_mult(moon: bool) -> u32 {
    if moon {
        6000
    } else {
        1000
    }
}

/// The movement state of a sheep that is put down at `position`.
pub open spec fn spec_spawn_movement(position: Vec2, moon: bool, hyper: bool)
    -> HopMovementController {
    HopMovementController {
        intent: position,
        move_speed_mult: spec_move_speed_mult(hyper),
        hop_speed_mult: spec_hop_speed_mult(moon, hyper),
        time_between_hops: spec_time_between_hops(hyper),
        hop_time_length: spec_hop_time_length(moon),
        jump_height_mult: spec_jump_height_mult(moon),
        ..HopMovementController::spec_default()
    }
}

impl Sheep {
    /// A sheep of the given colour with the standard tuning, idle until
    /// `wait` microseconds have passed.
    pub open spec fn spec_with_wait(color: SheepColor, wait: u64) -> Sheep {
        Sheep {
            state: SheepState::Wander(Timer::spec_new(wait, TimerMode::Once)),
            color,
            step_distance: 1500,
            min_wait: 1_500_000,
            max_wait: 7_000_000,
            default_speed_mult: 1200,
            spooked_speed_mult: 1900,
            herd_dir: Vec2 { x: 0, y: 0 },
        }
    }

    /// The shortest idle time lies below the longest.
    pub open spec fn wf(&self) -> bool {
        self.min_wait < self.max_wait
    }

    /// The sheep with its idle timer wound back and set to `wait`. A sheep
    /// that is not wandering has no idle timer and stays as it is.
    pub open spec fn spec_reset_timer(&self, wait: u64) -> Sheep {
        match self.state {
            SheepState::Wander(timer) => Sheep {
                state: SheepState::Wander((Timer { duration: wait, ..timer }).spec_reset()),
                ..*self
            },
            _ => *self,
        }
    }

    /// The sheep after a bark from `danger_pos` has reached it: a sheep that
    /// wanders or evades is spooked, any other sheep ignores the bark.
    pub open spec fn spec_become_spooked(&self, danger_pos: Vec2) -> Sheep {
        match self.state {
            SheepState::Wander(_) | SheepState::Evading(_) => Sheep {
                state: SheepState::Spooked(danger_pos),
                ..*self
            },
            _ => *self,
        }
    }

    /// Whether a request to abduct the sheep is granted: not while it is
    /// being counted, and not a second time.
    pub open spec fn spec_can_be_abducted(&self) -> bool {
        !(self.state is BeingAbducted) && !(self.state is BeingCounted)
    }

    /// The sheep after a request to abduct it.
    pub open spec fn spec_start_abduction(&self) -> Sheep {
        if self.spec_can_be_abducted() {
            Sheep { state: SheepState::BeingAbducted, ..*self }
        } else {
            *self
        }
    }

    /// Whether the shortest idle time lies below the longest.
    pub fn is_well_formed(&self) -> (b: bool)
        ensures
            b == self.wf(),
    {
        self.min_wait < self.max_wait
    }

    /// A sheep with the standard tuning and a given first idle time.
    pub fn with_wait(color: SheepColor, wait: u64) -> (s: Sheep)
        ensures
            s == Sheep::spec_with_wait(color, wait),
            s.wf(),
    {
        Sheep {
            state: SheepState::Wander(Timer::new(wait, TimerMode::Once)),
            color,
            step_distance: 1500,
            min_wait: 1_500_000,
            max_wait: 7_000_000,
            default_speed_mult: 1200,
            spooked_speed_mult: 1900,
            herd_dir: Vec2 { x: 0, y: 0 },
        }
    }

    /// A sheep with the standard tuning and a random first idle time between
    /// its shortest and its longest.
    pub fn new(color: SheepColor) -> (s: Sheep)
        ensures
            exists|wait: u64|
                1_500_000 <= wait < 7_000_000 && s == #[trigger] Sheep::spec_with_wait(
                    color,
                    wait,
                ),
            s.wf(),
    {
        let wait = random_duration(1_500_000, 7_000_000);
        Sheep::with_wait(color, wait)
    }

    pub fn default_speed_mult(self, mult: u32) -> (s: Sheep)
        ensures
            s == (Sheep { default_speed_mult: mult, ..self }),
    {
        let mut sheep = self;
        sheep.default_speed_mult = mult;
        sheep
    }

    pub fn spooked_speed_mult(self, mult: u32) -> (s: Sheep)
        ensures
            s == (Sheep { spooked_speed_mult: mult, ..self }),
    {
        let mut sheep = self;
        sheep.spooked_speed_mult = mult;
        sheep
    }

    pub fn step_distance(self, dist: u32) -> (s: Sheep)
        ensures
            s == (Sheep { step_distance: dist, ..self }),
    {
        let mut sheep = self;
        sheep.step_distance = dist;
        sheep
    }

    /// Winds the idle timer of a wandering sheep back and sets it to `wait`.
    pub fn reset_timer_to(&mut self, wait: u64)
        ensures
            *final(self) == old(self).spec_reset_timer(wait),
            old(self).wf() ==> final(self).wf(),
    {
        match self.state {
            SheepState::Wander(timer) => {
                let mut timer = timer;
                timer.set_duration(wait);
                timer.reset();
                self.state = SheepState::Wander(timer);
            },
            _ => {},
        }
    }

    /// Winds the idle timer of a wandering sheep back and sets it to a
    /// random time between the sheep's shortest and longest idle time. A
    /// sheep that is not wandering stays as it is.
    pub fn reset_timer(&mut self)
        requires
            old(self).state is Wander ==> old(self).wf(),
        ensures
            old(self).state is Wander ==> exists|wait: u64|
                old(self).min_wait <= wait < old(self).max_wait && *final(self) == #[trigger] old(
                    self,
                ).spec_reset_timer(wait),
            !(old(self).state is Wander) ==> *final(self) == *old(self),
            old(self).wf() ==> final(self).wf(),
    {
        match self.state {
            SheepState::Wander(_) => {
                let wait = random_duration(self.min_wait, self.max_wait);
                self.reset_timer_to(wait);
                assert(*final(self) == old(self).spec_reset_timer(wait));
            },
            _ => {},
        }
    }

    /// A bark from `danger_pos` has reached the sheep.
    pub fn become_spooked(&mut self, danger_pos: Vec2)
        ensures
            *final(self) == old(self).spec_become_spooked(danger_pos),
            old(self).wf() ==> final(self).wf(),
    {
        match self.state {
            SheepState::Wander(_) | SheepState::Evading(_) => {
                self.state = SheepState::Spooked(danger_pos);
            },
            _ => {},
        }
    }

    pub fn is_being_abducted(&self) -> (b: bool)
        ensures
            b == (self.state is BeingAbducted),
    {
        match self.state {
            SheepState::BeingAbducted => true,
            _ => false,
        }
    }

    /// Asks for the sheep to be abducted. Returns whether the request was
    /// granted; a refused request changes nothing.
    pub fn start_abduction(&mut self) -> (granted: bool)
        ensures
            granted == old(self).spec_can_be_abducted(),
            *final(self) == old(self).spec_start_abduction(),
            old(self).wf() ==> final(self).wf(),
    {
        let counted = match self.state {
            SheepState::BeingCounted => true,
            _ => false,
        };
        if self.is_being_abducted() || counted {
            return false;
        }
        self.state = SheepState::BeingAbducted;
        true
    }
}

/// The colour a sheep of colour `color` enters the arena with, given the
/// outcome of the roll for black wool.
pub fn spawn_color(color: SheepColor, roll: bool) -> (c: SheepColor)
    ensures
        c == spec_spawn_color(color, roll),
{
    if color == SheepColor::White && roll {
        SheepColor::Black
    } else {
        color
    }
}

/// The movement state of a sheep that is put down at `position`, under the
/// given modifiers.
pub fn spawn_movement(position: Vec2, moon_gravity: bool, hyper_sheep: bool) -> (c:
    HopMovementController)
    ensures
        c == spec_spawn_movement(position, moon_gravity, hyper_sheep),
        c.wf(),
{
    let mut move_speed_mult: u32 = 2000;
    let mut hop_speed_mult: u32 = 2500;
    let mut time_between_hops: u64 = 200_000;
    let mut hop_time_length: u64 = 300_000;
    let mut jump_height_mult: u32 = 1000;
    if moon_gravity {
        hop_speed_mult = hop_speed_mult / 2;
        hop_time_length = hop_time_length + 500_000;
        jump_height_mult = jump_height_mult * 6;
    }
    if hyper_sheep {
        hop_speed_mult = hop_speed_mult * 2;
        move_speed_mult = move_speed_mult * 13 / 10;
        time_between_hops = time_between_hops / 10;
    }
    let mut c = HopMovementController::new(
        move_speed_mult,
        hop_speed_mult,
        time_between_hops,
        hop_time_length,
    );
    c.jump_height_mult = jump_height_mult;
    c.on_add(position);
    c
}

/// `spawn` is a sheep that was lined up in `color` and set up under the
/// given modifiers: it enters in that colour, or black if it was lined up
/// white and the roll turned it; it idles for some time between the
/// standard shortest and longest; its movement state follows from the
/// modifiers and its place; and its speeds follow from how fast it moves.
pub open spec fn spec_is_spawn(spawn: SheepSpawn, color: SheepColor, moon: bool, hyper: bool)
    -> bool {
    &&& spawn.movement == spec_spawn_movement(spawn.position, moon, hyper)
    &&& exists|roll: bool, wait: u64|
        1_500_000 <= wait < 7_000_000 && spawn.sheep == #[trigger] spec_spawned_sheep(
            spec_spawn_color(color, roll),
            wait,
            spec_move_speed_mult(hyper),
        )
}

/// Sets up a sheep that enters the arena at `position`.
///
/// A white sheep comes out black one time in twenty, or one time in ten
/// with the ink charm. The active modifiers decide how it hops, and its
/// speeds follow from how fast it moves.
pub fn sheep(position: Vec2, state: &GameState, color: SheepColor) -> (spawn: SheepSpawn)
    ensures
        spawn.position == position,
        spec_is_spawn(
            spawn,
            color,
            state.active_modifiers@.contains(Modifier::MoonGravity),
            state.active_modifiers@.contains(Modifier::HyperSheep),
        ),
        color != SheepColor::White ==> spawn.sheep.color == color,
        color == SheepColor::White ==> spawn.sheep.color == SheepColor::White || spawn.sheep.color
            == SheepColor::Black,
        spawn.sheep.wf(),
        spawn.movement.wf(),
{
    let roll = if state.is_charm_active(Charm::Ink) {
        roll(1, 10)
    } else {
        roll(1, 20)
    };
    let color = spawn_color(color, roll);
    let movement = spawn_movement(
        position,
        state.is_modifier_active(Modifier::MoonGravity),
        state.is_modifier_active(Modifier::HyperSheep),
    );
    let speed = movement.move_speed_mult;
    let wait = random_duration(1_500_000, 7_000_000);
    let sheep = Sheep::with_wait(color, wait).default_speed_mult(speed).spooked_speed_mult(
        speed * 2,
    ).step_distance(speed);
    assert(sheep == spec_spawned_sheep(
        spec_spawn_color(color, roll),
        wait,
        spec_move_speed_mult(state.active_modifiers@.contains(Modifier::HyperSheep)),
    ));
    SheepSpawn { sheep, movement, position }
}

/// A freshly set up sheep: it moves at `speed`, runs twice as fast when
/// spooked, and strolls `speed` far at a time.
pub open spec fn spec_spawned_sheep(color: SheepColor, wait: u64, speed: u32) -> Sheep {
    Sheep {
        default_speed_mult: speed,
        spooked_speed_mult: (speed * 2) as u32,
        step_distance: speed,
        ..Sheep::spec_with_wait(color, wait)
    }
}

} // verus!
