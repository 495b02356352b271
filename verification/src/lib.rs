//! A deterministic, fixed-point core for a round-based herding game.
//!
//! A dog steers a flock of sheep toward a goal inside a bounded arena.
//! Sheep stroll, flock with their neighbours, give way to the dog, run from
//! its bark, and hop from place to place; what they score at the goal
//! depends on their colour and on the modifiers and charms of the run.
//!
//! All quantities are integers. Lengths and positions are thousandths of a
//! world unit, multipliers and fractions are thousandths, and time is
//! counted in microseconds. Sums of vectors saturate at the limits of
//! `i32`; distances are exact.
//!
//! The only thing that is taken on trust is the random generator, behind
//! two functions in [`chance`]. Everything that is built on a draw is
//! verified for every value the generator may return.
//!
//! * [`fixed`], [`vec2`], [`timer`]: numbers, vectors and timers.
//! * [`level`]: the limits of the arena and the goal.
//! * [`movement`]: the hop integrator.
//! * [`sheep`], [`behavior`]: what a sheep is and what it does each tick.
//! * [`grid`], [`flock`]: the spatial index and the headings of the flock.
//! * [`scoring`]: what a sheep is worth at the goal.
//! * [`modifiers`], [`items`], [`state`], [`round`], [`shop`]: the run, its
//!   rounds, and what can be bought between them.
//! * [`player`], [`ufo`]: the dog and the abductors.
//! * [`invariants`]: what holds of every sheep at every tick.

pub mod behavior;
pub mod chance;
pub mod fixed;
pub mod flock;
pub mod grid;
pub mod invariants;
pub mod items;
pub mod level;
pub mod modifiers;
pub mod movement;
pub mod player;
pub mod round;
pub mod scoring;
pub mod sheep;
pub mod shop;
pub mod state;
pub mod timer;
pub mod ufo;
pub mod vec2;
