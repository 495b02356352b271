//! The player's dog: its bark and its steering.

use vstd::prelude::*;
use crate::fixed::wide_product;
use crate::flock::Creature;
use crate::modifiers::Modifier;
use crate::movement::HopMovementController;
use crate::state::GameState;
use crate::timer::{Timer, TimerMode};
use crate::vec2::Vec2;

verus! {

/// How near the player must come for a sheep to give way.
pub const SHEEP_INTERACT_RADIUS: u32 = 7_000;

/// The time between two barks, in microseconds.
pub const BARK_COOLDOWN: u64 = 2_000_000;

/// The player's dog.
#[derive(Debug, Copy, Clone, PartialEq, Eq, Structural)]
pub struct Player {
    pub bark_radius: u32,
    pub sheep_interact_radius: u32,
    pub bark_cooldown: Timer,
}

/// What a request to bark led to.
#[derive(Debug, Copy, Clone, PartialEq, Eq, Structural)]
pub struct BarkOutcome {
    /// Whether the dog barked.
    pub barked: bool,
    /// Whether the bark throws the dog to a random place.
    pub teleport_player: bool,
}

/// Whether a bark at `origin` that carries `radius` far reaches `pos`.
pub open spec fn spec_bark_reaches(origin: Vec2, pos: Vec2, radius: u32) -> bool {
    origin.spec_distance_squared(pos) <= radius * radius
}

/// A creature after a bark at `origin` that carries `radius` far: if the
/// bark reaches it, its sheep hears it.
pub open spec fn spec_barked_at(creature: Creature, origin: Vec2, radius: u32) -> Creature {
    if spec_bark_reaches(origin, creature.position, radius) {
        Creature { sheep: creature.sheep.spec_become_spooked(origin), ..creature }
    } else {
        creature
    }
}

/// The direction that the pressed keys ask for: a unit vector, or zero if
/// they cancel out. Up is toward smaller `y`.
pub open spec fn spec_directional_intent(up: bool, down: bool, left: bool, right: bool) -> Vec2 {
    (Vec2 {
        x: (if right {
            1000int
        } else {
            0int
        } - if left {
            1000int
        } else {
            0int
        }) as i32,
        y: (if down {
            1000int
        } else {
            0int
        } - if up {
            1000int
        } else {
            0int
        }) as i32,
    }).spec_normalize_or(Vec2 { x: 0, y: 0 })
}

impl Player {
    /// A dog whose bark carries `bark_radius` far. It cannot bark before
    /// the first cooldown has passed.
    pub fn new(bark_radius: u32) -> (p: Player)
        ensures
            p == (Player {
                bark_radius,
                sheep_interact_radius: SHEEP_INTERACT_RADIUS,
                bark_cooldown: Timer::spec_new(BARK_COOLDOWN, TimerMode::Once),
            }),
    {
        Player {
            bark_radius,
            sheep_interact_radius: SHEEP_INTERACT_RADIUS,
            bark_cooldown: Timer::new(BARK_COOLDOWN, TimerMode::Once),
        }
    }
}

/// Lets `delta` microseconds of the bark cooldown pass.
pub fn tick_player_timers(player: &mut Player, delta: u32)
    ensures
        *final(player) == (Player {
            bark_cooldown: old(player).bark_cooldown.spec_tick(delta as u64),
            ..*old(player)
        }),
{
    player.bark_cooldown.tick(delta as u64);
}

/// Whether a bark at `origin` that carries `radius` far reaches `pos`.
pub fn bark_reaches(origin: Vec2, pos: Vec2, radius: u32) -> (r: bool)
    ensures
        r == spec_bark_reaches(origin, pos, radius),
{
    origin.distance_squared(pos) <= wide_product(radius, radius) as u128
}

/// The player asks the dog at `player_pos` to bark.
///
/// While the cooldown runs, nothing happens. Otherwise the cooldown
/// starts over, and every sheep within the bark's radius hears the bark:
/// it is spooked if it wanders or evades. Under the modifier that makes
/// barks teleport, the dog is then to be thrown to a random place.
pub fn handle_bark(
    player: &mut Player,
    player_pos: Vec2,
    flock: &mut Vec<Creature>,
    game_state: &GameState,
) -> (out: BarkOutcome)
    ensures
        out.barked == old(player).bark_cooldown.finished,
        out.teleport_player == (out.barked && game_state.active_modifiers@.contains(
            Modifier::TeleportingBark,
        )),
        !out.barked ==> *final(player) == *old(player) && final(flock)@ == old(flock)@,
        out.barked ==> *final(player) == (Player {
            bark_cooldown: old(player).bark_cooldown.spec_reset(),
            ..*old(player)
        }),
        out.barked ==> final(flock)@ == Seq::new(
            old(flock)@.len(),
            |i: int| spec_barked_at(old(flock)@[i], player_pos, old(player).bark_radius),
        ),
{
    if !player.bark_cooldown.is_finished() {
        return BarkOutcome { barked: false, teleport_player: false };
    }
    player.bark_cooldown.reset();
    let ghost before = flock@;
    let radius = player.bark_radius;
    let mut i: usize = 0;
    while i < flock.len()
        invariant
            i <= flock.len(),
            flock.len() == before.len(),
            forall|j: int|
                0 <= j < i ==> flock[j] == spec_barked_at(#[trigger] before[j], player_pos, radius),
            forall|j: int| i <= j < flock.len() ==> flock[j] == #[trigger] before[j],
        decreases flock.len() - i,
    {
        let mut creature = flock[i];
        if bark_reaches(player_pos, creature.position, radius) {
            creature.sheep.become_spooked(player_pos);
            flock.set(i, creature);
        }
        i += 1;
    }
    assert(flock@ =~= Seq::new(
        before.len(),
        |i: int| spec_barked_at(before[i], player_pos, radius),
    ));
    BarkOutcome {
        barked: true,
        teleport_player: game_state.is_modifier_active(Modifier::TeleportingBark),
    }
}

/// The direction that the pressed keys ask for.
pub fn directional_intent(up: bool, down: bool, left: bool, right: bool) -> (dir: Vec2)
    ensures
        dir == spec_directional_intent(up, down, left, right),
{
    let mut x: i32 = 0;
    let mut y: i32 = 0;
    if up {
        y -= 1000;
    }
    if down {
        y += 1000;
    }
    if left {
        x -= 1000;
    }
    if right {
        x += 1000;
    }
    Vec2 { x, y }.normalize_or_zero()
}

/// Steers the dog for a tick of `delta` microseconds: its intent shifts
/// along the direction that the pressed keys ask for, as far as its speed
/// carries it in that time.
pub fn record_player_directional_input(
    controller: &mut HopMovementController,
    up: bool,
    down: bool,
    left: bool,
    right: bool,
    delta: u32,
)
    ensures
        *final(controller) == (HopMovementController {
            intent: old(controller).intent.spec_add(
                spec_directional_intent(up, down, left, right).spec_scale(
                    old(controller).move_speed_mult * delta,
                    1_000_000_000,
                ).spec_scale(old(controller).move_speed_mult as int, 1000),
            ),
            ..*old(controller)
        }),
        old(controller).wf() ==> final(controller).wf(),
{
    let intent = directional_intent(up, down, left, right);
    let speed_mult = controller.move_speed_mult;
    controller.apply_movement(intent.scale(wide_product(speed_mult, delta), 1_000_000_000));
}

} // verus!
