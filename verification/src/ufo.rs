//! Abductors: they pick a sheep, fly over it, and beam it up.

use vstd::prelude::*;
use crate::chance::random_index;
use crate::fixed::{div_trunc, isqrt, spec_isqrt, trunc_div, wide_product};
use crate::flock::Creature;
use crate::modifiers::Modifier;
use crate::state::GameState;
use crate::timer::{Timer, TimerMode};
use crate::vec2::{lemma_scale_shrinks, Vec2};

verus! {

/// The time an abductor needs between two abductions, in microseconds.
pub const UFO_ABDUCTION_INTERVAL: u64 = 8_000_000;

/// The time an abductor rests after an abduction.
pub const UFO_POST_ABDUCTION_PAUSE: u64 = 3_000_000;

/// How fast an abductor flies, in thousandths of a unit per second.
pub const UFO_SPEED: u32 = 7_000;

/// How near an abductor must be to its target to beam it up.
pub const UFO_TARGET_REACHED_DISTANCE: u32 = 500;

/// An abductor.
#[derive(Debug, Copy, Clone, PartialEq, Eq, Structural)]
pub struct Ufo {
    pub abduction_timer: Timer,
    pub post_abduction_pause_timer: Timer,
    /// The number of the creature that the abductor is after.
    pub target: Option<u64>,
}

/// What one tick did to an abductor.
#[derive(Debug, Copy, Clone, PartialEq, Eq, Structural)]
pub struct UfoStep {
    /// Where the abductor is after the tick.
    pub position: Vec2,
    /// The place in the flock of the sheep that was beamed up, if one was.
    pub abducted: Option<usize>,
}

/// The first place in `flock` of a creature with the number `id`.
pub open spec fn spec_index_of(flock: Seq<Creature>, id: u64) -> Option<int>
    decreases flock.len(),
{
    if flock.len() == 0 {
        None
    } else {
        match spec_index_of(flock.drop_last(), id) {
            Some(i) => Some(i),
            None => if flock.last().id == id {
                Some(flock.len() - 1)
            } else {
                None
            },
        }
    }
}

/// How far an abductor flies in `delta` microseconds.
pub open spec fn spec_ufo_reach(delta: u32) -> int {
    UFO_SPEED * delta / 1_000_000
}

/// Where an abductor at `from` is after it has flown toward `to` for
/// `delta` microseconds: on the straight line to `to`, as far as its speed
/// carries it, and no farther than `to`.
pub open spec fn spec_chase(from: Vec2, to: Vec2, delta: u32) -> Vec2 {
    let dist = spec_isqrt(from.spec_distance_squared(to) as nat) as int;
    if dist == 0 {
        from
    } else {
        let step = if spec_ufo_reach(delta) < dist {
            spec_ufo_reach(delta)
        } else {
            dist
        };
        Vec2 {
            x: (from.x + trunc_div((to.x - from.x) * step, dist)) as i32,
            y: (from.y + trunc_div((to.y - from.y) * step, dist)) as i32,
        }
    }
}

/// Whether an abductor at `from` is near enough to a target at `to`.
pub open spec fn spec_target_reached(from: Vec2, to: Vec2) -> bool {
    from.spec_distance_squared(to) <= UFO_TARGET_REACHED_DISTANCE * UFO_TARGET_REACHED_DISTANCE
}

/// How many abductors a round has: none without the modifier that calls
/// them, one with it, and two when the fever dream heightens it.
pub open spec fn spec_ufo_count(active: Seq<Modifier>) -> int {
    if !active.contains(Modifier::Ufo) {
        0
    } else if active.contains(Modifier::FeverDream) {
        2
    } else {
        1
    }
}

impl Ufo {
    /// An abductor that has not flown yet: it is ready to pick a target
    /// after its first tick, and to abduct after its first interval.
    pub open spec fn spec_new() -> Ufo {
        Ufo {
            abduction_timer: Timer::spec_new(UFO_ABDUCTION_INTERVAL, TimerMode::Once),
            post_abduction_pause_timer: Timer {
                elapsed: UFO_POST_ABDUCTION_PAUSE,
                ..Timer::spec_new(UFO_POST_ABDUCTION_PAUSE, TimerMode::Once)
            },
            target: None,
        }
    }

    /// The abductor after a tick of `delta` microseconds in which it met
    /// its target at `target_pos`, with `granted` saying whether the
    /// target let itself be abducted.
    ///
    /// Near the target the abductor lets go of it; if its interval has
    /// passed and the abduction is granted, both its timers start over.
    pub open spec fn spec_after_meeting(&self, ufo_pos: Vec2, target_pos: Vec2, granted: bool)
        -> Ufo {
        if !spec_target_reached(ufo_pos, target_pos) {
            *self
        } else if self.abduction_timer.finished && granted {
            Ufo {
                abduction_timer: self.abduction_timer.spec_reset(),
                post_abduction_pause_timer: self.post_abduction_pause_timer.spec_reset(),
                target: None,
            }
        } else {
            Ufo { target: None, ..*self }
        }
    }

    pub fn new() -> (ufo: Ufo)
        ensures
            ufo == Ufo::spec_new(),
    {
        let mut post_abduction_pause_timer = Timer::new(UFO_POST_ABDUCTION_PAUSE, TimerMode::Once);
        post_abduction_pause_timer.set_elapsed(post_abduction_pause_timer.duration());
        Ufo {
            abduction_timer: Timer::new(UFO_ABDUCTION_INTERVAL, TimerMode::Once),
            post_abduction_pause_timer,
            target: None,
        }
    }
}

/// Where an abductor enters the arena.
pub fn ufo_start_position() -> (p: Vec2)
    ensures
        p == (Vec2 { x: 0, y: -20_000i32 }),
{
    Vec2 { x: 0, y: -20_000 }
}

/// Sets up the abductors of a round.
pub fn spawn_ufo(game_state: &GameState) -> (ufos: Vec<Ufo>)
    ensures
        ufos.len() == spec_ufo_count(game_state.active_modifiers@),
        forall|i: int| 0 <= i < ufos.len() ==> ufos[i] == Ufo::spec_new(),
{
    let mut ufos: Vec<Ufo> = Vec::new();
    if game_state.is_modifier_active(Modifier::Ufo) {
        ufos.push(Ufo::new());
        if game_state.is_modifier_active(Modifier::FeverDream) {
            ufos.push(Ufo::new());
        }
    }
    ufos
}

/// Lets `delta` microseconds pass on both timers of an abductor.
pub fn tick_abduction_timers(ufo: &mut Ufo, delta: u32)
    ensures
        *final(ufo) == (Ufo {
            abduction_timer: old(ufo).abduction_timer.spec_tick(delta as u64),
            post_abduction_pause_timer: old(ufo).post_abduction_pause_timer.spec_tick(
                delta as u64,
            ),
            ..*old(ufo)
        }),
{
    ufo.abduction_timer.tick(delta as u64);
    ufo.post_abduction_pause_timer.tick(delta as u64);
}

/// Lets an abductor choose whom to go after.
///
/// While it rests, it is after nobody. Once rested, it keeps a target it
/// has, and else picks a creature of the flock at random; from an empty
/// flock it picks nobody.
pub fn pick_targets(ufo: &mut Ufo, flock: &Vec<Creature>)
    ensures
        final(ufo).abduction_timer == old(ufo).abduction_timer,
        final(ufo).post_abduction_pause_timer == old(ufo).post_abduction_pause_timer,
        !old(ufo).post_abduction_pause_timer.finished ==> final(ufo).target is None,
        old(ufo).post_abduction_pause_timer.finished && old(ufo).target is Some ==> final(ufo).target == old(ufo).target,
        old(ufo).post_abduction_pause_timer.finished && old(ufo).target is None ==> match final(ufo).target {
            Some(id) => exists|i: int| 0 <= i < flock.len() && #[trigger] flock[i].id == id,
            None => flock.len() == 0,
        },
{
    if !ufo.post_abduction_pause_timer.is_finished() {
        ufo.target = None;
        return ;
    }
    if ufo.target.is_some() {
        return ;
    }
    if flock.len() == 0 {
        ufo.target = None;
    } else {
        let i = random_index(flock.len());
        ufo.target = Some(flock[i].id);
    }
}

/// The first place in `flock` of a creature with the number `id`.
pub fn index_of(flock: &Vec<Creature>, id: u64) -> (found: Option<usize>)
    ensures
        match found {
            Some(i) => spec_index_of(flock@, id) == Some(i as int) && i < flock.len() && flock[i as int].id
                == id,
            None => spec_index_of(flock@, id) is None,
        },
{
    let mut i: usize = 0;
    proof {
        assert(flock@.take(0) =~= Seq::<Creature>::empty());
    }
    while i < flock.len()
        invariant
            i <= flock.len(),
            spec_index_of(flock@.take(i as int), id) is None,
        decreases flock.len() - i,
    {
        proof {
            let next = flock@.take(i as int + 1);
            assert(next.drop_last() =~= flock@.take(i as int));
            assert(next.last() == flock[i as int]);
        }
        if flock[i].id == id {
            proof {
                lemma_index_of_prefix(flock@, id, i as int + 1);
            }
            return Some(i);
        }
        i += 1;
    }
    proof {
        assert(flock@.take(flock.len() as int) =~= flock@);
    }
    None
}

/// A creature that is found among the first `n` of a flock is found at the
/// same place in the whole flock.
pub proof fn lemma_index_of_prefix(flock: Seq<Creature>, id: u64, n: int)
    requires
        0 <= n <= flock.len(),
        spec_index_of(flock.take(n), id) is Some,
    ensures
        spec_index_of(flock, id) == spec_index_of(flock.take(n), id),
    decreases flock.len() - n,
{
    if n < flock.len() {
        let next = flock.take(n + 1);
        assert(next.drop_last() =~= flock.take(n));
        lemma_index_of_prefix(flock, id, n + 1);
    } else {
        assert(flock.take(n) =~= flock);
    }
}

/// Flies an abductor from `from` toward `to` for `delta` microseconds.
pub fn chase(from: Vec2, to: Vec2, delta: u32) -> (pos: Vec2)
    ensures
        pos == spec_chase(from, to, delta),
{
    let dist: u64 = isqrt(from.distance_squared(to));
    if dist == 0 {
        return from;
    }
    proof {
        crate::fixed::lemma_isqrt_bounds(from.spec_distance_squared(to) as nat);
        assert(dist <= 0x2_0000_0000) by (nonlinear_arith)
            requires
                dist * dist <= from.spec_distance_squared(to),
                from.spec_distance_squared(to) <= 0x2_0000_0000_0000_0000,
                dist >= 0,
        ;
    }
    let reach: u64 = wide_product(UFO_SPEED, delta) / 1_000_000;
    let step: u64 = if reach < dist {
        reach
    } else {
        dist
    };
    let dx: i128 = to.x as i128 - from.x as i128;
    let dy: i128 = to.y as i128 - from.y as i128;
    let s: i128 = step as i128;
    assert(-0x1_0000_0000 * 0x2_0000_0000 <= dx * s <= 0x1_0000_0000 * 0x2_0000_0000
        && -0x1_0000_0000 * 0x2_0000_0000 <= dy * s <= 0x1_0000_0000 * 0x2_0000_0000)
        by (nonlinear_arith)
        requires
            -0x1_0000_0000 <= dx <= 0x1_0000_0000,
            -0x1_0000_0000 <= dy <= 0x1_0000_0000,
            0 <= s <= 0x2_0000_0000,
    ;
    proof {
        lemma_scale_shrinks(dx as int, step as int, dist as int);
        lemma_scale_shrinks(dy as int, step as int, dist as int);
    }
    let mx: i128 = div_trunc(dx * s, dist as u128);
    let my: i128 = div_trunc(dy * s, dist as u128);
    Vec2 { x: (from.x as i128 + mx) as i32, y: (from.y as i128 + my) as i32 }
}

/// Whether an abductor at `from` is near enough to a target at `to`.
pub fn target_reached(from: Vec2, to: Vec2) -> (r: bool)
    ensures
        r == spec_target_reached(from, to),
{
    from.distance_squared(to) <= wide_product(
        UFO_TARGET_REACHED_DISTANCE,
        UFO_TARGET_REACHED_DISTANCE,
    ) as u128
}

/// An abductor, what its tick did, and the flock after one tick of the
/// abductor at `ufo_pos`.
///
/// While it rests, it lets go of its target and hovers. Without a target
/// it hovers. A target that is no longer in the flock is let go of.
/// Otherwise the abductor flies toward its target; and if it was near
/// enough before it flew, it lets go of the target, after asking it to be
/// abducted if the interval between abductions has passed. A sheep that
/// grants the request is beamed up, and both timers start over.
pub open spec fn spec_update_ufo(ufo: Ufo, ufo_pos: Vec2, flock: Seq<Creature>, delta: u32) -> (
    Ufo,
    UfoStep,
    Seq<Creature>,
) {
    let hover = UfoStep { position: ufo_pos, abducted: None };
    if !ufo.post_abduction_pause_timer.finished {
        (Ufo { target: None, ..ufo }, hover, flock)
    } else {
        match ufo.target {
            None => (ufo, hover, flock),
            Some(id) => match spec_index_of(flock, id) {
                None => (Ufo { target: None, ..ufo }, hover, flock),
                Some(i) => {
                    let target = flock[i];
                    let asked = spec_target_reached(ufo_pos, target.position)
                        && ufo.abduction_timer.finished;
                    let granted = asked && target.sheep.spec_can_be_abducted();
                    (
                        ufo.spec_after_meeting(ufo_pos, target.position, granted),
                        UfoStep {
                            position: spec_chase(ufo_pos, target.position, delta),
                            abducted: if granted {
                                Some(i as usize)
                            } else {
                                None
                            },
                        },
                        if asked {
                            flock.update(
                                i,
                                Creature { sheep: target.sheep.spec_start_abduction(), ..target },
                            )
                        } else {
                            flock
                        },
                    )
                },
            },
        }
    }
}

/// One tick of an abductor at `ufo_pos`.
///
/// While it rests, it lets go of its target and hovers. Without a target
/// it hovers. A target that is no longer in the flock is let go of.
/// Otherwise the abductor flies toward its target; and if it was near
/// enough before it flew, it lets go of the target, after asking it to be
/// abducted if the interval between abductions has passed. A sheep that
/// grants the request is beamed up, and both timers start over.
pub fn update_ufo(ufo: &mut Ufo, ufo_pos: Vec2, flock: &mut Vec<Creature>, delta: u32) -> (out:
    UfoStep)
    ensures
        (*final(ufo), out, final(flock)@) == spec_update_ufo(*old(ufo), ufo_pos, old(flock)@, delta),
        final(flock)@.len() == old(flock)@.len(),
{
    if !ufo.post_abduction_pause_timer.is_finished() {
        ufo.target = None;
        return UfoStep { position: ufo_pos, abducted: None };
    }
    let target = match ufo.target {
        Some(target) => target,
        None => {
            return UfoStep { position: ufo_pos, abducted: None };
        },
    };
    let index = match index_of(flock, target) {
        Some(index) => index,
        None => {
            ufo.target = None;
            return UfoStep { position: ufo_pos, abducted: None };
        },
    };
    let mut creature = flock[index];
    let position = chase(ufo_pos, creature.position, delta);
    let mut abducted: Option<usize> = None;
    if target_reached(ufo_pos, creature.position) {
        if ufo.abduction_timer.is_finished() {
            if creature.sheep.start_abduction() {
                ufo.abduction_timer.reset();
                ufo.post_abduction_pause_timer.reset();
                abducted = Some(index);
            }
            flock.set(index, creature);
        }
        ufo.target = None;
    }
    UfoStep { position, abducted }
}

} // verus!
