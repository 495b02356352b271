//! Flocking: the heading that a sheep takes from its neighbours, and the
//! refresh that hands out new headings group by group.

use vstd::prelude::*;
use crate::fixed::{isqrt, lemma_isqrt_bounds, spec_isqrt, trunc_div};
use crate::grid::{spec_neighbors, FlockMember, SpatialGrid, HERD_MAX_NEIGHBORS};
use crate::movement::HopMovementController;
use crate::sheep::{Sheep, SheepState};
use crate::timer::{Timer, TimerMode};
use crate::vec2::{direction, lemma_scale_grows, lemma_scale_shrinks, spec_direction, Vec2};

verus! {

/// How near a neighbour may come before it is pushed away.
pub const HERD_SEPARATION_RADIUS: u32 = 2_400;

/// `HERD_SEPARATION_RADIUS` squared.
pub const HERD_SEPARATION_RADIUS_SQ: u128 = 5_760_000;

/// How strongly a sheep is drawn to the middle of its neighbours.
pub const HERD_COHESION_WEIGHT: u32 = 900;

/// How strongly a sheep is pushed away from neighbours that crowd it.
pub const HERD_SEPARATION_WEIGHT: u32 = 1_500;

/// The time between two refreshes of the flock, in microseconds.
pub const HERD_UPDATE_INTERVAL: u64 = 100_000;

/// The number of groups the flock is split into; each refresh serves one.
pub const HERD_UPDATE_BUCKETS: u64 = 4;

/// One actor of the simulation: a sheep, where it is, and how it moves.
#[derive(Debug, Copy, Clone, PartialEq, Eq, Structural)]
pub struct Creature {
    /// A number that stays with the creature for as long as it lives.
    pub id: u64,
    pub position: Vec2,
    pub height: u32,
    pub sheep: Sheep,
    pub movement: HopMovementController,
}

/// The sum of the positions of the members listed in `found`.
pub open spec fn spec_center_sum(snapshot: Seq<FlockMember>, found: Seq<usize>) -> (int, int)
    decreases found.len(),
{
    if found.len() == 0 {
        (0, 0)
    } else {
        let rest = spec_center_sum(snapshot, found.drop_last());
        let p = snapshot[found.last() as int].position;
        (rest.0 + p.x, rest.1 + p.y)
    }
}

/// How hard a neighbour at the squared distance `dist_sq` is pushed away,
/// in thousandths: the share of the separation radius that it has entered.
pub open spec fn spec_push_strength(dist_sq: int) -> int {
    (HERD_SEPARATION_RADIUS - spec_isqrt(dist_sq as nat)) * 1000 / (HERD_SEPARATION_RADIUS as int)
}

/// The push that a sheep at `pos` gets from a neighbour at `other`: none
/// unless the neighbour is inside the separation radius and not on the
/// same spot, else straight away from the neighbour.
pub open spec fn spec_push(pos: Vec2, other: Vec2) -> Vec2 {
    let dist_sq = pos.spec_distance_squared(other);
    if 0 < dist_sq < HERD_SEPARATION_RADIUS_SQ {
        other.spec_direction_to(pos, Vec2 { x: 1000, y: 0 }).spec_scale(
            spec_push_strength(dist_sq),
            1000,
        )
    } else {
        Vec2 { x: 0, y: 0 }
    }
}

/// The sum of the pushes that a sheep at `pos` gets from the members listed
/// in `found`.
pub open spec fn spec_separation_sum(snapshot: Seq<FlockMember>, pos: Vec2, found: Seq<usize>) -> (
    int,
    int,
)
    decreases found.len(),
{
    if found.len() == 0 {
        (0, 0)
    } else {
        let rest = spec_separation_sum(snapshot, pos, found.drop_last());
        let push = spec_push(pos, snapshot[found.last() as int].position);
        (rest.0 + push.x, rest.1 + push.y)
    }
}

/// The pull that a sheep at `pos` feels toward the middle of `count`
/// neighbours whose positions add up to `center`: the way to the middle,
/// weighted for cohesion.
pub open spec fn spec_cohesion(pos: Vec2, count: int, center: (int, int)) -> (int, int) {
    (
        trunc_div((trunc_div(center.0, count) - pos.x) * HERD_COHESION_WEIGHT, 1000),
        trunc_div((trunc_div(center.1, count) - pos.y) * HERD_COHESION_WEIGHT, 1000),
    )
}

/// The heading of a sheep at `pos` with `count` neighbours whose positions
/// add up to `center` and whose pushes add up to `separation`.
///
/// Without neighbours it is zero. Otherwise the way to the middle of the
/// neighbours, weighted for cohesion, and the unit vector along the
/// pushes, weighted for separation, are added and the sum is brought to
/// unit length.
pub open spec fn spec_herd_dir(pos: Vec2, count: int, center: (int, int), separation: (int, int))
    -> Vec2 {
    if count <= 0 {
        Vec2 { x: 0, y: 0 }
    } else {
        let zero = Vec2 { x: 0, y: 0 };
        let cohesion = spec_cohesion(pos, count, center);
        let avoid = spec_direction(separation.0, separation.1, zero).spec_scale(
            HERD_SEPARATION_WEIGHT as int,
            1000,
        );
        spec_direction(cohesion.0 + avoid.x, cohesion.1 + avoid.y, zero)
    }
}

/// The heading that a refresh gives to the sheep `id` at `pos`.
pub open spec fn spec_heading(snapshot: Seq<FlockMember>, id: u64, pos: Vec2) -> Vec2 {
    let found = spec_neighbors(snapshot, id, pos);
    spec_herd_dir(
        pos,
        found.len() as int,
        spec_center_sum(snapshot, found),
        spec_separation_sum(snapshot, pos, found),
    )
}

/// The push that a sheep at `pos` gets from a neighbour at `other`.
pub fn push_away(pos: Vec2, other: Vec2) -> (v: Vec2)
    ensures
        v == spec_push(pos, other),
        -1000 <= v.x <= 1000,
        -1000 <= v.y <= 1000,
{
    let dist_sq = pos.distance_squared(other);
    if dist_sq > 0 && dist_sq < HERD_SEPARATION_RADIUS_SQ {
        let dist = isqrt(dist_sq);
        proof {
            lemma_isqrt_bounds(dist_sq as nat);
            assert(dist < 2400) by (nonlinear_arith)
                requires
                    dist * dist <= dist_sq,
                    dist_sq < 5_760_000,
                    dist >= 0,
            ;
        }
        let strength: u64 = (HERD_SEPARATION_RADIUS as u64 - dist) * 1000
            / HERD_SEPARATION_RADIUS as u64;
        let dir = other.direction_to(pos, Vec2::unit_x());
        assert(pos != other) by {
            if pos == other {
                assert(pos.spec_distance_squared(other) == 0) by (nonlinear_arith)
                    requires
                        pos.spec_distance_squared(other) == (other.x - pos.x) * (other.x - pos.x)
                            + (other.y - pos.y) * (other.y - pos.y),
                        other.x - pos.x == 0,
                        other.y - pos.y == 0,
                ;
            }
        }
        dir.scale(strength, 1000)
    } else {
        Vec2::zero()
    }
}

/// The heading of a sheep at `pos` with `count` neighbours whose positions
/// add up to `center` and whose pushes add up to `separation`.
pub fn herd_dir(pos: Vec2, count: usize, center: (i64, i64), separation: (i64, i64)) -> (v: Vec2)
    requires
        count <= HERD_MAX_NEIGHBORS,
        -0x8000_0000 * count <= center.0 <= 0x8000_0000 * count,
        -0x8000_0000 * count <= center.1 <= 0x8000_0000 * count,
        -1000 * count <= separation.0 <= 1000 * count,
        -1000 * count <= separation.1 <= 1000 * count,
    ensures
        v == spec_herd_dir(
            pos,
            count as int,
            (center.0 as int, center.1 as int),
            (separation.0 as int, separation.1 as int),
        ),
        -1000 <= v.x <= 1000,
        -1000 <= v.y <= 1000,
{
    if count == 0 {
        return Vec2::zero();
    }
    let n: i64 = count as i64;
    let mx: i64 = center.0 / n;
    let my: i64 = center.1 / n;
    assert(-0x8000_0000 <= mx <= 0x8000_0000 && -0x8000_0000 <= my <= 0x8000_0000
        && mx == trunc_div(center.0 as int, n as int) && my == trunc_div(center.1 as int, n as int))
        by (nonlinear_arith)
        requires
            1 <= n <= 20,
            -0x8000_0000 * n <= center.0 <= 0x8000_0000 * n,
            -0x8000_0000 * n <= center.1 <= 0x8000_0000 * n,
            mx == (if center.0 >= 0 {
                center.0 as int / n as int
            } else {
                -((-(center.0 as int)) / n as int)
            }),
            my == (if center.1 >= 0 {
                center.1 as int / n as int
            } else {
                -((-(center.1 as int)) / n as int)
            }),
    ;
    let zero = Vec2::zero();
    let weight: i64 = HERD_COHESION_WEIGHT as i64;
    let pull_x: i64 = (mx - pos.x as i64) * weight / 1000;
    let pull_y: i64 = (my - pos.y as i64) * weight / 1000;
    proof {
        lemma_scale_shrinks(mx - pos.x, weight as int, 1000);
        lemma_scale_shrinks(my - pos.y, weight as int, 1000);
    }
    let avoid = direction(separation.0, separation.1, zero).scale(
        HERD_SEPARATION_WEIGHT as u64,
        1000,
    );
    proof {
        let a = spec_direction(separation.0 as int, separation.1 as int, zero);
        lemma_scale_grows(a.x as int, HERD_SEPARATION_WEIGHT as int);
        lemma_scale_grows(a.y as int, HERD_SEPARATION_WEIGHT as int);
    }
    direction(pull_x + avoid.x as i64, pull_y + avoid.y as i64, zero)
}

/// The heading that a refresh gives to the sheep `id` at `pos`: it
/// follows from the neighbours that the scan of the grid finds.
pub fn heading(grid: &SpatialGrid, snapshot: &Vec<FlockMember>, id: u64, pos: Vec2) -> (v:
    Vec2)
    requires
        grid.indexes(snapshot@),
    ensures
        v == spec_heading(snapshot@, id, pos),
        -1000 <= v.x <= 1000,
        -1000 <= v.y <= 1000,
{
    let found = grid.neighbors(snapshot, id, pos);
    let mut center_x: i64 = 0;
    let mut center_y: i64 = 0;
    let mut push_x: i64 = 0;
    let mut push_y: i64 = 0;
    let mut j: usize = 0;
    proof {
        assert(found@.take(0) =~= Seq::<usize>::empty());
    }
    while j < found.len()
        invariant
            j <= found.len() <= HERD_MAX_NEIGHBORS,
            forall|t: int| 0 <= t < found.len() ==> (#[trigger] found[t]) < snapshot.len(),
            (center_x as int, center_y as int) == spec_center_sum(
                snapshot@,
                found@.take(j as int),
            ),
            (push_x as int, push_y as int) == spec_separation_sum(
                snapshot@,
                pos,
                found@.take(j as int),
            ),
            -0x8000_0000 * j <= center_x <= 0x8000_0000 * j,
            -0x8000_0000 * j <= center_y <= 0x8000_0000 * j,
            -1000 * j <= push_x <= 1000 * j,
            -1000 * j <= push_y <= 1000 * j,
        decreases found.len() - j,
    {
        let other = snapshot[found[j]].position;
        let push = push_away(pos, other);
        proof {
            let next = found@.take(j as int + 1);
            assert(next.drop_last() =~= found@.take(j as int));
            assert(next.last() == found[j as int]);
        }
        center_x = center_x + other.x as i64;
        center_y = center_y + other.y as i64;
        push_x = push_x + push.x as i64;
        push_y = push_y + push.y as i64;
        j += 1;
    }
    proof {
        assert(found@.take(found.len() as int) =~= found@);
    }
    herd_dir(pos, found.len(), (center_x, center_y), (push_x, push_y))
}

/// The pace of the flock's refreshes: a repeating timer, and the number of
/// the group that the latest refresh served.
#[derive(Debug, Copy, Clone, PartialEq, Eq, Structural)]
pub struct HerdClock {
    pub timer: Timer,
    pub bucket: u64,
}

/// Whether a sheep takes part in flocking: only while it wanders or evades.
pub open spec fn spec_flocks(sheep: Sheep) -> bool {
    sheep.state is Wander || sheep.state is Evading
}

/// The snapshot that a refresh works on: the sheep of `flock` that take
/// part in flocking, in the order of the flock.
pub open spec fn spec_snapshot(flock: Seq<Creature>) -> Seq<FlockMember>
    decreases flock.len(),
{
    if flock.len() == 0 {
        Seq::empty()
    } else {
        let rest = spec_snapshot(flock.drop_last());
        if spec_flocks(flock.last().sheep) {
            rest.push(FlockMember { id: flock.last().id, position: flock.last().position })
        } else {
            rest
        }
    }
}

/// Whether a refresh for the group `bucket` serves `creature`: it takes
/// part in flocking, and its number falls into that group.
pub open spec fn spec_is_served(creature: Creature, bucket: u64) -> bool {
    spec_flocks(creature.sheep) && creature.id % HERD_UPDATE_BUCKETS == bucket
}

/// A creature after a refresh for the group `bucket`: if the refresh
/// serves it, its heading is renewed; nothing else changes.
pub open spec fn spec_refreshed_creature(
    creature: Creature,
    snapshot: Seq<FlockMember>,
    bucket: u64,
) -> Creature {
    if spec_is_served(creature, bucket) {
        Creature {
            sheep: Sheep {
                herd_dir: spec_heading(snapshot, creature.id, creature.position),
                ..creature.sheep
            },
            ..creature
        }
    } else {
        creature
    }
}

/// The flock after a refresh for the group `bucket`. With fewer than two
/// sheep that take part, nothing changes.
pub open spec fn spec_refreshed(flock: Seq<Creature>, bucket: u64) -> Seq<Creature> {
    let snapshot = spec_snapshot(flock);
    if snapshot.len() < 2 {
        flock
    } else {
        Seq::new(flock.len(), |i: int| spec_refreshed_creature(flock[i], snapshot, bucket))
    }
}

/// The group that is served after the group `bucket`.
pub open spec fn spec_next_bucket(bucket: u64) -> u64 {
    ((bucket + 1) % (HERD_UPDATE_BUCKETS as int)) as u64
}

impl HerdClock {
    /// A clock that has not run yet.
    pub fn new() -> (clock: HerdClock)
        ensures
            clock == (HerdClock {
                timer: Timer::spec_new(HERD_UPDATE_INTERVAL, TimerMode::Repeating),
                bucket: 0,
            }),
    {
        HerdClock { timer: Timer::new(HERD_UPDATE_INTERVAL, TimerMode::Repeating), bucket: 0 }
    }

    /// Advances the clock by `delta` microseconds. Returns whether a
    /// refresh is due, and if so moves on to the next group.
    pub fn tick(&mut self, delta: u32) -> (due: bool)
        ensures
            final(self).timer == old(self).timer.spec_tick(delta as u64),
            due == final(self).timer.just_finished,
            final(self).bucket == if due {
                spec_next_bucket(old(self).bucket)
            } else {
                old(self).bucket
            },
    {
        self.timer.tick(delta as u64);
        if !self.timer.just_finished() {
            return false;
        }
        self.bucket = (self.bucket % HERD_UPDATE_BUCKETS + 1) % HERD_UPDATE_BUCKETS;
        true
    }
}

/// Takes the snapshot of the sheep of `flock` that take part in flocking.
pub fn take_snapshot(flock: &Vec<Creature>) -> (snapshot: Vec<FlockMember>)
    ensures
        snapshot@ == spec_snapshot(flock@),
{
    let mut snapshot: Vec<FlockMember> = Vec::new();
    let mut i: usize = 0;
    proof {
        assert(flock@.take(0) =~= Seq::<Creature>::empty());
    }
    while i < flock.len()
        invariant
            i <= flock.len(),
            snapshot@ == spec_snapshot(flock@.take(i as int)),
        decreases flock.len() - i,
    {
        let creature = flock[i];
        proof {
            let next = flock@.take(i as int + 1);
            assert(next.drop_last() =~= flock@.take(i as int));
            assert(next.last() == creature);
        }
        if flocks(&creature.sheep) {
            snapshot.push(FlockMember { id: creature.id, position: creature.position });
        }
        i += 1;
    }
    proof {
        assert(flock@.take(flock.len() as int) =~= flock@);
    }
    snapshot
}

/// Whether a sheep takes part in flocking.
pub fn flocks(sheep: &Sheep) -> (b: bool)
    ensures
        b == spec_flocks(*sheep),
{
    match sheep.state {
        SheepState::Wander(_) => true,
        SheepState::Evading(_) => true,
        _ => false,
    }
}

/// Lets `delta` microseconds pass for the flock.
///
/// When the clock says that a refresh is due, the sheep that wander or
/// evade are filed in a fresh grid, and those of them that belong to the
/// group whose turn it is get a new heading from their neighbours. No
/// other sheep, and nothing but the heading, is touched. With fewer than
/// two sheep to file, the refresh does nothing.
pub fn sheep_herding(clock: &mut HerdClock, delta: u32, flock: &mut Vec<Creature>)
    ensures
        final(clock).timer == old(clock).timer.spec_tick(delta as u64),
        final(clock).bucket == if final(clock).timer.just_finished {
            spec_next_bucket(old(clock).bucket)
        } else {
            old(clock).bucket
        },
        final(flock)@ == if final(clock).timer.just_finished {
            spec_refreshed(old(flock)@, final(clock).bucket)
        } else {
            old(flock)@
        },
{
    if !clock.tick(delta) {
        return ;
    }
    let active_bucket = clock.bucket;
    let snapshot = take_snapshot(flock);
    if snapshot.len() < 2 {
        return ;
    }
    let grid = SpatialGrid::build(&snapshot);
    let ghost before = flock@;
    let mut i: usize = 0;
    while i < flock.len()
        invariant
            i <= flock.len(),
            flock.len() == before.len(),
            grid.indexes(snapshot@),
            snapshot@ == spec_snapshot(before),
            forall|t: int|
                0 <= t < i ==> flock[t] == spec_refreshed_creature(
                    #[trigger] before[t],
                    snapshot@,
                    active_bucket,
                ),
            forall|t: int| i <= t < flock.len() ==> flock[t] == #[trigger] before[t],
        decreases flock.len() - i,
    {
        let mut creature = flock[i];
        if flocks(&creature.sheep) && creature.id % HERD_UPDATE_BUCKETS == active_bucket {
            creature.sheep.herd_dir = heading(&grid, &snapshot, creature.id, creature.position);
            flock.set(i, creature);
        }
        i += 1;
    }
    assert(flock@ =~= spec_refreshed(before, active_bucket));
}

/// Every sheep's group comes up once in every four refreshes in a row, so
/// a heading is never more than four refreshes old while its sheep takes
/// part in flocking.
pub proof fn lemma_every_bucket_is_served(bucket: u64, id: u64)
    ensures
        id % HERD_UPDATE_BUCKETS == spec_next_bucket(bucket) || id % HERD_UPDATE_BUCKETS
            == spec_next_bucket(spec_next_bucket(bucket)) || id % HERD_UPDATE_BUCKETS
            == spec_next_bucket(spec_next_bucket(spec_next_bucket(bucket))) || id
            % HERD_UPDATE_BUCKETS == spec_next_bucket(
            spec_next_bucket(spec_next_bucket(spec_next_bucket(bucket))),
        ),
{
}

} // verus!
