//! What a sheep is worth when it reaches the goal.

use vstd::prelude::*;
use crate::items::Charm;
use crate::level::{GoalTextMessage, LevelBounds, GOAL_RADIUS, GOAL_REACHED_DISTANCE_SQUARED};
use crate::modifiers::Modifier;
use crate::sheep::{sheep, spec_is_spawn, Sheep, SheepColor, SheepSpawn, SheepState};
use crate::state::{GameState, GameStateView, RoundStats};
use crate::vec2::Vec2;

verus! {

/// What counting one sheep changed.
#[derive(Debug)]
pub struct ScoreOutcome {
    /// The points gained.
    pub score_delta: u32,
    /// The coins gained.
    pub money_delta: u32,
    /// The notes to show at the goal, in order.
    pub messages: Vec<GoalTextMessage>,
    /// How many black sheep enter the arena in return.
    pub black_sheep_to_spawn: u8,
}

/// What the goal did to a sheep during one check.
#[derive(Debug)]
pub enum GoalCheck {
    /// The sheep is not near enough for anything to happen.
    Nothing,
    /// The sheep came inside the goal's radius and now walks up to be
    /// counted.
    StartedCounting,
    /// The sheep was counted and leaves the arena. The sheep that enter in
    /// return are listed.
    Scored(ScoreOutcome, Vec<SheepSpawn>),
}

/// Whether the sheep about to be counted is cloned: it is the first of its
/// round, and the cloning charm is owned.
pub open spec fn spec_cloning_applies(state: GameStateView, stats: RoundStats) -> bool {
    stats.sheep_counted == 0 && state.charms.contains(Charm::Cloning)
}

/// Whether counting a white sheep turns one sheep of the flock blue: the
/// evolution charm is owned and this is a fifth white sheep of the round.
pub open spec fn spec_evolves(state: GameStateView, stats: RoundStats) -> bool {
    state.charms.contains(Charm::Evolution) && (stats.white_sheep_counted + 1) % 5 == 0
}

/// Whether counting a red sheep turns it gold for the rounds to come: it is
/// the first sheep of its round, and the rose-gold charm is owned.
pub open spec fn spec_turns_gold(state: GameStateView, stats: RoundStats) -> bool {
    stats.sheep_counted == 0 && state.charms.contains(Charm::RedToGold)
}

/// The points that a sheep of the given colour adds to `points`.
pub open spec fn spec_score_delta(color: SheepColor, state: GameStateView) -> int {
    match color {
        SheepColor::White => if state.charms.contains(Charm::Evolution) {
            0
        } else {
            1
        },
        SheepColor::Blue => 5,
        SheepColor::Red => state.points as int / 2,
        SheepColor::Black => 1,
        SheepColor::Gold => 0,
    }
}

/// The coins that a sheep of the given colour pays.
pub open spec fn spec_money_delta(color: SheepColor) -> int {
    if color == SheepColor::Gold {
        1
    } else {
        0
    }
}

/// By how much the roster of each colour grows when a sheep of `color` is
/// counted, as (all, blue, red, black, gold).
pub open spec fn spec_roster_delta(color: SheepColor, state: GameStateView, stats: RoundStats)
    -> (int, int, int, int, int) {
    let cloned: int = if spec_cloning_applies(state, stats) {
        1
    } else {
        0
    };
    let evolved: int = if color == SheepColor::White && spec_evolves(state, stats) {
        1
    } else {
        0
    };
    let gilded: int = if color == SheepColor::Red && spec_turns_gold(state, stats) {
        1
    } else {
        0
    };
    (
        cloned,
        (if color == SheepColor::Blue {
            cloned
        } else {
            0
        }) + evolved,
        (if color == SheepColor::Red {
            cloned
        } else {
            0
        }) - gilded,
        if color == SheepColor::Black {
            cloned
        } else {
            0
        },
        (if color == SheepColor::Gold {
            cloned
        } else {
            0
        }) + gilded,
    )
}

/// The round's counters after a sheep of `color` was counted.
pub open spec fn spec_stats_after(color: SheepColor, state: GameStateView, stats: RoundStats)
    -> RoundStats {
    RoundStats {
        sheep_counted: (stats.sheep_counted + 1) as u16,
        white_sheep_counted: if color == SheepColor::White && state.charms.contains(
            Charm::Evolution,
        ) {
            (stats.white_sheep_counted + 1) as u16
        } else {
            stats.white_sheep_counted
        },
        black_sheep_counted: if color == SheepColor::Black {
            (stats.black_sheep_counted + 1) as u16
        } else {
            stats.black_sheep_counted
        },
    }
}

/// The run's state after a sheep of `color` was counted.
pub open spec fn spec_state_after(color: SheepColor, state: GameStateView, stats: RoundStats)
    -> GameStateView {
    let roster = spec_roster_delta(color, state, stats);
    GameStateView {
        sheep_count: (state.sheep_count + roster.0) as u16,
        blue_sheep_count: (state.blue_sheep_count + roster.1) as u16,
        red_sheep_count: (state.red_sheep_count + roster.2) as u16,
        black_sheep_count: (state.black_sheep_count + roster.3) as u16,
        gold_sheep_count: (state.gold_sheep_count + roster.4) as u16,
        points: (state.points + spec_score_delta(color, state)) as u32,
        money: (state.money + spec_money_delta(color)) as u32,
        ..state
    }
}

/// The note that tells what the sheep itself was worth.
pub open spec fn spec_color_message(color: SheepColor, state: GameStateView, stats: RoundStats)
    -> GoalTextMessage {
    match color {
        SheepColor::White => if !state.charms.contains(Charm::Evolution) {
            GoalTextMessage::PlusOnePoint
        } else if spec_evolves(state, stats) {
            GoalTextMessage::EvolvedToBlue
        } else {
            GoalTextMessage::ZeroPoints
        },
        SheepColor::Blue => GoalTextMessage::PlusFivePoints,
        SheepColor::Red => GoalTextMessage::PointsTimesOneAndAHalf,
        SheepColor::Black => GoalTextMessage::PlusOnePoint,
        SheepColor::Gold => GoalTextMessage::PlusOneGold,
    }
}

/// The notes shown for one counted sheep: the cloning note first, if the
/// sheep was cloned, then the note for the sheep itself.
pub open spec fn spec_messages(color: SheepColor, state: GameStateView, stats: RoundStats) -> Seq<
    GoalTextMessage,
> {
    if spec_cloning_applies(state, stats) {
        seq![GoalTextMessage::Cloned, spec_color_message(color, state, stats)]
    } else {
        seq![spec_color_message(color, state, stats)]
    }
}

/// How many black sheep enter the arena when a sheep of `color` is counted:
/// two for a black sheep under the charm that multiplies them.
pub open spec fn spec_black_sheep_to_spawn(color: SheepColor, state: GameStateView) -> int {
    if color == SheepColor::Black && state.charms.contains(Charm::Exponential) {
        2
    } else {
        0
    }
}

/// Every counter that counting a sheep of `color` changes stays within the
/// range of its type.
pub open spec fn spec_score_fits(color: SheepColor, state: GameStateView, stats: RoundStats)
    -> bool {
    let roster = spec_roster_delta(color, state, stats);
    &&& stats.sheep_counted + 1 <= u16::MAX
    &&& color == SheepColor::White && state.charms.contains(Charm::Evolution)
        ==> stats.white_sheep_counted + 1 <= u16::MAX
    &&& color == SheepColor::Black ==> stats.black_sheep_counted + 1 <= u16::MAX
    &&& state.sheep_count + roster.0 <= u16::MAX
    &&& state.blue_sheep_count + roster.1 <= u16::MAX
    &&& color == SheepColor::Red ==> state.red_sheep_count + roster.0 <= u16::MAX
    &&& color == SheepColor::Red && spec_turns_gold(state, stats) ==> state.red_sheep_count
        + roster.0 >= 1
    &&& state.black_sheep_count + roster.3 <= u16::MAX
    &&& state.gold_sheep_count + roster.4 <= u16::MAX
    &&& state.points + spec_score_delta(color, state) <= u32::MAX
    &&& state.money + spec_money_delta(color) <= u32::MAX
}

/// Whether every counter that counting a sheep of `color` changes has room
/// for the change.
pub fn score_fits(color: SheepColor, state: &GameState, round_stats: &RoundStats) -> (b: bool)
    ensures
        b == spec_score_fits(color, state@, *round_stats),
{
    let first = round_stats.sheep_counted == 0;
    let cloned: u32 = if first && state.is_charm_active(Charm::Cloning) {
        1
    } else {
        0
    };
    let evolution = state.is_charm_active(Charm::Evolution);
    let limit: u32 = 0xffff;
    let counters_fit = round_stats.sheep_counted < u16::MAX && state.sheep_count as u32 + cloned
        <= limit;
    let color_fits = match color {
        SheepColor::White => {
            if evolution {
                let evolved: u32 = if (round_stats.white_sheep_counted as u32 + 1) % 5 == 0 {
                    1
                } else {
                    0
                };
                round_stats.white_sheep_counted < u16::MAX && state.blue_sheep_count as u32
                    + evolved <= limit
            } else {
                state.points < u32::MAX
            }
        },
        SheepColor::Blue => state.blue_sheep_count as u32 + cloned <= limit && state.points
            <= u32::MAX - 5,
        SheepColor::Red => {
            let gilded = first && state.is_charm_active(Charm::RedToGold);
            state.red_sheep_count as u32 + cloned <= limit && (!gilded || (state.red_sheep_count
                as u32 + cloned >= 1 && state.gold_sheep_count < u16::MAX)) && state.points
                / 2 <= u32::MAX - state.points
        },
        SheepColor::Black => round_stats.black_sheep_counted < u16::MAX
            && state.black_sheep_count as u32 + cloned <= limit && state.points < u32::MAX,
        SheepColor::Gold => state.gold_sheep_count as u32 + cloned <= limit && state.money
            < u32::MAX,
    };
    counters_fit && color_fits
}

/// Counts one sheep of the given colour.
///
/// A white sheep is worth one point; with the evolution charm it is worth
/// none, and every fifth white sheep of a round turns one sheep of the
/// flock blue for good. A blue sheep is worth five points. A red sheep
/// raises the points by half, rounded down, and the first sheep of a round
/// turns gold for good under the rose-gold charm. A black sheep is worth
/// one point and, under the charm that multiplies black sheep, calls two
/// more into the arena. A gold sheep pays one coin. Under the cloning
/// charm, the first sheep of a round adds one of its kind to the flock.
pub fn resolve_score(color: SheepColor, state: &mut GameState, round_stats: &mut RoundStats) -> (out:
    ScoreOutcome)
    requires
        spec_score_fits(color, old(state)@, *old(round_stats)),
    ensures
        final(state)@ == spec_state_after(color, old(state)@, *old(round_stats)),
        *final(round_stats) == spec_stats_after(color, old(state)@, *old(round_stats)),
        out.score_delta == spec_score_delta(color, old(state)@),
        out.money_delta == spec_money_delta(color),
        out.messages@ == spec_messages(color, old(state)@, *old(round_stats)),
        out.black_sheep_to_spawn == spec_black_sheep_to_spawn(color, old(state)@),
        final(state).points == old(state).points + out.score_delta,
        final(state).money == old(state).money + out.money_delta,
        old(state).wf() ==> final(state).wf(),
{
    let mut messages: Vec<GoalTextMessage> = Vec::new();
    let mut black_sheep_to_spawn: u8 = 0;
    let points_before = state.points;
    let money_before = state.money;
    let is_first_counted = round_stats.sheep_counted == 0;
    let cloning = state.is_charm_active(Charm::Cloning);
    let evolution = state.is_charm_active(Charm::Evolution);
    let rose_gold = state.is_charm_active(Charm::RedToGold);
    let exponential = state.is_charm_active(Charm::Exponential);
    if is_first_counted && cloning {
        state.sheep_count += 1;
        match color {
            SheepColor::Blue => state.blue_sheep_count += 1,
            SheepColor::Red => state.red_sheep_count += 1,
            SheepColor::Black => state.black_sheep_count += 1,
            SheepColor::Gold => state.gold_sheep_count += 1,
            SheepColor::White => {},
        }
        messages.push(GoalTextMessage::Cloned);
    }
    match color {
        SheepColor::White => {
            if evolution {
                round_stats.white_sheep_counted += 1;
                if round_stats.white_sheep_counted % 5 == 0 {
                    state.blue_sheep_count += 1;
                    messages.push(GoalTextMessage::EvolvedToBlue);
                } else {
                    messages.push(GoalTextMessage::ZeroPoints);
                }
            } else {
                state.points += 1;
                messages.push(GoalTextMessage::PlusOnePoint);
            }
        },
        SheepColor::Blue => {
            state.points += 5;
            messages.push(GoalTextMessage::PlusFivePoints);
        },
        SheepColor::Red => {
            if is_first_counted && rose_gold {
                state.red_sheep_count -= 1;
                state.gold_sheep_count += 1;
            }
            state.points = state.points + state.points / 2;
            messages.push(GoalTextMessage::PointsTimesOneAndAHalf);
        },
        SheepColor::Black => {
            round_stats.black_sheep_counted += 1;
            state.points += 1;
            messages.push(GoalTextMessage::PlusOnePoint);
            if exponential {
                black_sheep_to_spawn = 2;
            }
        },
        SheepColor::Gold => {
            state.money += 1;
            messages.push(GoalTextMessage::PlusOneGold);
        },
    }
    round_stats.sheep_counted += 1;
    assert(messages@ =~= spec_messages(color, old(state)@, *old(round_stats)));
    ScoreOutcome {
        score_delta: state.points - points_before,
        money_delta: state.money - money_before,
        messages,
        black_sheep_to_spawn,
    }
}

/// Whether a sheep at `position` is so close to the goal that it is counted.
pub open spec fn spec_reaches_goal(position: Vec2, goal_pos: Vec2) -> bool {
    position.spec_distance_squared(goal_pos) < GOAL_REACHED_DISTANCE_SQUARED
}

/// Whether a sheep at `position` is inside the radius of the goal.
pub open spec fn spec_near_goal(position: Vec2, goal_pos: Vec2) -> bool {
    position.spec_distance_squared(goal_pos) < GOAL_RADIUS * GOAL_RADIUS
}

/// Whether a sheep at `position` is so close to the goal that it is counted.
pub fn reaches_goal(position: Vec2, goal_pos: Vec2) -> (b: bool)
    ensures
        b == spec_reaches_goal(position, goal_pos),
{
    position.distance_squared(goal_pos) < GOAL_REACHED_DISTANCE_SQUARED
}

/// Whether a sheep at `position` is inside the radius of the goal.
pub fn near_goal(position: Vec2, goal_pos: Vec2) -> (b: bool)
    ensures
        b == spec_near_goal(position, goal_pos),
{
    position.distance_squared(goal_pos) < GOAL_RADIUS as u128 * GOAL_RADIUS as u128
}

/// The state of a sheep after the goal was checked: a sheep that is neither
/// counted nor abducted starts to be counted once it is inside the goal's
/// radius. Nothing else changes.
pub open spec fn spec_goal_transition(sheep: Sheep, position: Vec2, goal_pos: Vec2) -> Sheep {
    match sheep.state {
        SheepState::BeingAbducted => sheep,
        SheepState::BeingCounted => sheep,
        _ => if spec_near_goal(position, goal_pos) {
            Sheep { state: SheepState::BeingCounted, ..sheep }
        } else {
            sheep
        },
    }
}

/// Checks a sheep at `position` against the goal at `goal_pos`.
///
/// A sheep on its way to be counted scores once it is close enough, and is
/// then to be taken out of the arena. A sheep that wanders, evades or is
/// spooked starts to be counted once it is inside the goal's radius. A
/// sheep that is being abducted is left alone.
pub fn sheep_goal_check(
    sheep_c: &mut Sheep,
    position: Vec2,
    goal_pos: Vec2,
    state: &mut GameState,
    round_stats: &mut RoundStats,
    bounds: &LevelBounds,
) -> (check: GoalCheck)
    requires
        old(sheep_c).state is BeingCounted && spec_reaches_goal(position, goal_pos) ==> {
            &&& spec_score_fits(old(sheep_c).color, old(state)@, *old(round_stats))
            &&& spec_black_sheep_to_spawn(old(sheep_c).color, old(state)@) > 0 ==> bounds.wf()
        },
    ensures
        *final(sheep_c) == spec_goal_transition(*old(sheep_c), position, goal_pos),
        old(state).wf() ==> final(state).wf(),
        old(sheep_c).wf() ==> final(sheep_c).wf(),
        check is Scored <==> old(sheep_c).state is BeingCounted && spec_reaches_goal(
            position,
            goal_pos,
        ),
        check is StartedCounting <==> !(old(sheep_c).state is BeingCounted)
            && final(sheep_c).state is BeingCounted,
        !(check is Scored) ==> final(state)@ == old(state)@ && *final(round_stats) == *old(round_stats),
        check matches GoalCheck::Scored(out, spawned) ==> {
            &&& final(state)@ == spec_state_after(old(sheep_c).color, old(state)@, *old(round_stats))
            &&& *final(round_stats) == spec_stats_after(
                old(sheep_c).color,
                old(state)@,
                *old(round_stats),
            )
            &&& out.score_delta == spec_score_delta(old(sheep_c).color, old(state)@)
            &&& out.money_delta == spec_money_delta(old(sheep_c).color)
            &&& out.messages@ == spec_messages(old(sheep_c).color, old(state)@, *old(round_stats))
            &&& spawned.len() == spec_black_sheep_to_spawn(old(sheep_c).color, old(state)@)
            &&& forall|i: int|
                0 <= i < spawned.len() ==> bounds.contains((#[trigger] spawned[i]).position)
                    && spec_is_spawn(
                    spawned[i],
                    SheepColor::Black,
                    old(state).active_modifiers@.contains(Modifier::MoonGravity),
                    old(state).active_modifiers@.contains(Modifier::HyperSheep),
                )
        },
{
    match sheep_c.state {
        SheepState::BeingAbducted => GoalCheck::Nothing,
        SheepState::BeingCounted => {
            if reaches_goal(position, goal_pos) {
                let out = resolve_score(sheep_c.color, state, round_stats);
                let mut spawned: Vec<SheepSpawn> = Vec::new();
                let mut i: u8 = 0;
                while i < out.black_sheep_to_spawn
                    invariant
                        out.black_sheep_to_spawn > 0 ==> bounds.wf(),
                        i <= out.black_sheep_to_spawn,
                        spawned.len() == i,
                        state.active_modifiers@ == old(state).active_modifiers@,
                        forall|j: int|
                            0 <= j < spawned.len() ==> bounds.contains(
                                (#[trigger] spawned[j]).position,
                            ) && spec_is_spawn(
                                spawned[j],
                                SheepColor::Black,
                                state.active_modifiers@.contains(Modifier::MoonGravity),
                                state.active_modifiers@.contains(Modifier::HyperSheep),
                            ),
                    decreases out.black_sheep_to_spawn - i,
                {
                    let pos = bounds.random_point();
                    let spawn = sheep(pos, state, SheepColor::Black);
                    spawned.push(spawn);
                    i += 1;
                }
                GoalCheck::Scored(out, spawned)
            } else {
                GoalCheck::Nothing
            }
        },
        _ => {
            if near_goal(position, goal_pos) {
                sheep_c.state = SheepState::BeingCounted;
                GoalCheck::StartedCounting
            } else {
                GoalCheck::Nothing
            }
        },
    }
}

/// A white sheep without charms is worth exactly one point and no coin, and
/// a gold sheep exactly one coin and no point, whatever was counted before.
pub proof fn lemma_plain_scores(state: GameStateView, stats: RoundStats)
    ensures
        state.charms.len() == 0 ==> spec_score_delta(SheepColor::White, state) == 1
            && spec_money_delta(SheepColor::White) == 0,
        spec_score_delta(SheepColor::Gold, state) == 0,
        spec_money_delta(SheepColor::Gold) == 1,
{
}

/// What a sheep is worth does not depend on the order of counting: take
/// any two runs, whatever their points, their counters and the sheep that
/// were counted before. In both, a white sheep without charms is worth one
/// point and no coin, and a gold sheep one coin and no point.
pub proof fn lemma_score_does_not_depend_on_order(
    first: GameStateView,
    first_stats: RoundStats,
    second: GameStateView,
    second_stats: RoundStats,
)
    ensures
        first.charms.len() == 0 && second.charms.len() == 0 ==> spec_score_delta(
            SheepColor::White,
            first,
        ) == spec_score_delta(SheepColor::White, second) && spec_score_delta(
            SheepColor::White,
            first,
        ) == 1 && spec_money_delta(SheepColor::White) == 0,
        spec_score_delta(SheepColor::Gold, first) == spec_score_delta(SheepColor::Gold, second),
        spec_score_delta(SheepColor::Gold, first) == 0,
        spec_money_delta(SheepColor::Gold) == 1,
{
}

/// The points and the money after a plain sheep was counted: a white sheep
/// without charms adds one point and leaves the money alone, a gold sheep
/// adds one coin and leaves the points alone. A counter that is full
/// already cannot take the addition.
pub proof fn lemma_plain_scores_add_up(state: GameStateView, stats: RoundStats)
    ensures
        state.charms.len() == 0 && state.points < u32::MAX ==> spec_state_after(
            SheepColor::White,
            state,
            stats,
        ).points == state.points + 1 && spec_state_after(SheepColor::White, state, stats).money
            == state.money,
        state.money < u32::MAX ==> spec_state_after(SheepColor::Gold, state, stats).money
            == state.money + 1 && spec_state_after(SheepColor::Gold, state, stats).points
            == state.points,
{
}

/// Under the evolution charm a white sheep is worth no point; it raises
/// the count of white sheep by one, and it turns one sheep blue exactly
/// when the new count is a multiple of five. The counters that are raised
/// must have room.
pub proof fn lemma_evolution_counter(state: GameStateView, stats: RoundStats)
    requires
        state.charms.contains(Charm::Evolution),
        stats.white_sheep_counted < u16::MAX,
        state.blue_sheep_count < u16::MAX || (stats.white_sheep_counted + 1) % 5 != 0,
    ensures
        spec_score_delta(SheepColor::White, state) == 0,
        spec_money_delta(SheepColor::White) == 0,
        spec_stats_after(SheepColor::White, state, stats).white_sheep_counted
            == stats.white_sheep_counted + 1,
        spec_state_after(SheepColor::White, state, stats).blue_sheep_count
            == state.blue_sheep_count + (if (stats.white_sheep_counted + 1) % 5 == 0 {
            1int
        } else {
            0int
        }),
        spec_state_after(SheepColor::White, state, stats).points == state.points,
        spec_state_after(SheepColor::White, state, stats).money == state.money,
{
}

} // verus!
