//! A round of herding: who enters the arena, how long the round lasts, and
//! when it is won.

use vstd::prelude::*;
use crate::items::Charm;
use crate::level::LevelBounds;
use crate::modifiers::Modifier;
use crate::sheep::{sheep, spec_is_spawn, SheepColor, SheepSpawn};
use crate::state::{GamePhase, GameState, GameStateView, RoundStats};

verus! {

/// How many sheep enter the arena in a round: the flock, or twice the
/// flock under the charm that doubles it.
pub open spec fn spec_round_size(state: GameStateView) -> int {
    state.sheep_count * spec_flock_factor(state)
}

/// By how much the flock is multiplied for a round.
pub open spec fn spec_flock_factor(state: GameStateView) -> int {
    if state.charms.contains(Charm::HalfTimeDoubleSheep) {
        2
    } else {
        1
    }
}

/// The colour of the sheep at place `i` of a round's line-up: first the
/// blue sheep, then the red, the black and the gold, and white sheep for
/// the rest.
pub open spec fn spec_color_at(state: GameStateView, i: int) -> SheepColor {
    let k = spec_flock_factor(state);
    let blue = state.blue_sheep_count * k;
    let red = blue + state.red_sheep_count * k;
    let black = red + state.black_sheep_count * k;
    let gold = black + state.gold_sheep_count * k;
    if i < blue {
        SheepColor::Blue
    } else if i < red {
        SheepColor::Red
    } else if i < black {
        SheepColor::Black
    } else if i < gold {
        SheepColor::Gold
    } else {
        SheepColor::White
    }
}

/// The line-up of a round: as many sheep as the round has, coloured by
/// their place. Coloured sheep that do not fit are left out.
pub open spec fn spec_sheep_colors(state: GameStateView) -> Seq<SheepColor> {
    Seq::new(spec_round_size(state) as nat, |i: int| spec_color_at(state, i))
}

/// The line-up of a round with the extra gold sheep that the golden-sheep
/// charm adds at the end.
pub open spec fn spec_round_colors(state: GameStateView) -> Seq<SheepColor> {
    if state.sheep_count == 0 {
        Seq::empty()
    } else if state.charms.contains(Charm::GoldenSheep) {
        spec_sheep_colors(state).push(SheepColor::Gold)
    } else {
        spec_sheep_colors(state)
    }
}

/// Works out the colours of the sheep that enter the arena in a round.
pub fn build_sheep_colors(game_state: &GameState) -> (colors: Vec<SheepColor>)
    ensures
        colors@ == spec_sheep_colors(game_state@),
{
    let factor: usize = if game_state.is_charm_active(Charm::HalfTimeDoubleSheep) {
        2
    } else {
        1
    };
    let total: usize = game_state.sheep_count as usize * factor;
    let blue: usize = game_state.blue_sheep_count as usize * factor;
    let red: usize = blue + game_state.red_sheep_count as usize * factor;
    let black: usize = red + game_state.black_sheep_count as usize * factor;
    let gold: usize = black + game_state.gold_sheep_count as usize * factor;
    let mut colors: Vec<SheepColor> = Vec::new();
    let mut i: usize = 0;
    while i < total
        invariant
            i <= total,
            total == spec_round_size(game_state@),
            blue == game_state.blue_sheep_count * spec_flock_factor(game_state@),
            red == blue + game_state.red_sheep_count * spec_flock_factor(game_state@),
            black == red + game_state.black_sheep_count * spec_flock_factor(game_state@),
            gold == black + game_state.gold_sheep_count * spec_flock_factor(game_state@),
            colors.len() == i,
            forall|j: int| 0 <= j < i ==> colors[j] == spec_color_at(game_state@, j),
        decreases total - i,
    {
        let color = if i < blue {
            SheepColor::Blue
        } else if i < red {
            SheepColor::Red
        } else if i < black {
            SheepColor::Black
        } else if i < gold {
            SheepColor::Gold
        } else {
            SheepColor::White
        };
        colors.push(color);
        i += 1;
    }
    assert(colors@ =~= spec_sheep_colors(game_state@));
    colors
}

/// Opens a round of herding: clears the round's counters and sets up the
/// sheep that enter the arena, each at a random place inside `bounds`.
///
/// A flock of no sheep opens nothing. Otherwise the line-up of the round
/// enters, and one more gold sheep under the golden-sheep charm. A sheep
/// that is lined up white may enter black; every other sheep enters in
/// its colour.
pub fn on_herding(game_state: &GameState, round_stats: &mut RoundStats, bounds: &LevelBounds) -> (spawns:
    Vec<SheepSpawn>)
    requires
        spec_round_colors(game_state@).len() > 0 ==> bounds.wf(),
    ensures
        *final(round_stats) == (RoundStats {
            sheep_counted: 0,
            white_sheep_counted: 0,
            black_sheep_counted: 0,
        }),
        spawns.len() == spec_round_colors(game_state@).len(),
        forall|i: int|
            0 <= i < spawns.len() ==> {
                &&& bounds.contains((#[trigger] spawns[i]).position)
                &&& spec_is_spawn(
                    spawns[i],
                    spec_round_colors(game_state@)[i],
                    game_state.active_modifiers@.contains(Modifier::MoonGravity),
                    game_state.active_modifiers@.contains(Modifier::HyperSheep),
                )
                &&& spawns[i].sheep.wf()
            },
{
    *round_stats = RoundStats::default();
    let mut spawns: Vec<SheepSpawn> = Vec::new();
    if game_state.sheep_count == 0 {
        return spawns;
    }
    let mut sheep_colors = build_sheep_colors(game_state);
    if game_state.is_charm_active(Charm::GoldenSheep) {
        sheep_colors.push(SheepColor::Gold);
    }
    let mut i: usize = 0;
    while i < sheep_colors.len()
        invariant
            sheep_colors.len() > 0 ==> bounds.wf(),
            i <= sheep_colors.len(),
            sheep_colors@ == spec_round_colors(game_state@),
            spawns.len() == i,
            forall|j: int|
                0 <= j < i ==> {
                    &&& bounds.contains((#[trigger] spawns[j]).position)
                    &&& spec_is_spawn(
                        spawns[j],
                        sheep_colors[j],
                        game_state.active_modifiers@.contains(Modifier::MoonGravity),
                        game_state.active_modifiers@.contains(Modifier::HyperSheep),
                    )
                    &&& spawns[j].sheep.wf()
                },
        decreases sheep_colors.len() - i,
    {
        let pos = bounds.random_point();
        let spawn = sheep(pos, game_state, sheep_colors[i]);
        spawns.push(spawn);
        i += 1;
    }
    spawns
}

/// The phase to move to once the points have reached the target.
pub fn check_points_goal(game_state: &GameState) -> (next: Option<GamePhase>)
    ensures
        next == if game_state.points >= game_state.point_target {
            Some(GamePhase::ModifierChoice)
        } else {
            None::<GamePhase>
        },
{
    if game_state.points >= game_state.point_target {
        Some(GamePhase::ModifierChoice)
    } else {
        None
    }
}

/// Advances the round clock by `delta` microseconds. Returns whether the
/// time ran out during this tick, which ends the run.
pub fn tick_countdown(state: &mut GameState, delta: u32) -> (expired: bool)
    ensures
        final(state)@ == (GameStateView {
            countdown: old(state).countdown.spec_tick(delta as u64),
            ..old(state)@
        }),
        expired == old(state).countdown.spec_tick(delta as u64).just_finished,
        old(state).wf() ==> final(state).wf(),
{
    state.countdown.tick(delta as u64);
    state.countdown.just_finished()
}

} // verus!
