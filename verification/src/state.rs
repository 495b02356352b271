//! The state of a run: rounds, points, money, modifiers and charms.

use vstd::prelude::*;
use crate::chance::{draw_distinct, lemma_unbanned_count, not_in};
use crate::items::Charm;
use crate::modifiers::{lemma_pool_complete, Modifier};
use crate::timer::{Timer, TimerMode};

verus! {

/// The length of a round, in microseconds.
pub const TIMER_DURATION: u64 = 70_000_000;

/// The length of a round under the charm that halves the time.
pub const FRANTIC_TIMER_DURATION: u64 = 50_000_000;

/// The largest number of modifiers that are active at a time.
pub const MAX_ACTIVE_MODIFIERS: usize = 3;

/// The phases a run cycles through.
#[derive(Debug, Copy, Clone, PartialEq, Eq, Hash, Structural)]
pub enum GamePhase {
    Herding,
    ModifierChoice,
    Shop,
}

impl Default for GamePhase {
    fn default() -> (p: Self)
        ensures
            p == GamePhase::Herding,
    {
        GamePhase::Herding
    }
}

/// What persists for a whole run.
#[derive(Debug, Clone)]
pub struct GameState {
    pub completed_rounds: u32,
    /// The size of the flock; the coloured counts say how many of it are
    /// blue, red, black and gold.
    pub sheep_count: u16,
    pub blue_sheep_count: u16,
    pub red_sheep_count: u16,
    pub black_sheep_count: u16,
    pub gold_sheep_count: u16,
    /// The clock of the round.
    pub countdown: Timer,
    pub points: u32,
    pub point_target: u32,
    /// The active modifiers, oldest first.
    pub active_modifiers: Vec<Modifier>,
    pub money: u32,
    pub charms: Vec<Charm>,
    pub max_charms: u8,
    /// How far the dog's bark carries, in thousandths of a unit.
    pub player_bark_radius: u32,
}

/// The mathematical content of a [`GameState`].
pub struct GameStateView {
    pub completed_rounds: u32,
    pub sheep_count: u16,
    pub blue_sheep_count: u16,
    pub red_sheep_count: u16,
    pub black_sheep_count: u16,
    pub gold_sheep_count: u16,
    pub countdown: Timer,
    pub points: u32,
    pub point_target: u32,
    pub active_modifiers: Seq<Modifier>,
    pub money: u32,
    pub charms: Seq<Charm>,
    pub max_charms: u8,
    pub player_bark_radius: u32,
}

impl View for GameState {
    type V = GameStateView;

    open spec fn view(&self) -> GameStateView {
        GameStateView {
            completed_rounds: self.completed_rounds,
            sheep_count: self.sheep_count,
            blue_sheep_count: self.blue_sheep_count,
            red_sheep_count: self.red_sheep_count,
            black_sheep_count: self.black_sheep_count,
            gold_sheep_count: self.gold_sheep_count,
            countdown: self.countdown,
            points: self.points,
            point_target: self.point_target,
            active_modifiers: self.active_modifiers@,
            money: self.money,
            charms: self.charms@,
            max_charms: self.max_charms,
            player_bark_radius: self.player_bark_radius,
        }
    }
}

/// What a round advance reports back: the modifier that ran out, and the
/// modifiers the player may choose the next one from.
#[derive(Debug, Clone)]
pub struct NewRoundInfo {
    pub removed_modifier: Option<Modifier>,
    pub modifier_choices: Vec<Modifier>,
}

/// The counters of one round, which every round starts at zero.
#[derive(Debug, Copy, Clone, PartialEq, Eq, Structural)]
pub struct RoundStats {
    pub sheep_counted: u16,
    pub white_sheep_counted: u16,
    pub black_sheep_counted: u16,
}

impl Default for RoundStats {
    fn default() -> (s: Self)
        ensures
            s == (RoundStats { sheep_counted: 0, white_sheep_counted: 0, black_sheep_counted: 0 }),
    {
        RoundStats { sheep_counted: 0, white_sheep_counted: 0, black_sheep_counted: 0 }
    }
}

/// The state a run starts from.
pub open spec fn spec_initial_state() -> GameStateView {
    GameStateView {
        completed_rounds: 0,
        sheep_count: 10,
        blue_sheep_count: 1,
        red_sheep_count: 1,
        black_sheep_count: 0,
        gold_sheep_count: 0,
        countdown: Timer::spec_new(TIMER_DURATION, TimerMode::Once),
        points: 0,
        point_target: 3,
        active_modifiers: Seq::empty(),
        money: 0,
        charms: Seq::empty(),
        max_charms: 4,
        player_bark_radius: 12000,
    }
}

/// The point target of the round after one with target `target`: two more,
/// and a tenth of the old target on top.
pub open spec fn spec_next_target(target: int) -> int {
    target + 2 + target / 10
}

/// The modifier that a round advance evicts: the oldest, once more than two
/// are active.
pub open spec fn spec_evicted(active: Seq<Modifier>) -> Option<Modifier> {
    if active.len() > 2 {
        Some(active[0])
    } else {
        None
    }
}

/// The active modifiers after a round advance has evicted the oldest.
pub open spec fn spec_after_eviction(active: Seq<Modifier>) -> Seq<Modifier> {
    if active.len() > 2 {
        active.remove(0)
    } else {
        active
    }
}

/// The modifiers that are not active, in the order of the pool.
pub open spec fn spec_candidates(active: Seq<Modifier>) -> Seq<Modifier> {
    Modifier::spec_pool().filter(not_in(active))
}

/// `choices` is a draw of `count` modifiers to choose from while `active`
/// are active: no modifier twice, none of them active, and `count` of
/// them, or as many as are not active if those are fewer.
pub open spec fn spec_is_offer(choices: Seq<Modifier>, active: Seq<Modifier>, count: int) -> bool {
    &&& choices.no_duplicates()
    &&& forall|i: int|
        0 <= i < choices.len() ==> spec_candidates(active).contains(#[trigger] choices[i])
    &&& choices.len() == if count <= spec_candidates(active).len() {
        count
    } else {
        spec_candidates(active).len() as int
    }
}

/// The active modifiers after the player has taken on `modifier`: it joins
/// at the end, and the oldest leaves first if three are active already.
pub open spec fn spec_after_choice(active: Seq<Modifier>, modifier: Modifier) -> Seq<Modifier> {
    if active.len() >= MAX_ACTIVE_MODIFIERS {
        active.remove(0).push(modifier)
    } else {
        active.push(modifier)
    }
}

impl Default for GameState {
    fn default() -> (s: Self)
        ensures
            s@ == spec_initial_state(),
            s.wf(),
    {
        GameState {
            completed_rounds: 0,
            sheep_count: 10,
            blue_sheep_count: 1,
            red_sheep_count: 1,
            black_sheep_count: 0,
            gold_sheep_count: 0,
            countdown: Timer::new(TIMER_DURATION, TimerMode::Once),
            points: 0,
            point_target: 3,
            active_modifiers: Vec::new(),
            money: 0,
            charms: Vec::with_capacity(4),
            max_charms: 4,
            player_bark_radius: 12000,
        }
    }
}

impl GameState {
    /// No more than three modifiers are active, and no more charms are
    /// owned than the player has room for.
    pub open spec fn wf(&self) -> bool {
        &&& self.active_modifiers@.len() <= MAX_ACTIVE_MODIFIERS
        &&& self.charms@.len() <= self.max_charms
    }

    /// Closes a round: counts it, clears the points, raises the target,
    /// evicts the oldest modifier once more than two are active, and draws
    /// two different modifiers, none of them active, for the player to
    /// choose from.
    pub fn new_round(&mut self) -> (info: NewRoundInfo)
        requires
            spec_round_fits(old(self)@),
        ensures
            final(self)@ == (GameStateView {
                completed_rounds: (old(self).completed_rounds + 1) as u32,
                points: 0,
                point_target: spec_next_target(old(self).point_target as int) as u32,
                active_modifiers: spec_after_eviction(old(self).active_modifiers@),
                ..old(self)@
            }),
            info.removed_modifier == spec_evicted(old(self).active_modifiers@),
            spec_is_offer(info.modifier_choices@, final(self).active_modifiers@, 2),
            info.modifier_choices@.no_duplicates(),
            forall|m: Modifier|
                info.modifier_choices@.contains(m) ==> !final(self).active_modifiers@.contains(m),
            info.modifier_choices.len() == if spec_candidates(final(self).active_modifiers@).len()
                >= 2 {
                2
            } else {
                spec_candidates(final(self).active_modifiers@).len()
            },
            old(self).active_modifiers@.len() <= MAX_ACTIVE_MODIFIERS ==> info.modifier_choices.len()
                == 2,
            old(self).wf() ==> final(self).wf(),
    {
        self.completed_rounds += 1;
        self.points = 0;
        self.point_target += 2 + (self.point_target / 10);
        let removed_modifier = if self.active_modifiers.len() > 2 {
            Some(self.active_modifiers.remove(0))
        } else {
            None
        };
        let modifier_choices = self.pick_random_modifiers(2);
        proof {
            lemma_pool_complete(Modifier::HyperSheep);
            lemma_unbanned_count(Modifier::spec_pool(), self.active_modifiers@);
        }
        NewRoundInfo { removed_modifier, modifier_choices }
    }

    /// Winds the round clock back, to the shorter round if the charm that
    /// halves the time is owned.
    pub fn reset_timer(&mut self)
        ensures
            final(self)@ == (GameStateView {
                countdown: (Timer {
                    duration: if old(self).charms@.contains(Charm::HalfTimeDoubleSheep) {
                        FRANTIC_TIMER_DURATION
                    } else {
                        TIMER_DURATION
                    },
                    ..old(self).countdown
                }).spec_reset(),
                ..old(self)@
            }),
            old(self).wf() ==> final(self).wf(),
    {
        if self.is_charm_active(Charm::HalfTimeDoubleSheep) {
            self.countdown.set_duration(FRANTIC_TIMER_DURATION);
        } else {
            self.countdown.set_duration(TIMER_DURATION);
        }
        self.countdown.reset();
    }

    pub fn is_modifier_active(&self, modifier: Modifier) -> (b: bool)
        ensures
            b == self.active_modifiers@.contains(modifier),
    {
        Modifier::is_in(self.active_modifiers.as_slice(), modifier)
    }

    pub fn is_charm_active(&self, charm: Charm) -> (b: bool)
        ensures
            b == self.charms@.contains(charm),
    {
        Charm::is_in(self.charms.as_slice(), charm)
    }

    /// Whether there is no room for another charm.
    pub fn charms_full(&self) -> (b: bool)
        ensures
            b == (self.charms@.len() >= self.max_charms),
    {
        self.charms.len() >= self.max_charms as usize
    }

    /// Draws up to `count` different modifiers at random from those that are
    /// not active.
    pub fn pick_random_modifiers(&self, count: usize) -> (choices: Vec<Modifier>)
        ensures
            spec_is_offer(choices@, self.active_modifiers@, count as int),
            choices@.no_duplicates(),
            forall|m: Modifier|
                choices@.contains(m) ==> spec_candidates(self.active_modifiers@).contains(m),
            forall|m: Modifier| choices@.contains(m) ==> !self.active_modifiers@.contains(m),
            choices.len() == if count <= spec_candidates(self.active_modifiers@).len() {
                count as nat
            } else {
                spec_candidates(self.active_modifiers@).len()
            },
    {
        let mut candidates = Modifier::candidates(self.active_modifiers.as_slice());
        proof {
            lemma_pool_complete(Modifier::HyperSheep);
            lemma_unbanned_count(Modifier::spec_pool(), self.active_modifiers@);
        }
        draw_distinct(&mut candidates, count)
    }

    /// Takes on `modifier` for the coming rounds and pays out its coins. The
    /// oldest modifier leaves first if three are active already.
    pub fn choose_modifier(&mut self, modifier: Modifier)
        requires
            old(self).money + modifier.spec_difficulty().spec_coins_given() <= u32::MAX,
        ensures
            final(self)@ == (GameStateView {
                active_modifiers: spec_after_choice(old(self).active_modifiers@, modifier),
                money: (old(self).money + modifier.spec_difficulty().spec_coins_given()) as u32,
                ..old(self)@
            }),
            old(self).wf() ==> final(self).wf(),
    {
        if self.active_modifiers.len() >= MAX_ACTIVE_MODIFIERS {
            self.active_modifiers.remove(0);
        }
        self.active_modifiers.push(modifier);
        self.money += modifier.difficulty().coins_given() as u32;
    }
}

/// The counters that a round advance raises have room for it.
pub open spec fn spec_round_fits(state: GameStateView) -> bool {
    state.completed_rounds < u32::MAX && spec_next_target(state.point_target as int) <= u32::MAX
}

/// Whether the counters that a round advance raises have room for it.
pub fn round_fits(state: &GameState) -> (b: bool)
    ensures
        b == spec_round_fits(state@),
{
    state.completed_rounds < u32::MAX && state.point_target / 10 <= u32::MAX - 2
        && state.point_target <= u32::MAX - 2 - state.point_target / 10
}

/// A round advance with three modifiers active evicts exactly the oldest
/// of them, and whatever is drawn then, exactly two modifiers are offered:
/// two different ones, neither of them still active.
pub proof fn lemma_round_advance_offers_two(active: Seq<Modifier>, choices: Seq<Modifier>)
    requires
        active.len() == 3,
        spec_is_offer(choices, spec_after_eviction(active), 2),
    ensures
        spec_evicted(active) == Some(active[0]),
        spec_after_eviction(active) == seq![active[1], active[2]],
        choices.len() == 2,
        choices[0] != choices[1],
        !spec_after_eviction(active).contains(choices[0]),
        !spec_after_eviction(active).contains(choices[1]),
{
    let kept = spec_after_eviction(active);
    assert(active.remove(0) =~= seq![active[1], active[2]]);
    lemma_pool_complete(Modifier::HyperSheep);
    lemma_unbanned_count(Modifier::spec_pool(), kept);
    assert(spec_candidates(kept).contains(choices[0]));
    assert(spec_candidates(kept).contains(choices[1]));
}

/// A state that is well formed stays well formed when a round advances
/// and when the player takes on a modifier.
pub proof fn lemma_modifier_ring_is_bounded(active: Seq<Modifier>, modifier: Modifier)
    requires
        active.len() <= MAX_ACTIVE_MODIFIERS,
    ensures
        spec_after_eviction(active).len() <= 2,
        spec_after_choice(active, modifier).len() <= MAX_ACTIVE_MODIFIERS,
        spec_after_choice(spec_after_eviction(active), modifier) == spec_after_eviction(
            active,
        ).push(modifier),
{
}

/// Starts a run over: a fresh state, fresh counters, and the herding phase.
pub fn reset_run_state(game_state: &mut GameState, round_stats: &mut RoundStats) -> (phase:
    GamePhase)
    ensures
        final(game_state)@ == spec_initial_state(),
        final(game_state).wf(),
        *final(round_stats) == (RoundStats {
            sheep_counted: 0,
            white_sheep_counted: 0,
            black_sheep_counted: 0,
        }),
        phase == GamePhase::Herding,
{
    *game_state = GameState::default();
    *round_stats = RoundStats::default();
    GamePhase::Herding
}

} // verus!
