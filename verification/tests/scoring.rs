use herding::items::Charm;
use herding::level::{goal_position, GoalTextMessage, LevelBounds};
use herding::scoring::{
    near_goal, reaches_goal, resolve_score, score_fits, sheep_goal_check, GoalCheck,
};
use herding::sheep::{Sheep, SheepColor, SheepState};
use herding::state::{GameState, RoundStats};
use herding::timer::{Timer, TimerMode};
use herding::vec2::Vec2;

fn arena() -> LevelBounds {
    LevelBounds { min: Vec2::new(-27_600, -39_600), max: Vec2::new(27_600, 7_600) }
}

fn state_with(charms: &[Charm]) -> GameState {
    let mut s = GameState::default();
    s.charms = charms.to_vec();
    s
}

#[test]
fn a_white_sheep_without_charms_is_worth_one_point() {
    for counted in [0u16, 1, 4, 5, 77] {
        for points in [0u32, 3, 1000] {
            let mut s = GameState::default();
            s.points = points;
            s.money = 6;
            let mut stats =
                RoundStats { sheep_counted: counted, white_sheep_counted: 4, black_sheep_counted: 0 };
            let out = resolve_score(SheepColor::White, &mut s, &mut stats);
            assert_eq!(out.score_delta, 1);
            assert_eq!(out.money_delta, 0);
            assert_eq!(s.points, points + 1);
            assert_eq!(s.money, 6);
            assert_eq!(out.messages, vec![GoalTextMessage::PlusOnePoint]);
            assert_eq!(out.black_sheep_to_spawn, 0);
            assert_eq!(stats.sheep_counted, counted + 1);
            assert_eq!(stats.white_sheep_counted, 4);
            assert_eq!(s.blue_sheep_count, 1);
        }
    }
}

#[test]
fn a_gold_sheep_is_worth_one_coin_whatever_came_before() {
    let mut s = state_with(&[Charm::Evolution, Charm::Exponential, Charm::RedToGold]);
    let mut stats = RoundStats::default();
    s.points = 12;
    let first = resolve_score(SheepColor::Gold, &mut s, &mut stats);
    resolve_score(SheepColor::Red, &mut s, &mut stats);
    resolve_score(SheepColor::White, &mut s, &mut stats);
    let later = resolve_score(SheepColor::Gold, &mut s, &mut stats);
    for out in [first, later] {
        assert_eq!(out.score_delta, 0);
        assert_eq!(out.money_delta, 1);
        assert_eq!(out.messages, vec![GoalTextMessage::PlusOneGold]);
    }
    assert_eq!(s.money, 2);
    assert_eq!(s.points, 18);
}

#[test]
fn a_blue_sheep_is_worth_five_points() {
    let mut s = GameState::default();
    let mut stats = RoundStats::default();
    let out = resolve_score(SheepColor::Blue, &mut s, &mut stats);
    assert_eq!(out.score_delta, 5);
    assert_eq!(s.points, 5);
    assert_eq!(out.messages, vec![GoalTextMessage::PlusFivePoints]);
}

#[test]
fn a_red_sheep_raises_the_points_by_half_rounded_down() {
    for (before, after) in [(0u32, 0u32), (1, 1), (2, 3), (3, 4), (5, 7), (10, 15), (101, 151)] {
        let mut s = GameState::default();
        s.points = before;
        let mut stats = RoundStats::default();
        let out = resolve_score(SheepColor::Red, &mut s, &mut stats);
        assert_eq!(s.points, after);
        assert_eq!(out.score_delta, after - before);
        assert_eq!(out.messages, vec![GoalTextMessage::PointsTimesOneAndAHalf]);
        assert_eq!(s.red_sheep_count, 1);
        assert_eq!(s.gold_sheep_count, 0);
    }
}

#[test]
fn a_red_sheep_fills_the_points_up_to_the_limit() {
    let mut s = GameState::default();
    s.points = 2_863_311_530;
    let mut stats = RoundStats::default();
    resolve_score(SheepColor::Red, &mut s, &mut stats);
    assert_eq!(s.points, u32::MAX);
}

#[test]
fn the_first_red_sheep_turns_gold_under_rose_gold() {
    let mut s = state_with(&[Charm::RedToGold]);
    s.red_sheep_count = 2;
    s.points = 4;
    let mut stats = RoundStats::default();
    resolve_score(SheepColor::Red, &mut s, &mut stats);
    assert_eq!(s.red_sheep_count, 1);
    assert_eq!(s.gold_sheep_count, 1);
    assert_eq!(s.points, 6);
    resolve_score(SheepColor::Red, &mut s, &mut stats);
    assert_eq!(s.red_sheep_count, 1);
    assert_eq!(s.gold_sheep_count, 1);
    assert_eq!(s.points, 9);
}

#[test]
fn a_black_sheep_multiplies_under_mitosis() {
    let mut s = GameState::default();
    let mut stats = RoundStats::default();
    let plain = resolve_score(SheepColor::Black, &mut s, &mut stats);
    assert_eq!(plain.score_delta, 1);
    assert_eq!(plain.black_sheep_to_spawn, 0);
    assert_eq!(stats.black_sheep_counted, 1);
    s.charms.push(Charm::Exponential);
    let multiplied = resolve_score(SheepColor::Black, &mut s, &mut stats);
    assert_eq!(multiplied.score_delta, 1);
    assert_eq!(multiplied.black_sheep_to_spawn, 2);
    assert_eq!(multiplied.messages, vec![GoalTextMessage::PlusOnePoint]);
    assert_eq!(stats.black_sheep_counted, 2);
    assert_eq!(s.points, 2);
    assert_eq!(resolve_score(SheepColor::White, &mut s, &mut stats).black_sheep_to_spawn, 0);
}

#[test]
fn every_fifth_white_sheep_evolves() {
    let mut s = state_with(&[Charm::Evolution]);
    let mut stats = RoundStats { sheep_counted: 4, white_sheep_counted: 4, black_sheep_counted: 0 };
    let fifth = resolve_score(SheepColor::White, &mut s, &mut stats);
    assert_eq!(fifth.score_delta, 0);
    assert_eq!(fifth.money_delta, 0);
    assert_eq!(fifth.messages, vec![GoalTextMessage::EvolvedToBlue]);
    assert_eq!(s.blue_sheep_count, 2);
    assert_eq!(stats.white_sheep_counted, 5);
    let sixth = resolve_score(SheepColor::White, &mut s, &mut stats);
    assert_eq!(sixth.score_delta, 0);
    assert_eq!(sixth.messages, vec![GoalTextMessage::ZeroPoints]);
    assert_eq!(s.blue_sheep_count, 2);
    for _ in 0..3 {
        resolve_score(SheepColor::White, &mut s, &mut stats);
        assert_eq!(s.blue_sheep_count, 2);
    }
    assert_eq!(stats.white_sheep_counted, 9);
    let tenth = resolve_score(SheepColor::White, &mut s, &mut stats);
    assert_eq!(tenth.messages, vec![GoalTextMessage::EvolvedToBlue]);
    assert_eq!(s.blue_sheep_count, 3);
    assert_eq!(stats.white_sheep_counted, 10);
    assert_eq!(s.points, 0);
    assert_eq!(s.sheep_count, 10);
}

#[test]
fn evolution_counts_only_white_sheep() {
    let mut s = state_with(&[Charm::Evolution]);
    let mut stats = RoundStats { sheep_counted: 0, white_sheep_counted: 4, black_sheep_counted: 0 };
    resolve_score(SheepColor::Blue, &mut s, &mut stats);
    resolve_score(SheepColor::Black, &mut s, &mut stats);
    assert_eq!(stats.white_sheep_counted, 4);
    assert_eq!(s.blue_sheep_count, 1);
    assert_eq!(s.points, 6);
}

#[test]
fn the_first_sheep_of_a_round_is_cloned() {
    for (color, idx) in [
        (SheepColor::White, 0usize),
        (SheepColor::Blue, 1),
        (SheepColor::Red, 2),
        (SheepColor::Black, 3),
        (SheepColor::Gold, 4),
    ] {
        let mut s = state_with(&[Charm::Cloning]);
        let before = [
            s.sheep_count,
            s.blue_sheep_count,
            s.red_sheep_count,
            s.black_sheep_count,
            s.gold_sheep_count,
        ];
        let mut stats = RoundStats::default();
        let out = resolve_score(color, &mut s, &mut stats);
        assert_eq!(out.messages[0], GoalTextMessage::Cloned);
        assert_eq!(out.messages.len(), 2);
        let after = [
            s.sheep_count,
            s.blue_sheep_count,
            s.red_sheep_count,
            s.black_sheep_count,
            s.gold_sheep_count,
        ];
        for k in 0..5 {
            let grown = k == 0 || k == idx;
            assert_eq!(after[k], before[k] + if grown { 1 } else { 0 });
        }
        let again = resolve_score(color, &mut s, &mut stats);
        assert_eq!(again.messages.len(), 1);
        assert_eq!(s.sheep_count, before[0] + 1);
    }
}

#[test]
fn cloning_and_rose_gold_meet_on_the_first_red_sheep() {
    let mut s = state_with(&[Charm::Cloning, Charm::RedToGold]);
    s.red_sheep_count = 0;
    let mut stats = RoundStats::default();
    let out = resolve_score(SheepColor::Red, &mut s, &mut stats);
    assert_eq!(s.sheep_count, 11);
    assert_eq!(s.red_sheep_count, 0);
    assert_eq!(s.gold_sheep_count, 1);
    assert_eq!(
        out.messages,
        vec![GoalTextMessage::Cloned, GoalTextMessage::PointsTimesOneAndAHalf]
    );
}

#[test]
fn scoring_needs_room_in_the_counters() {
    let colors =
        [SheepColor::White, SheepColor::Blue, SheepColor::Red, SheepColor::Black, SheepColor::Gold];
    let s = GameState::default();
    let stats = RoundStats::default();
    for color in colors {
        assert!(score_fits(color, &s, &stats));
    }
    let mut full = state_with(&[Charm::Cloning, Charm::RedToGold, Charm::Evolution]);
    full.points = u32::MAX;
    full.money = u32::MAX;
    assert!(score_fits(SheepColor::White, &full, &stats));
    assert!(!score_fits(SheepColor::Blue, &full, &stats));
    assert!(!score_fits(SheepColor::Red, &full, &stats));
    assert!(!score_fits(SheepColor::Black, &full, &stats));
    assert!(!score_fits(SheepColor::Gold, &full, &stats));
    full.points = 2_863_311_530;
    assert!(score_fits(SheepColor::Red, &full, &stats));
    full.points = 2_863_311_531;
    assert!(!score_fits(SheepColor::Red, &full, &stats));
    full.points = 0;
    full.sheep_count = u16::MAX;
    assert!(!score_fits(SheepColor::White, &full, &stats));
    let later = RoundStats { sheep_counted: 1, white_sheep_counted: 4, black_sheep_counted: 0 };
    assert!(score_fits(SheepColor::White, &full, &later));
    full.blue_sheep_count = u16::MAX;
    assert!(!score_fits(SheepColor::White, &full, &later));
    let off_beat = RoundStats { sheep_counted: 1, white_sheep_counted: 5, black_sheep_counted: 0 };
    assert!(score_fits(SheepColor::White, &full, &off_beat));
    let last = RoundStats { sheep_counted: u16::MAX, white_sheep_counted: 0, black_sheep_counted: 0 };
    assert!(!score_fits(SheepColor::Gold, &GameState::default(), &last));
    let mut no_red = state_with(&[Charm::RedToGold]);
    no_red.red_sheep_count = 0;
    assert!(!score_fits(SheepColor::Red, &no_red, &stats));
    no_red.charms.push(Charm::Cloning);
    assert!(score_fits(SheepColor::Red, &no_red, &stats));
}

#[test]
fn the_goal_has_two_rings() {
    let goal = goal_position();
    assert!(near_goal(Vec2::new(5_999, 8_200), goal));
    assert!(!near_goal(Vec2::new(6_000, 8_200), goal));
    assert!(reaches_goal(Vec2::new(0, 8_200 - 1_224), goal));
    assert!(!reaches_goal(Vec2::new(0, 8_200 - 1_225), goal));
    assert!(reaches_goal(Vec2::new(866, 8_200 + 866), goal));
    assert!(!reaches_goal(Vec2::new(867, 8_200 + 866), goal));
}

fn wandering(color: SheepColor) -> Sheep {
    Sheep::with_wait(color, 2_000_000)
}

#[test]
fn a_sheep_inside_the_goal_radius_starts_to_be_counted() {
    let goal = goal_position();
    let bounds = arena();
    let mut s = GameState::default();
    let mut stats = RoundStats::default();
    let mut near = wandering(SheepColor::White);
    let check = sheep_goal_check(&mut near, Vec2::new(0, 2_201), goal, &mut s, &mut stats, &bounds);
    assert!(matches!(check, GoalCheck::StartedCounting));
    assert_eq!(near.state, SheepState::BeingCounted);
    let mut edge = wandering(SheepColor::White);
    let check = sheep_goal_check(&mut edge, Vec2::new(0, 2_200), goal, &mut s, &mut stats, &bounds);
    assert!(matches!(check, GoalCheck::Nothing));
    assert!(matches!(edge.state, SheepState::Wander(_)));
    let mut spooked = wandering(SheepColor::Red);
    spooked.state = SheepState::Spooked(Vec2::zero());
    sheep_goal_check(&mut spooked, Vec2::new(3_000, 8_200), goal, &mut s, &mut stats, &bounds);
    assert_eq!(spooked.state, SheepState::BeingCounted);
    let mut evading = wandering(SheepColor::Red);
    evading.state = SheepState::Evading(Vec2::zero());
    sheep_goal_check(&mut evading, goal, goal, &mut s, &mut stats, &bounds);
    assert_eq!(evading.state, SheepState::BeingCounted);
    assert_eq!(s.points, 0);
    assert_eq!(stats, RoundStats::default());
}

#[test]
fn a_counted_sheep_scores_close_to_the_goal() {
    let goal = goal_position();
    let bounds = arena();
    let mut s = GameState::default();
    let mut stats = RoundStats::default();
    let mut sheep = wandering(SheepColor::Blue);
    sheep.state = SheepState::BeingCounted;
    let far = sheep_goal_check(&mut sheep, Vec2::new(1_225, 8_200), goal, &mut s, &mut stats, &bounds);
    assert!(matches!(far, GoalCheck::Nothing));
    assert_eq!(s.points, 0);
    assert_eq!(sheep.state, SheepState::BeingCounted);
    let near = sheep_goal_check(&mut sheep, Vec2::new(1_224, 8_200), goal, &mut s, &mut stats, &bounds);
    match near {
        GoalCheck::Scored(out, spawned) => {
            assert_eq!(out.score_delta, 5);
            assert!(spawned.is_empty());
        }
        _ => panic!("the sheep did not score"),
    }
    assert_eq!(s.points, 5);
    assert_eq!(stats.sheep_counted, 1);
}

#[test]
fn a_counted_black_sheep_calls_two_more_under_mitosis() {
    let goal = goal_position();
    let bounds = arena();
    let mut s = state_with(&[Charm::Exponential]);
    let mut stats = RoundStats::default();
    let mut sheep = wandering(SheepColor::Black);
    sheep.state = SheepState::BeingCounted;
    match sheep_goal_check(&mut sheep, goal, goal, &mut s, &mut stats, &bounds) {
        GoalCheck::Scored(out, spawned) => {
            assert_eq!(out.black_sheep_to_spawn, 2);
            assert_eq!(spawned.len(), 2);
            for spawn in spawned {
                assert_eq!(spawn.sheep.color, SheepColor::Black);
                assert!(bounds.min.x <= spawn.position.x && spawn.position.x <= bounds.max.x);
                assert!(bounds.min.y <= spawn.position.y && spawn.position.y <= bounds.max.y);
                assert_eq!(spawn.movement.intent, spawn.position);
                assert!(matches!(spawn.sheep.state, SheepState::Wander(_)));
            }
        }
        _ => panic!("the sheep did not score"),
    }
}

#[test]
fn an_abducted_sheep_is_not_counted() {
    let goal = goal_position();
    let mut s = GameState::default();
    let mut stats = RoundStats::default();
    let mut sheep = wandering(SheepColor::Gold);
    sheep.state = SheepState::BeingAbducted;
    let check = sheep_goal_check(&mut sheep, goal, goal, &mut s, &mut stats, &arena());
    assert!(matches!(check, GoalCheck::Nothing));
    assert_eq!(sheep.state, SheepState::BeingAbducted);
    assert_eq!(s.money, 0);
    let idle = Timer::new(1, TimerMode::Once);
    assert_ne!(sheep.state, SheepState::Wander(idle));
}
