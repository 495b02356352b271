use herding::items::{Boost, Charm, ItemType};
use herding::level::LevelBounds;
use herding::modifiers::Modifier;
use herding::sheep::SheepColor;
use herding::round::{build_sheep_colors, check_points_goal, on_herding, tick_countdown};
use herding::shop::{
    boost_fits, buy_sheep, buy_shop_item, buy_shop_item_with, can_buy, draw_new_items, on_shop,
    sell_charm, ShopOffers,
};
use herding::state::{
    reset_run_state, round_fits, GamePhase, GameState, RoundStats, FRANTIC_TIMER_DURATION,
    TIMER_DURATION,
};
use herding::timer::TimerMode;
use herding::vec2::Vec2;

fn arena() -> LevelBounds {
    LevelBounds { min: Vec2::new(-27_600, -39_600), max: Vec2::new(27_600, 7_600) }
}

#[test]
fn a_run_starts_from_the_initial_state() {
    let s = GameState::default();
    assert_eq!(s.completed_rounds, 0);
    assert_eq!(s.sheep_count, 10);
    assert_eq!(s.blue_sheep_count, 1);
    assert_eq!(s.red_sheep_count, 1);
    assert_eq!(s.black_sheep_count, 0);
    assert_eq!(s.gold_sheep_count, 0);
    assert_eq!(s.points, 0);
    assert_eq!(s.point_target, 3);
    assert!(s.active_modifiers.is_empty());
    assert_eq!(s.money, 0);
    assert!(s.charms.is_empty());
    assert_eq!(s.max_charms, 4);
    assert_eq!(s.player_bark_radius, 12_000);
    assert_eq!(s.countdown.duration(), 70_000_000);
    assert_eq!(s.countdown.mode, TimerMode::Once);
    assert_eq!(GamePhase::default(), GamePhase::Herding);
    assert_eq!(
        RoundStats::default(),
        RoundStats { sheep_counted: 0, white_sheep_counted: 0, black_sheep_counted: 0 }
    );
}

#[test]
fn round_advance_raises_the_target_by_two_and_a_tenth() {
    let mut s = GameState::default();
    s.points = 9;
    s.new_round();
    assert_eq!(s.point_target, 5);
    assert_eq!(s.points, 0);
    assert_eq!(s.completed_rounds, 1);
    s.point_target = 10;
    s.new_round();
    assert_eq!(s.point_target, 13);
    s.point_target = 29;
    s.new_round();
    assert_eq!(s.point_target, 33);
    s.point_target = 100;
    s.new_round();
    assert_eq!(s.point_target, 112);
    assert_eq!(s.completed_rounds, 4);
}

#[test]
fn round_advance_evicts_the_oldest_of_three_modifiers() {
    for _ in 0..100 {
        let mut s = GameState::default();
        s.active_modifiers = vec![Modifier::Night, Modifier::Ufo, Modifier::Space];
        let info = s.new_round();
        assert_eq!(info.removed_modifier, Some(Modifier::Night));
        assert_eq!(s.active_modifiers, vec![Modifier::Ufo, Modifier::Space]);
        assert_eq!(info.modifier_choices.len(), 2);
        assert_ne!(info.modifier_choices[0], info.modifier_choices[1]);
        for m in &info.modifier_choices {
            assert!(!s.active_modifiers.contains(m));
        }
    }
}

#[test]
fn round_advance_keeps_up_to_two_modifiers() {
    let mut s = GameState::default();
    let info = s.new_round();
    assert_eq!(info.removed_modifier, None);
    assert_eq!(info.modifier_choices.len(), 2);
    s.active_modifiers = vec![Modifier::Vignette, Modifier::DogSphere];
    let info = s.new_round();
    assert_eq!(info.removed_modifier, None);
    assert_eq!(s.active_modifiers, vec![Modifier::Vignette, Modifier::DogSphere]);
    assert_eq!(info.modifier_choices.len(), 2);
}

#[test]
fn modifier_draws_never_repeat_and_never_exceed_the_stock() {
    let mut s = GameState::default();
    s.active_modifiers = Modifier::pool();
    s.active_modifiers.truncate(9);
    let choices = s.pick_random_modifiers(2);
    assert_eq!(choices, vec![Modifier::FeverDream]);
    s.active_modifiers = Modifier::pool();
    assert!(s.pick_random_modifiers(2).is_empty());
    s.active_modifiers.clear();
    assert!(s.pick_random_modifiers(0).is_empty());
    let all = s.pick_random_modifiers(25);
    assert_eq!(all.len(), 10);
    for m in Modifier::pool() {
        assert!(all.contains(&m));
    }
}

#[test]
fn modifier_draws_reach_every_candidate() {
    let mut s = GameState::default();
    s.active_modifiers = vec![Modifier::Ufo];
    let mut seen: Vec<Modifier> = Vec::new();
    for _ in 0..500 {
        for m in s.pick_random_modifiers(2) {
            if !seen.contains(&m) {
                seen.push(m);
            }
        }
    }
    assert_eq!(seen.len(), 9);
}

#[test]
fn choosing_a_modifier_pays_its_coins() {
    let mut s = GameState::default();
    s.choose_modifier(Modifier::HyperSheep);
    assert_eq!(s.money, 4);
    s.choose_modifier(Modifier::Night);
    assert_eq!(s.money, 9);
    s.choose_modifier(Modifier::Ufo);
    assert_eq!(s.money, 15);
    assert_eq!(s.active_modifiers, vec![Modifier::HyperSheep, Modifier::Night, Modifier::Ufo]);
    s.choose_modifier(Modifier::Space);
    assert_eq!(s.active_modifiers, vec![Modifier::Night, Modifier::Ufo, Modifier::Space]);
    assert_eq!(s.money, 21);
    assert!(s.is_modifier_active(Modifier::Space));
    assert!(!s.is_modifier_active(Modifier::HyperSheep));
}

#[test]
fn the_round_clock_is_shorter_under_frantic_herding() {
    let mut s = GameState::default();
    tick_countdown(&mut s, 1_000_000);
    assert_eq!(s.countdown.elapsed(), 1_000_000);
    s.reset_timer();
    assert_eq!(s.countdown.duration(), TIMER_DURATION);
    assert_eq!(s.countdown.elapsed(), 0);
    s.charms.push(Charm::HalfTimeDoubleSheep);
    s.reset_timer();
    assert_eq!(s.countdown.duration(), FRANTIC_TIMER_DURATION);
    assert_eq!(FRANTIC_TIMER_DURATION, 50_000_000);
}

#[test]
fn the_round_clock_runs_out_once() {
    let mut s = GameState::default();
    for _ in 0..69 {
        assert!(!tick_countdown(&mut s, 1_000_000));
    }
    assert!(tick_countdown(&mut s, 1_000_000));
    assert!(!tick_countdown(&mut s, 1_000_000));
    assert!(s.countdown.is_finished());
}

#[test]
fn reaching_the_target_leads_to_the_modifier_choice() {
    let mut s = GameState::default();
    assert_eq!(check_points_goal(&s), None);
    s.points = 2;
    assert_eq!(check_points_goal(&s), None);
    s.points = 3;
    assert_eq!(check_points_goal(&s), Some(GamePhase::ModifierChoice));
    s.points = 40;
    assert_eq!(check_points_goal(&s), Some(GamePhase::ModifierChoice));
}

#[test]
fn resetting_a_run_forgets_everything() {
    let mut s = GameState::default();
    s.money = 9;
    s.charms.push(Charm::Ink);
    s.active_modifiers.push(Modifier::Ufo);
    s.completed_rounds = 7;
    let mut stats = RoundStats { sheep_counted: 3, white_sheep_counted: 2, black_sheep_counted: 1 };
    let phase = reset_run_state(&mut s, &mut stats);
    assert_eq!(phase, GamePhase::Herding);
    assert_eq!(s.money, 0);
    assert!(s.charms.is_empty());
    assert!(s.active_modifiers.is_empty());
    assert_eq!(s.completed_rounds, 0);
    assert_eq!(stats, RoundStats::default());
}

#[test]
fn charm_room() {
    let mut s = GameState::default();
    assert!(!s.charms_full());
    s.charms = vec![Charm::Ink, Charm::Cloning, Charm::Evolution];
    assert!(!s.charms_full());
    s.charms.push(Charm::ShopCount);
    assert!(s.charms_full());
    assert!(s.is_charm_active(Charm::Cloning));
    assert!(!s.is_charm_active(Charm::GoldenSheep));
    s.max_charms = 0;
    assert!(s.charms_full());
}

#[test]
fn the_line_up_lists_coloured_sheep_first() {
    let mut s = GameState::default();
    let colors = build_sheep_colors(&s);
    assert_eq!(colors.len(), 10);
    assert_eq!(colors[0], SheepColor::Blue);
    assert_eq!(colors[1], SheepColor::Red);
    for c in &colors[2..] {
        assert_eq!(*c, SheepColor::White);
    }
    s.sheep_count = 6;
    s.blue_sheep_count = 2;
    s.red_sheep_count = 1;
    s.black_sheep_count = 1;
    s.gold_sheep_count = 1;
    assert_eq!(
        build_sheep_colors(&s),
        vec![
            SheepColor::Blue,
            SheepColor::Blue,
            SheepColor::Red,
            SheepColor::Black,
            SheepColor::Gold,
            SheepColor::White,
        ]
    );
}

#[test]
fn the_line_up_leaves_out_coloured_sheep_that_do_not_fit() {
    let mut s = GameState::default();
    s.sheep_count = 3;
    s.blue_sheep_count = 2;
    s.red_sheep_count = 2;
    s.gold_sheep_count = 5;
    assert_eq!(
        build_sheep_colors(&s),
        vec![SheepColor::Blue, SheepColor::Blue, SheepColor::Red]
    );
    s.sheep_count = 0;
    assert!(build_sheep_colors(&s).is_empty());
}

#[test]
fn frantic_herding_doubles_the_line_up() {
    let mut s = GameState::default();
    s.sheep_count = 4;
    s.blue_sheep_count = 1;
    s.red_sheep_count = 1;
    s.charms.push(Charm::HalfTimeDoubleSheep);
    assert_eq!(
        build_sheep_colors(&s),
        vec![
            SheepColor::Blue,
            SheepColor::Blue,
            SheepColor::Red,
            SheepColor::Red,
            SheepColor::White,
            SheepColor::White,
            SheepColor::White,
            SheepColor::White,
        ]
    );
    s.sheep_count = u16::MAX;
    s.blue_sheep_count = u16::MAX;
    s.red_sheep_count = u16::MAX;
    s.black_sheep_count = u16::MAX;
    s.gold_sheep_count = u16::MAX;
    let colors = build_sheep_colors(&s);
    assert_eq!(colors.len(), 131_070);
    assert_eq!(colors[131_069], SheepColor::Blue);
}

#[test]
fn a_round_opens_with_the_line_up_inside_the_arena() {
    let bounds = arena();
    let mut s = GameState::default();
    s.black_sheep_count = 2;
    s.charms.push(Charm::GoldenSheep);
    let mut stats = RoundStats { sheep_counted: 5, white_sheep_counted: 4, black_sheep_counted: 3 };
    let spawns = on_herding(&s, &mut stats, &bounds);
    assert_eq!(stats, RoundStats::default());
    assert_eq!(spawns.len(), 11);
    let lineup = build_sheep_colors(&s);
    for (i, spawn) in spawns.iter().enumerate() {
        assert!(bounds.min.x <= spawn.position.x && spawn.position.x <= bounds.max.x);
        assert!(bounds.min.y <= spawn.position.y && spawn.position.y <= bounds.max.y);
        assert_eq!(spawn.movement.intent, spawn.position);
        let planned = if i < 10 { lineup[i] } else { SheepColor::Gold };
        if planned == SheepColor::White {
            assert!(
                spawn.sheep.color == SheepColor::White || spawn.sheep.color == SheepColor::Black
            );
        } else {
            assert_eq!(spawn.sheep.color, planned);
        }
    }
}

#[test]
fn an_empty_flock_opens_nothing() {
    let mut s = GameState::default();
    s.sheep_count = 0;
    s.charms.push(Charm::GoldenSheep);
    let mut stats = RoundStats { sheep_counted: 1, white_sheep_counted: 0, black_sheep_counted: 0 };
    assert!(on_herding(&s, &mut stats, &arena()).is_empty());
    assert_eq!(stats, RoundStats::default());
}

#[test]
fn a_sheep_costs_one_coin() {
    let mut s = GameState::default();
    buy_sheep(&mut s);
    assert_eq!(s.sheep_count, 10);
    assert_eq!(s.money, 0);
    s.money = 2;
    buy_sheep(&mut s);
    buy_sheep(&mut s);
    buy_sheep(&mut s);
    assert_eq!(s.sheep_count, 12);
    assert_eq!(s.money, 0);
}

#[test]
fn selling_a_charm_pays_half_its_price() {
    let mut s = GameState::default();
    s.charms = vec![Charm::GoldenSheep, Charm::Ink, Charm::Cloning];
    sell_charm(1, &mut s);
    assert_eq!(s.charms, vec![Charm::GoldenSheep, Charm::Cloning]);
    assert_eq!(s.money, 1);
    sell_charm(0, &mut s);
    assert_eq!(s.charms, vec![Charm::Cloning]);
    assert_eq!(s.money, 3);
    sell_charm(1, &mut s);
    assert_eq!(s.charms, vec![Charm::Cloning]);
    assert_eq!(s.money, 3);
    sell_charm(0, &mut s);
    assert!(s.charms.is_empty());
    assert_eq!(s.money, 5);
}

#[test]
fn boosts_change_the_run() {
    let mut s = GameState::default();
    Boost::BlueSheep.apply(&mut s);
    assert_eq!(s.blue_sheep_count, 2);
    Boost::RedSheep.apply(&mut s);
    assert_eq!(s.red_sheep_count, 2);
    Boost::BarkPower.apply(&mut s);
    assert_eq!(s.player_bark_radius, 13_000);
    Boost::MaxCharms.apply_with(&mut s, false);
    assert_eq!(s.max_charms, 4);
    Boost::MaxCharms.apply_with(&mut s, true);
    assert_eq!(s.max_charms, 5);
    Boost::BlueSheep.apply_with(&mut s, true);
    assert_eq!(s.blue_sheep_count, 3);
    assert_eq!(s.max_charms, 5);
}

#[test]
fn the_dream_catcher_is_a_matter_of_luck() {
    let mut grew = false;
    let mut stayed = false;
    for _ in 0..400 {
        let mut s = GameState::default();
        Boost::MaxCharms.apply(&mut s);
        assert!(s.max_charms == 4 || s.max_charms == 5);
        if s.max_charms == 5 {
            grew = true;
        } else {
            stayed = true;
        }
    }
    assert!(grew && stayed);
}

#[test]
fn buying_an_item_empties_its_slot() {
    let mut s = GameState::default();
    s.money = 10;
    let mut offers = ShopOffers {
        items: vec![
            Some(ItemType::Boost(Boost::BarkPower)),
            Some(ItemType::Charm(Charm::Evolution)),
            None,
        ],
    };
    buy_shop_item(0, &mut s, &mut offers);
    assert_eq!(s.money, 8);
    assert_eq!(s.player_bark_radius, 13_000);
    assert_eq!(offers.items[0], None);
    buy_shop_item(1, &mut s, &mut offers);
    assert_eq!(s.money, 3);
    assert_eq!(s.charms, vec![Charm::Evolution]);
    assert_eq!(offers.items, vec![None, None, None]);
    buy_shop_item(0, &mut s, &mut offers);
    buy_shop_item(2, &mut s, &mut offers);
    buy_shop_item(3, &mut s, &mut offers);
    assert_eq!(s.money, 3);
}

#[test]
fn an_item_that_cannot_be_paid_or_kept_is_not_bought() {
    let mut s = GameState::default();
    s.money = 4;
    let mut offers = ShopOffers {
        items: vec![
            Some(ItemType::Charm(Charm::GoldenSheep)),
            Some(ItemType::Charm(Charm::Ink)),
            Some(ItemType::Boost(Boost::MaxCharms)),
        ],
    };
    buy_shop_item(0, &mut s, &mut offers);
    assert_eq!(s.money, 4);
    assert!(s.charms.is_empty());
    assert!(offers.items[0].is_some());
    s.max_charms = 0;
    buy_shop_item(1, &mut s, &mut offers);
    assert_eq!(s.money, 4);
    assert!(offers.items[1].is_some());
    buy_shop_item_with(2, &mut s, &mut offers, true);
    assert_eq!(s.money, 1);
    assert_eq!(s.max_charms, 1);
    assert_eq!(offers.items[2], None);
    buy_shop_item(1, &mut s, &mut offers);
    assert_eq!(s.money, 1);
    assert!(s.charms.is_empty());
}

#[test]
fn what_can_be_bought() {
    let mut s = GameState::default();
    let offers = ShopOffers {
        items: vec![
            Some(ItemType::Boost(Boost::MaxCharms)),
            Some(ItemType::Charm(Charm::Ink)),
            None,
        ],
    };
    s.money = 2;
    assert!(!can_buy(0, &s, &offers));
    assert!(!can_buy(1, &s, &offers));
    s.money = 3;
    assert!(can_buy(0, &s, &offers));
    assert!(can_buy(1, &s, &offers));
    assert!(!can_buy(2, &s, &offers));
    assert!(!can_buy(3, &s, &offers));
    s.charms = vec![Charm::Cloning; 4];
    assert!(can_buy(0, &s, &offers));
    assert!(!can_buy(1, &s, &offers));
}

#[test]
fn counters_have_room_until_they_are_full() {
    let mut s = GameState::default();
    assert!(round_fits(&s));
    for boost in [Boost::BlueSheep, Boost::RedSheep, Boost::BarkPower, Boost::MaxCharms] {
        assert!(boost_fits(boost, &s));
    }
    s.completed_rounds = u32::MAX;
    assert!(!round_fits(&s));
    s.completed_rounds = 0;
    s.point_target = 3_904_515_721;
    assert!(round_fits(&s));
    s.point_target = 3_904_515_722;
    assert!(!round_fits(&s));
    s.blue_sheep_count = u16::MAX;
    s.red_sheep_count = u16::MAX;
    s.player_bark_radius = u32::MAX - 999;
    s.max_charms = u8::MAX;
    for boost in [Boost::BlueSheep, Boost::RedSheep, Boost::BarkPower, Boost::MaxCharms] {
        assert!(!boost_fits(boost, &s));
    }
    s.player_bark_radius = u32::MAX - 1000;
    assert!(boost_fits(Boost::BarkPower, &s));
    Boost::MaxCharms.apply_with(&mut s, false);
    assert_eq!(s.max_charms, u8::MAX);
    let mut offers = ShopOffers { items: vec![Some(ItemType::Boost(Boost::BlueSheep))] };
    s.money = 1;
    buy_shop_item(0, &mut s, &mut offers);
    assert_eq!(s.money, 1);
    assert_eq!(s.blue_sheep_count, u16::MAX);
    assert!(offers.items[0].is_some());
}

#[test]
fn the_shop_stocks_three_items_or_four() {
    let mut s = GameState::default();
    let mut offers = ShopOffers::default();
    assert!(offers.items.is_empty());
    on_shop(&mut offers, &s);
    assert_eq!(offers.items.len(), 3);
    s.charms.push(Charm::ShopCount);
    on_shop(&mut offers, &s);
    assert_eq!(offers.items.len(), 4);
    assert!(matches!(offers.items[0], Some(ItemType::Boost(_))));
    for slot in &offers.items[1..] {
        match slot {
            Some(ItemType::Charm(c)) => assert_ne!(*c, Charm::ShopCount),
            _ => panic!("a slot without a charm"),
        }
    }
    offers.reroll(&Charm::pool(), 4);
    assert_eq!(offers.items.len(), 1);
}

#[test]
fn a_fresh_draw_costs_one_coin() {
    let mut s = GameState::default();
    let mut offers = ShopOffers { items: vec![None] };
    draw_new_items(&mut s, &mut offers);
    assert_eq!(offers.items, vec![None]);
    assert_eq!(s.money, 0);
    s.money = 2;
    draw_new_items(&mut s, &mut offers);
    assert_eq!(s.money, 1);
    assert_eq!(offers.items.len(), 3);
    assert!(offers.items.iter().all(|slot| slot.is_some()));
}
