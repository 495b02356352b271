use herding::items::{Boost, Charm, ItemType};
use herding::level::GoalTextMessage;
use herding::modifiers::{Modifier, ModifierDifficulty};

#[test]
fn charm_prices_match_the_shop_list() {
    assert_eq!(Charm::GoldenSheep.price(), 5);
    assert_eq!(Charm::HalfTimeDoubleSheep.price(), 4);
    assert_eq!(Charm::ChanceBlueOnBuy.price(), 3);
    assert_eq!(Charm::ChanceRedOnBuy.price(), 3);
    assert_eq!(Charm::Exponential.price(), 5);
    assert_eq!(Charm::WellTrained.price(), 4);
    assert_eq!(Charm::DoubleCountRadius.price(), 3);
    assert_eq!(Charm::Evolution.price(), 5);
    assert_eq!(Charm::Cloning.price(), 4);
    assert_eq!(Charm::ShopCount.price(), 3);
    assert_eq!(Charm::Ink.price(), 3);
    assert_eq!(Charm::RedToGold.price(), 4);
}

#[test]
fn charm_refund_is_half_the_price_rounded_down() {
    assert_eq!(Charm::GoldenSheep.refund(), 2);
    assert_eq!(Charm::HalfTimeDoubleSheep.refund(), 2);
    assert_eq!(Charm::Ink.refund(), 1);
}

#[test]
fn charm_names_and_descriptions() {
    assert_eq!(Charm::GoldenSheep.name(), "Golden Sheep");
    assert_eq!(Charm::HalfTimeDoubleSheep.name(), "Frantic Herding");
    assert_eq!(Charm::Exponential.name(), "Mitosis");
    assert_eq!(Charm::DoubleCountRadius.name(), "Eager");
    assert_eq!(Charm::ShopCount.name(), "Fully Stocked");
    assert_eq!(Charm::RedToGold.name(), "Rose Gold");
    assert_eq!(Charm::WellTrained.description(), "Sheep come towards you when you bark.");
    assert_eq!(
        Charm::Ink.description(),
        "Double the probability that a white sheep will spawn as black."
    );
}

#[test]
fn boost_table() {
    assert_eq!(Boost::BlueSheep.name(), "Blue Sheep");
    assert_eq!(Boost::RedSheep.name(), "Red Sheep");
    assert_eq!(Boost::BarkPower.name(), "Bark Power");
    assert_eq!(Boost::MaxCharms.name(), "Dream Catcher");
    assert_eq!(Boost::BlueSheep.price(), 2);
    assert_eq!(Boost::RedSheep.price(), 2);
    assert_eq!(Boost::BarkPower.price(), 2);
    assert_eq!(Boost::MaxCharms.price(), 3);
    assert_eq!(
        Boost::MaxCharms.description(),
        "1 in 4 chance to increase the maximum number of charms."
    );
    assert_eq!(Boost::at(0), Boost::BlueSheep);
    assert_eq!(Boost::at(3), Boost::MaxCharms);
}

#[test]
fn item_type_forwards_to_its_content() {
    let boost = ItemType::Boost(Boost::BarkPower);
    let charm = ItemType::Charm(Charm::Evolution);
    assert_eq!(boost.name(), "Bark Power");
    assert_eq!(charm.name(), "Evolution");
    assert_eq!(boost.price(), 2);
    assert_eq!(charm.price(), 5);
    assert_eq!(boost.kind_label(), "Boost");
    assert_eq!(charm.kind_label(), "Charm");
    assert_eq!(boost.description(), Boost::BarkPower.description());
    assert_eq!(charm.description(), Charm::Evolution.description());
}

#[test]
fn shop_pool_leaves_out_the_charms_that_are_not_on_sale() {
    let pool = Charm::pool();
    assert_eq!(pool.len(), 10);
    assert!(!pool.contains(&Charm::WellTrained));
    assert!(!pool.contains(&Charm::DoubleCountRadius));
    assert_eq!(pool[0], Charm::GoldenSheep);
    assert_eq!(pool[9], Charm::RedToGold);
}

#[test]
fn available_charms_skip_the_owned_ones_in_shop_order() {
    let owned = vec![Charm::Exponential, Charm::GoldenSheep, Charm::WellTrained];
    let available = Charm::available(&owned);
    assert_eq!(
        available,
        vec![
            Charm::HalfTimeDoubleSheep,
            Charm::ChanceBlueOnBuy,
            Charm::ChanceRedOnBuy,
            Charm::Evolution,
            Charm::Cloning,
            Charm::ShopCount,
            Charm::Ink,
            Charm::RedToGold,
        ]
    );
    assert!(Charm::is_in(&owned, Charm::Exponential));
    assert!(!Charm::is_in(&owned, Charm::Ink));
}

#[test]
fn random_unique_gives_one_boost_and_distinct_unowned_charms() {
    let owned = vec![Charm::Ink, Charm::Cloning];
    for _ in 0..200 {
        let items = ItemType::random_unique(4, &owned);
        assert_eq!(items.len(), 4);
        assert!(matches!(items[0], ItemType::Boost(_)));
        for i in 1..items.len() {
            match items[i] {
                ItemType::Charm(c) => {
                    assert!(!owned.contains(&c));
                    assert!(Charm::pool().contains(&c));
                }
                ItemType::Boost(_) => panic!("a boost after the first slot"),
            }
            for j in 0..i {
                assert_ne!(items[i], items[j]);
            }
        }
    }
}

#[test]
fn random_unique_stops_when_the_stock_runs_out() {
    let mut owned = Charm::pool();
    owned.pop();
    let items = ItemType::random_unique(5, &owned);
    assert_eq!(items.len(), 2);
    assert_eq!(items[1], ItemType::Charm(Charm::RedToGold));
    let all = Charm::pool();
    assert_eq!(ItemType::random_unique(3, &all).len(), 1);
}

#[test]
fn random_unique_always_offers_a_boost() {
    assert_eq!(ItemType::random_unique(0, &[]).len(), 1);
    assert_eq!(ItemType::random_unique(1, &[]).len(), 1);
    assert_eq!(ItemType::random_unique(11, &[]).len(), 11);
    assert_eq!(ItemType::random_unique(50, &[]).len(), 11);
}

#[test]
fn random_unique_draws_every_boost_sooner_or_later() {
    let mut seen = [false; 4];
    for _ in 0..400 {
        match ItemType::random_unique(1, &[])[0] {
            ItemType::Boost(Boost::BlueSheep) => seen[0] = true,
            ItemType::Boost(Boost::RedSheep) => seen[1] = true,
            ItemType::Boost(Boost::BarkPower) => seen[2] = true,
            ItemType::Boost(Boost::MaxCharms) => seen[3] = true,
            ItemType::Charm(_) => panic!("a charm in the first slot"),
        }
    }
    assert_eq!(seen, [true; 4]);
}

#[test]
fn modifier_names_and_descriptions() {
    assert_eq!(Modifier::HyperSheep.name(), "Hyper Sheep");
    assert_eq!(Modifier::MoonGravity.name(), "Moon Gravity");
    assert_eq!(Modifier::Ufo.name(), "UFO");
    assert_eq!(Modifier::Space.name(), "Space");
    assert_eq!(Modifier::TeleportingBark.name(), "Teleporting Bark");
    assert_eq!(Modifier::Vignette.name(), "Brain Fog");
    assert_eq!(Modifier::Night.name(), "Night time");
    assert_eq!(Modifier::SheepSphere.name(), "Rollin'");
    assert_eq!(Modifier::DogSphere.name(), "Spherical");
    assert_eq!(Modifier::FeverDream.name(), "Feverdream");
    assert_eq!(Modifier::Night.description(), "The sheep start asleep.");
    assert_eq!(
        Modifier::FeverDream.description(),
        "Increases the intensity of certain other active modifiers"
    );
}

#[test]
fn modifier_difficulty_decides_the_coins() {
    assert_eq!(Modifier::HyperSheep.difficulty(), ModifierDifficulty::Easy);
    assert_eq!(Modifier::DogSphere.difficulty(), ModifierDifficulty::Easy);
    assert_eq!(Modifier::MoonGravity.difficulty(), ModifierDifficulty::Medium);
    assert_eq!(Modifier::Night.difficulty(), ModifierDifficulty::Medium);
    assert_eq!(Modifier::SheepSphere.difficulty(), ModifierDifficulty::Medium);
    assert_eq!(Modifier::Ufo.difficulty(), ModifierDifficulty::Hard);
    assert_eq!(Modifier::Space.difficulty(), ModifierDifficulty::Hard);
    assert_eq!(Modifier::TeleportingBark.difficulty(), ModifierDifficulty::Hard);
    assert_eq!(Modifier::Vignette.difficulty(), ModifierDifficulty::Hard);
    assert_eq!(Modifier::FeverDream.difficulty(), ModifierDifficulty::Hard);
    assert_eq!(ModifierDifficulty::Easy.coins_given(), 4);
    assert_eq!(ModifierDifficulty::Medium.coins_given(), 5);
    assert_eq!(ModifierDifficulty::Hard.coins_given(), 6);
}

#[test]
fn modifier_pool_and_candidates() {
    let pool = Modifier::pool();
    assert_eq!(pool.len(), 10);
    assert_eq!(pool[0], Modifier::HyperSheep);
    assert_eq!(pool[9], Modifier::FeverDream);
    let active = vec![Modifier::Ufo, Modifier::Night];
    let candidates = Modifier::candidates(&active);
    assert_eq!(candidates.len(), 8);
    assert!(!candidates.contains(&Modifier::Ufo));
    assert!(!candidates.contains(&Modifier::Night));
    assert!(Modifier::is_in(&active, Modifier::Ufo));
    assert!(!Modifier::is_in(&active, Modifier::Space));
    for _ in 0..50 {
        assert!(pool.contains(&Modifier::sample()));
    }
    for (index, modifier) in pool.iter().enumerate() {
        assert_eq!(Modifier::at(index), *modifier);
    }
    assert_eq!(Modifier::at(2), Modifier::Ufo);
    assert_eq!(Modifier::at(9), Modifier::FeverDream);
}

#[test]
fn a_modifier_sample_reaches_the_whole_pool() {
    let mut seen: Vec<Modifier> = Vec::new();
    for _ in 0..600 {
        let m = Modifier::sample();
        if !seen.contains(&m) {
            seen.push(m);
        }
    }
    assert_eq!(seen.len(), 10);
}

#[test]
fn goal_notes_have_their_words_and_colours() {
    assert_eq!(GoalTextMessage::Cloned.text(), "Cloned");
    assert_eq!(GoalTextMessage::EvolvedToBlue.text(), "Evolved to blue");
    assert_eq!(GoalTextMessage::ZeroPoints.text(), "0 points");
    assert_eq!(GoalTextMessage::PlusOnePoint.text(), "+1 point");
    assert_eq!(GoalTextMessage::PlusFivePoints.text(), "+5 points");
    assert_eq!(GoalTextMessage::PointsTimesOneAndAHalf.text(), "points x1.5");
    assert_eq!(GoalTextMessage::PlusOneGold.text(), "+1 gold");
    assert_eq!(GoalTextMessage::PlusOnePoint.color(), None);
    assert_eq!(GoalTextMessage::Cloned.color(), Some((550, 850, 950)));
    assert_eq!(GoalTextMessage::PlusOneGold.color(), Some((1000, 820, 200)));
}
