//! The shop's stock: one-off boosts and persistent charms.

use vstd::prelude::*;
use crate::chance::{draw_distinct, lemma_filter_keeps_distinct, not_in, random_index};

verus! {

/// A persistent rule change that stays with the player until it is sold.
#[derive(Debug, Copy, Clone, PartialEq, Eq, Hash, Structural)]
pub enum Charm {
    GoldenSheep,
    HalfTimeDoubleSheep,
    ChanceBlueOnBuy,
    ChanceRedOnBuy,
    Exponential,
    WellTrained,
    DoubleCountRadius,
    Evolution,
    Cloning,
    ShopCount,
    Ink,
    RedToGold,
}

impl Charm {
    /// The display name of each charm.
    pub open spec fn spec_name(&self) -> Seq<char> {
        match self {
            Charm::GoldenSheep => "Golden Sheep"@,
            Charm::HalfTimeDoubleSheep => "Frantic Herding"@,
            Charm::ChanceBlueOnBuy => "Blue Chance"@,
            Charm::ChanceRedOnBuy => "Red Chance"@,
            Charm::Exponential => "Mitosis"@,
            Charm::WellTrained => "Well Trained"@,
            Charm::DoubleCountRadius => "Eager"@,
            Charm::Evolution => "Evolution"@,
            Charm::Cloning => "Cloning"@,
            Charm::ShopCount => "Fully Stocked"@,
            Charm::Ink => "Ink"@,
            Charm::RedToGold => "Rose Gold"@,
        }
    }

    /// The shop price of each charm, in coins.
    pub open spec fn spec_price(&self) -> u32 {
        match self {
            Charm::GoldenSheep => 5,
            Charm::HalfTimeDoubleSheep => 4,
            Charm::ChanceBlueOnBuy => 3,
            Charm::ChanceRedOnBuy => 3,
            Charm::Exponential => 5,
            Charm::WellTrained => 4,
            Charm::DoubleCountRadius => 3,
            Charm::Evolution => 5,
            Charm::Cloning => 4,
            Charm::ShopCount => 3,
            Charm::Ink => 3,
            Charm::RedToGold => 4,
        }
    }

    /// What each charm does, as shown to the player.
    pub open spec fn spec_description(&self) -> Seq<char> {
        match self {
            Charm::GoldenSheep => "Spawn a golden sheep that gives 1 money when counted."@,
            Charm::HalfTimeDoubleSheep => "Halve the timer but spawn double the sheep."@,
            Charm::ChanceBlueOnBuy => "Each time you buy a sheep it has a 1 in 4 chance to be blue."@,
            Charm::ChanceRedOnBuy => "Each time you buy a sheep it has a 1 in 4 chance to be red."@,
            Charm::Exponential => "When a black sheep is counted, spawn two new black sheep at random locations."@,
            Charm::WellTrained => "Sheep come towards you when you bark."@,
            Charm::DoubleCountRadius => "Double the radius"@,
            Charm::Evolution => "White sheep score 0, but every 5th white sheep counted becomes permanently blue."@,
            Charm::Cloning => "For the first sheep counted each round, a clone will be permanently added to your flock."@,
            Charm::ShopCount => "The shop sells an additional item."@,
            Charm::Ink => "Double the probability that a white sheep will spawn as black."@,
            Charm::RedToGold => "If the first sheep to be counted is red, it turns gold."@,
        }
    }

    /// The charms the shop sells, in the order in which it lists them.
    pub open spec fn spec_pool() -> Seq<Charm> {
        seq![
            Charm::GoldenSheep,
            Charm::HalfTimeDoubleSheep,
            Charm::ChanceBlueOnBuy,
            Charm::ChanceRedOnBuy,
            Charm::Exponential,
            Charm::Evolution,
            Charm::Cloning,
            Charm::ShopCount,
            Charm::Ink,
            Charm::RedToGold,
        ]
    }

    /// The charms on sale that the player does not own yet, in shop order.
    pub open spec fn spec_available(owned: Seq<Charm>) -> Seq<Charm> {
        Charm::spec_pool().filter(not_in(owned))
    }

    /// What selling a charm pays back: half its price, rounded down.
    pub open spec fn spec_refund(&self) -> u32 {
        (self.spec_price() / 2) as u32
    }

    pub fn name(&self) -> (r: &'static str)
        ensures
            r@ == self.spec_name(),
    {
        match self {
            Charm::GoldenSheep => "Golden Sheep",
            Charm::HalfTimeDoubleSheep => "Frantic Herding",
            Charm::ChanceBlueOnBuy => "Blue Chance",
            Charm::ChanceRedOnBuy => "Red Chance",
            Charm::Exponential => "Mitosis",
            Charm::WellTrained => "Well Trained",
            Charm::DoubleCountRadius => "Eager",
            Charm::Evolution => "Evolution",
            Charm::Cloning => "Cloning",
            Charm::ShopCount => "Fully Stocked",
            Charm::Ink => "Ink",
            Charm::RedToGold => "Rose Gold",
        }
    }

    pub fn description(&self) -> (r: &'static str)
        ensures
            r@ == self.spec_description(),
    {
        match self {
            Charm::GoldenSheep => "Spawn a golden sheep that gives 1 money when counted.",
            Charm::HalfTimeDoubleSheep => "Halve the timer but spawn double the sheep.",
            Charm::ChanceBlueOnBuy => "Each time you buy a sheep it has a 1 in 4 chance to be blue.",
            Charm::ChanceRedOnBuy => "Each time you buy a sheep it has a 1 in 4 chance to be red.",
            Charm::Exponential => "When a black sheep is counted, spawn two new black sheep at random locations.",
            Charm::WellTrained => "Sheep come towards you when you bark.",
            Charm::DoubleCountRadius => "Double the radius",
            Charm::Evolution => "White sheep score 0, but every 5th white sheep counted becomes permanently blue.",
            Charm::Cloning => "For the first sheep counted each round, a clone will be permanently added to your flock.",
            Charm::ShopCount => "The shop sells an additional item.",
            Charm::Ink => "Double the probability that a white sheep will spawn as black.",
            Charm::RedToGold => "If the first sheep to be counted is red, it turns gold.",
        }
    }

    #[verifier::when_used_as_spec(spec_price)]
    pub fn price(&self) -> (p: u32)
        ensures
            p == self.spec_price(),
    {
        match self {
            Charm::GoldenSheep => 5,
            Charm::HalfTimeDoubleSheep => 4,
            Charm::ChanceBlueOnBuy => 3,
            Charm::ChanceRedOnBuy => 3,
            Charm::Exponential => 5,
            Charm::WellTrained => 4,
            Charm::DoubleCountRadius => 3,
            Charm::Evolution => 5,
            Charm::Cloning => 4,
            Charm::ShopCount => 3,
            Charm::Ink => 3,
            Charm::RedToGold => 4,
        }
    }

    /// What the shop pays when the charm is sold back.
    #[verifier::when_used_as_spec(spec_refund)]
    pub fn refund(&self) -> (p: u32)
        ensures
            p == self.spec_refund(),
    {
        self.price() / 2
    }

    /// The charms the shop sells.
    pub fn pool() -> (v: Vec<Charm>)
        ensures
            v@ == Charm::spec_pool(),
    {
        let v = vec![
            Charm::GoldenSheep,
            Charm::HalfTimeDoubleSheep,
            Charm::ChanceBlueOnBuy,
            Charm::ChanceRedOnBuy,
            Charm::Exponential,
            Charm::Evolution,
            Charm::Cloning,
            Charm::ShopCount,
            Charm::Ink,
            Charm::RedToGold,
        ];
        assert(v@ =~= Charm::spec_pool());
        v
    }

    /// Whether `charm` occurs in `list`.
    pub fn is_in(list: &[Charm], charm: Charm) -> (b: bool)
        ensures
            b == list@.contains(charm),
    {
        let mut i: usize = 0;
        while i < list.len()
            invariant
                i <= list.len(),
                forall|j: int| 0 <= j < i ==> list@[j] != charm,
            decreases list.len() - i,
        {
            if list[i] == charm {
                return true;
            }
            i += 1;
        }
        false
    }

    /// The charms on sale that are not among `owned`, in shop order.
    pub fn available(owned: &[Charm]) -> (v: Vec<Charm>)
        ensures
            v@ == Charm::spec_available(owned@),
            v@.no_duplicates(),
    {
        let pool = Charm::pool();
        let ghost pred = not_in(owned@);
        let mut v: Vec<Charm> = Vec::new();
        let mut i: usize = 0;
        proof {
            reveal(Seq::filter);
            assert(pool@.take(0).filter(pred) =~= Seq::<Charm>::empty());
        }
        while i < pool.len()
            invariant
                i <= pool.len(),
                pool@ == Charm::spec_pool(),
                pred == not_in(owned@),
                v@ == pool@.take(i as int).filter(pred),
            decreases pool.len() - i,
        {
            let c = pool[i];
            let taken = Charm::is_in(owned, c);
            proof {
                assert(pool@.take(i as int + 1) =~= pool@.take(i as int).push(c));
                pool@.take(i as int).lemma_filter_push(c, pred);
            }
            if !taken {
                v.push(c);
            }
            i += 1;
        }
        proof {
            assert(pool@.take(pool.len() as int) =~= pool@);
            lemma_charm_pool_distinct();
            lemma_filter_keeps_distinct(Charm::spec_pool(), pred);
        }
        v
    }
}

/// The shop lists no charm twice.
pub proof fn lemma_charm_pool_distinct()
    ensures
        Charm::spec_pool().no_duplicates(),
        Charm::spec_pool().len() == 10,
{
    let p = Charm::spec_pool();
    assert(p[0] == Charm::GoldenSheep && p[1] == Charm::HalfTimeDoubleSheep && p[2]
        == Charm::ChanceBlueOnBuy && p[3] == Charm::ChanceRedOnBuy && p[4] == Charm::Exponential
        && p[5] == Charm::Evolution && p[6] == Charm::Cloning && p[7] == Charm::ShopCount && p[8]
        == Charm::Ink && p[9] == Charm::RedToGold);
}

/// A one-off purchase that changes the flock or the player for the rest of
/// the run.
#[derive(Debug, Copy, Clone, PartialEq, Eq, Hash, Structural)]
pub enum Boost {
    BlueSheep,
    RedSheep,
    BarkPower,
    MaxCharms,
}

impl Boost {
    /// The boosts the shop sells, in the order in which it lists them.
    pub open spec fn spec_pool() -> Seq<Boost> {
        seq![Boost::BlueSheep, Boost::RedSheep, Boost::BarkPower, Boost::MaxCharms]
    }

    pub open spec fn spec_name(&self) -> Seq<char> {
        match self {
            Boost::BlueSheep => "Blue Sheep"@,
            Boost::RedSheep => "Red Sheep"@,
            Boost::BarkPower => "Bark Power"@,
            Boost::MaxCharms => "Dream Catcher"@,
        }
    }

    pub open spec fn spec_description(&self) -> Seq<char> {
        match self {
            Boost::BlueSheep => "Apply blue wool to one of your sheep (5 points)"@,
            Boost::RedSheep => "Apply red wool to one of your sheep (points x1.5)"@,
            Boost::BarkPower => "Your bark affects sheep in a wider area."@,
            Boost::MaxCharms => "1 in 4 chance to increase the maximum number of charms."@,
        }
    }

    pub open spec fn spec_price(&self) -> u32 {
        match self {
            Boost::BlueSheep => 2,
            Boost::RedSheep => 2,
            Boost::BarkPower => 2,
            Boost::MaxCharms => 3,
        }
    }

    pub fn name(&self) -> (r: &'static str)
        ensures
            r@ == self.spec_name(),
    {
        match self {
            Boost::BlueSheep => "Blue Sheep",
            Boost::RedSheep => "Red Sheep",
            Boost::BarkPower => "Bark Power",
            Boost::MaxCharms => "Dream Catcher",
        }
    }

    pub fn description(&self) -> (r: &'static str)
        ensures
            r@ == self.spec_description(),
    {
        match self {
            Boost::BlueSheep => "Apply blue wool to one of your sheep (5 points)",
            Boost::RedSheep => "Apply red wool to one of your sheep (points x1.5)",
            Boost::BarkPower => "Your bark affects sheep in a wider area.",
            Boost::MaxCharms => "1 in 4 chance to increase the maximum number of charms.",
        }
    }

    #[verifier::when_used_as_spec(spec_price)]
    pub fn price(&self) -> (p: u32)
        ensures
            p == self.spec_price(),
    {
        match self {
            Boost::BlueSheep => 2,
            Boost::RedSheep => 2,
            Boost::BarkPower => 2,
            Boost::MaxCharms => 3,
        }
    }

    /// The boost at position `index` of the shop's list.
    pub fn at(index: usize) -> (b: Boost)
        requires
            index < 4,
        ensures
            b == Boost::spec_pool()[index as int],
    {
        if index == 0 {
            Boost::BlueSheep
        } else if index == 1 {
            Boost::RedSheep
        } else if index == 2 {
            Boost::BarkPower
        } else {
            Boost::MaxCharms
        }
    }
}

/// Something the shop offers for sale.
#[derive(Debug, Copy, Clone, PartialEq, Eq, Hash, Structural)]
pub enum ItemType {
    Boost(Boost),
    Charm(Charm),
}

impl ItemType {
    pub open spec fn spec_name(&self) -> Seq<char> {
        match self {
            ItemType::Boost(boost) => boost.spec_name(),
            ItemType::Charm(charm) => charm.spec_name(),
        }
    }

    pub open spec fn spec_description(&self) -> Seq<char> {
        match self {
            ItemType::Boost(boost) => boost.spec_description(),
            ItemType::Charm(charm) => charm.spec_description(),
        }
    }

    pub open spec fn spec_price(&self) -> u32 {
        match self {
            ItemType::Boost(boost) => boost.spec_price(),
            ItemType::Charm(charm) => charm.spec_price(),
        }
    }

    pub open spec fn spec_kind_label(&self) -> Seq<char> {
        match self {
            ItemType::Boost(_) => "Boost"@,
            ItemType::Charm(_) => "Charm"@,
        }
    }

    /// The item is a charm, and one of `list`.
    pub open spec fn is_charm_of(&self, list: Seq<Charm>) -> bool {
        match self {
            ItemType::Boost(_) => false,
            ItemType::Charm(charm) => list.contains(*charm),
        }
    }

    /// How many items a draw of `count` hands out when `available` charms
    /// can still be bought: one boost always, then charms while both the
    /// request and the stock last.
    pub open spec fn spec_offer_count(count: int, available: int) -> int {
        if count <= 1 {
            1
        } else if count - 1 <= available {
            count
        } else {
            available + 1
        }
    }

    pub fn name(&self) -> (r: &'static str)
        ensures
            r@ == self.spec_name(),
    {
        match self {
            ItemType::Boost(boost) => boost.name(),
            ItemType::Charm(charm) => charm.name(),
        }
    }

    pub fn description(&self) -> (r: &'static str)
        ensures
            r@ == self.spec_description(),
    {
        match self {
            ItemType::Boost(boost) => boost.description(),
            ItemType::Charm(charm) => charm.description(),
        }
    }

    #[verifier::when_used_as_spec(spec_price)]
    pub fn price(&self) -> (p: u32)
        ensures
            p == self.spec_price(),
    {
        match self {
            ItemType::Boost(boost) => boost.price(),
            ItemType::Charm(charm) => charm.price(),
        }
    }

    pub fn kind_label(&self) -> (r: &'static str)
        ensures
            r@ == self.spec_kind_label(),
    {
        match self {
            ItemType::Boost(_) => "Boost",
            ItemType::Charm(_) => "Charm",
        }
    }

    /// Draws the shop's offers: one random boost, then random charms that
    /// the player does not own, no charm twice, until `count` items are
    /// drawn or no charm is left.
    pub fn random_unique(count: usize, owned_charms: &[Charm]) -> (items: Vec<ItemType>)
        ensures
            items.len() == ItemType::spec_offer_count(
                count as int,
                Charm::spec_available(owned_charms@).len() as int,
            ),
            items[0] is Boost,
            forall|i: int|
                1 <= i < items.len() ==> (#[trigger] items[i]).is_charm_of(
                    Charm::spec_available(owned_charms@),
                ),
            items@.no_duplicates(),
    {
        let mut items: Vec<ItemType> = Vec::new();
        let boost = Boost::at(random_index(4));
        items.push(ItemType::Boost(boost));
        let mut available = Charm::available(owned_charms);
        let wanted: usize = if count <= 1 { 0 } else { count - 1 };
        let charms = draw_distinct(&mut available, wanted);
        let mut i: usize = 0;
        while i < charms.len()
            invariant
                i <= charms.len(),
                charms@.no_duplicates(),
                forall|c: Charm|
                    charms@.contains(c) ==> Charm::spec_available(owned_charms@).contains(c),
                items.len() == i + 1,
                items[0] is Boost,
                forall|j: int| 1 <= j < items.len() ==> items[j] == ItemType::Charm(charms[j - 1]),
            decreases charms.len() - i,
        {
            items.push(ItemType::Charm(charms[i]));
            i += 1;
        }
        proof {
            assert forall|j: int| 1 <= j < items.len() implies (#[trigger] items[j]).is_charm_of(
                Charm::spec_available(owned_charms@),
            ) by {
                assert(charms@.contains(charms[j - 1]));
            }
            assert forall|a: int, b: int|
                0 <= a < items.len() && 0 <= b < items.len() && a != b implies items[a]
                != items[b] by {
                if a >= 1 && b >= 1 {
                    assert(charms[a - 1] != charms[b - 1]);
                }
            }
        }
        items
    }
}

} // verus!
