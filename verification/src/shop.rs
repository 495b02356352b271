//! The shop between rounds: sheep, boosts and charms for coins.

use vstd::prelude::*;
use crate::chance::roll;
use crate::items::{Boost, Charm, ItemType};
use crate::state::{GameState, GameStateView};

verus! {

/// The state after a sheep was bought: one coin less, one sheep more.
/// Without a coin nothing is bought.
pub open spec fn spec_after_sheep_bought(state: GameStateView) -> GameStateView {
    if state.money > 0 {
        GameStateView {
            money: (state.money - 1) as u32,
            sheep_count: (state.sheep_count + 1) as u16,
            ..state
        }
    } else {
        state
    }
}

/// Buys one sheep for one coin, if there is a coin.
pub fn buy_sheep(game_state: &mut GameState)
    requires
        old(game_state).money > 0 ==> old(game_state).sheep_count < u16::MAX,
    ensures
        final(game_state)@ == spec_after_sheep_bought(old(game_state)@),
        old(game_state).wf() ==> final(game_state).wf(),
{
    if game_state.money < 1 {
        return ;
    }
    game_state.sheep_count += 1;
    game_state.money -= 1;
}

/// The state after the charm in `slot` was sold: the charm is gone, and
/// half its price, rounded down, is paid back. An empty slot sells
/// nothing.
pub open spec fn spec_after_charm_sold(state: GameStateView, slot: int) -> GameStateView {
    if 0 <= slot < state.charms.len() {
        GameStateView {
            charms: state.charms.remove(slot),
            money: (state.money + state.charms[slot].spec_refund()) as u32,
            ..state
        }
    } else {
        state
    }
}

/// Sells the charm in `slot`.
pub fn sell_charm(slot: usize, game_state: &mut GameState)
    requires
        slot < old(game_state).charms@.len() ==> old(game_state).money + old(game_state).charms@[slot as int].spec_refund() <= u32::MAX,
    ensures
        final(game_state)@ == spec_after_charm_sold(old(game_state)@, slot as int),
        old(game_state).wf() ==> final(game_state).wf(),
{
    if slot >= game_state.charms.len() {
        return ;
    }
    let charm = game_state.charms.remove(slot);
    game_state.money += charm.refund();
}

/// What the shop has on offer. A slot is empty once its item is bought.
#[derive(Debug)]
pub struct ShopOffers {
    pub items: Vec<Option<ItemType>>,
}

impl Default for ShopOffers {
    fn default() -> (offers: Self)
        ensures
            offers.items@.len() == 0,
    {
        ShopOffers { items: Vec::new() }
    }
}

/// How many items the shop puts on offer: three, and one more under the
/// charm that stocks it fully.
pub open spec fn spec_shop_size(state: GameStateView) -> int {
    if state.charms.contains(Charm::ShopCount) {
        4
    } else {
        3
    }
}

/// The slot holds a boost.
pub open spec fn spec_is_boost_offer(offer: Option<ItemType>) -> bool {
    match offer {
        Some(item) => item is Boost,
        None => false,
    }
}

/// The slot holds a charm, and one of `stock`.
pub open spec fn spec_is_charm_offer(offer: Option<ItemType>, stock: Seq<Charm>) -> bool {
    match offer {
        Some(item) => item.is_charm_of(stock),
        None => false,
    }
}

impl ShopOffers {
    /// The offers are a boost in the first slot and, after it, different
    /// charms that are on sale and not among `owned`; `count` items if the
    /// stock allows.
    pub open spec fn is_fresh(&self, owned: Seq<Charm>, count: int) -> bool {
        &&& self.items@.len() == ItemType::spec_offer_count(
            count,
            Charm::spec_available(owned).len() as int,
        )
        &&& spec_is_boost_offer(self.items@[0])
        &&& forall|i: int|
            1 <= i < self.items@.len() ==> spec_is_charm_offer(
                #[trigger] self.items@[i],
                Charm::spec_available(owned),
            )
        &&& self.items@.no_duplicates()
    }

    /// Replaces the offers by a fresh draw of `count` items.
    pub fn reroll(&mut self, owned_charms: &[Charm], count: usize)
        ensures
            final(self).is_fresh(owned_charms@, count as int),
    {
        let drawn = ItemType::random_unique(count, owned_charms);
        let mut items: Vec<Option<ItemType>> = Vec::new();
        let mut i: usize = 0;
        while i < drawn.len()
            invariant
                i <= drawn.len(),
                items.len() == i,
                forall|j: int| 0 <= j < i ==> items[j] == Some(drawn[j]),
            decreases drawn.len() - i,
        {
            items.push(Some(drawn[i]));
            i += 1;
        }
        proof {
            assert forall|a: int, b: int|
                0 <= a < items.len() && 0 <= b < items.len() && a != b implies items[a]
                != items[b] by {
                assert(drawn[a] != drawn[b]);
            }
        }
        self.items = items;
    }
}

/// Stocks the shop when the player enters it.
pub fn on_shop(shop_offers: &mut ShopOffers, game_state: &GameState)
    ensures
        final(shop_offers).is_fresh(game_state.charms@, spec_shop_size(game_state@)),
{
    let count: usize = if game_state.is_charm_active(Charm::ShopCount) {
        4
    } else {
        3
    };
    shop_offers.reroll(game_state.charms.as_slice(), count);
}

/// Pays one coin for a fresh draw of the shop's offers. Without a coin
/// nothing changes.
pub fn draw_new_items(game_state: &mut GameState, shop_offers: &mut ShopOffers)
    ensures
        old(game_state).money == 0 ==> final(game_state)@ == old(game_state)@ && final(shop_offers).items@ == old(shop_offers).items@,
        old(game_state).money > 0 ==> final(game_state)@ == (GameStateView {
            money: (old(game_state).money - 1) as u32,
            ..old(game_state)@
        }) && final(shop_offers).is_fresh(
            old(game_state).charms@,
            spec_shop_size(old(game_state)@),
        ),
{
    if game_state.money == 0 {
        return ;
    }
    game_state.money -= 1;
    on_shop(shop_offers, game_state);
}

/// The state after `boost` has taken effect. `lucky` is the outcome of the
/// roll that decides whether the dream catcher makes room for a charm.
pub open spec fn spec_boost_applied(boost: Boost, state: GameStateView, lucky: bool)
    -> GameStateView {
    match boost {
        Boost::BlueSheep => GameStateView {
            blue_sheep_count: (state.blue_sheep_count + 1) as u16,
            ..state
        },
        Boost::RedSheep => GameStateView {
            red_sheep_count: (state.red_sheep_count + 1) as u16,
            ..state
        },
        Boost::BarkPower => GameStateView {
            player_bark_radius: (state.player_bark_radius + 1000) as u32,
            ..state
        },
        Boost::MaxCharms => if lucky {
            GameStateView { max_charms: (state.max_charms + 1) as u8, ..state }
        } else {
            state
        },
    }
}

/// The counter that `boost` raises has room for it.
pub open spec fn spec_boost_fits(boost: Boost, state: GameStateView) -> bool {
    match boost {
        Boost::BlueSheep => state.blue_sheep_count < u16::MAX,
        Boost::RedSheep => state.red_sheep_count < u16::MAX,
        Boost::BarkPower => state.player_bark_radius + 1000 <= u32::MAX,
        Boost::MaxCharms => state.max_charms < u8::MAX,
    }
}

/// Whether `boost` raises a counter at all: every boost does, but the
/// dream catcher only when the roll is lucky.
pub open spec fn spec_boost_raises(boost: Boost, lucky: bool) -> bool {
    boost is MaxCharms ==> lucky
}

/// Whether the counter that `boost` raises has room for it.
pub fn boost_fits(boost: Boost, state: &GameState) -> (b: bool)
    ensures
        b == spec_boost_fits(boost, state@),
{
    match boost {
        Boost::BlueSheep => state.blue_sheep_count < u16::MAX,
        Boost::RedSheep => state.red_sheep_count < u16::MAX,
        Boost::BarkPower => state.player_bark_radius <= u32::MAX - 1000,
        Boost::MaxCharms => state.max_charms < u8::MAX,
    }
}

impl Boost {
    /// Lets the boost take effect, given the outcome of the roll for the
    /// dream catcher.
    pub fn apply_with(&self, state: &mut GameState, lucky: bool)
        requires
            spec_boost_raises(*self, lucky) ==> spec_boost_fits(*self, old(state)@),
        ensures
            final(state)@ == spec_boost_applied(*self, old(state)@, lucky),
            old(state).wf() ==> final(state).wf(),
    {
        match self {
            Boost::BlueSheep => state.blue_sheep_count += 1,
            Boost::RedSheep => state.red_sheep_count += 1,
            Boost::BarkPower => state.player_bark_radius += 1000,
            Boost::MaxCharms => {
                if lucky {
                    state.max_charms += 1;
                }
            },
        }
    }

    /// Lets the boost take effect. The dream catcher makes room for one
    /// more charm one time in four.
    pub fn apply(&self, state: &mut GameState)
        requires
            spec_boost_fits(*self, old(state)@),
        ensures
            exists|lucky: bool|
                final(state)@ == #[trigger] spec_boost_applied(*self, old(state)@, lucky),
            !(*self is MaxCharms) ==> final(state)@ == spec_boost_applied(
                *self,
                old(state)@,
                false,
            ),
            old(state).wf() ==> final(state).wf(),
    {
        let lucky = match self {
            Boost::MaxCharms => roll(1, 4),
            _ => false,
        };
        self.apply_with(state, lucky);
        assert(final(state)@ == spec_boost_applied(*self, old(state)@, lucky));
    }
}

/// The item in `slot`, if the slot exists and is not empty.
pub open spec fn spec_offer_at(offers: Seq<Option<ItemType>>, slot: int) -> Option<ItemType> {
    if 0 <= slot < offers.len() {
        offers[slot]
    } else {
        None
    }
}

/// Whether the item in `slot` can be bought: there is one, the money
/// suffices, and a charm finds room.
pub open spec fn spec_can_buy(state: GameStateView, offers: Seq<Option<ItemType>>, slot: int)
    -> bool {
    match spec_offer_at(offers, slot) {
        Some(item) => state.money >= item.spec_price() && (item is Charm ==> state.charms.len()
            < state.max_charms),
        None => false,
    }
}

/// Whether the item in `slot` can be bought.
pub fn can_buy(slot: usize, game_state: &GameState, shop_offers: &ShopOffers) -> (b: bool)
    ensures
        b == spec_can_buy(game_state@, shop_offers.items@, slot as int),
{
    if slot >= shop_offers.items.len() {
        return false;
    }
    match shop_offers.items[slot] {
        Some(item) => {
            let room = match item {
                ItemType::Boost(_) => true,
                ItemType::Charm(_) => !game_state.charms_full(),
            };
            game_state.money >= item.price() && room
        },
        None => false,
    }
}

/// If the item in `slot` can be bought and is a boost that raises a
/// counter, the counter has room for it.
pub open spec fn spec_needs_room(
    state: GameStateView,
    offers: Seq<Option<ItemType>>,
    slot: int,
    lucky: bool,
) -> bool {
    match spec_offer_at(offers, slot) {
        Some(ItemType::Boost(boost)) => spec_can_buy(state, offers, slot) && spec_boost_raises(
            boost,
            lucky,
        ) ==> spec_boost_fits(boost, state),
        _ => true,
    }
}

/// The state after `item` was bought: a boost has taken effect, a charm
/// has joined the charms, and the price is paid.
pub open spec fn spec_after_purchase(item: ItemType, state: GameStateView, lucky: bool)
    -> GameStateView {
    let gained = match item {
        ItemType::Boost(boost) => spec_boost_applied(boost, state, lucky),
        ItemType::Charm(charm) => GameStateView { charms: state.charms.push(charm), ..state },
    };
    GameStateView { money: (state.money - item.spec_price()) as u32, ..gained }
}

/// Buys the item in `slot`, given the outcome of the roll for the dream
/// catcher. If the item cannot be bought, nothing changes; otherwise its
/// slot is empty afterwards.
pub fn buy_shop_item_with(
    slot: usize,
    game_state: &mut GameState,
    shop_offers: &mut ShopOffers,
    lucky: bool,
)
    requires
        spec_needs_room(old(game_state)@, old(shop_offers).items@, slot as int, lucky),
    ensures
        spec_can_buy(old(game_state)@, old(shop_offers).items@, slot as int) ==> final(game_state)@ == spec_after_purchase(
            old(shop_offers).items@[slot as int]->0,
            old(game_state)@,
            lucky,
        ) && final(shop_offers).items@ == old(shop_offers).items@.update(
            slot as int,
            None::<ItemType>,
        ),
        !spec_can_buy(old(game_state)@, old(shop_offers).items@, slot as int) ==> final(game_state)@ == old(game_state)@ && final(shop_offers).items@ == old(shop_offers).items@,
        old(game_state).wf() ==> final(game_state).wf(),
{
    if slot >= shop_offers.items.len() {
        return ;
    }
    let item = match shop_offers.items[slot] {
        Some(item) => item,
        None => {
            return ;
        },
    };
    if game_state.money < item.price() {
        return ;
    }
    match item {
        ItemType::Boost(boost) => boost.apply_with(game_state, lucky),
        ItemType::Charm(charm) => {
            if game_state.charms_full() {
                return ;
            }
            game_state.charms.push(charm);
        },
    }
    game_state.money -= item.price();
    shop_offers.items.set(slot, None);
}

/// Buys the item in `slot`. If the item cannot be bought, nothing
/// changes; otherwise its slot is empty afterwards.
pub fn buy_shop_item(slot: usize, game_state: &mut GameState, shop_offers: &mut ShopOffers)
    requires
        spec_needs_room(old(game_state)@, old(shop_offers).items@, slot as int, true),
    ensures
        spec_can_buy(old(game_state)@, old(shop_offers).items@, slot as int) ==> (exists|
            lucky: bool,
        |
            final(game_state)@ == #[trigger] spec_after_purchase(
                old(shop_offers).items@[slot as int]->0,
                old(game_state)@,
                lucky,
            )) && final(shop_offers).items@ == old(shop_offers).items@.update(
            slot as int,
            None::<ItemType>,
        ),
        !spec_can_buy(old(game_state)@, old(shop_offers).items@, slot as int) ==> final(game_state)@ == old(game_state)@ && final(shop_offers).items@ == old(shop_offers).items@,
        old(game_state).wf() ==> final(game_state).wf(),
{
    let lucky = if slot < shop_offers.items.len() {
        match shop_offers.items[slot] {
            Some(ItemType::Boost(Boost::MaxCharms)) => roll(1, 4),
            _ => false,
        }
    } else {
        false
    };
    buy_shop_item_with(slot, game_state, shop_offers, lucky);
    proof {
        if spec_can_buy(old(game_state)@, old(shop_offers).items@, slot as int) {
            assert(final(game_state)@ == spec_after_purchase(
                old(shop_offers).items@[slot as int]->0,
                old(game_state)@,
                lucky,
            ));
        }
    }
}

} // verus!
