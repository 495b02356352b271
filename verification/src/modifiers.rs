//! Round modifiers: temporary rule changes the player picks between rounds.

use vstd::prelude::*;
use crate::chance::{lemma_filter_keeps_distinct, not_in, random_index};

verus! {

/// A temporary rule change. At most three are active at a time.
#[derive(Debug, Copy, Clone, PartialEq, Eq, Hash, Structural)]
pub enum Modifier {
    HyperSheep,
    MoonGravity,
    Ufo,
    Space,
    TeleportingBark,
    Vignette,
    Night,
    SheepSphere,
    DogSphere,
    FeverDream,
}

/// How hard a modifier makes a round, which decides what it pays.
#[derive(Debug, Copy, Clone, PartialEq, Eq, Hash, Structural)]
pub enum ModifierDifficulty {
    Easy,
    Medium,
    Hard,
}

impl ModifierDifficulty {
    pub open spec fn spec_coins_given(&self) -> u8 {
        match self {
            ModifierDifficulty::Easy => 4,
            ModifierDifficulty::Medium => 5,
            ModifierDifficulty::Hard => 6,
        }
    }

    /// The coins paid for taking on a modifier of this difficulty.
    #[verifier::when_used_as_spec(spec_coins_given)]
    pub fn coins_given(&self) -> (c: u8)
        ensures
            c == self.spec_coins_given(),
    {
        match self {
            ModifierDifficulty::Easy => 4,
            ModifierDifficulty::Medium => 5,
            ModifierDifficulty::Hard => 6,
        }
    }
}

impl Modifier {
    /// Every modifier, in the order of declaration.
    pub open spec fn spec_pool() -> Seq<Modifier> {
        seq![
            Modifier::HyperSheep,
            Modifier::MoonGravity,
            Modifier::Ufo,
            Modifier::Space,
            Modifier::TeleportingBark,
            Modifier::Vignette,
            Modifier::Night,
            Modifier::SheepSphere,
            Modifier::DogSphere,
            Modifier::FeverDream,
        ]
    }

    pub open spec fn spec_name(&self) -> Seq<char> {
        match self {
            Modifier::HyperSheep => "Hyper Sheep"@,
            Modifier::MoonGravity => "Moon Gravity"@,
            Modifier::Ufo => "UFO"@,
            Modifier::Space => "Space"@,
            Modifier::TeleportingBark => "Teleporting Bark"@,
            Modifier::Vignette => "Brain Fog"@,
            Modifier::Night => "Night time"@,
            Modifier::SheepSphere => "Rollin'"@,
            Modifier::DogSphere => "Spherical"@,
            Modifier::FeverDream => "Feverdream"@,
        }
    }

    pub open spec fn spec_description(&self) -> Seq<char> {
        match self {
            Modifier::HyperSheep => "Sheep move faster and hop higher."@,
            Modifier::MoonGravity => "Lower gravity makes sheep floaty."@,
            Modifier::Ufo => "A UFO will fly around and occasionally abduct a sheep."@,
            Modifier::Space => "You fly around with floaty, frictionless movement."@,
            Modifier::TeleportingBark => "Every time you bark you'll be teleported to a random location."@,
            Modifier::Vignette => "The clouds around the edges of the screen grow bigger, restricting your visibility."@,
            Modifier::Night => "The sheep start asleep."@,
            Modifier::SheepSphere => "Sheep roll around like a ball."@,
            Modifier::DogSphere => "You roll around like a ball."@,
            Modifier::FeverDream => "Increases the intensity of certain other active modifiers"@,
        }
    }

    pub open spec fn spec_difficulty(&self) -> ModifierDifficulty {
        match self {
            Modifier::HyperSheep => ModifierDifficulty::Easy,
            Modifier::MoonGravity => ModifierDifficulty::Medium,
            Modifier::Ufo => ModifierDifficulty::Hard,
            Modifier::Space => ModifierDifficulty::Hard,
            Modifier::TeleportingBark => ModifierDifficulty::Hard,
            Modifier::Vignette => ModifierDifficulty::Hard,
            Modifier::Night => ModifierDifficulty::Medium,
            Modifier::SheepSphere => ModifierDifficulty::Medium,
            Modifier::DogSphere => ModifierDifficulty::Easy,
            Modifier::FeverDream => ModifierDifficulty::Hard,
        }
    }

    pub fn name(&self) -> (r: &'static str)
        ensures
            r@ == self.spec_name(),
    {
        match self {
            Modifier::HyperSheep => "Hyper Sheep",
            Modifier::MoonGravity => "Moon Gravity",
            Modifier::Ufo => "UFO",
            Modifier::Space => "Space",
            Modifier::TeleportingBark => "Teleporting Bark",
            Modifier::Vignette => "Brain Fog",
            Modifier::Night => "Night time",
            Modifier::SheepSphere => "Rollin'",
            Modifier::DogSphere => "Spherical",
            Modifier::FeverDream => "Feverdream",
        }
    }

    pub fn description(&self) -> (r: &'static str)
        ensures
            r@ == self.spec_description(),
    {
        match self {
            Modifier::HyperSheep => "Sheep move faster and hop higher.",
            Modifier::MoonGravity => "Lower gravity makes sheep floaty.",
            Modifier::Ufo => "A UFO will fly around and occasionally abduct a sheep.",
            Modifier::Space => "You fly around with floaty, frictionless movement.",
            Modifier::TeleportingBark => "Every time you bark you'll be teleported to a random location.",
            Modifier::Vignette => "The clouds around the edges of the screen grow bigger, restricting your visibility.",
            Modifier::Night => "The sheep start asleep.",
            Modifier::SheepSphere => "Sheep roll around like a ball.",
            Modifier::DogSphere => "You roll around like a ball.",
            Modifier::FeverDream => "Increases the intensity of certain other active modifiers",
        }
    }

    #[verifier::when_used_as_spec(spec_difficulty)]
    pub fn difficulty(&self) -> (d: ModifierDifficulty)
        ensures
            d == self.spec_difficulty(),
    {
        match self {
            Modifier::HyperSheep => ModifierDifficulty::Easy,
            Modifier::MoonGravity => ModifierDifficulty::Medium,
            Modifier::Ufo => ModifierDifficulty::Hard,
            Modifier::Space => ModifierDifficulty::Hard,
            Modifier::TeleportingBark => ModifierDifficulty::Hard,
            Modifier::Vignette => ModifierDifficulty::Hard,
            Modifier::Night => ModifierDifficulty::Medium,
            Modifier::SheepSphere => ModifierDifficulty::Medium,
            Modifier::DogSphere => ModifierDifficulty::Easy,
            Modifier::FeverDream => ModifierDifficulty::Hard,
        }
    }

    /// The list of all modifiers that a draw picks from.
    pub fn pool() -> (v: Vec<Modifier>)
        ensures
            v@ == Modifier::spec_pool(),
    {
        let v = vec![
            Modifier::HyperSheep,
            Modifier::MoonGravity,
            Modifier::Ufo,
            Modifier::Space,
            Modifier::TeleportingBark,
            Modifier::Vignette,
            Modifier::Night,
            Modifier::SheepSphere,
            Modifier::DogSphere,
            Modifier::FeverDream,
        ];
        assert(v@ =~= Modifier::spec_pool());
        v
    }

    /// Whether `modifier` occurs in `list`.
    pub fn is_in(list: &[Modifier], modifier: Modifier) -> (b: bool)
        ensures
            b == list@.contains(modifier),
    {
        let mut i: usize = 0;
        while i < list.len()
            invariant
                i <= list.len(),
                forall|j: int| 0 <= j < i ==> list@[j] != modifier,
            decreases list.len() - i,
        {
            if list[i] == modifier {
                return true;
            }
            i += 1;
        }
        false
    }

    /// The modifiers that are not among `active`, in the order of the pool.
    pub fn candidates(active: &[Modifier]) -> (v: Vec<Modifier>)
        ensures
            v@ == Modifier::spec_pool().filter(not_in(active@)),
            v@.no_duplicates(),
    {
        let pool = Modifier::pool();
        let ghost pred = not_in(active@);
        let mut v: Vec<Modifier> = Vec::new();
        let mut i: usize = 0;
        proof {
            reveal(Seq::filter);
            assert(pool@.take(0).filter(pred) =~= Seq::<Modifier>::empty());
        }
        while i < pool.len()
            invariant
                i <= pool.len(),
                pool@ == Modifier::spec_pool(),
                pred == not_in(active@),
                v@ == pool@.take(i as int).filter(pred),
            decreases pool.len() - i,
        {
            let m = pool[i];
            let taken = Modifier::is_in(active, m);
            proof {
                assert(pool@.take(i as int + 1) =~= pool@.take(i as int).push(m));
                pool@.take(i as int).lemma_filter_push(m, pred);
            }
            if !taken {
                v.push(m);
            }
            i += 1;
        }
        proof {
            assert(pool@.take(pool.len() as int) =~= pool@);
            lemma_pool_complete(Modifier::HyperSheep);
            lemma_filter_keeps_distinct(Modifier::spec_pool(), pred);
        }
        v
    }

    /// A modifier drawn at random from the whole pool.
    pub fn sample() -> (m: Modifier)
        ensures
            Modifier::spec_pool().contains(m),
    {
        let pool = Modifier::pool();
        let i = random_index(pool.len());
        Modifier::at(i)
    }

    /// The modifier at place `index` of the pool: what a draw of `index`
    /// stands for.
    pub fn at(index: usize) -> (m: Modifier)
        requires
            index < Modifier::spec_pool().len(),
        ensures
            m == Modifier::spec_pool()[index as int],
    {
        let pool = Modifier::pool();
        pool[index]
    }
}

/// The pool lists every modifier, and lists none twice.
pub proof fn lemma_pool_complete(m: Modifier)
    ensures
        Modifier::spec_pool().contains(m),
        Modifier::spec_pool().len() == 10,
        Modifier::spec_pool().no_duplicates(),
{
    let p = Modifier::spec_pool();
    assert(p[0] == Modifier::HyperSheep && p[1] == Modifier::MoonGravity && p[2]
        == Modifier::Ufo && p[3] == Modifier::Space && p[4] == Modifier::TeleportingBark && p[5]
        == Modifier::Vignette && p[6] == Modifier::Night && p[7] == Modifier::SheepSphere && p[8]
        == Modifier::DogSphere && p[9] == Modifier::FeverDream);
}

} // verus!
