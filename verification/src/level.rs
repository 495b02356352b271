//! The arena: its rectangular limits and the goal.

use vstd::prelude::*;
use crate::chance::random_between;
use crate::fixed::clamp_int;
use crate::movement::HopMovementController;
use crate::vec2::Vec2;

verus! {

/// The radius around the goal inside which a creature starts to be counted.
pub const GOAL_RADIUS: u32 = 6000;

/// The squared distance to the goal below which a counted creature scores.
pub const GOAL_REACHED_DISTANCE_SQUARED: u128 = 1_500_000;

/// Where the goal stands.
pub fn goal_position() -> (p: Vec2)
    ensures
        p == (Vec2 { x: 0, y: 8200 }),
{
    Vec2 { x: 0, y: 8200 }
}

/// An axis-aligned rectangle that every position is held inside.
#[derive(Debug, Copy, Clone, PartialEq, Eq, Structural)]
pub struct LevelBounds {
    pub max: Vec2,
    pub min: Vec2,
}

impl LevelBounds {
    /// The lower corner does not lie beyond the upper corner.
    pub open spec fn wf(&self) -> bool {
        self.min.x <= self.max.x && self.min.y <= self.max.y
    }

    /// `pos` lies inside the rectangle, borders included.
    pub open spec fn contains(&self, pos: Vec2) -> bool {
        self.min.x <= pos.x <= self.max.x && self.min.y <= pos.y <= self.max.y
    }

    /// The point of the rectangle nearest to `(x, y)`.
    pub open spec fn spec_clamp(&self, x: int, y: int) -> Vec2 {
        Vec2 {
            x: clamp_int(x, self.min.x as int, self.max.x as int) as i32,
            y: clamp_int(y, self.min.y as int, self.max.y as int) as i32,
        }
    }

    /// Whether the lower corner does not lie beyond the upper corner.
    pub fn is_well_formed(&self) -> (b: bool)
        ensures
            b == self.wf(),
    {
        self.min.x <= self.max.x && self.min.y <= self.max.y
    }

    /// Whether `pos` lies inside the rectangle, borders included.
    pub fn holds(&self, pos: Vec2) -> (b: bool)
        ensures
            b == self.contains(pos),
    {
        self.min.x <= pos.x && pos.x <= self.max.x && self.min.y <= pos.y && pos.y <= self.max.y
    }

    /// Moves `pos` to the nearest point inside the rectangle, one component
    /// at a time.
    pub fn clamp_to_bounds(&self, pos: Vec2) -> (v: Vec2)
        requires
            self.wf(),
        ensures
            v == self.spec_clamp(pos.x as int, pos.y as int),
            self.contains(v),
            self.contains(pos) ==> v == pos,
    {
        Vec2 {
            x: clamp_component(pos.x, self.min.x, self.max.x),
            y: clamp_component(pos.y, self.min.y, self.max.y),
        }
    }

    /// The point `pos + offset`, moved inside the rectangle. The sum is taken
    /// exactly, so the result does not depend on the width of the
    /// coordinates.
    pub fn clamp_offset(&self, pos: Vec2, offset: Vec2) -> (v: Vec2)
        requires
            self.wf(),
        ensures
            v == self.spec_clamp(pos.x + offset.x, pos.y + offset.y),
            self.contains(v),
    {
        self.clamp_to_bounds(pos.add(offset))
    }

    /// A random point of the rectangle.
    pub fn random_point(&self) -> (p: Vec2)
        requires
            self.wf(),
        ensures
            self.contains(p),
    {
        let x = random_between(self.min.x, self.max.x);
        let y = random_between(self.min.y, self.max.y);
        Vec2 { x, y }
    }
}

/// Throws an actor to a random place inside `bounds` and points its intent
/// there. Returns the place.
pub fn handle_random_teleport(bounds: &LevelBounds, controller: &mut HopMovementController) -> (pos:
    Vec2)
    requires
        bounds.wf(),
    ensures
        bounds.contains(pos),
        *final(controller) == (HopMovementController { intent: pos, ..*old(controller) }),
        old(controller).wf() ==> final(controller).wf(),
{
    let pos = bounds.random_point();
    controller.intent = pos;
    pos
}

/// A short note that floats up from the goal when a sheep is counted.
#[derive(Debug, Copy, Clone, PartialEq, Eq, Hash, Structural)]
pub enum GoalTextMessage {
    Cloned,
    EvolvedToBlue,
    ZeroPoints,
    PlusOnePoint,
    PlusFivePoints,
    PointsTimesOneAndAHalf,
    PlusOneGold,
}

impl GoalTextMessage {
    pub open spec fn spec_text(&self) -> Seq<char> {
        match self {
            GoalTextMessage::Cloned => "Cloned"@,
            GoalTextMessage::EvolvedToBlue => "Evolved to blue"@,
            GoalTextMessage::ZeroPoints => "0 points"@,
            GoalTextMessage::PlusOnePoint => "+1 point"@,
            GoalTextMessage::PlusFivePoints => "+5 points"@,
            GoalTextMessage::PointsTimesOneAndAHalf => "points x1.5"@,
            GoalTextMessage::PlusOneGold => "+1 gold"@,
        }
    }

    /// The colour of the note as red, green and blue in thousandths, or
    /// nothing for a note in the default colour.
    pub open spec fn spec_color(&self) -> Option<(u16, u16, u16)> {
        match self {
            GoalTextMessage::Cloned => Some((550u16, 850u16, 950u16)),
            GoalTextMessage::EvolvedToBlue => Some((300u16, 400u16, 800u16)),
            GoalTextMessage::ZeroPoints => None,
            GoalTextMessage::PlusOnePoint => None,
            GoalTextMessage::PlusFivePoints => Some((300u16, 400u16, 800u16)),
            GoalTextMessage::PointsTimesOneAndAHalf => Some((1000u16, 300u16, 300u16)),
            GoalTextMessage::PlusOneGold => Some((1000u16, 820u16, 200u16)),
        }
    }

    /// The words of the note.
    pub fn text(&self) -> (r: &'static str)
        ensures
            r@ == self.spec_text(),
    {
        match self {
            GoalTextMessage::Cloned => "Cloned",
            GoalTextMessage::EvolvedToBlue => "Evolved to blue",
            GoalTextMessage::ZeroPoints => "0 points",
            GoalTextMessage::PlusOnePoint => "+1 point",
            GoalTextMessage::PlusFivePoints => "+5 points",
            GoalTextMessage::PointsTimesOneAndAHalf => "points x1.5",
            GoalTextMessage::PlusOneGold => "+1 gold",
        }
    }

    /// The colour of the note.
    pub fn color(&self) -> (c: Option<(u16, u16, u16)>)
        ensures
            c == self.spec_color(),
    {
        match self {
            GoalTextMessage::Cloned => Some((550, 850, 950)),
            GoalTextMessage::EvolvedToBlue => Some((300, 400, 800)),
            GoalTextMessage::ZeroPoints => None,
            GoalTextMessage::PlusOnePoint => None,
            GoalTextMessage::PlusFivePoints => Some((300, 400, 800)),
            GoalTextMessage::PointsTimesOneAndAHalf => Some((1000, 300, 300)),
            GoalTextMessage::PlusOneGold => Some((1000, 820, 200)),
        }
    }
}

/// Limits one coordinate to `[lo, hi]`.
pub fn clamp_component(v: i32, lo: i32, hi: i32) -> (r: i32)
    requires
        lo <= hi,
    ensures
        r == clamp_int(v as int, lo as int, hi as int),
        lo <= r <= hi,
{
    if v < lo {
        lo
    } else if v > hi {
        hi
    } else {
        v
    }
}

} // verus!
