//! A player: a name and three stats.

use vstd::prelude::*;
use crate::poison::PoisonType;

verus! {

/// `x - 5`, or 0 where `x` is below 5.
pub open spec fn less_five(x: u32) -> u32 {
    if x >= 5 {
        (x - 5) as u32
    } else {
        0
    }
}

/// The player after the poison: 5 less on the stat it names, stopping at 0.
pub open spec fn poisoned(p: Player, poison: PoisonType) -> Player {
    match poison {
        PoisonType::Speed => Player { speed: less_five(p.speed), ..p },
        PoisonType::Strength => Player { strength: less_five(p.strength), ..p },
    }
}

/// A player and their stats.
#[derive(Clone, Debug)]
pub struct Player {
    pub name: String,
    /// Life left; the game ends when a player has none.
    pub vitality: u32,
    /// Pause between two ticks of the player's counter, in milliseconds.
    pub speed: u32,
    /// Added to the base score of each stop.
    pub strength: u32,
}

impl Player {
    /// A player with the given name and stats.
    pub fn new(name: String, vitality: u32, speed: u32, strength: u32) -> (r: Self)
        ensures
            r.name == name,
            r.vitality == vitality,
            r.speed == speed,
            r.strength == strength,
    {
        Player { name, vitality, speed, strength }
    }

    /// Takes 5 from the stat that the poison names, stopping at 0.
    pub fn apply_poison(&mut self, poison: PoisonType)
        ensures
            *final(self) == poisoned(*old(self), poison),
    {
        match poison {
            PoisonType::Speed => {
                if self.speed >= 5 {
                    self.speed = self.speed - 5;
                } else {
                    self.speed = 0;
                }
            },
            PoisonType::Strength => {
                if self.strength >= 5 {
                    self.strength = self.strength - 5;
                } else {
                    self.strength = 0;
                }
            },
        }
    }
}

} // verus!
