//! The poisons that the winner of a round lays on the loser.

use vstd::prelude::*;
use crate::player::{poisoned, Player};

verus! {

/// The poison picked by a menu choice: 1 for speed, 2 for strength, none otherwise.
pub open spec fn poison_of_choice(choice: u32) -> Option<PoisonType> {
    if choice == 1 {
        Some(PoisonType::Speed)
    } else if choice == 2 {
        Some(PoisonType::Strength)
    } else {
        None
    }
}

/// Which stat a poison lowers.
#[derive(Clone, Copy, Debug, PartialEq, Eq, Structural)]
pub enum PoisonType {
    Speed,
    Strength,
}

impl PoisonType {
    /// The poison picked by a menu choice: 1 for speed, 2 for strength.
    pub fn from_choice(choice: u32) -> (r: Option<PoisonType>)
        ensures
            r == poison_of_choice(choice),
    {
        if choice == 1 {
            Some(PoisonType::Speed)
        } else if choice == 2 {
            Some(PoisonType::Strength)
        } else {
            None
        }
    }
}

/// Lays the poison on the target player; it always succeeds.
pub fn apply_poison(target: &mut Player, poison_type: PoisonType) -> (r: Result<(), String>)
    ensures
        r is Ok,
        *final(target) == poisoned(*old(target), poison_type),
{
    target.apply_poison(poison_type);
    Ok(())
}

} // verus!
