//! A game between players: the score of a turn, and the rules that settle a
//! round between the first two players.

use vstd::prelude::*;
use crate::counter::CounterState;
use crate::player::{poisoned, Player};
use crate::poison::PoisonType;
use crate::scoring::{ceil_mean, score_of, ScoringCalculator, CYCLE_LENGTH};

verus! {

/// Why a turn or a round could not be settled.
#[derive(Clone, Copy, Debug, PartialEq, Eq, Structural)]
pub enum GameError {
    /// A turn was asked for with no objective.
    NoObjectives,
    /// A round needs the scores of at least two players.
    NotEnoughPlayers,
}

/// How a round between the first two players ended.
#[derive(Clone, Copy, Debug, PartialEq, Eq, Structural)]
pub enum RoundOutcome {
    /// Equal scores: nobody is hurt.
    Tie,
    /// The winner's score was higher by `damage`, which the loser lost in vitality.
    Decided { winner: usize, loser: usize, damage: u32 },
}

/// A game in progress.
#[derive(Clone, Debug)]
pub struct Game {
    pub players: Vec<Player>,
    /// Number of objectives in each turn.
    pub objectifs_count: usize,
    /// Number of the current round, from 1.
    pub round: u32,
}

/// `a - b`, or 0 where `b` is larger.
pub open spec fn sat_sub(a: u32, b: u32) -> u32 {
    if a >= b {
        (a - b) as u32
    } else {
        0
    }
}

/// The player with vitality lowered by `damage`, stopping at 0.
pub open spec fn hurt(p: Player, damage: u32) -> Player {
    Player { vitality: sat_sub(p.vitality, damage), ..p }
}

/// Score of the stop at index `i` of a turn.
pub open spec fn stop_score(
    objectives: Seq<u32>,
    outcomes: Seq<CounterState>,
    strength: u32,
    i: int,
) -> int {
    score_of(objectives[i] as int, outcomes[i].value as int, outcomes[i].miss as int, strength as int)
}

/// Some player has no vitality left.
pub open spec fn someone_down(players: Seq<Player>) -> bool {
    exists|i: int| 0 <= i < players.len() && #[trigger] players[i].vitality == 0
}

impl Game {
    /// A game between the players, at round 1.
    pub fn new(players: Vec<Player>, objectifs_count: usize) -> (r: Self)
        ensures
            r.players == players,
            r.objectifs_count == objectifs_count,
            r.round == 1,
    {
        Game { players, objectifs_count, round: 1 }
    }

    /// Scores a turn: `outcomes[i]` is where the counter stopped for
    /// `objectives[i]`. Gives the rounded-up average and the score of each stop,
    /// or an error where there is no objective.
    pub fn play_turn(
        &self,
        objectives: &[u32],
        outcomes: &[CounterState],
        player: &Player,
    ) -> (r: Result<(u32, Vec<u32>), GameError>)
        requires
            outcomes@.len() == objectives@.len(),
            forall|i: int|
                0 <= i < objectives@.len() ==> #[trigger] objectives@[i] <= CYCLE_LENGTH
                    && outcomes@[i].value <= CYCLE_LENGTH,
            player.strength <= u32::MAX - 100,
        ensures
            objectives@.len() == 0 <==> r is Err,
            r matches Err(e) ==> e == GameError::NoObjectives,
            r matches Ok((average, scores)) ==> {
                &&& scores@.len() == objectives@.len()
                &&& forall|i: int|
                    0 <= i < scores@.len() ==> #[trigger] scores@[i] == stop_score(
                        objectives@,
                        outcomes@,
                        player.strength,
                        i,
                    )
                &&& average == ceil_mean(scores@)
            },
    {
        if objectives.len() == 0 {
            return Err(GameError::NoObjectives);
        }
        let mut scores: Vec<u32> = Vec::new();
        let mut i: usize = 0;
        while i < objectives.len()
            invariant
                outcomes@.len() == objectives@.len(),
                forall|k: int|
                    0 <= k < objectives@.len() ==> #[trigger] objectives@[k] <= CYCLE_LENGTH
                        && outcomes@[k].value <= CYCLE_LENGTH,
                player.strength <= u32::MAX - 100,
                i <= objectives@.len(),
                scores@.len() == i,
                forall|k: int|
                    0 <= k < i ==> #[trigger] scores@[k] == stop_score(
                        objectives@,
                        outcomes@,
                        player.strength,
                        k,
                    ),
            decreases objectives@.len() - i,
        {
            let objective = objectives[i];
            let outcome = outcomes[i];
            let score = ScoringCalculator::calculate_score(
                objective,
                outcome.value,
                outcome.miss,
                player.strength,
            );
            scores.push(score);
            i = i + 1;
        }
        let average = ScoringCalculator::calculate_average(scores.as_slice());
        Ok((average, scores))
    }

    /// Whether some player has no vitality left, which ends the game.
    pub fn is_over(&self) -> (r: bool)
        ensures
            r == someone_down(self.players@),
    {
        let mut i: usize = 0;
        while i < self.players.len()
            invariant
                i <= self.players@.len(),
                forall|k: int| 0 <= k < i ==> #[trigger] self.players@[k].vitality > 0,
            decreases self.players@.len() - i,
        {
            if self.players[i].vitality == 0 {
                return true;
            }
            i = i + 1;
        }
        false
    }

    /// Settles a round from the players' average scores, `scores[i]` being the
    /// score of player `i`. The first two players are compared: on equal scores
    /// nothing changes; otherwise the loser loses the difference in vitality,
    /// stopping at 0. Fewer than two scores is an error.
    pub fn settle_round(&mut self, scores: &[u32]) -> (r: Result<RoundOutcome, GameError>)
        requires
            scores@.len() == old(self).players@.len(),
        ensures
            scores@.len() < 2 <==> r is Err,
            r matches Err(e) ==> e == GameError::NotEnoughPlayers,
            final(self).round == old(self).round,
            final(self).objectifs_count == old(self).objectifs_count,
            r is Err || r == Ok::<RoundOutcome, GameError>(RoundOutcome::Tie) ==> final(self).players@ == old(self).players@,
            scores@.len() >= 2 ==> (scores@[0] == scores@[1] <==> r == Ok::<RoundOutcome, GameError>(RoundOutcome::Tie)),
            scores@.len() >= 2 && scores@[0] != scores@[1] ==> {
                let w: usize = if scores@[0] > scores@[1] {
                    0
                } else {
                    1
                };
                let l: usize = (1 - w) as usize;
                let damage = (scores@[w as int] - scores@[l as int]) as u32;
                &&& r == Ok::<RoundOutcome, GameError>(RoundOutcome::Decided { winner: w, loser: l, damage })
                &&& final(self).players@ == old(self).players@.update(
                    l as int,
                    hurt(old(self).players@[l as int], damage),
                )
            },
    {
        if scores.len() < 2 {
            return Err(GameError::NotEnoughPlayers);
        }
        if scores[0] == scores[1] {
            return Ok(RoundOutcome::Tie);
        }
        let (winner, loser): (usize, usize) = if scores[0] > scores[1] {
            (0, 1)
        } else {
            (1, 0)
        };
        let damage = scores[winner] - scores[loser];
        let vitality = self.players[loser].vitality.saturating_sub(damage);
        self.players[loser].vitality = vitality;
        Ok(RoundOutcome::Decided { winner, loser, damage })
    }

    /// Lays the poison on the player at `index`.
    pub fn poison_player(&mut self, index: usize, poison: PoisonType)
        requires
            index < old(self).players@.len(),
        ensures
            final(self).players@ == old(self).players@.update(
                index as int,
                poisoned(old(self).players@[index as int], poison),
            ),
            final(self).round == old(self).round,
            final(self).objectifs_count == old(self).objectifs_count,
    {
        self.players[index].apply_poison(poison);
    }

    /// Moves on to the next round.
    pub fn advance_round(&mut self)
        requires
            old(self).round < u32::MAX,
        ensures
            final(self).round == old(self).round + 1,
            final(self).players == old(self).players,
            final(self).objectifs_count == old(self).objectifs_count,
    {
        self.round = self.round + 1;
    }
}

} // verus!
