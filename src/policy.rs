//! The bank-or-roll-again decision after a scoring roll.
use vstd::prelude::*;

verus! {

/// What a player does after a scoring roll.
#[derive(Debug, Clone, Copy, PartialEq, Eq, Structural)]
pub enum Decision {
    RollAgain,
    Bank,
}

/// Far behind while the opponent is close to winning: take risks.
pub open spec fn is_desperate(own: int, opponent: int, winning: int) -> bool {
    opponent >= winning - 400 && opponent >= own + 900
}

/// Comfortably ahead and past a quarter of the goal: play safe.
pub open spec fn is_cautious_leader(own: int, opponent: int, winning: int) -> bool {
    own >= opponent + 900 && own >= winning / 4
}

/// Points still missing to reach the goal, if this turn's points were banked.
pub open spec fn points_needed(own: int, turn: int, winning: int) -> int {
    if own + turn >= winning {
        0
    } else {
        winning - (own + turn)
    }
}

/// The policy, its rules tried in order.
pub open spec fn decision_of(own: int, opponent: int, winning: int, turn: int, remaining: int) -> Decision {
    if is_desperate(own, opponent, winning) {
        Decision::RollAgain
    } else if is_cautious_leader(own, opponent, winning) {
        Decision::Bank
    } else if points_needed(own, turn, winning) <= 500 {
        Decision::Bank
    } else if remaining == 6 {
        Decision::RollAgain
    } else if turn >= 400 {
        Decision::Bank
    } else {
        Decision::RollAgain
    }
}

/// Desperation is weighed first: a player far behind an opponent who is close
/// to winning rolls again, whatever else holds, even where the rule for a
/// comfortable leader would read as applying too.
pub proof fn lemma_desperate_first(own: int, opponent: int, winning: int, turn: int, remaining: int)
    requires
        is_desperate(own, opponent, winning),
    ensures
        decision_of(own, opponent, winning, turn, remaining) == Decision::RollAgain,
{
}

/// Decide after a scoring roll, from both players' banked scores, the goal,
/// this turn's points so far and the dice left to roll.
pub fn decide(own: u32, opponent: u32, winning: u32, turn_score: u32, remaining_dice: u8) -> (d: Decision)
    ensures
        d == decision_of(own as int, opponent as int, winning as int, turn_score as int, remaining_dice as int),
{
    let own = own as u64;
    let opponent = opponent as u64;
    let winning = winning as u64;
    let turn = turn_score as u64;
    if opponent + 400 >= winning && opponent >= own + 900 {
        Decision::RollAgain
    } else if own >= opponent + 900 && own >= winning / 4 {
        Decision::Bank
    } else if own + turn + 500 >= winning {
        Decision::Bank
    } else if remaining_dice == 6 {
        Decision::RollAgain
    } else if turn >= 400 {
        Decision::Bank
    } else {
        Decision::RollAgain
    }
}

} // verus!
