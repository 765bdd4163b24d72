//! One player's turn as a state machine: each roll is scored, labelled and
//! followed by the decision to bank, to roll again, or a bust.
use vstd::prelude::*;
use crate::faces::{all_faces, count_dice, tally, MAX_DICE};
use crate::scoring::{roll_points, roll_used, score_dice, lemma_used_within_roll};
use crate::classify::{classify_roll, classification_of, RollStats};
use crate::policy::{decide, decision_of, Decision};

verus! {

#[verifier::external_type_specification]
#[verifier::external_body]
pub struct ExUuid(uuid::Uuid);

/// Relies on uuid's `Uuid::new_v4`: a fresh random identifier. Nothing is
/// known of its value.
#[verifier::external_body]
fn new_turn_id() -> (r: uuid::Uuid) {
    uuid::Uuid::new_v4()
}

/// How a turn goes on after one roll.
#[derive(Debug, Clone, Copy, PartialEq, Eq, Structural)]
pub enum TurnStep {
    /// The roll scored and the player rolls the remaining dice.
    RollAgain,
    /// The roll scored and the player keeps this turn's points.
    Banked,
    /// The roll scored nothing: this turn's points are lost.
    Bust,
}

/// A turn in progress.
pub struct TurnState {
    pub turn_id: uuid::Uuid,
    pub turn_number: u32,
    pub player: String,
    /// Dice to throw on the next roll, in `1..=6`.
    pub remaining_dice: u8,
    /// Points gathered in this turn so far.
    pub turn_score: u32,
    /// Faces of every roll of this turn, in order.
    pub rolls: Vec<Vec<u8>>,
}

/// One player's completed turn.
pub struct TurnRecord {
    pub turn_id: uuid::Uuid,
    pub turn_number: u32,
    pub player: String,
    pub points_scored: u32,
    pub notable: bool,
    pub rolls: Vec<Vec<u8>>,
}

/// Dice left after a scoring roll that used `used` of `remaining`; when all
/// were used ("hot dice") a fresh set of six is rolled.
pub open spec fn dice_left(remaining: int, used: int) -> int {
    if remaining - used == 0 {
        6
    } else {
        remaining - used
    }
}

/// The step that a decision leads to.
pub open spec fn step_of(d: Decision) -> TurnStep {
    match d {
        Decision::RollAgain => TurnStep::RollAgain,
        Decision::Bank => TurnStep::Banked,
    }
}

impl TurnState {
    /// Between rolls there are one to six dice to throw.
    pub open spec fn well_formed(&self) -> bool {
        1 <= self.remaining_dice <= 6
    }

    /// A turn about to start: six dice, no points, no rolls.
    pub fn new(turn_number: u32, player: String) -> (r: TurnState)
        ensures
            r.well_formed(),
            r.turn_number == turn_number,
            r.player == player,
            r.remaining_dice == 6,
            r.turn_score == 0,
            r.rolls@.len() == 0,
    {
        TurnState {
            turn_id: new_turn_id(),
            turn_number,
            player,
            remaining_dice: MAX_DICE,
            turn_score: 0,
            rolls: Vec::new(),
        }
    }

    /// Take one roll of `remaining_dice` faces: record it, label it in
    /// `stats`, score it, and decide how the turn goes on, from the banked
    /// scores `own` and `opponent` and the goal `winning`. A roll that scores
    /// nothing busts the turn and drops its points; otherwise its points are
    /// added (up to the largest `u32`) and the dice it used are set aside.
    pub fn apply_roll(
        &mut self,
        faces: Vec<u8>,
        own: u32,
        opponent: u32,
        winning: u32,
        stats: &mut RollStats,
    ) -> (step: TurnStep)
        requires
            old(self).well_formed(),
            faces@.len() == old(self).remaining_dice,
            all_faces(faces@),
        ensures
            final(self).well_formed(),
            final(self).turn_id == old(self).turn_id,
            final(self).turn_number == old(self).turn_number,
            final(self).player == old(self).player,
            final(self).rolls@ == old(self).rolls@.push(faces),
            *final(stats) == old(stats).recorded(
                classification_of(tally(faces@), roll_used(tally(faces@))),
            ),
            roll_points(tally(faces@)) == 0 ==> step == TurnStep::Bust && final(self).turn_score
                == 0 && final(self).remaining_dice == old(self).remaining_dice,
            roll_points(tally(faces@)) > 0 ==> {
                &&& final(self).turn_score == old(self).turn_score.saturating_add(
                    roll_points(tally(faces@)) as u32,
                )
                &&& final(self).remaining_dice as int == dice_left(
                    old(self).remaining_dice as int,
                    roll_used(tally(faces@)),
                )
                &&& step == step_of(
                    decision_of(
                        own as int,
                        opponent as int,
                        winning as int,
                        final(self).turn_score as int,
                        final(self).remaining_dice as int,
                    ),
                )
            },
    {
        let counts = count_dice(&faces);
        let mut working = counts;
        proof {
            lemma_used_within_roll(counts@);
        }
        let outcome = score_dice(&mut working);
        let class = classify_roll(&counts, outcome.dice_used);
        stats.record(class);
        self.rolls.push(faces);
        if outcome.score == 0 {
            self.turn_score = 0;
            return TurnStep::Bust;
        }
        self.turn_score = self.turn_score.saturating_add(outcome.score);
        self.remaining_dice = self.remaining_dice - outcome.dice_used;
        if self.remaining_dice == 0 {
            self.remaining_dice = MAX_DICE;
        }
        match decide(own, opponent, winning, self.turn_score, self.remaining_dice) {
            Decision::RollAgain => TurnStep::RollAgain,
            Decision::Bank => TurnStep::Banked,
        }
    }

    /// The record of the finished turn: its points, its rolls, and whether it
    /// scored at all.
    pub fn finish(self) -> (r: TurnRecord)
        ensures
            r.turn_id == self.turn_id,
            r.turn_number == self.turn_number,
            r.player == self.player,
            r.points_scored == self.turn_score,
            r.notable == (self.turn_score > 0),
            r.rolls == self.rolls,
    {
        let notable = self.turn_score > 0;
        TurnRecord {
            turn_id: self.turn_id,
            turn_number: self.turn_number,
            player: self.player,
            points_scored: self.turn_score,
            notable,
            rolls: self.rolls,
        }
    }
}

} // verus!
