//! Labels a roll as notable or plain, and keeps the counts of each.
use vstd::prelude::*;
use crate::faces::{total, total_upto, well_formed};
use crate::scoring::{faces_with, pattern_of, roll_used, count_faces_with, lemma_faces_with_bound, RollPattern};

verus! {

/// Whether a roll used a rare combination or only isolated ones and fives.
#[derive(Debug, Clone, Copy, PartialEq, Eq, Structural)]
pub enum RollClassification {
    Notable,
    Plain,
}

/// Running numbers of notable and plain rolls over a game.
#[derive(Debug, Clone, Copy, PartialEq, Eq, Structural)]
pub struct RollStats {
    pub notable: u32,
    pub plain: u32,
}

/// Some face in `1..=6` has a count of at least `n`.
pub open spec fn has_face_at_least(c: Seq<u8>, n: u8) -> bool {
    exists|f: int| 1 <= f <= 6 && c[f] >= n
}

/// Some face in `1..=6` has a count of exactly `n`.
pub open spec fn has_face_exactly(c: Seq<u8>, n: u8) -> bool {
    exists|f: int| 1 <= f <= 6 && c[f] == n
}

/// A roll is notable when it forms a straight, three pairs, two triplets,
/// four or more of a kind or a triple, or when scoring consumed every die.
pub open spec fn is_notable(c: Seq<u8>, dice_used: int) -> bool {
    ||| faces_with(c, 1, 6) == 6
    ||| faces_with(c, 2, 6) == 3
    ||| faces_with(c, 3, 6) == 2
    ||| has_face_at_least(c, 4)
    ||| has_face_exactly(c, 3)
    ||| total(c) - dice_used == 0
}

/// The label of a roll from its tally before scoring and the dice scoring used.
pub open spec fn classification_of(c: Seq<u8>, dice_used: int) -> RollClassification {
    if is_notable(c, dice_used) {
        RollClassification::Notable
    } else {
        RollClassification::Plain
    }
}

/// A roll that holds three or more of one face is notable, whatever it scored.
pub proof fn lemma_triplet_is_notable(c: Seq<u8>, dice_used: int, f: int)
    requires
        c.len() == 7,
        1 <= f <= 6,
        c[f] >= 3,
    ensures
        classification_of(c, dice_used) == RollClassification::Notable,
{
    if c[f] == 3 {
        assert(has_face_exactly(c, 3));
    } else {
        assert(has_face_at_least(c, 4));
    }
}

/// A roll that scores only through isolated ones and fives, and leaves some
/// dice over, is plain.
pub proof fn lemma_singles_are_plain(c: Seq<u8>)
    requires
        well_formed(c),
        pattern_of(c) == RollPattern::Mixed,
        forall|f: int| 1 <= f <= 6 ==> #[trigger] c[f] < 3,
        roll_used(c) < total(c),
    ensures
        classification_of(c, roll_used(c)) == RollClassification::Plain,
{
}

fn has_count_at_least(counts: &[u8; 7], n: u8) -> (r: bool)
    ensures
        r == has_face_at_least(counts@, n),
{
    let mut face: usize = 1;
    while face <= 6
        invariant
            1 <= face <= 7,
            forall|f: int| 1 <= f < face ==> #[trigger] counts@[f] < n,
        decreases 7 - face,
    {
        if counts[face] >= n {
            return true;
        }
        face = face + 1;
    }
    false
}

fn dice_in(counts: &[u8; 7]) -> (r: u32)
    ensures
        r as int == total(counts@),
{
    let mut r: u32 = 0;
    let mut face: usize = 1;
    while face <= 6
        invariant
            1 <= face <= 7,
            r as int == total_upto(counts@, face as int - 1),
            r as int <= 255 * (face as int - 1),
        decreases 7 - face,
    {
        r = r + counts[face] as u32;
        face = face + 1;
    }
    r
}

/// Label a roll from its tally before scoring and the dice that scoring used.
pub fn classify_roll(counts: &[u8; 7], dice_used: u8) -> (r: RollClassification)
    ensures
        r == classification_of(counts@, dice_used as int),
{
    if count_faces_with(counts, 1) == 6 {
        return RollClassification::Notable;
    }
    if count_faces_with(counts, 2) == 3 {
        return RollClassification::Notable;
    }
    if count_faces_with(counts, 3) == 2 {
        return RollClassification::Notable;
    }
    if has_count_at_least(counts, 4) {
        return RollClassification::Notable;
    }
    if count_faces_with(counts, 3) >= 1 {
        proof {
            lemma_faces_with_bound(counts@, 3, 6);
        }
        return RollClassification::Notable;
    }
    proof {
        if has_face_exactly(counts@, 3) {
            lemma_faces_with_bound(counts@, 3, 6);
        }
    }
    if dice_in(counts) == dice_used as u32 {
        return RollClassification::Notable;
    }
    RollClassification::Plain
}

impl RollStats {
    /// No roll counted yet.
    pub fn new() -> (r: RollStats)
        ensures
            r.notable == 0,
            r.plain == 0,
    {
        RollStats { notable: 0, plain: 0 }
    }

    /// The counters once one more roll of the given label is counted; a
    /// counter stops at its largest value.
    pub open spec fn recorded(self, class: RollClassification) -> RollStats {
        match class {
            RollClassification::Notable => RollStats {
                notable: self.notable.saturating_add(1),
                plain: self.plain,
            },
            RollClassification::Plain => RollStats {
                notable: self.notable,
                plain: self.plain.saturating_add(1),
            },
        }
    }

    /// Count one more roll of the given label.
    pub fn record(&mut self, class: RollClassification)
        ensures
            *final(self) == old(self).recorded(class),
    {
        match class {
            RollClassification::Notable => self.notable = self.notable.saturating_add(1),
            RollClassification::Plain => self.plain = self.plain.saturating_add(1),
        }
    }
}

} // verus!
