//! The scoring engine: points and dice consumed for one roll's tally.
use vstd::prelude::*;
use crate::faces::{total, total_upto, well_formed, lemma_total_upto_bounds};

verus! {

/// The combinations of a roll, in the order in which they take precedence.
#[derive(Debug, Clone, Copy, PartialEq, Eq, Structural)]
pub enum RollPattern {
    /// Every face once.
    Straight,
    /// Three faces twice each.
    ThreePairs,
    /// Two faces three times each.
    TwoTriplets,
    /// One face on all six dice.
    SixOfAKind,
    /// None of the above: each face is scored on its own.
    Mixed,
}

/// Points and dice consumed by scoring one roll.
#[derive(Debug, Clone, Copy, PartialEq, Eq, Structural)]
pub struct RollOutcome {
    pub score: u32,
    pub dice_used: u8,
}

/// Number of faces in `1..=k` whose count is exactly `n`.
pub open spec fn faces_with(c: Seq<u8>, n: u8, k: int) -> int
    decreases k,
{
    if k <= 0 {
        0
    } else {
        faces_with(c, n, k - 1) + if c[k] == n { 1int } else { 0int }
    }
}

/// The combination that a tally forms.
pub open spec fn pattern_of(c: Seq<u8>) -> RollPattern {
    if faces_with(c, 1, 6) == 6 {
        RollPattern::Straight
    } else if faces_with(c, 2, 6) == 3 {
        RollPattern::ThreePairs
    } else if faces_with(c, 3, 6) == 2 {
        RollPattern::TwoTriplets
    } else if faces_with(c, 6, 6) >= 1 {
        RollPattern::SixOfAKind
    } else {
        RollPattern::Mixed
    }
}

/// A pattern that takes all six dice at once.
pub open spec fn is_full_set(p: RollPattern) -> bool {
    p != RollPattern::Mixed
}

/// Points of a full-set pattern.
pub open spec fn full_set_points(p: RollPattern) -> int {
    match p {
        RollPattern::Straight => 1500,
        RollPattern::ThreePairs => 1500,
        RollPattern::TwoTriplets => 2500,
        RollPattern::SixOfAKind => 3000,
        RollPattern::Mixed => 0,
    }
}

/// Points of three dice showing `face`.
pub open spec fn triple_points(face: int) -> int {
    if face == 1 {
        1000
    } else {
        face * 100
    }
}

/// Points that `n` dice showing `face` score on their own.
pub open spec fn face_points(face: int, n: int) -> int {
    if n >= 6 {
        3000
    } else if n == 5 {
        2000
    } else if n == 4 {
        1000
    } else if n == 3 {
        triple_points(face)
    } else if face == 1 {
        100 * n
    } else if face == 5 {
        50 * n
    } else {
        0
    }
}

/// Dice that `n` dice showing `face` consume on their own.
pub open spec fn face_used(face: int, n: int) -> int {
    if n >= 3 || face == 1 || face == 5 {
        n
    } else {
        0
    }
}

/// Count left in the tally for `face` after it was scored on its own: the
/// dice it consumed leave, so three or more of a kind and every one and five
/// go; other faces stay.
pub open spec fn face_residual(face: int, n: u8) -> u8 {
    if n >= 3 || face == 1 || face == 5 {
        0
    } else {
        n
    }
}

/// Points of faces `1..=k` scored each on its own.
pub open spec fn mixed_points(c: Seq<u8>, k: int) -> int
    decreases k,
{
    if k <= 0 {
        0
    } else {
        mixed_points(c, k - 1) + face_points(k, c[k] as int)
    }
}

/// Dice consumed by faces `1..=k` scored each on its own.
pub open spec fn mixed_used(c: Seq<u8>, k: int) -> int
    decreases k,
{
    if k <= 0 {
        0
    } else {
        mixed_used(c, k - 1) + face_used(k, c[k] as int)
    }
}

/// Points that a roll scores.
pub open spec fn roll_points(c: Seq<u8>) -> int {
    let p = pattern_of(c);
    if is_full_set(p) {
        full_set_points(p)
    } else {
        mixed_points(c, 6)
    }
}

/// Dice that a roll consumes.
pub open spec fn roll_used(c: Seq<u8>) -> int {
    if is_full_set(pattern_of(c)) {
        6
    } else {
        mixed_used(c, 6)
    }
}

/// The tally once scoring has consumed what it took; entry 0 is left alone.
pub open spec fn counts_after(c: Seq<u8>) -> Seq<u8> {
    if is_full_set(pattern_of(c)) {
        Seq::new(7, |f: int| if f == 0 { c[0] } else { 0u8 })
    } else {
        Seq::new(7, |f: int| if f == 0 { c[0] } else { face_residual(f, c[f]) })
    }
}

/// Bounds on the number of faces with a given count, and that it is positive
/// exactly when some face in `1..=k` has that count.
pub proof fn lemma_faces_with_bound(c: Seq<u8>, n: u8, k: int)
    requires
        c.len() == 7,
        k <= 6,
    ensures
        0 <= faces_with(c, n, k),
        k >= 0 ==> faces_with(c, n, k) <= k,
        n * faces_with(c, n, k) <= total_upto(c, k),
        faces_with(c, n, k) >= 1 ==> exists|f: int| 1 <= f <= k && c[f] == n,
        forall|f: int| 1 <= f <= k && #[trigger] c[f] == n ==> faces_with(c, n, k) >= 1,
    decreases k,
{
    if k > 0 {
        lemma_faces_with_bound(c, n, k - 1);
        lemma_total_upto_bounds(c, k, k);
        let a = faces_with(c, n, k - 1);
        if c[k] == n {
            assert(n * (a + 1) == n * a + n) by (nonlinear_arith);
        }
    }
}

proof fn lemma_mixed_bounds(c: Seq<u8>, k: int)
    requires
        c.len() == 7,
        k <= 6,
    ensures
        0 <= mixed_used(c, k) <= total_upto(c, k),
        0 <= mixed_points(c, k) <= 3000 * (if k > 0 { k } else { 0 }),
        mixed_points(c, k) == 0 <==> mixed_used(c, k) == 0,
    decreases k,
{
    if k > 0 {
        lemma_mixed_bounds(c, k - 1);
    }
}

proof fn lemma_mixed_residual_total(c: Seq<u8>, k: int)
    requires
        c.len() == 7,
        k <= 6,
    ensures
        total_upto(Seq::new(7, |f: int| if f == 0 { c[0] } else { face_residual(f, c[f]) }), k)
            == total_upto(c, k) - mixed_used(c, k),
    decreases k,
{
    if k > 0 {
        lemma_mixed_residual_total(c, k - 1);
    }
}

/// Scoring takes from the tally exactly the dice it consumed.
pub proof fn lemma_consumed_dice_leave(c: Seq<u8>)
    requires
        well_formed(c),
    ensures
        total(counts_after(c)) == total(c) - roll_used(c),
{
    lemma_used_within_roll(c);
    if is_full_set(pattern_of(c)) {
        assert(total(counts_after(c)) == 0) by {
            reveal_with_fuel(total_upto, 7);
        }
    } else {
        lemma_mixed_residual_total(c, 6);
    }
}

/// Scoring never consumes more dice than were rolled, nor more than six.
pub proof fn lemma_used_within_roll(c: Seq<u8>)
    requires
        well_formed(c),
    ensures
        0 <= roll_used(c) <= 6,
        roll_used(c) <= total(c),
        roll_points(c) == 0 <==> roll_used(c) == 0,
        0 <= roll_points(c) <= 18000,
{
    lemma_mixed_bounds(c, 6);
    lemma_total_upto_bounds(c, 0, 6);
    lemma_faces_with_bound(c, 1, 6);
    lemma_faces_with_bound(c, 2, 6);
    lemma_faces_with_bound(c, 3, 6);
    lemma_faces_with_bound(c, 6, 6);
}

/// Scoring is a function of the tally alone: equal tallies give the same
/// points, the same dice consumed and the same tally afterwards.
pub proof fn lemma_scoring_deterministic(c1: Seq<u8>, c2: Seq<u8>)
    requires
        well_formed(c1),
        c1 == c2,
    ensures
        roll_points(c1) == roll_points(c2),
        roll_used(c1) == roll_used(c2),
        counts_after(c1) == counts_after(c2),
{
}

/// Number of faces in `1..=6` whose count is exactly `n`.
pub fn count_faces_with(counts: &[u8; 7], n: u8) -> (r: u8)
    ensures
        r as int == faces_with(counts@, n, 6),
{
    let mut r: u8 = 0;
    let mut face: usize = 1;
    while face <= 6
        invariant
            1 <= face <= 7,
            r as int == faces_with(counts@, n, face as int - 1),
            r as int <= face as int - 1,
        decreases 7 - face,
    {
        if counts[face] == n {
            r = r + 1;
        }
        face = face + 1;
    }
    r
}

/// The combination that a tally forms.
pub fn roll_pattern(counts: &[u8; 7]) -> (p: RollPattern)
    ensures
        p == pattern_of(counts@),
{
    if count_faces_with(counts, 1) == 6 {
        RollPattern::Straight
    } else if count_faces_with(counts, 2) == 3 {
        RollPattern::ThreePairs
    } else if count_faces_with(counts, 3) == 2 {
        RollPattern::TwoTriplets
    } else if count_faces_with(counts, 6) >= 1 {
        RollPattern::SixOfAKind
    } else {
        RollPattern::Mixed
    }
}

/// Points and dice consumed by `n` dice showing `face`, scored on their own.
pub fn score_face(face: u8, n: u8) -> (r: (u32, u8))
    requires
        1 <= face <= 6,
    ensures
        r.0 as int == face_points(face as int, n as int),
        r.1 as int == face_used(face as int, n as int),
{
    if n >= 6 {
        (3000, n)
    } else if n == 5 {
        (2000, 5)
    } else if n == 4 {
        (1000, 4)
    } else if n == 3 {
        if face == 1 {
            (1000, 3)
        } else {
            (face as u32 * 100, 3)
        }
    } else if face == 1 {
        (n as u32 * 100, n)
    } else if face == 5 {
        (n as u32 * 50, n)
    } else {
        (0, 0)
    }
}

/// Score one roll. Combinations are tried in order of precedence: a straight,
/// three pairs, two triplets and six of a kind each take the whole roll and
/// clear the tally; otherwise each face scores on its own (four or five of a
/// kind, a triple, single ones and fives) and the dice it consumes leave the tally.
pub fn score_dice(counts: &mut [u8; 7]) -> (r: RollOutcome)
    requires
        well_formed(old(counts)@),
    ensures
        r.score as int == roll_points(old(counts)@),
        r.dice_used as int == roll_used(old(counts)@),
        final(counts)@ == counts_after(old(counts)@),
        r.dice_used <= 6,
        r.dice_used as int <= total(old(counts)@),
        r.score == 0 <==> r.dice_used == 0,
        total(final(counts)@) == total(old(counts)@) - r.dice_used,
{
    proof {
        lemma_used_within_roll(counts@);
        lemma_consumed_dice_leave(counts@);
    }
    let ghost start = counts@;
    let pattern = roll_pattern(counts);
    let full = match pattern {
        RollPattern::Straight => Some(1500u32),
        RollPattern::ThreePairs => Some(1500u32),
        RollPattern::TwoTriplets => Some(2500u32),
        RollPattern::SixOfAKind => Some(3000u32),
        RollPattern::Mixed => None,
    };
    if let Some(score) = full {
        let mut face: usize = 1;
        while face <= 6
            invariant
                1 <= face <= 7,
                counts@.len() == 7,
                counts@[0] == start[0],
                forall|f: int| 1 <= f < face ==> counts@[f] == 0u8,
            decreases 7 - face,
        {
            counts[face] = 0;
            face = face + 1;
        }
        assert(counts@ =~= counts_after(start));
        return RollOutcome { score, dice_used: 6 };
    }
    let mut score: u32 = 0;
    let mut dice_used: u8 = 0;
    let mut face: usize = 1;
    while face <= 6
        invariant
            1 <= face <= 7,
            well_formed(start),
            counts@.len() == 7,
            counts@[0] == start[0],
            forall|f: int| 1 <= f < face ==> counts@[f] == face_residual(f, #[trigger] start[f]),
            forall|f: int| face <= f < 7 ==> counts@[f] == #[trigger] start[f],
            score as int == mixed_points(start, face as int - 1),
            dice_used as int == mixed_used(start, face as int - 1),
        decreases 7 - face,
    {
        proof {
            lemma_mixed_bounds(start, face as int);
            lemma_total_upto_bounds(start, face as int, 6);
        }
        let n = counts[face];
        let (points, used) = score_face(face as u8, n);
        score = score + points;
        dice_used = dice_used + used;
        if n >= 3 || face == 1 || face == 5 {
            counts[face] = 0;
        }
        face = face + 1;
    }
    assert(counts@ =~= counts_after(start));
    RollOutcome { score, dice_used }
}

} // verus!
