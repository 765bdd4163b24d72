//! Face values, their per-roll tally, and the die source.
use vstd::prelude::*;

verus! {

/// Number of dice in a full roll.
pub const MAX_DICE: u8 = 6;

/// A die shows a face in `1..=6`.
pub open spec fn is_face(v: u8) -> bool {
    1 <= v <= 6
}

/// Every value of `s` is a die face.
pub open spec fn all_faces(s: Seq<u8>) -> bool {
    forall|i: int| 0 <= i < s.len() ==> is_face(#[trigger] s[i])
}

/// How many times `f` occurs in `s`.
pub open spec fn occurrences(s: Seq<u8>, f: int) -> nat
    decreases s.len(),
{
    if s.len() == 0 {
        0
    } else {
        occurrences(s.drop_last(), f) + if s.last() as int == f { 1nat } else { 0nat }
    }
}

/// The tally of a roll: entry `f` counts the dice that show `f`; entry 0 is unused.
pub open spec fn tally(s: Seq<u8>) -> Seq<u8> {
    Seq::new(7, |f: int| occurrences(s, f) as u8)
}

/// Sum of the counts of faces `1..=k`.
pub open spec fn total_upto(c: Seq<u8>, k: int) -> int
    decreases k,
{
    if k <= 0 {
        0
    } else {
        total_upto(c, k - 1) + c[k] as int
    }
}

/// Number of dice that a tally describes.
pub open spec fn total(c: Seq<u8>) -> int {
    total_upto(c, 6)
}

/// A tally of one roll: seven entries, at most six dice in all.
pub open spec fn well_formed(c: Seq<u8>) -> bool {
    c.len() == 7 && total(c) <= 6
}

/// Raising one entry in `1..=k` by one raises the partial sum by one.
pub proof fn lemma_total_upto_update(c: Seq<u8>, j: int, v: u8, k: int)
    requires
        c.len() == 7,
        0 <= j < 7,
        k <= 6,
    ensures
        total_upto(c.update(j, v), k) == total_upto(c, k) + if 1 <= j <= k {
            v - c[j]
        } else {
            0
        },
    decreases k,
{
    if k > 0 {
        lemma_total_upto_update(c, j, v, k - 1);
    }
}

/// Partial sums grow with `k` and bound each entry they cover.
pub proof fn lemma_total_upto_bounds(c: Seq<u8>, j: int, k: int)
    requires
        c.len() == 7,
        k <= 6,
    ensures
        total_upto(c, k) >= 0,
        j <= k ==> total_upto(c, j) <= total_upto(c, k),
        1 <= j <= k ==> c[j] as int <= total_upto(c, k),
    decreases k,
{
    if k > 0 {
        lemma_total_upto_bounds(c, j, k - 1);
    }
}

/// Tally a roll: entry `f` of the result counts the dice showing `f`.
pub fn count_dice(rolls: &Vec<u8>) -> (counts: [u8; 7])
    requires
        rolls@.len() <= 255,
        all_faces(rolls@),
    ensures
        counts@ == tally(rolls@),
        total(counts@) == rolls@.len(),
{
    let mut counts: [u8; 7] = [0; 7];
    let mut i: usize = 0;
    proof {
        reveal_with_fuel(total_upto, 7);
    }
    while i < rolls.len()
        invariant
            i <= rolls@.len() <= 255,
            all_faces(rolls@),
            counts@.len() == 7,
            forall|f: int| 0 <= f < 7 ==> counts@[f] as int == #[trigger] occurrences(rolls@.subrange(0, i as int), f),
            total(counts@) == i,
        decreases rolls@.len() - i,
    {
        let face = rolls[i];
        let ghost before = counts@;
        proof {
            let s = rolls@.subrange(0, i as int + 1);
            assert(s.drop_last() =~= rolls@.subrange(0, i as int));
            lemma_total_upto_bounds(before, face as int, 6);
        }
        counts[face as usize] = counts[face as usize] + 1;
        proof {
            lemma_total_upto_update(before, face as int, (before[face as int] + 1) as u8, 6);
            assert(counts@ == before.update(face as int, (before[face as int] + 1) as u8));
            let s = rolls@.subrange(0, i as int + 1);
            assert forall|f: int| 0 <= f < 7 implies counts@[f] as int == #[trigger] occurrences(s, f) by {
                assert(s.drop_last() =~= rolls@.subrange(0, i as int));
                assert(s.last() == face);
                assert(before[f] as int == occurrences(rolls@.subrange(0, i as int), f));
            }
        }
        i = i + 1;
    }
    proof {
        assert(rolls@.subrange(0, i as int) =~= rolls@);
        assert(counts@ =~= tally(rolls@));
    }
    counts
}

/// One die of the die source: a face drawn uniformly from `1..=6`.
/// Relies on rand's `thread_rng` and `Rng::gen_range`, which returns a value
/// inside the (non-empty) inclusive range it is given.
#[verifier::external_body]
fn roll_die() -> (r: u8)
    ensures
        is_face(r),
{
    rand::Rng::gen_range(&mut rand::thread_rng(), 1..=6)
}

/// Roll `count` fresh dice from the die source.
pub fn roll_dice(count: u8) -> (r: Vec<u8>)
    ensures
        r@.len() == count,
        all_faces(r@),
{
    let mut r: Vec<u8> = Vec::new();
    let mut i: u8 = 0;
    while i < count
        invariant
            i <= count,
            r@.len() == i,
            all_faces(r@),
        decreases count - i,
    {
        let v = roll_die();
        r.push(v);
        i = i + 1;
    }
    r
}

} // verus!
