use farkle::faces::{count_dice, roll_dice};
use farkle::scoring::{roll_pattern, score_dice, score_face, RollOutcome, RollPattern};

fn counts_of(pairs: &[(usize, u8)]) -> [u8; 7] {
    let mut c = [0u8; 7];
    for &(face, n) in pairs {
        c[face] = n;
    }
    c
}

#[test]
fn tally_counts_each_face() {
    let c = count_dice(&vec![1, 5, 5, 6, 1, 1]);
    assert_eq!(c, [0, 3, 0, 0, 0, 2, 1]);
    assert_eq!(count_dice(&vec![]), [0u8; 7]);
}

#[test]
fn die_source_gives_faces() {
    for n in 0..=6u8 {
        let r = roll_dice(n);
        assert_eq!(r.len(), n as usize);
        assert!(r.iter().all(|&v| (1..=6).contains(&v)));
    }
}

#[test]
fn straight_scores_1500_and_clears() {
    let mut c = count_dice(&vec![1, 2, 3, 4, 5, 6]);
    assert_eq!(roll_pattern(&c), RollPattern::Straight);
    let r = score_dice(&mut c);
    assert_eq!(r, RollOutcome { score: 1500, dice_used: 6 });
    assert_eq!(c, [0u8; 7]);
}

#[test]
fn three_pairs_score_1500() {
    let mut c = counts_of(&[(2, 2), (4, 2), (6, 2)]);
    let r = score_dice(&mut c);
    assert_eq!((r.score, r.dice_used), (1500, 6));
    assert_eq!(c, [0u8; 7]);
}

#[test]
fn three_pairs_with_ones_and_fives_is_still_three_pairs() {
    let mut c = counts_of(&[(1, 2), (5, 2), (3, 2)]);
    let r = score_dice(&mut c);
    assert_eq!((r.score, r.dice_used), (1500, 6));
}

#[test]
fn two_triplets_score_2500() {
    let mut c = counts_of(&[(3, 3), (5, 3)]);
    let r = score_dice(&mut c);
    assert_eq!((r.score, r.dice_used), (2500, 6));
    assert_eq!(c, [0u8; 7]);
}

#[test]
fn six_of_a_kind_scores_3000() {
    let mut c = counts_of(&[(2, 6)]);
    assert_eq!(roll_pattern(&c), RollPattern::SixOfAKind);
    let r = score_dice(&mut c);
    assert_eq!((r.score, r.dice_used), (3000, 6));
    assert_eq!(c, [0u8; 7]);
}

#[test]
fn five_of_a_kind_and_a_single_one() {
    let mut c = counts_of(&[(4, 5), (1, 1)]);
    let r = score_dice(&mut c);
    assert_eq!((r.score, r.dice_used), (2100, 6));
}

#[test]
fn four_of_a_kind_and_a_pair_of_fives() {
    let mut c = counts_of(&[(6, 4), (5, 2)]);
    let r = score_dice(&mut c);
    assert_eq!((r.score, r.dice_used), (1100, 6));
    assert_eq!(c, [0u8; 7]);
}

#[test]
fn triple_ones_and_two_fives() {
    let mut c = counts_of(&[(1, 3), (5, 2)]);
    let r = score_dice(&mut c);
    assert_eq!((r.score, r.dice_used), (1100, 5));
    assert_eq!(c, [0u8; 7]);
}

#[test]
fn triple_of_other_face_scores_hundred_per_pip() {
    let mut c = counts_of(&[(4, 3), (2, 1)]);
    let r = score_dice(&mut c);
    assert_eq!((r.score, r.dice_used), (400, 3));
    assert_eq!(c, [0, 0, 1, 0, 0, 0, 0]);
}

#[test]
fn single_one_leaves_the_tally() {
    let mut c = counts_of(&[(1, 1), (2, 1), (5, 1)]);
    let r = score_dice(&mut c);
    assert_eq!((r.score, r.dice_used), (150, 2));
    assert_eq!(c, [0, 0, 1, 0, 0, 0, 0]);
}

#[test]
fn no_scoring_dice_is_a_bust() {
    let mut c = counts_of(&[(2, 1), (3, 1), (4, 1)]);
    let r = score_dice(&mut c);
    assert_eq!((r.score, r.dice_used), (0, 0));
    assert_eq!(c, counts_of(&[(2, 1), (3, 1), (4, 1)]));
}

#[test]
fn empty_roll_scores_nothing() {
    let mut c = [0u8; 7];
    assert_eq!(score_dice(&mut c), RollOutcome { score: 0, dice_used: 0 });
}

#[test]
fn scoring_is_deterministic() {
    let base = counts_of(&[(1, 1), (5, 2), (6, 3)]);
    let mut a = base;
    let mut b = base;
    assert_eq!(score_dice(&mut a), score_dice(&mut b));
    assert_eq!(a, b);
    assert_eq!(score_dice(&mut base.clone()), RollOutcome { score: 800, dice_used: 6 });
}

#[test]
fn dice_used_never_exceeds_dice_rolled() {
    for a in 0..=6u8 {
        for b in 0..=(6 - a) {
            for d in 0..=(6 - a - b) {
                let mut c = counts_of(&[(1, a), (3, b), (5, d)]);
                let r = score_dice(&mut c);
                assert!(r.dice_used <= 6);
                assert!(r.dice_used <= a + b + d);
                assert_eq!(r.score == 0, r.dice_used == 0);
            }
        }
    }
}

#[test]
fn single_faces_score_on_their_own() {
    assert_eq!(score_face(1, 2), (200, 2));
    assert_eq!(score_face(5, 1), (50, 1));
    assert_eq!(score_face(3, 2), (0, 0));
    assert_eq!(score_face(1, 3), (1000, 3));
    assert_eq!(score_face(6, 3), (600, 3));
}
