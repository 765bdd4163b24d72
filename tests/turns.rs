use farkle::classify::{classify_roll, RollClassification, RollStats};
use farkle::faces::count_dice;
use farkle::policy::{decide, Decision};
use farkle::probability::probability_of_scoring;
use farkle::turn::{TurnState, TurnStep};

#[test]
fn triplet_is_notable() {
    let c = count_dice(&vec![2, 2, 2, 3, 4]);
    assert_eq!(classify_roll(&c, 3), RollClassification::Notable);
    let c = count_dice(&vec![6, 6, 6, 6, 3, 2]);
    assert_eq!(classify_roll(&c, 4), RollClassification::Notable);
}

#[test]
fn singles_with_dice_left_are_plain() {
    let c = count_dice(&vec![1, 5, 2, 3, 4]);
    assert_eq!(classify_roll(&c, 2), RollClassification::Plain);
    let c = count_dice(&vec![2, 3, 4]);
    assert_eq!(classify_roll(&c, 0), RollClassification::Plain);
}

#[test]
fn hot_dice_is_notable() {
    let c = count_dice(&vec![1, 5]);
    assert_eq!(classify_roll(&c, 2), RollClassification::Notable);
    let c = count_dice(&vec![1, 2, 3, 4, 5, 6]);
    assert_eq!(classify_roll(&c, 6), RollClassification::Notable);
}

#[test]
fn stats_count_each_label() {
    let mut s = RollStats::new();
    s.record(RollClassification::Notable);
    s.record(RollClassification::Plain);
    s.record(RollClassification::Plain);
    assert_eq!(s, RollStats { notable: 1, plain: 2 });
    let mut full = RollStats { notable: u32::MAX, plain: 0 };
    full.record(RollClassification::Notable);
    assert_eq!(full.notable, u32::MAX);
}

#[test]
fn chance_of_scoring() {
    let p0 = probability_of_scoring(0);
    assert_eq!((p0.numerator, p0.denominator), (1, 1));
    let p1 = probability_of_scoring(1);
    assert_eq!((p1.numerator, p1.denominator), (2, 6));
    let p6 = probability_of_scoring(6);
    assert_eq!((p6.numerator, p6.denominator), (46656 - 4096, 46656));
    let f = p6.numerator as f64 / p6.denominator as f64;
    assert!((f - 0.9122).abs() < 0.0001);
    for n in 1..6u8 {
        let a = probability_of_scoring(n);
        let b = probability_of_scoring(n + 1);
        assert!((a.numerator as u64) * (b.denominator as u64) < (b.numerator as u64) * (a.denominator as u64));
    }
}

#[test]
fn policy_rules_in_order() {
    // desperate: opponent near the goal and far ahead
    assert_eq!(decide(100, 3700, 4000, 2000, 2), Decision::RollAgain);
    // comfortable leader banks
    assert_eq!(decide(2000, 1000, 4000, 50, 5), Decision::Bank);
    // close to the goal banks
    assert_eq!(decide(3000, 2500, 4000, 550, 3), Decision::Bank);
    // hot dice roll again
    assert_eq!(decide(0, 0, 4000, 1500, 6), Decision::RollAgain);
    // enough points bank
    assert_eq!(decide(0, 0, 4000, 400, 3), Decision::Bank);
    // otherwise roll again
    assert_eq!(decide(0, 0, 4000, 350, 3), Decision::RollAgain);
}

#[test]
fn desperate_goes_before_leader() {
    // a goal below 400 leaves the desperate test open to any opponent score
    assert_eq!(decide(0, 900, 0, 0, 3), Decision::RollAgain);
    assert_eq!(decide(5000, 5900, 6000, 3000, 1), Decision::RollAgain);
}

#[test]
fn bust_after_scoring_loses_turn_points() {
    let mut stats = RollStats::new();
    let mut t = TurnState::new(1, "Player 1".to_string());
    let step = t.apply_roll(vec![1, 2, 3, 4, 6, 6], 0, 0, 4000, &mut stats);
    assert_eq!(step, TurnStep::RollAgain);
    assert_eq!((t.turn_score, t.remaining_dice), (100, 5));
    let step = t.apply_roll(vec![2, 3, 4, 6, 6], 0, 0, 4000, &mut stats);
    assert_eq!(step, TurnStep::Bust);
    assert_eq!(t.turn_score, 0);
    let r = t.finish();
    assert_eq!(r.points_scored, 0);
    assert!(!r.notable);
    assert_eq!(r.rolls, vec![vec![1, 2, 3, 4, 6, 6], vec![2, 3, 4, 6, 6]]);
    assert_eq!(r.player, "Player 1");
    assert_eq!(stats, RollStats { notable: 0, plain: 2 });
}

#[test]
fn first_roll_bust_scores_nothing() {
    let mut stats = RollStats::new();
    let mut t = TurnState::new(3, "P".to_string());
    let step = t.apply_roll(vec![2, 2, 3, 3, 4, 6], 0, 0, 4000, &mut stats);
    assert_eq!(step, TurnStep::Bust);
    let r = t.finish();
    assert_eq!((r.points_scored, r.turn_number), (0, 3));
}

#[test]
fn hot_dice_rolls_six_again_then_banks() {
    let mut stats = RollStats::new();
    let mut t = TurnState::new(1, "P".to_string());
    let step = t.apply_roll(vec![1, 2, 3, 4, 5, 6], 0, 0, 4000, &mut stats);
    assert_eq!(step, TurnStep::RollAgain);
    assert_eq!((t.turn_score, t.remaining_dice), (1500, 6));
    let step = t.apply_roll(vec![5, 2, 3, 4, 6, 6], 0, 0, 4000, &mut stats);
    assert_eq!(step, TurnStep::Banked);
    assert_eq!((t.turn_score, t.remaining_dice), (1550, 5));
    let r = t.finish();
    assert_eq!(r.points_scored, 1550);
    assert!(r.notable);
    assert_eq!(stats, RollStats { notable: 1, plain: 1 });
}
