use visolearn::difficulty::Difficulty;
use visolearn::policy::{
    encouragement_tier, percent_of, Advancement, Encouragement, Notice, Threshold, BASIS,
    DEFAULT_ATTEMPT_LIMIT, DEFAULT_THRESHOLD, MIN_THRESHOLD,
};

fn ceil_count(total: usize, basis_points: u32) -> usize {
    let product = total as u128 * basis_points as u128;
    let mut count = product / 10000;
    if count * 10000 < product {
        count += 1;
    }
    count as usize
}

#[test]
fn threshold_count_rounds_up() {
    let t = Threshold::normalize(7000);
    assert_eq!(t.count(5), 4);
    assert_eq!(t.count(10), 7);
    assert_eq!(t.count(0), 0);
    assert_eq!(t.count(1), 1);
    assert_eq!(t.count(15), 11);
}

#[test]
fn threshold_count_is_the_ceiling_for_every_small_input() {
    let mut basis_points = MIN_THRESHOLD;
    while basis_points <= BASIS {
        let t = Threshold { basis_points };
        for total in 0..40usize {
            assert_eq!(t.count(total), ceil_count(total, basis_points));
            assert!(t.count(total) <= total);
        }
        basis_points += 250;
    }
}

#[test]
fn threshold_count_does_not_overflow() {
    let t = Threshold { basis_points: BASIS };
    assert_eq!(t.count(usize::MAX), usize::MAX);
    let low = Threshold { basis_points: MIN_THRESHOLD };
    assert_eq!(low.count(usize::MAX), ceil_count(usize::MAX, MIN_THRESHOLD));
}

#[test]
fn a_whole_threshold_asks_for_everything() {
    let t = Threshold::normalize(10_000);
    for total in 0..20usize {
        assert_eq!(t.count(total), total);
    }
}

#[test]
fn percentage_input_is_divided_by_one_hundred() {
    assert_eq!(Threshold::normalize(700_000).basis_points, 7000);
    assert_eq!(Threshold::normalize(7000).basis_points, 7000);
    assert_eq!(Threshold::normalize(10_000).basis_points, 10_000);
    assert_eq!(Threshold::normalize(500_000).basis_points, 5000);
    assert_eq!(Threshold::normalize(1_000_000).basis_points, 10_000);
}

#[test]
fn threshold_is_clamped_to_one_tenth_and_one_whole() {
    assert_eq!(Threshold::normalize(0).basis_points, 1000);
    assert_eq!(Threshold::normalize(999).basis_points, 1000);
    assert_eq!(Threshold::normalize(1000).basis_points, 1000);
    assert_eq!(Threshold::normalize(10_001).basis_points, 1000);
    assert_eq!(Threshold::normalize(50_000).basis_points, 1000);
    assert_eq!(Threshold::normalize(2_000_000).basis_points, 10_000);
    assert_eq!(Threshold::normalize(u64::MAX).basis_points, 10_000);
}

#[test]
fn absent_threshold_defaults_to_seven_tenths() {
    assert_eq!(Threshold::from_input(None).basis_points, 7000);
    assert_eq!(Threshold::from_input(Some(700_000)).basis_points, 7000);
    assert_eq!(Threshold::default_threshold().basis_points, DEFAULT_THRESHOLD);
    assert_eq!(DEFAULT_ATTEMPT_LIMIT, 3);
}

#[test]
fn threshold_percent_is_whole() {
    assert_eq!(Threshold::normalize(7000).percent(), 70);
    assert_eq!(Threshold::normalize(7550).percent(), 75);
    assert_eq!(Threshold::normalize(10_000).percent(), 100);
}

#[test]
fn percent_identified_is_zero_without_details() {
    assert_eq!(percent_of(0, 0), 0);
}

#[test]
fn percent_identified_rounds_down() {
    assert_eq!(percent_of(1, 3), 33);
    assert_eq!(percent_of(2, 3), 66);
    assert_eq!(percent_of(3, 3), 100);
    assert_eq!(percent_of(0, 5), 0);
    assert_eq!(percent_of(2, 4), 50);
    assert_eq!(percent_of(usize::MAX, usize::MAX), 100);
}

#[test]
fn encouragement_takes_the_first_tier_that_holds() {
    let t = Threshold::normalize(10_000);
    assert_eq!(encouragement_tier(4, 4, t), Encouragement::ThresholdReached);
    assert_eq!(encouragement_tier(3, 4, t), Encouragement::AlmostThere);
    assert_eq!(encouragement_tier(2, 4, t), Encouragement::Halfway);
    assert_eq!(encouragement_tier(1, 4, t), Encouragement::GoodStart);
    assert_eq!(encouragement_tier(0, 4, t), Encouragement::FindMore);
    assert_eq!(encouragement_tier(2, 3, t), Encouragement::Halfway);
    assert_eq!(encouragement_tier(1, 3, t), Encouragement::GoodStart);
    assert_eq!(encouragement_tier(1, 5, t), Encouragement::FindMore);
    let seven_tenths = Threshold::normalize(7000);
    assert_eq!(encouragement_tier(4, 5, seven_tenths), Encouragement::ThresholdReached);
    assert_eq!(encouragement_tier(3, 5, seven_tenths), Encouragement::Halfway);
    assert_eq!(encouragement_tier(0, 0, seven_tenths), Encouragement::ThresholdReached);
}

#[test]
fn encouragement_messages() {
    assert_eq!(Encouragement::AlmostThere.message(), "Almost there! Keep going!");
    assert_eq!(Encouragement::Halfway.message(), "Halfway there! You're doing great!");
    assert_eq!(Encouragement::GoodStart.message(), "Good start! Keep looking!");
    assert_eq!(Encouragement::FindMore.message(), "Let's find more details!");
    assert_eq!(
        Encouragement::ThresholdReached.message(),
        "🎉 Threshold reached! Ready to advance! 🎉"
    );
}

fn conditions(bits: u8) -> Advancement {
    Advancement {
        threshold_reached: bits & 1 != 0,
        all_identified: bits & 2 != 0,
        attempts_exhausted: bits & 4 != 0,
        should_advance: bits & 8 != 0,
    }
}

#[test]
fn any_one_condition_ends_the_session() {
    for bits in 0..16u8 {
        assert_eq!(conditions(bits).is_triggered(), bits != 0);
    }
}

#[test]
fn four_of_five_reach_a_threshold_of_seven_tenths() {
    let adv = Advancement::evaluate(4, 5, Threshold::normalize(7000), false, 0, 3, false);
    assert!(adv.threshold_reached);
    assert!(!adv.all_identified);
    assert!(adv.is_triggered());
    let short = Advancement::evaluate(3, 5, Threshold::normalize(7000), false, 0, 3, false);
    assert!(!short.threshold_reached);
    assert!(!short.is_triggered());
}

#[test]
fn attempts_are_exhausted_at_the_limit() {
    let t = Threshold::normalize(7000);
    assert!(!Advancement::evaluate(0, 5, t, false, 2, 3, false).attempts_exhausted);
    assert!(Advancement::evaluate(0, 5, t, false, 3, 3, false).attempts_exhausted);
    assert!(Advancement::evaluate(0, 5, t, false, 4, 3, false).attempts_exhausted);
}

#[test]
fn proposed_difficulty_is_taken_on_threshold_or_request_only() {
    let current = Difficulty::Simple;
    let proposed = Difficulty::Detailed;
    for bits in 0..16u8 {
        let adv = conditions(bits);
        let want = if adv.threshold_reached || adv.should_advance { proposed } else { current };
        assert_eq!(adv.select_difficulty(current, proposed), want);
    }
}

#[test]
fn the_first_matching_notice_wins() {
    let current = Difficulty::Simple;
    for bits in 0..16u8 {
        let adv = conditions(bits);
        for proposed in [Difficulty::Simple, Difficulty::Moderate] {
            let want = if adv.attempts_exhausted {
                Notice::Exhausted
            } else if adv.threshold_reached && proposed != current {
                Notice::ThresholdAdvance
            } else if adv.should_advance {
                Notice::Advanced
            } else if adv.threshold_reached || adv.all_identified {
                Notice::SameDifficulty
            } else {
                Notice::NewImage
            };
            assert_eq!(adv.select_notice(current, proposed), want);
        }
    }
}

#[test]
fn exhausted_attempts_keep_the_difficulty_and_say_so() {
    let adv = conditions(4);
    assert!(adv.is_triggered());
    assert_eq!(adv.select_notice(Difficulty::Simple, Difficulty::Detailed), Notice::Exhausted);
    assert_eq!(adv.select_difficulty(Difficulty::Simple, Difficulty::Detailed), Difficulty::Simple);
    let with_threshold = conditions(5);
    assert_eq!(
        with_threshold.select_notice(Difficulty::Simple, Difficulty::Detailed),
        Notice::Exhausted
    );
    assert_eq!(
        with_threshold.select_difficulty(Difficulty::Simple, Difficulty::Detailed),
        Difficulty::Detailed
    );
}

#[test]
fn difficulty_labels_and_ranks() {
    let levels = [
        (Difficulty::VerySimple, "Very Simple"),
        (Difficulty::Simple, "Simple"),
        (Difficulty::Moderate, "Moderate"),
        (Difficulty::Detailed, "Detailed"),
        (Difficulty::VeryDetailed, "Very Detailed"),
    ];
    for (i, (level, label)) in levels.iter().enumerate() {
        assert_eq!(level.rank() as usize, i);
        assert_eq!(level.label(), *label);
        assert_eq!(Difficulty::from_label(label), Some(*level));
    }
    assert_eq!(Difficulty::from_label("Medium"), None);
    assert_eq!(Difficulty::from_label("very simple"), None);
    assert_eq!(Difficulty::from_label(""), None);
    assert!(Difficulty::VerySimple.at_most(Difficulty::Simple));
    assert!(Difficulty::Moderate.at_most(Difficulty::Moderate));
    assert!(!Difficulty::VeryDetailed.at_most(Difficulty::Detailed));
}
