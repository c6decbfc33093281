//! Progress policy: the details threshold, the count it asks for, the share
//! of details identified, the encouragement tier, and the rules by which a
//! turn ends a session.

use crate::difficulty::Difficulty;
use vstd::prelude::*;

verus! {

/// Basis points in a whole: a threshold of `BASIS` asks for every detail.
pub const BASIS: u32 = 10000;

/// The smallest threshold a session can have: one tenth.
pub const MIN_THRESHOLD: u32 = 1000;

/// The threshold used when none is given: seven tenths.
pub const DEFAULT_THRESHOLD: u32 = 7000;

/// The attempt limit used when none is given.
pub const DEFAULT_ATTEMPT_LIMIT: u32 = 3;

/// The fraction of the key details that must be identified to qualify for
/// advancement, in basis points (ten-thousandths).
#[derive(Clone, Copy, Debug, PartialEq, Eq, Structural)]
pub struct Threshold {
    pub basis_points: u32,
}

/// The stored form of a threshold given as `input` basis points: an input
/// above one whole is read as a percentage and divided by one hundred, and
/// the result is clamped to the range from one tenth to one whole.
pub open spec fn normalized_basis_points(input: nat) -> nat {
    let scaled = if input > BASIS {
        input / 100
    } else {
        input
    };
    if scaled < MIN_THRESHOLD {
        MIN_THRESHOLD as nat
    } else if scaled > BASIS {
        BASIS as nat
    } else {
        scaled
    }
}

/// The number of details that a threshold of `basis_points` asks for out of
/// `total`: `total * basis_points / 10000`, rounded up.
pub open spec fn threshold_count(total: nat, basis_points: nat) -> nat {
    (total * basis_points + (BASIS - 1)) as nat / (BASIS as nat)
}

/// The share of `identified` in `total`, in whole percent, rounded down;
/// zero when there is nothing to identify.
pub open spec fn percent_identified(identified: nat, total: nat) -> nat {
    if total == 0 {
        0
    } else {
        identified * 100 / total
    }
}

impl Threshold {
    /// A threshold lies between one tenth and one whole.
    pub open spec fn well_formed(self) -> bool {
        MIN_THRESHOLD <= self.basis_points <= BASIS
    }

    /// The threshold that stands for an input of `input` basis points. An
    /// input of 7000 is seven tenths; so is an input of 700000, which is
    /// 70 and is therefore read as seventy percent.
    pub fn normalize(input: u64) -> (r: Threshold)
        ensures
            r.basis_points == normalized_basis_points(input as nat),
            r.well_formed(),
    {
        let scaled: u64 = if input > 10000 {
            input / 100
        } else {
            input
        };
        if scaled < 1000 {
            Threshold { basis_points: 1000 }
        } else if scaled > 10000 {
            Threshold { basis_points: 10000 }
        } else {
            Threshold { basis_points: scaled as u32 }
        }
    }

    /// The threshold of a session that was given none.
    pub fn default_threshold() -> (r: Threshold)
        ensures
            r.basis_points == DEFAULT_THRESHOLD,
            r.well_formed(),
    {
        Threshold { basis_points: DEFAULT_THRESHOLD }
    }

    /// The threshold for an optional input: the default when it is absent,
    /// its normal form otherwise.
    pub fn from_input(input: Option<u64>) -> (r: Threshold)
        ensures
            r.well_formed(),
            r.basis_points == match input {
                Some(v) => normalized_basis_points(v as nat),
                None => DEFAULT_THRESHOLD as nat,
            },
    {
        match input {
            Some(v) => Threshold::normalize(v),
            None => Threshold::default_threshold(),
        }
    }

    /// The number of details out of `total` that this threshold asks for.
    pub fn count(self, total: usize) -> (r: usize)
        requires
            self.well_formed(),
        ensures
            r == threshold_count(total as nat, self.basis_points as nat),
            r <= total,
    {
        proof {
            lemma_threshold_count_bounds(total as nat, self.basis_points as nat);
            assert(total * self.basis_points <= total * 10000) by (nonlinear_arith)
                requires
                    self.basis_points <= 10000,
            ;
        }
        let product: u128 = (total as u128) * (self.basis_points as u128);
        ((product + 9999) / 10000) as usize
    }

    /// The threshold in whole percent, rounded down.
    pub fn percent(self) -> (r: u32)
        ensures
            r == self.basis_points / 100,
    {
        self.basis_points / 100
    }
}

/// The threshold count is the ceiling of `total * basis_points / 10000`:
/// the least count whose ten-thousandfold reaches `total * basis_points`.
pub proof fn lemma_threshold_count_is_ceiling(total: nat, basis_points: nat)
    ensures
        threshold_count(total, basis_points) * BASIS >= total * basis_points,
        (threshold_count(total, basis_points) - 1) * BASIS < total * basis_points,
{
    let x = total * basis_points;
    let c = threshold_count(total, basis_points);
    assert(c == (x + 9999) / 10000);
    assert(c * 10000 <= x + 9999 < c * 10000 + 10000) by (nonlinear_arith)
        requires
            c == (x + 9999) / 10000,
            x >= 0,
    ;
}

/// A threshold of at most one whole never asks for more than there is, and
/// a positive threshold asks for at least one detail of any that exist.
pub proof fn lemma_threshold_count_bounds(total: nat, basis_points: nat)
    ensures
        basis_points <= BASIS ==> threshold_count(total, basis_points) <= total,
        basis_points == BASIS ==> threshold_count(total, basis_points) == total,
        total > 0 && basis_points > 0 ==> threshold_count(total, basis_points) >= 1,
{
    lemma_threshold_count_is_ceiling(total, basis_points);
    let c = threshold_count(total, basis_points);
    if basis_points <= BASIS {
        assert(total * basis_points <= total * 10000) by (nonlinear_arith)
            requires
                basis_points <= 10000,
        ;
        if c > total {
            assert((c - 1) * 10000 >= total * 10000) by (nonlinear_arith)
                requires
                    c - 1 >= total,
            ;
        }
    }
    if basis_points == BASIS {
        if c < total {
            assert(c * 10000 < total * 10000) by (nonlinear_arith)
                requires
                    c < total,
            ;
        }
    }
    if total > 0 && basis_points > 0 {
        assert(total * basis_points > 0) by (nonlinear_arith)
            requires
                total > 0,
                basis_points > 0,
        ;
    }
}

/// Normalising always gives a threshold between one tenth and one whole,
/// and leaves such a threshold as it is.
pub proof fn lemma_normalized_range(input: nat)
    ensures
        MIN_THRESHOLD <= normalized_basis_points(input) <= BASIS,
        MIN_THRESHOLD <= input <= BASIS ==> normalized_basis_points(input) == input,
{
}

/// The share of details identified, in whole percent, rounded down.
pub fn percent_of(identified: usize, total: usize) -> (r: usize)
    requires
        identified <= total,
    ensures
        r == percent_identified(identified as nat, total as nat),
        r <= 100,
{
    if total == 0 {
        0
    } else {
        proof {
            assert(identified * 100 / (total as int) <= 100) by (nonlinear_arith)
                requires
                    0 <= identified <= total,
                    total > 0,
            ;
        }
        let scaled: u128 = (identified as u128) * 100;
        (scaled / (total as u128)) as usize
    }
}

/// How far along a learner is, for the encouragement shown under the
/// progress bar.
#[derive(Clone, Copy, Debug, PartialEq, Eq, Structural)]
pub enum Encouragement {
    ThresholdReached,
    AlmostThere,
    Halfway,
    GoodStart,
    FindMore,
}

/// The encouragement tier: the first of these that holds. The threshold
/// count is reached; at least 75 percent are identified; at least 50; at
/// least 25; none of these.
pub open spec fn encouragement(identified: nat, total: nat, basis_points: nat) -> Encouragement {
    if identified >= threshold_count(total, basis_points) {
        Encouragement::ThresholdReached
    } else if identified * 100 >= 75 * total {
        Encouragement::AlmostThere
    } else if identified * 100 >= 50 * total {
        Encouragement::Halfway
    } else if identified * 100 >= 25 * total {
        Encouragement::GoodStart
    } else {
        Encouragement::FindMore
    }
}

/// The percent bounds of the tiers can be read off the whole percent:
/// a share reaches a whole bound exactly when its rounded-down percent does.
pub proof fn lemma_percent_bound(identified: nat, total: nat, bound: nat)
    requires
        total > 0,
    ensures
        identified * 100 >= bound * total <==> percent_identified(identified, total) >= bound,
{
    let p = identified * 100 / total;
    assert(p * total <= identified * 100 < p * total + total) by (nonlinear_arith)
        requires
            p == identified * 100 / total,
            total > 0,
    ;
    if p >= bound {
        assert(p * total >= bound * total) by (nonlinear_arith)
            requires
                p >= bound,
        ;
    } else {
        assert((p + 1) * total <= bound * total) by (nonlinear_arith)
            requires
                p + 1 <= bound,
        ;
        assert((p + 1) * total == p * total + total) by (nonlinear_arith);
    }
}

/// The encouragement tier for `identified` details out of `total`.
pub fn encouragement_tier(identified: usize, total: usize, threshold: Threshold) -> (r:
    Encouragement)
    requires
        identified <= total,
        threshold.well_formed(),
    ensures
        r == encouragement(identified as nat, total as nat, threshold.basis_points as nat),
{
    let scaled: u128 = (identified as u128) * 100;
    let whole: u128 = total as u128;
    if identified >= threshold.count(total) {
        Encouragement::ThresholdReached
    } else if scaled >= 75 * whole {
        Encouragement::AlmostThere
    } else if scaled >= 50 * whole {
        Encouragement::Halfway
    } else if scaled >= 25 * whole {
        Encouragement::GoodStart
    } else {
        Encouragement::FindMore
    }
}

impl Encouragement {
    /// The line shown for the tier.
    pub open spec fn spec_message(self) -> Seq<char> {
        match self {
            Encouragement::ThresholdReached => "🎉 Threshold reached! Ready to advance! 🎉"@,
            Encouragement::AlmostThere => "Almost there! Keep going!"@,
            Encouragement::Halfway => "Halfway there! You're doing great!"@,
            Encouragement::GoodStart => "Good start! Keep looking!"@,
            Encouragement::FindMore => "Let's find more details!"@,
        }
    }

    /// The line shown for the tier.
    pub fn message(self) -> (r: &'static str)
        ensures
            r@ == self.spec_message(),
    {
        match self {
            Encouragement::ThresholdReached => "🎉 Threshold reached! Ready to advance! 🎉",
            Encouragement::AlmostThere => "Almost there! Keep going!",
            Encouragement::Halfway => "Halfway there! You're doing great!",
            Encouragement::GoodStart => "Good start! Keep looking!",
            Encouragement::FindMore => "Let's find more details!",
        }
    }
}

/// The four conditions of which any one ends a session and brings a new
/// image.
#[derive(Clone, Copy, Debug, PartialEq, Eq, Structural)]
pub struct Advancement {
    /// As many details are identified as the threshold asks for.
    pub threshold_reached: bool,
    /// Every item of the checklist is identified.
    pub all_identified: bool,
    /// The attempt count has reached the attempt limit.
    pub attempts_exhausted: bool,
    /// The evaluator asked for advancement.
    pub should_advance: bool,
}

/// Why the learner is shown a new image, in the order in which the reasons
/// are considered.
#[derive(Clone, Copy, Debug, PartialEq, Eq, Structural)]
pub enum Notice {
    /// The allowed attempts are used up.
    Exhausted,
    /// The threshold was reached and the difficulty changes.
    ThresholdAdvance,
    /// The evaluator asked for advancement.
    Advanced,
    /// The threshold was reached or all was identified, at the same difficulty.
    SameDifficulty,
    /// None of the above.
    NewImage,
}

impl Advancement {
    /// Whether the session ends: any one condition suffices.
    pub open spec fn triggered(self) -> bool {
        self.threshold_reached || self.all_identified || self.attempts_exhausted
            || self.should_advance
    }

    /// The difficulty of the next session: the evaluator's proposal when the
    /// threshold was reached or the evaluator asked for advancement, the
    /// current difficulty otherwise.
    pub open spec fn next_difficulty(self, current: Difficulty, proposed: Difficulty) -> Difficulty {
        if self.threshold_reached || self.should_advance {
            proposed
        } else {
            current
        }
    }

    /// The notice for the next session: the first matching rule wins.
    pub open spec fn notice(self, current: Difficulty, proposed: Difficulty) -> Notice {
        if self.attempts_exhausted {
            Notice::Exhausted
        } else if self.threshold_reached && proposed != current {
            Notice::ThresholdAdvance
        } else if self.should_advance {
            Notice::Advanced
        } else if self.threshold_reached || self.all_identified {
            Notice::SameDifficulty
        } else {
            Notice::NewImage
        }
    }

    /// The conditions as they stand for a session with `identified` of
    /// `total` details identified, of which the checklist shows
    /// `all_identified`, after `attempt_count` attempts.
    pub open spec fn assess(
        identified: nat,
        total: nat,
        basis_points: nat,
        all_identified: bool,
        attempt_count: nat,
        attempt_limit: nat,
        should_advance: bool,
    ) -> Advancement {
        Advancement {
            threshold_reached: identified >= threshold_count(total, basis_points),
            all_identified,
            attempts_exhausted: attempt_count >= attempt_limit,
            should_advance,
        }
    }

    /// Executable form of [`Advancement::assess`].
    pub fn evaluate(
        identified: usize,
        total: usize,
        threshold: Threshold,
        all_identified: bool,
        attempt_count: u32,
        attempt_limit: u32,
        should_advance: bool,
    ) -> (r: Advancement)
        requires
            threshold.well_formed(),
        ensures
            r == Advancement::assess(
                identified as nat,
                total as nat,
                threshold.basis_points as nat,
                all_identified,
                attempt_count as nat,
                attempt_limit as nat,
                should_advance,
            ),
    {
        Advancement {
            threshold_reached: identified >= threshold.count(total),
            all_identified,
            attempts_exhausted: attempt_count >= attempt_limit,
            should_advance,
        }
    }

    /// Whether the session ends.
    pub fn is_triggered(self) -> (r: bool)
        ensures
            r == self.triggered(),
    {
        self.threshold_reached || self.all_identified || self.attempts_exhausted
            || self.should_advance
    }

    /// The difficulty of the next session.
    pub fn select_difficulty(self, current: Difficulty, proposed: Difficulty) -> (r: Difficulty)
        ensures
            r == self.next_difficulty(current, proposed),
    {
        if self.threshold_reached || self.should_advance {
            proposed
        } else {
            current
        }
    }

    /// The notice for the next session.
    pub fn select_notice(self, current: Difficulty, proposed: Difficulty) -> (r: Notice)
        ensures
            r == self.notice(current, proposed),
    {
        if self.attempts_exhausted {
            Notice::Exhausted
        } else if self.threshold_reached && proposed != current {
            Notice::ThresholdAdvance
        } else if self.should_advance {
            Notice::Advanced
        } else if self.threshold_reached || self.all_identified {
            Notice::SameDifficulty
        } else {
            Notice::NewImage
        }
    }
}

/// Once the attempts are used up the session ends whatever else holds, the
/// notice says so, and the difficulty stays unless the threshold was
/// reached or the evaluator asked for advancement.
pub proof fn lemma_exhausted_attempts_advance(
    adv: Advancement,
    current: Difficulty,
    proposed: Difficulty,
)
    requires
        adv.attempts_exhausted,
    ensures
        adv.triggered(),
        adv.notice(current, proposed) == Notice::Exhausted,
        !adv.threshold_reached && !adv.should_advance ==> adv.next_difficulty(current, proposed)
            == current,
{
}

} // verus!
