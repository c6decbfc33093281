//! The five ordered difficulty levels of a practice session.

use crate::text::str_eq;
use vstd::prelude::*;

verus! {

/// A difficulty level. The levels are ordered by [`Difficulty::rank`]:
/// `VerySimple < Simple < Moderate < Detailed < VeryDetailed`.
#[derive(Clone, Copy, Debug, PartialEq, Eq, Structural)]
pub enum Difficulty {
    VerySimple,
    Simple,
    Moderate,
    Detailed,
    VeryDetailed,
}

/// The level that a label names, if it names one.
pub open spec fn difficulty_of_label(label: Seq<char>) -> Option<Difficulty> {
    if label == "Very Simple"@ {
        Some(Difficulty::VerySimple)
    } else if label == "Simple"@ {
        Some(Difficulty::Simple)
    } else if label == "Moderate"@ {
        Some(Difficulty::Moderate)
    } else if label == "Detailed"@ {
        Some(Difficulty::Detailed)
    } else if label == "Very Detailed"@ {
        Some(Difficulty::VeryDetailed)
    } else {
        None
    }
}

impl Difficulty {
    /// Position of the level in the order, from 0 (easiest) to 4 (hardest).
    pub open spec fn spec_rank(self) -> u8 {
        match self {
            Difficulty::VerySimple => 0,
            Difficulty::Simple => 1,
            Difficulty::Moderate => 2,
            Difficulty::Detailed => 3,
            Difficulty::VeryDetailed => 4,
        }
    }

    /// Position of the level in the order, from 0 (easiest) to 4 (hardest).
    #[verifier::when_used_as_spec(spec_rank)]
    pub fn rank(self) -> (r: u8)
        ensures
            r == self.spec_rank(),
    {
        match self {
            Difficulty::VerySimple => 0,
            Difficulty::Simple => 1,
            Difficulty::Moderate => 2,
            Difficulty::Detailed => 3,
            Difficulty::VeryDetailed => 4,
        }
    }

    /// The label under which the level is shown.
    pub open spec fn spec_label(self) -> Seq<char> {
        match self {
            Difficulty::VerySimple => "Very Simple"@,
            Difficulty::Simple => "Simple"@,
            Difficulty::Moderate => "Moderate"@,
            Difficulty::Detailed => "Detailed"@,
            Difficulty::VeryDetailed => "Very Detailed"@,
        }
    }

    /// The label under which the level is shown.
    pub fn label(self) -> (r: &'static str)
        ensures
            r@ == self.spec_label(),
    {
        match self {
            Difficulty::VerySimple => "Very Simple",
            Difficulty::Simple => "Simple",
            Difficulty::Moderate => "Moderate",
            Difficulty::Detailed => "Detailed",
            Difficulty::VeryDetailed => "Very Detailed",
        }
    }

    /// The level that `label` names; `None` for any other text.
    pub fn from_label(label: &str) -> (r: Option<Difficulty>)
        ensures
            r == difficulty_of_label(label@),
    {
        if str_eq(label, "Very Simple") {
            Some(Difficulty::VerySimple)
        } else if str_eq(label, "Simple") {
            Some(Difficulty::Simple)
        } else if str_eq(label, "Moderate") {
            Some(Difficulty::Moderate)
        } else if str_eq(label, "Detailed") {
            Some(Difficulty::Detailed)
        } else if str_eq(label, "Very Detailed") {
            Some(Difficulty::VeryDetailed)
        } else {
            None
        }
    }

    /// Whether this level comes no later than `other` in the order.
    pub fn at_most(self, other: Difficulty) -> (r: bool)
        ensures
            r == (self.spec_rank() <= other.spec_rank()),
    {
        self.rank() <= other.rank()
    }
}

/// Each level is found again from its own label, and two levels with one
/// rank are one level.
pub proof fn lemma_label_round_trip(d: Difficulty)
    ensures
        difficulty_of_label(d.spec_label()) == Some(d),
        forall|e: Difficulty| e.spec_rank() == d.spec_rank() ==> e == d,
{
    reveal_strlit("Very Simple");
    reveal_strlit("Simple");
    reveal_strlit("Moderate");
    reveal_strlit("Detailed");
    reveal_strlit("Very Detailed");
    assert("Very Simple"@.len() == 11);
    assert("Simple"@.len() == 6);
    assert("Moderate"@.len() == 8);
    assert("Detailed"@.len() == 8);
    assert("Very Detailed"@.len() == 13);
    assert("Moderate"@[0] == 'M');
    assert("Detailed"@[0] == 'D');
}

} // verus!
