//! The verdict of the evaluator on one utterance, and the tolerant reading
//! of what the evaluator sent.

use crate::difficulty::{difficulty_of_label, Difficulty};
use crate::session::Session;
use crate::text::owned;
use vstd::prelude::*;
use vstd::string::*;

verus! {

/// How a tolerant reading arrived at its result.
#[derive(Clone, Copy, Debug, PartialEq, Eq, Structural)]
pub enum Source {
    /// The text had the structured form.
    Structured,
    /// The items were taken from lines that begin with a list mark.
    LineExtracted,
    /// Nothing could be read, and the fixed default stands in.
    Default,
}

/// The evaluator's answer as it arrives when it has the structured form:
/// every field as text or plain value, nothing checked yet.
#[derive(Debug)]
pub struct StructuredVerdict {
    pub feedback: String,
    pub updated_difficulty: String,
    pub should_advance: bool,
    pub newly_identified: Vec<String>,
    pub score: i32,
}

/// The judgement of one utterance.
#[derive(Debug)]
pub struct Verdict {
    /// What the teacher says to the learner.
    pub feedback: String,
    /// The difficulty the evaluator proposes for the next image.
    pub updated_difficulty: Difficulty,
    /// Whether the evaluator asks for a new image.
    pub should_advance: bool,
    /// The phrases the evaluator takes as newly identified.
    pub newly_identified: Vec<String>,
    pub score: i32,
    /// How the verdict was read.
    pub source: Source,
}

/// What a [`Verdict`] stands for.
pub struct VerdictView {
    pub feedback: Seq<char>,
    pub updated_difficulty: Difficulty,
    pub should_advance: bool,
    pub newly_identified: Seq<Seq<char>>,
    pub score: int,
    pub source: Source,
}

impl View for Verdict {
    type V = VerdictView;

    open spec fn view(&self) -> VerdictView {
        VerdictView {
            feedback: self.feedback@,
            updated_difficulty: self.updated_difficulty,
            should_advance: self.should_advance,
            newly_identified: self.newly_identified.deep_view(),
            score: self.score as int,
            source: self.source,
        }
    }
}

/// What the teacher says when the evaluator's answer could not be read.
pub open spec fn generic_feedback() -> Seq<char> {
    "Thank you for sharing what you see. Let's keep looking at the picture together."@
}

/// The verdict that stands in for an unreadable answer: generic feedback,
/// nothing newly identified, no request to advance, the difficulty as it is.
pub open spec fn default_verdict(current: Difficulty) -> VerdictView {
    VerdictView {
        feedback: generic_feedback(),
        updated_difficulty: current,
        should_advance: false,
        newly_identified: Seq::empty(),
        score: 0,
        source: Source::Default,
    }
}

/// The verdict read from a structured answer: its fields as they are, with
/// the current difficulty in place of a label that names no level.
pub open spec fn structured_verdict(
    feedback: Seq<char>,
    label: Seq<char>,
    should_advance: bool,
    newly_identified: Seq<Seq<char>>,
    score: int,
    current: Difficulty,
) -> VerdictView {
    VerdictView {
        feedback,
        updated_difficulty: match difficulty_of_label(label) {
            Some(d) => d,
            None => current,
        },
        should_advance,
        newly_identified,
        score,
        source: Source::Structured,
    }
}

/// Reads the evaluator's answer. `structured` is the answer in structured
/// form, or `None` when it had none; then the default verdict stands in.
/// Never fails.
pub fn parse_evaluation(structured: Option<StructuredVerdict>, active_session: &Session) -> (r:
    Verdict)
    ensures
        r@ == match structured {
            Some(v) => structured_verdict(
                v.feedback@,
                v.updated_difficulty@,
                v.should_advance,
                v.newly_identified.deep_view(),
                v.score as int,
                active_session.difficulty,
            ),
            None => default_verdict(active_session.difficulty),
        },
{
    match structured {
        Some(v) => {
            let proposed = match Difficulty::from_label(v.updated_difficulty.as_str()) {
                Some(d) => d,
                None => active_session.difficulty,
            };
            Verdict {
                feedback: v.feedback,
                updated_difficulty: proposed,
                should_advance: v.should_advance,
                newly_identified: v.newly_identified,
                score: v.score,
                source: Source::Structured,
            }
        },
        None => {
            let r = Verdict {
                feedback: owned(
                    "Thank you for sharing what you see. Let's keep looking at the picture together.",
                ),
                updated_difficulty: active_session.difficulty,
                should_advance: false,
                newly_identified: Vec::new(),
                score: 0,
                source: Source::Default,
            };
            assert(r@.newly_identified =~= Seq::empty());
            r
        },
    }
}

} // verus!
