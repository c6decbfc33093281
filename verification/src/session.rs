//! The session: the state of one learner working on one image.

use crate::difficulty::Difficulty;
use crate::policy::{Threshold, DEFAULT_ATTEMPT_LIMIT, DEFAULT_THRESHOLD};
use crate::text::{clone_optional_text, clone_texts, contains_text, str_eq};
use vstd::prelude::*;
use vstd::string::*;

verus! {

/// The state of one learner working on one image.
///
/// A session is well formed ([`SessionView::well_formed`]) when its
/// identified details are distinct key details and its threshold lies
/// between one tenth and one whole. Every operation of this crate that is
/// given well-formed sessions returns well-formed sessions.
#[derive(Debug)]
pub struct Session {
    /// The prompt the image was generated from; `None` until one exists.
    pub prompt: Option<String>,
    /// The image, as a data URL; owned by this session alone.
    pub image: Option<String>,
    /// The reference description of the image.
    pub image_description: Option<String>,
    /// The transcript: pairs of speaker and message, oldest first.
    pub chat: Vec<(String, String)>,
    pub treatment_plan: Option<String>,
    pub topic_focus: Option<String>,
    /// The details a learner should identify, in checklist order.
    pub key_details: Vec<String>,
    /// The key details identified so far, in the order they were identified.
    pub identified_details: Vec<String>,
    pub used_hints: Vec<String>,
    pub difficulty: Difficulty,
    pub autism_level: String,
    pub age: String,
    /// The number of fruitless attempts after which a new image is shown.
    pub attempt_limit: u32,
    /// The number of turns so far that identified nothing new.
    pub attempt_count: u32,
    pub details_threshold: Threshold,
    pub image_style: String,
    /// Set on the copy that goes to the archive when the session ends.
    pub completed: bool,
}

/// What a [`Session`] stands for.
pub struct SessionView {
    pub prompt: Option<Seq<char>>,
    pub image: Option<Seq<char>>,
    pub image_description: Option<Seq<char>>,
    pub chat: Seq<(Seq<char>, Seq<char>)>,
    pub treatment_plan: Option<Seq<char>>,
    pub topic_focus: Option<Seq<char>>,
    pub key_details: Seq<Seq<char>>,
    pub identified_details: Seq<Seq<char>>,
    pub used_hints: Seq<Seq<char>>,
    pub difficulty: Difficulty,
    pub autism_level: Seq<char>,
    pub age: Seq<char>,
    pub attempt_limit: nat,
    pub attempt_count: nat,
    pub details_threshold: nat,
    pub image_style: Seq<char>,
    pub completed: bool,
}

impl View for Session {
    type V = SessionView;

    open spec fn view(&self) -> SessionView {
        SessionView {
            prompt: self.prompt.deep_view(),
            image: self.image.deep_view(),
            image_description: self.image_description.deep_view(),
            chat: self.chat.deep_view(),
            treatment_plan: self.treatment_plan.deep_view(),
            topic_focus: self.topic_focus.deep_view(),
            key_details: self.key_details.deep_view(),
            identified_details: self.identified_details.deep_view(),
            used_hints: self.used_hints.deep_view(),
            difficulty: self.difficulty,
            autism_level: self.autism_level@,
            age: self.age@,
            attempt_limit: self.attempt_limit as nat,
            attempt_count: self.attempt_count as nat,
            details_threshold: self.details_threshold.basis_points as nat,
            image_style: self.image_style@,
            completed: self.completed,
        }
    }
}

impl DeepView for Session {
    type V = SessionView;

    open spec fn deep_view(&self) -> SessionView {
        self@
    }
}

impl SessionView {
    /// The invariant of a session: the identified details are distinct key
    /// details, and the threshold is normalised.
    pub open spec fn well_formed(self) -> bool {
        &&& self.identified_details.no_duplicates()
        &&& forall|i: int|
            0 <= i < self.identified_details.len() ==> self.key_details.contains(
                #[trigger] self.identified_details[i],
            )
        &&& 1000 <= self.details_threshold <= 10000
    }

    /// The identified details, as a set.
    pub open spec fn identified_set(self) -> Set<Seq<char>> {
        self.identified_details.to_set()
    }

    /// The session that stands in until the first image is generated.
    pub open spec fn placeholder() -> SessionView {
        SessionView {
            prompt: None,
            image: None,
            image_description: None,
            chat: Seq::empty(),
            treatment_plan: None,
            topic_focus: None,
            key_details: Seq::empty(),
            identified_details: Seq::empty(),
            used_hints: Seq::empty(),
            difficulty: Difficulty::VerySimple,
            autism_level: "Level 1"@,
            age: "3"@,
            attempt_limit: DEFAULT_ATTEMPT_LIMIT as nat,
            attempt_count: 0,
            details_threshold: DEFAULT_THRESHOLD as nat,
            image_style: "Realistic"@,
            completed: false,
        }
    }
}

/// In a well-formed session every identified detail is a key detail.
pub proof fn lemma_identified_within_key_details(s: SessionView)
    requires
        s.well_formed(),
    ensures
        s.identified_set().subset_of(s.key_details.to_set()),
        s.identified_set().finite(),
        s.identified_set().len() == s.identified_details.len(),
{
    assert forall|d: Seq<char>| s.identified_set().contains(d) implies s.key_details.to_set().contains(
        d,
    ) by {
        let i = choose|i: int| 0 <= i < s.identified_details.len() && s.identified_details[i] == d;
        assert(s.key_details.contains(s.identified_details[i]));
    }
    s.identified_details.unique_seq_to_set();
}

/// A copy of a transcript.
pub fn clone_chat(chat: &Vec<(String, String)>) -> (r: Vec<(String, String)>)
    ensures
        r.deep_view() == chat.deep_view(),
{
    let mut r: Vec<(String, String)> = Vec::new();
    let mut i: usize = 0;
    while i < chat.len()
        invariant
            i <= chat.len(),
            r.len() == i,
            forall|j: int| 0 <= j < i ==> r.deep_view()[j] == chat.deep_view()[j],
        decreases chat.len() - i,
    {
        let entry = &chat[i];
        r.push((entry.0.clone(), entry.1.clone()));
        i += 1;
    }
    assert(r.deep_view() =~= chat.deep_view());
    r
}

impl Clone for Session {
    fn clone(&self) -> (r: Session)
        ensures
            r@ == self@,
    {
        Session {
            prompt: clone_optional_text(&self.prompt),
            image: clone_optional_text(&self.image),
            image_description: clone_optional_text(&self.image_description),
            chat: clone_chat(&self.chat),
            treatment_plan: clone_optional_text(&self.treatment_plan),
            topic_focus: clone_optional_text(&self.topic_focus),
            key_details: clone_texts(&self.key_details),
            identified_details: clone_texts(&self.identified_details),
            used_hints: clone_texts(&self.used_hints),
            difficulty: self.difficulty,
            autism_level: self.autism_level.clone(),
            age: self.age.clone(),
            attempt_limit: self.attempt_limit,
            attempt_count: self.attempt_count,
            details_threshold: self.details_threshold,
            image_style: self.image_style.clone(),
            completed: self.completed,
        }
    }
}

impl Session {
    /// The session that stands in until the first image is generated: no
    /// prompt, no image, nothing to identify, the easiest difficulty and the
    /// default settings.
    pub fn new() -> (r: Session)
        ensures
            r@ == SessionView::placeholder(),
            r@.well_formed(),
    {
        let r = Session {
            prompt: None,
            image: None,
            image_description: None,
            chat: Vec::new(),
            treatment_plan: None,
            topic_focus: None,
            key_details: Vec::new(),
            identified_details: Vec::new(),
            used_hints: Vec::new(),
            difficulty: Difficulty::VerySimple,
            autism_level: String::from_str("Level 1"),
            age: String::from_str("3"),
            attempt_limit: DEFAULT_ATTEMPT_LIMIT,
            attempt_count: 0,
            details_threshold: Threshold::default_threshold(),
            image_style: String::from_str("Realistic"),
            completed: false,
        };
        assert(r@.chat =~= Seq::empty());
        assert(r@.key_details =~= Seq::empty());
        assert(r@.identified_details =~= Seq::empty());
        assert(r@.used_hints =~= Seq::empty());
        r
    }

    /// Whether the session meets its invariant.
    pub fn is_well_formed(&self) -> (r: bool)
        ensures
            r == self@.well_formed(),
    {
        if self.details_threshold.basis_points < 1000 || self.details_threshold.basis_points
            > 10000 {
            return false;
        }
        let ghost found = self.identified_details.deep_view();
        let mut i: usize = 0;
        while i < self.identified_details.len()
            invariant
                i <= self.identified_details.len(),
                found == self.identified_details.deep_view(),
                forall|j: int|
                    0 <= j < i ==> self.key_details.deep_view().contains(#[trigger] found[j]),
                forall|j: int, k: int| 0 <= j < k < i ==> found[j] != found[k],
            decreases self.identified_details.len() - i,
        {
            let detail = self.identified_details[i].as_str();
            assert(detail@ == found[i as int]);
            if !contains_text(&self.key_details, detail) {
                return false;
            }
            let mut k: usize = 0;
            while k < i
                invariant
                    k <= i < self.identified_details.len(),
                    found == self.identified_details.deep_view(),
                    detail@ == found[i as int],
                    forall|j: int| 0 <= j < k ==> found[j] != found[i as int],
                decreases i - k,
            {
                if str_eq(self.identified_details[k].as_str(), detail) {
                    assert(found[k as int] == found[i as int]);
                    return false;
                }
                k += 1;
            }
            i += 1;
        }
        true
    }

    /// Whether the session has an image to describe.
    pub fn has_image(&self) -> (r: bool)
        ensures
            r == self@.image is Some,
    {
        self.image.is_some()
    }
}

} // verus!
