//! The settings a session starts from.

use crate::difficulty::Difficulty;
use crate::policy::{Threshold, DEFAULT_ATTEMPT_LIMIT};
use crate::session::{Session, SessionView};
use crate::text::owned;
use vstd::prelude::*;
use vstd::string::*;

verus! {

/// The settings and the empty state that a session has before anything is
/// generated for it.
#[derive(Debug)]
pub struct DefaultSession {
    pub prompt: Option<String>,
    pub image: Option<String>,
    pub image_description: Option<String>,
    pub chat: Vec<(String, String)>,
    pub treatment_plan: String,
    pub topic_focus: String,
    pub key_details: Vec<String>,
    pub identified_details: Vec<String>,
    pub used_hints: Vec<String>,
    pub difficulty: Difficulty,
    pub age: String,
    pub autism_level: String,
    pub attempt_limit: u32,
    pub attempt_count: u32,
    pub details_threshold: Threshold,
    pub image_style: String,
}

impl DefaultSession {
    /// The session that these settings describe: one that is not completed,
    /// with the treatment plan and the topic as given.
    pub open spec fn session_view(self) -> SessionView {
        SessionView {
            prompt: self.prompt.deep_view(),
            image: self.image.deep_view(),
            image_description: self.image_description.deep_view(),
            chat: self.chat.deep_view(),
            treatment_plan: Some(self.treatment_plan@),
            topic_focus: Some(self.topic_focus@),
            key_details: self.key_details.deep_view(),
            identified_details: self.identified_details.deep_view(),
            used_hints: self.used_hints.deep_view(),
            difficulty: self.difficulty,
            autism_level: self.autism_level@,
            age: self.age@,
            attempt_limit: self.attempt_limit as nat,
            attempt_count: self.attempt_count as nat,
            details_threshold: self.details_threshold.basis_points as nat,
            image_style: self.image_style@,
            completed: false,
        }
    }

    /// The session that these settings describe.
    pub fn into_session(self) -> (r: Session)
        ensures
            r@ == self.session_view(),
    {
        Session {
            prompt: self.prompt,
            image: self.image,
            image_description: self.image_description,
            chat: self.chat,
            treatment_plan: Some(self.treatment_plan),
            topic_focus: Some(self.topic_focus),
            key_details: self.key_details,
            identified_details: self.identified_details,
            used_hints: self.used_hints,
            difficulty: self.difficulty,
            autism_level: self.autism_level,
            age: self.age,
            attempt_limit: self.attempt_limit,
            attempt_count: self.attempt_count,
            details_threshold: self.details_threshold,
            image_style: self.image_style,
            completed: false,
        }
    }
}

impl Default for DefaultSession {
    /// Nothing generated, nothing said, nothing identified; the easiest
    /// difficulty, age 3, autism level 1, three attempts, a threshold of
    /// seven tenths, the realistic style; no treatment plan and no topic.
    fn default() -> (r: Self)
        ensures
            r.session_view() == (SessionView {
                treatment_plan: Some(Seq::empty()),
                topic_focus: Some(Seq::empty()),
                ..SessionView::placeholder()
            }),
            r.session_view().well_formed(),
    {
        let r = Self {
            prompt: None,
            image: None,
            image_description: None,
            chat: Vec::new(),
            treatment_plan: String::new(),
            topic_focus: String::new(),
            key_details: Vec::new(),
            identified_details: Vec::new(),
            used_hints: Vec::new(),
            difficulty: Difficulty::VerySimple,
            age: owned("3"),
            autism_level: owned("Level 1"),
            attempt_limit: DEFAULT_ATTEMPT_LIMIT,
            attempt_count: 0,
            details_threshold: Threshold::default_threshold(),
            image_style: owned("Realistic"),
        };
        assert(r.session_view().chat =~= Seq::empty());
        assert(r.session_view().key_details =~= Seq::empty());
        assert(r.session_view().identified_details =~= Seq::empty());
        assert(r.session_view().used_hints =~= Seq::empty());
        r
    }
}

/// The difficulty levels, easiest first.
pub fn difficulty_levels() -> (r: [Difficulty; 5])
    ensures
        forall|i: int| 0 <= i < 5 ==> (#[trigger] r[i]).spec_rank() == i,
{
    [
        Difficulty::VerySimple,
        Difficulty::Simple,
        Difficulty::Moderate,
        Difficulty::Detailed,
        Difficulty::VeryDetailed,
    ]
}

/// The image styles on offer.
pub fn image_styles() -> (r: [&'static str; 5])
    ensures
        r[0]@ == "Realistic"@,
        r[1]@ == "Illustration"@,
        r[2]@ == "Cartoon"@,
        r[3]@ == "Watercolor"@,
        r[4]@ == "3D Rendering"@,
{
    ["Realistic", "Illustration", "Cartoon", "Watercolor", "3D Rendering"]
}

} // verus!
