//! The session lifecycle: minting a fresh session from generated material,
//! archiving the one it replaces, and listing sessions for display.

use crate::checklist::{project, projection, ChecklistItem};
use crate::difficulty::Difficulty;
use crate::payload::{base64_len, encode_image_data_url, image_data_url};
use crate::policy::{normalized_basis_points, Threshold, DEFAULT_ATTEMPT_LIMIT, DEFAULT_THRESHOLD};
use crate::prompt::{
    effective_plan, generate_prompt_from_options, lowercase, prompt_query, style_guidance,
};
use crate::session::{Session, SessionView};
use crate::text::owned;
use vstd::prelude::*;
use vstd::string::*;

verus! {

/// The material of a session as the generating services delivered it.
#[derive(Debug)]
pub struct Generated {
    /// The prompt the image was generated from.
    pub prompt: String,
    /// The image, as the data URL under which a session keeps it.
    pub image: String,
    /// The reference description of the image.
    pub description: String,
    /// The key details extracted from the image.
    pub key_details: Vec<String>,
}

impl Generated {
    /// The material of a session whose image is the PNG with the given
    /// bytes.
    pub fn from_material(
        prompt: String,
        image: &[u8],
        description: String,
        key_details: Vec<String>,
    ) -> (r: Generated)
        requires
            base64_len(image@.len()) <= usize::MAX,
        ensures
            r.prompt@ == prompt@,
            r.image@ == image_data_url(image@),
            r.description@ == description@,
            r.key_details.deep_view() == key_details.deep_view(),
    {
        Generated { prompt, image: encode_image_data_url(image), description, key_details }
    }
}

/// What the generating services are asked for: the settings from which
/// they make a prompt, an image, its description and its key details.
#[derive(Debug)]
pub struct GenerationRequest {
    pub difficulty: Difficulty,
    pub age: String,
    pub autism_level: String,
    pub topic_focus: String,
    pub treatment_plan: String,
    pub image_style: String,
}

/// What a [`GenerationRequest`] stands for.
pub struct GenerationRequestView {
    pub difficulty: Difficulty,
    pub age: Seq<char>,
    pub autism_level: Seq<char>,
    pub topic_focus: Seq<char>,
    pub treatment_plan: Seq<char>,
    pub image_style: Seq<char>,
}

impl View for GenerationRequest {
    type V = GenerationRequestView;

    open spec fn view(&self) -> GenerationRequestView {
        GenerationRequestView {
            difficulty: self.difficulty,
            age: self.age@,
            autism_level: self.autism_level@,
            topic_focus: self.topic_focus@,
            treatment_plan: self.treatment_plan@,
            image_style: self.image_style@,
        }
    }
}

impl GenerationRequest {
    /// The text that asks the generative model for the image prompt of
    /// this request.
    pub fn prompt_query(&self) -> (r: String)
        ensures
            r@ == prompt_query(
                self.difficulty.spec_label(),
                self.age@,
                self.autism_level@,
                self.topic_focus@,
                effective_plan(Some(self.treatment_plan@), self.autism_level@),
                self.image_style@,
                lowercase(self.image_style@),
                style_guidance(self.image_style@),
            ),
    {
        generate_prompt_from_options(
            self.difficulty.label(),
            self.age.as_str(),
            self.autism_level.as_str(),
            self.topic_focus.as_str(),
            Some(self.treatment_plan.as_str()),
            self.image_style.as_str(),
        )
    }
}

/// A freshly started session.
#[derive(Debug)]
pub struct Started {
    pub active_session: Session,
    pub saved_sessions: Vec<Session>,
    pub checklist: Vec<ChecklistItem>,
}

/// A session that has just been minted from generated material: nothing
/// said, nothing identified, no attempt made, not completed.
pub open spec fn fresh_session(
    prompt: Seq<char>,
    image: Seq<char>,
    description: Seq<char>,
    key_details: Seq<Seq<char>>,
    treatment_plan: Seq<char>,
    topic_focus: Seq<char>,
    difficulty: Difficulty,
    autism_level: Seq<char>,
    age: Seq<char>,
    attempt_limit: nat,
    details_threshold: nat,
    image_style: Seq<char>,
) -> SessionView {
    SessionView {
        prompt: Some(prompt),
        image: Some(image),
        image_description: Some(description),
        chat: Seq::empty(),
        treatment_plan: Some(treatment_plan),
        topic_focus: Some(topic_focus),
        key_details,
        identified_details: Seq::empty(),
        used_hints: Seq::empty(),
        difficulty,
        autism_level,
        age,
        attempt_limit,
        attempt_count: 0,
        details_threshold,
        image_style,
        completed: false,
    }
}

/// The copy of a session that goes to the archive when a turn ends it.
pub open spec fn archived(s: SessionView) -> SessionView {
    SessionView { completed: true, ..s }
}

/// Whether a session is a real one rather than the placeholder that stands
/// in before the first image: it has a prompt, and the prompt is not empty.
pub open spec fn is_real(s: SessionView) -> bool {
    s.prompt matches Some(p) && p.len() > 0
}

/// The archive after a new session has been started over `prior`: a real
/// `prior` is appended as it is, a placeholder is dropped.
pub open spec fn archive_with(archive: Seq<SessionView>, prior: SessionView) -> Seq<SessionView> {
    if is_real(prior) {
        archive.push(prior)
    } else {
        archive
    }
}

/// The sessions on display and in the log: the archive, followed by the
/// active session where that has a prompt, be it empty.
pub open spec fn listed(archive: Seq<SessionView>, active: SessionView) -> Seq<SessionView> {
    if active.prompt is Some {
        archive.push(active)
    } else {
        archive
    }
}

/// Mints a session from generated material and the given settings, with
/// its checklist, on which nothing is marked.
pub fn new_session(
    generated: Generated,
    treatment_plan: String,
    topic_focus: String,
    difficulty: Difficulty,
    autism_level: String,
    age: String,
    attempt_limit: u32,
    details_threshold: Threshold,
    image_style: String,
) -> (r: (Session, Vec<ChecklistItem>))
    ensures
        r.0@ == fresh_session(
            generated.prompt@,
            generated.image@,
            generated.description@,
            generated.key_details.deep_view(),
            treatment_plan@,
            topic_focus@,
            difficulty,
            autism_level@,
            age@,
            attempt_limit as nat,
            details_threshold.basis_points as nat,
            image_style@,
        ),
        r.1.deep_view() == projection(generated.key_details.deep_view(), Set::empty()),
        details_threshold.well_formed() ==> r.0@.well_formed(),
{
    let nothing: Vec<String> = Vec::new();
    assert(nothing.deep_view() =~= Seq::empty());
    assert(nothing.deep_view().to_set() =~= Set::empty());
    let checklist = project(&generated.key_details, &nothing);
    let session = Session {
        prompt: Some(generated.prompt),
        image: Some(generated.image),
        image_description: Some(generated.description),
        chat: Vec::new(),
        treatment_plan: Some(treatment_plan),
        topic_focus: Some(topic_focus),
        key_details: generated.key_details,
        identified_details: nothing,
        used_hints: Vec::new(),
        difficulty,
        autism_level,
        age,
        attempt_limit,
        attempt_count: 0,
        details_threshold,
        image_style,
        completed: false,
    };
    assert(session@.chat =~= Seq::empty());
    assert(session@.used_hints =~= Seq::empty());
    (session, checklist)
}

/// A copy of a list of sessions.
pub fn clone_sessions(sessions: &Vec<Session>) -> (r: Vec<Session>)
    ensures
        r.deep_view() == sessions.deep_view(),
{
    let mut r: Vec<Session> = Vec::new();
    let mut i: usize = 0;
    while i < sessions.len()
        invariant
            i <= sessions.len(),
            r.len() == i,
            forall|j: int| 0 <= j < i ==> r.deep_view()[j] == sessions.deep_view()[j],
        decreases sessions.len() - i,
    {
        r.push(sessions[i].clone());
        i += 1;
    }
    assert(r.deep_view() =~= sessions.deep_view());
    r
}

/// Whether the session is a real one: see [`is_real`].
pub fn has_prompt(session: &Session) -> (r: bool)
    ensures
        r == is_real(session@),
{
    match &session.prompt {
        Some(p) => p.as_str().unicode_len() > 0,
        None => false,
    }
}

/// What to ask the generating services for when a session is to be
/// started over `active_session`: the settings given, at the difficulty of
/// `active_session`, which for the placeholder is the easiest.
pub fn start_request(
    age: &str,
    autism_level: &str,
    topic_focus: &str,
    treatment_plan: &str,
    active_session: &Session,
    image_style: &str,
) -> (r: GenerationRequest)
    ensures
        r@ == (GenerationRequestView {
            difficulty: active_session.difficulty,
            age: age@,
            autism_level: autism_level@,
            topic_focus: topic_focus@,
            treatment_plan: treatment_plan@,
            image_style: image_style@,
        }),
{
    GenerationRequest {
        difficulty: active_session.difficulty,
        age: owned(age),
        autism_level: owned(autism_level),
        topic_focus: owned(topic_focus),
        treatment_plan: owned(treatment_plan),
        image_style: owned(image_style),
    }
}

/// Starts a session over `active_session`, from the material that was
/// generated for [`start_request`].
///
/// `details_threshold_input` is in basis points: seven tenths are 7000, and
/// an input of 700000, which is 70, is read as seventy percent.
///
/// On success the new session has the settings given, the attempt limit
/// and the threshold defaulting to three and seven tenths, the threshold
/// normalised; nothing is identified, no attempt made, the transcript
/// empty. Its checklist has one unmarked item per key detail. The archive
/// returned is `saved_sessions`, followed by `active_session` where that
/// was a real session. Where generating failed, the failure is returned
/// and that is all: `active_session` and `saved_sessions` are not touched.
pub fn generate_image_and_reset_chat(
    age: &str,
    autism_level: &str,
    topic_focus: &str,
    treatment_plan: &str,
    attempt_limit_input: Option<u32>,
    details_threshold_input: Option<u64>,
    active_session: &Session,
    saved_sessions: &Vec<Session>,
    image_style: &str,
    generated: Result<Generated, String>,
) -> (r: Result<Started, String>)
    ensures
        match generated {
            Ok(g) => {
                &&& r matches Ok(started)
                &&& started.active_session@ == fresh_session(
                    g.prompt@,
                    g.image@,
                    g.description@,
                    g.key_details.deep_view(),
                    treatment_plan@,
                    topic_focus@,
                    active_session.difficulty,
                    autism_level@,
                    age@,
                    match attempt_limit_input {
                        Some(limit) => limit as nat,
                        None => DEFAULT_ATTEMPT_LIMIT as nat,
                    },
                    match details_threshold_input {
                        Some(input) => normalized_basis_points(input as nat),
                        None => DEFAULT_THRESHOLD as nat,
                    },
                    image_style@,
                )
                &&& started.active_session@.well_formed()
                &&& started.saved_sessions.deep_view() == archive_with(
                    saved_sessions.deep_view(),
                    active_session@,
                )
                &&& started.checklist.deep_view() == projection(
                    g.key_details.deep_view(),
                    Set::empty(),
                )
            },
            Err(failure) => r == Err::<Started, String>(failure),
        },
{
    match generated {
        Err(failure) => Err(failure),
        Ok(g) => {
            let mut saved = clone_sessions(saved_sessions);
            if has_prompt(active_session) {
                let ghost before = saved.deep_view();
                saved.push(active_session.clone());
                assert(saved.deep_view() =~= before.push(active_session@));
            }
            let attempt_limit = match attempt_limit_input {
                Some(limit) => limit,
                None => DEFAULT_ATTEMPT_LIMIT,
            };
            let (session, checklist) = new_session(
                g,
                owned(treatment_plan),
                owned(topic_focus),
                active_session.difficulty,
                owned(autism_level),
                owned(age),
                attempt_limit,
                Threshold::from_input(details_threshold_input),
                owned(image_style),
            );
            Ok(Started { active_session: session, saved_sessions: saved, checklist })
        },
    }
}

/// The sessions to display: the finished ones as they are, followed by
/// the active one where that has a prompt.
pub fn update_sessions(saved_sessions: Vec<Session>, active_session: Session) -> (r: Vec<Session>)
    ensures
        r.deep_view() == listed(saved_sessions.deep_view(), active_session@),
{
    if active_session.prompt.is_some() {
        let mut sessions = saved_sessions;
        let ghost before = sessions.deep_view();
        sessions.push(active_session);
        assert(sessions.deep_view() =~= before.push(active_session@));
        sessions
    } else {
        saved_sessions
    }
}

/// A freshly minted session has no attempt made and nothing identified,
/// and its checklist has one item per key detail, none of them marked.
pub proof fn lemma_fresh_session(
    prompt: Seq<char>,
    image: Seq<char>,
    description: Seq<char>,
    key_details: Seq<Seq<char>>,
    treatment_plan: Seq<char>,
    topic_focus: Seq<char>,
    difficulty: Difficulty,
    autism_level: Seq<char>,
    age: Seq<char>,
    attempt_limit: nat,
    details_threshold: nat,
    image_style: Seq<char>,
)
    ensures
        ({
            let s = fresh_session(
                prompt,
                image,
                description,
                key_details,
                treatment_plan,
                topic_focus,
                difficulty,
                autism_level,
                age,
                attempt_limit,
                details_threshold,
                image_style,
            );
            let checklist = projection(s.key_details, s.identified_set());
            &&& s.attempt_count == 0
            &&& s.identified_details.len() == 0
            &&& s.chat.len() == 0
            &&& !s.completed
            &&& checklist.len() == key_details.len()
            &&& forall|i: int| 0 <= i < checklist.len() ==> !(#[trigger] checklist[i]).identified
            &&& checklist == projection(key_details, Set::empty())
            &&& (1000 <= details_threshold <= 10000 ==> s.well_formed())
        }),
{
    let s = fresh_session(
        prompt,
        image,
        description,
        key_details,
        treatment_plan,
        topic_focus,
        difficulty,
        autism_level,
        age,
        attempt_limit,
        details_threshold,
        image_style,
    );
    assert(s.identified_set() =~= Set::empty());
}

/// Starting a session leaves every archived session where and as it was,
/// and adds at most the session it replaces.
pub proof fn lemma_archive_only_grows(archive: Seq<SessionView>, prior: SessionView)
    ensures
        archive.is_prefix_of(archive_with(archive, prior)),
        archive_with(archive, prior).len() == archive.len() + if is_real(prior) {
            1nat
        } else {
            0nat
        },
{
}

} // verus!
