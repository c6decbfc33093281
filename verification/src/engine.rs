//! The evaluation and progression engine: what one utterance does to a
//! session, and when the session gives way to a new one.
//!
//! A turn runs in three steps, between which the caller talks to the
//! outside: [`begin_turn`] decides whether there is anything to evaluate,
//! [`chat_respond`] merges the evaluator's verdict and decides whether the
//! session ends, [`complete_advance`] installs the replacement session once
//! its material has been generated, or keeps the old one when it has not.

use crate::checklist::{
    all_identified, all_marked, lemma_marked_projection, marked, project, projection,
    ChecklistItem,
};
use crate::difficulty::Difficulty;
use crate::lifecycle::{
    archived, fresh_session, new_session, Generated, GenerationRequest, GenerationRequestView,
};
use crate::payload::{decode_held_image, held_image, PayloadError};
use crate::policy::{Advancement, Notice};
use crate::session::{Session, SessionView};
use crate::text::{contains_text, decimal, owned, to_decimal};
use crate::verdict::{Verdict, VerdictView};
use vstd::prelude::*;
use vstd::string::*;

verus! {

/// What the teacher answers when there is no image yet.
pub open spec fn no_image_message() -> Seq<char> {
    "Please generate an image first."@
}

/// What the system says when the next image could not be generated.
pub open spec fn generation_failed_message() -> Seq<char> {
    "There was an issue generating a new image. Please try again."@
}

/// The identified details after a turn: those identified before, followed
/// by each newly identified phrase that is a key detail and not yet among
/// them, in the order of the verdict.
pub open spec fn merged(
    identified: Seq<Seq<char>>,
    newly: Seq<Seq<char>>,
    keys: Seq<Seq<char>>,
) -> Seq<Seq<char>>
    decreases newly.len(),
{
    if newly.len() == 0 {
        identified
    } else {
        let before = merged(identified, newly.drop_last(), keys);
        if keys.contains(newly.last()) && !before.contains(newly.last()) {
            before.push(newly.last())
        } else {
            before
        }
    }
}

/// The merged details are the old ones and the newly identified key
/// details, each once; the old ones keep their places.
pub proof fn lemma_merged(identified: Seq<Seq<char>>, newly: Seq<Seq<char>>, keys: Seq<Seq<char>>)
    ensures
        merged(identified, newly, keys).to_set() == identified.to_set().union(
            newly.to_set().intersect(keys.to_set()),
        ),
        identified.is_prefix_of(merged(identified, newly, keys)),
        identified.no_duplicates() ==> merged(identified, newly, keys).no_duplicates(),
        (forall|i: int| 0 <= i < identified.len() ==> keys.contains(#[trigger] identified[i]))
            ==> (forall|i: int|
            0 <= i < merged(identified, newly, keys).len() ==> keys.contains(
                #[trigger] merged(identified, newly, keys)[i],
            )),
    decreases newly.len(),
{
    let m = merged(identified, newly, keys);
    if newly.len() == 0 {
        assert(newly.to_set() =~= Set::empty());
        assert(m.to_set() =~= identified.to_set().union(newly.to_set().intersect(keys.to_set())));
    } else {
        let rest = newly.drop_last();
        let last = newly.last();
        let before = merged(identified, rest, keys);
        lemma_merged(identified, rest, keys);
        assert forall|d: Seq<char>| newly.to_set().contains(d) <==> (rest.to_set().contains(d) || d
            == last) by {
            if newly.to_set().contains(d) {
                let i = choose|i: int| 0 <= i < newly.len() && newly[i] == d;
                if i < newly.len() - 1 {
                    assert(rest[i] == d);
                }
            }
            if rest.to_set().contains(d) {
                let i = choose|i: int| 0 <= i < rest.len() && rest[i] == d;
                assert(newly[i] == d);
            }
            if d == last {
                assert(newly[newly.len() - 1] == d);
            }
        }
        if keys.contains(last) && !before.contains(last) {
            assert forall|d: Seq<char>| m.to_set().contains(d) <==> (before.to_set().contains(d)
                || d == last) by {
                if m.to_set().contains(d) {
                    let i = choose|i: int| 0 <= i < m.len() && m[i] == d;
                    if i < before.len() {
                        assert(before[i] == d);
                    }
                }
                if before.to_set().contains(d) {
                    let i = choose|i: int| 0 <= i < before.len() && before[i] == d;
                    assert(m[i] == d);
                }
                if d == last {
                    assert(m[m.len() - 1] == d);
                }
            }
            if identified.no_duplicates() {
                assert forall|i: int, j: int| 0 <= i < m.len() && 0 <= j < m.len() && i
                    != j implies m[i] != m[j] by {
                    if i < before.len() && j < before.len() {
                        assert(before[i] != before[j]);
                    } else if i < before.len() {
                        assert(before[i] == m[i]);
                    } else {
                        assert(before[j] == m[j]);
                    }
                }
            }
        }
        assert(m.to_set() =~= identified.to_set().union(newly.to_set().intersect(keys.to_set())));
    }
}

/// The two ways of keeping a checklist agree: marking the checklist of a
/// session with what a verdict names gives the checklist of the session
/// that the verdict leaves.
pub proof fn lemma_marking_agrees_with_merging(
    identified: Seq<Seq<char>>,
    newly: Seq<Seq<char>>,
    keys: Seq<Seq<char>>,
)
    ensures
        marked(projection(keys, identified.to_set()), newly.to_set().intersect(keys.to_set()))
            == projection(keys, merged(identified, newly, keys).to_set()),
{
    lemma_merged(identified, newly, keys);
    lemma_marked_projection(
        keys,
        identified.to_set(),
        newly.to_set().intersect(keys.to_set()),
    );
}

/// The session after the evaluator's verdict on an utterance: the counter
/// of fruitless attempts goes up by one exactly when the verdict names
/// nothing as newly identified, the newly identified key details join the
/// identified ones, and the transcript gains the utterance and the
/// feedback, in that order. Nothing else changes.
pub open spec fn after_verdict(s: SessionView, utterance: Seq<char>, v: VerdictView) -> SessionView {
    SessionView {
        attempt_count: if v.newly_identified.len() == 0 {
            s.attempt_count + 1
        } else {
            s.attempt_count
        },
        identified_details: merged(s.identified_details, v.newly_identified, s.key_details),
        chat: s.chat.push(("Child"@, utterance)).push(("Teacher"@, v.feedback)),
        ..s
    }
}

/// The session after an utterance that came before any image: the
/// transcript gains the teacher's fixed answer, and nothing else changes.
pub open spec fn after_no_image(s: SessionView) -> SessionView {
    SessionView { chat: s.chat.push(("Teacher"@, no_image_message())), ..s }
}

/// The session that is kept when its replacement could not be generated:
/// the transcript gains a line that says so, nothing else changes.
pub open spec fn after_failed_generation(s: SessionView) -> SessionView {
    SessionView { chat: s.chat.push(("System"@, generation_failed_message())), ..s }
}

/// The conditions for ending a session, as they stand for the session `s`
/// and the evaluator's wish `should_advance`.
pub open spec fn advancement_of(s: SessionView, should_advance: bool) -> Advancement {
    Advancement::assess(
        s.identified_details.len(),
        s.key_details.len(),
        s.details_threshold,
        all_marked(projection(s.key_details, s.identified_set())),
        s.attempt_count,
        s.attempt_limit,
        should_advance,
    )
}

/// What to ask the generating services for when the session `s` is to be
/// replaced at `difficulty`: the settings of `s`, with an empty text for a
/// topic or a treatment plan that it has not.
pub open spec fn replacement_request(s: SessionView, difficulty: Difficulty) -> GenerationRequestView {
    GenerationRequestView {
        difficulty,
        age: s.age,
        autism_level: s.autism_level,
        topic_focus: match s.topic_focus {
            Some(t) => t,
            None => Seq::empty(),
        },
        treatment_plan: match s.treatment_plan {
            Some(t) => t,
            None => Seq::empty(),
        },
        image_style: s.image_style,
    }
}

/// The first line of the transcript of a replacement session.
pub open spec fn notice_text(
    notice: Notice,
    identified: nat,
    total: nat,
    difficulty: Difficulty,
) -> Seq<char> {
    match notice {
        Notice::Exhausted => "You've used all your allowed attempts. Let's try a new image."@,
        Notice::ThresholdAdvance => "Congratulations! You've identified enough details ("@
            + decimal(identified) + "/"@ + decimal(total) + ") to advance to "@
            + difficulty.spec_label() + " difficulty! Here's a new image to describe."@,
        Notice::Advanced => "Congratulations! You've advanced to "@ + difficulty.spec_label()
            + " difficulty! Here's a new image to describe."@,
        Notice::SameDifficulty => "Great job identifying the details! Here's a new image at the same difficulty level."@,
        Notice::NewImage => "Let's try a new image!"@,
    }
}

/// The first line of the transcript of a replacement session: why the
/// learner sees a new image. The congratulation on a reached threshold
/// cites the count of identified details, the count of the new image's key
/// details, and the new difficulty.
pub fn notice_message(notice: Notice, identified: usize, total: usize, difficulty: Difficulty) -> (r:
    String)
    ensures
        r@ == notice_text(notice, identified as nat, total as nat, difficulty),
{
    match notice {
        Notice::Exhausted => owned("You've used all your allowed attempts. Let's try a new image."),
        Notice::ThresholdAdvance => {
            let mut r = owned("Congratulations! You've identified enough details (");
            r.append(to_decimal(identified as u64).as_str());
            r.append("/");
            r.append(to_decimal(total as u64).as_str());
            r.append(") to advance to ");
            r.append(difficulty.label());
            r.append(" difficulty! Here's a new image to describe.");
            r
        },
        Notice::Advanced => {
            let mut r = owned("Congratulations! You've advanced to ");
            r.append(difficulty.label());
            r.append(" difficulty! Here's a new image to describe.");
            r
        },
        Notice::SameDifficulty => owned(
            "Great job identifying the details! Here's a new image at the same difficulty level.",
        ),
        Notice::NewImage => owned("Let's try a new image!"),
    }
}

/// How a turn starts.
#[derive(Debug)]
pub enum TurnStart {
    /// There is no image yet. The session has the fixed answer in its
    /// transcript and the turn is over.
    NoImage { session: Session },
    /// The session's image could not be read back. The session is as it
    /// was and the turn is over.
    Undecodable { session: Session, error: PayloadError },
    /// The utterance is to be evaluated against the session, which is as
    /// it was; `current_image` holds the bytes of its image, where the
    /// image text holds a payload.
    Evaluate { session: Session, current_image: Option<Vec<u8>> },
}

/// What is decided once the verdict is in.
#[derive(Debug)]
pub enum TurnDecision {
    /// The session goes on.
    Continue { session: Session, checklist: Vec<ChecklistItem> },
    /// The session ends. A replacement is to be generated for `request`
    /// and handed to [`complete_advance`].
    Advance {
        session: Session,
        checklist: Vec<ChecklistItem>,
        plan: AdvancePlan,
        request: GenerationRequest,
    },
}

/// Why and how a session ends.
#[derive(Clone, Copy, Debug)]
pub struct AdvancePlan {
    /// The conditions that hold.
    pub advancement: Advancement,
    /// The difficulty of the replacement session.
    pub difficulty: Difficulty,
    /// What the learner is told.
    pub notice: Notice,
}

/// The state after a turn.
#[derive(Debug)]
pub struct TurnResult {
    pub active_session: Session,
    pub saved_sessions: Vec<Session>,
    pub checklist: Vec<ChecklistItem>,
    /// Whether `active_session` is a replacement session.
    pub advanced: bool,
}

/// Appends one entry to a transcript.
fn say(chat: &mut Vec<(String, String)>, speaker: &str, message: String)
    ensures
        final(chat).deep_view() == old(chat).deep_view().push((speaker@, message@)),
{
    let ghost before = chat.deep_view();
    chat.push((owned(speaker), message));
    assert(chat.deep_view() =~= before.push((speaker@, message@)));
}

/// Joins the newly identified key details to those identified before.
pub fn merge_identified(
    identified: Vec<String>,
    newly_identified: &Vec<String>,
    key_details: &Vec<String>,
) -> (r: Vec<String>)
    ensures
        r.deep_view() == merged(
            identified.deep_view(),
            newly_identified.deep_view(),
            key_details.deep_view(),
        ),
{
    let ghost start = identified.deep_view();
    let ghost newly = newly_identified.deep_view();
    let ghost keys = key_details.deep_view();
    let mut r = identified;
    let mut i: usize = 0;
    assert(newly.take(0) =~= Seq::empty());
    while i < newly_identified.len()
        invariant
            i <= newly_identified.len(),
            newly == newly_identified.deep_view(),
            keys == key_details.deep_view(),
            r.deep_view() == merged(start, newly.take(i as int), keys),
        decreases newly_identified.len() - i,
    {
        let phrase = newly_identified[i].as_str();
        proof {
            assert(newly.take(i + 1).drop_last() =~= newly.take(i as int));
            assert(newly.take(i + 1).last() == phrase@);
        }
        if contains_text(key_details, phrase) && !contains_text(&r, phrase) {
            let ghost before = r.deep_view();
            r.push(newly_identified[i].clone());
            assert(r.deep_view() =~= before.push(phrase@));
        }
        i += 1;
    }
    assert(newly.take(newly_identified.len() as int) =~= newly);
    r
}

/// Starts a turn. Without an image the teacher asks for one and the turn
/// is over: the transcript gains that answer and nothing else changes. With
/// an image the session is handed back untouched for evaluation, together
/// with the image's bytes.
pub fn begin_turn(user_message: &str, active_session: Session) -> (r: TurnStart)
    ensures
        match r {
            TurnStart::NoImage { session } => {
                &&& active_session@.image is None
                &&& session@ == after_no_image(active_session@)
            },
            TurnStart::Undecodable { session, error } => {
                &&& active_session@.image is Some
                &&& held_image(active_session@.image->0) == Err::<Option<Seq<u8>>, PayloadError>(
                    error,
                )
                &&& session@ == active_session@
            },
            TurnStart::Evaluate { session, current_image } => {
                &&& active_session@.image is Some
                &&& held_image(active_session@.image->0) == Ok::<Option<Seq<u8>>, PayloadError>(
                    match current_image {
                        Some(bytes) => Some(bytes@),
                        None => None,
                    },
                )
                &&& session@ == active_session@
            },
        },
        active_session@.well_formed() ==> match r {
            TurnStart::NoImage { session } => session@.well_formed(),
            TurnStart::Undecodable { session, .. } => session@.well_formed(),
            TurnStart::Evaluate { session, .. } => session@.well_formed(),
        },
{
    let mut session = active_session;
    if !session.has_image() {
        say(&mut session.chat, "Teacher", owned("Please generate an image first."));
        return TurnStart::NoImage { session };
    }
    let decoded = match &session.image {
        Some(url) => decode_held_image(url.as_str()),
        None => Ok(None),
    };
    match decoded {
        Ok(current_image) => TurnStart::Evaluate { session, current_image },
        Err(error) => TurnStart::Undecodable { session, error },
    }
}

/// Merges the evaluator's verdict on an utterance into the session and
/// decides whether the session ends. The session is one that has an image:
/// [`begin_turn`] ends the turn on any other.
///
/// The session handed back is [`after_verdict`] of the one given, in
/// either case; the checklist is its projection. The session ends exactly
/// when one of the four conditions of [`advancement_of`] holds; the plan
/// then names the difficulty and the notice that the policy selects, and
/// the request says what to generate the replacement from.
pub fn chat_respond(user_message: &str, active_session: Session, verdict: Verdict) -> (r:
    TurnDecision)
    requires
        active_session@.well_formed(),
        active_session@.image is Some,
        verdict@.newly_identified.len() == 0 ==> active_session.attempt_count < u32::MAX,
    ensures
        ({
            let after = after_verdict(active_session@, user_message@, verdict@);
            let adv = advancement_of(after, verdict.should_advance);
            &&& after.well_formed()
            &&& match r {
                TurnDecision::Continue { session, checklist } => {
                    &&& !adv.triggered()
                    &&& session@ == after
                    &&& checklist.deep_view() == projection(
                        after.key_details,
                        after.identified_set(),
                    )
                },
                TurnDecision::Advance { session, checklist, plan, request } => {
                    &&& adv.triggered()
                    &&& request@ == replacement_request(
                        after,
                        adv.next_difficulty(active_session.difficulty, verdict.updated_difficulty),
                    )
                    &&& session@ == after
                    &&& checklist.deep_view() == projection(
                        after.key_details,
                        after.identified_set(),
                    )
                    &&& plan.advancement == adv
                    &&& plan.difficulty == adv.next_difficulty(
                        active_session.difficulty,
                        verdict.updated_difficulty,
                    )
                    &&& plan.notice == adv.notice(
                        active_session.difficulty,
                        verdict.updated_difficulty,
                    )
                },
            }
        }),
{
    proof {
        lemma_merged(
            active_session@.identified_details,
            verdict@.newly_identified,
            active_session@.key_details,
        );
    }
    let mut session = active_session;
    if verdict.newly_identified.len() == 0 {
        session.attempt_count = session.attempt_count + 1;
    }
    let mut identified: Vec<String> = Vec::new();
    std::mem::swap(&mut identified, &mut session.identified_details);
    session.identified_details = merge_identified(
        identified,
        &verdict.newly_identified,
        &session.key_details,
    );
    say(&mut session.chat, "Child", owned(user_message));
    say(&mut session.chat, "Teacher", verdict.feedback);
    let checklist = project(&session.key_details, &session.identified_details);
    let advancement = Advancement::evaluate(
        session.identified_details.len(),
        session.key_details.len(),
        session.details_threshold,
        all_identified(&checklist),
        session.attempt_count,
        session.attempt_limit,
        verdict.should_advance,
    );
    if advancement.is_triggered() {
        let plan = AdvancePlan {
            advancement,
            difficulty: advancement.select_difficulty(
                session.difficulty,
                verdict.updated_difficulty,
            ),
            notice: advancement.select_notice(session.difficulty, verdict.updated_difficulty),
        };
        let request = GenerationRequest {
            difficulty: plan.difficulty,
            age: session.age.clone(),
            autism_level: session.autism_level.clone(),
            topic_focus: match &session.topic_focus {
                Some(t) => t.clone(),
                None => String::new(),
            },
            treatment_plan: match &session.treatment_plan {
                Some(t) => t.clone(),
                None => String::new(),
            },
            image_style: session.image_style.clone(),
        };
        TurnDecision::Advance { session, checklist, plan, request }
    } else {
        TurnDecision::Continue { session, checklist }
    }
}

/// The replacement for the session `old`, at difficulty `difficulty`, from
/// freshly generated material: the settings of `old`, nothing identified,
/// no attempts made, and a transcript that holds the notice alone.
pub open spec fn replacement(
    old: SessionView,
    difficulty: Difficulty,
    notice: Notice,
    prompt: Seq<char>,
    image: Seq<char>,
    description: Seq<char>,
    key_details: Seq<Seq<char>>,
) -> SessionView {
    SessionView {
        chat: seq![
            (
                "System"@,
                notice_text(notice, old.identified_details.len(), key_details.len(), difficulty),
            ),
        ],
        ..fresh_session(
            prompt,
            image,
            description,
            key_details,
            match old.treatment_plan {
                Some(t) => t,
                None => Seq::empty(),
            },
            match old.topic_focus {
                Some(t) => t,
                None => Seq::empty(),
            },
            difficulty,
            old.autism_level,
            old.age,
            old.attempt_limit,
            old.details_threshold,
            old.image_style,
        )
    }
}

/// Ends a turn on which the session was to end.
///
/// With the replacement's material at hand, the session given goes to the
/// archive, marked completed, and the replacement of [`replacement`]
/// becomes the active session, with a checklist on which nothing is
/// marked. Where generating the material failed, the session given stays
/// active with all that the turn brought, its transcript gains a line that
/// says so, and archive and checklist stay as they are.
pub fn complete_advance(
    active_session: Session,
    checklist: Vec<ChecklistItem>,
    saved_sessions: Vec<Session>,
    plan: &AdvancePlan,
    generated: Result<Generated, String>,
) -> (r: TurnResult)
    ensures
        active_session@.well_formed() ==> r.active_session@.well_formed(),
        match generated {
            Ok(g) => {
                &&& r.advanced
                &&& r.active_session@ == replacement(
                    active_session@,
                    plan.difficulty,
                    plan.notice,
                    g.prompt@,
                    g.image@,
                    g.description@,
                    g.key_details.deep_view(),
                )
                &&& r.saved_sessions.deep_view() == saved_sessions.deep_view().push(
                    archived(active_session@),
                )
                &&& r.checklist.deep_view() == projection(g.key_details.deep_view(), Set::empty())
            },
            Err(_) => {
                &&& !r.advanced
                &&& r.active_session@ == after_failed_generation(active_session@)
                &&& r.saved_sessions.deep_view() == saved_sessions.deep_view()
                &&& r.checklist.deep_view() == checklist.deep_view()
            },
        },
{
    match generated {
        Ok(g) => {
            let mut old = active_session;
            let mut saved = saved_sessions;
            let notice = notice_message(
                plan.notice,
                old.identified_details.len(),
                g.key_details.len(),
                plan.difficulty,
            );
            let treatment_plan = match &old.treatment_plan {
                Some(t) => t.clone(),
                None => String::new(),
            };
            let topic_focus = match &old.topic_focus {
                Some(t) => t.clone(),
                None => String::new(),
            };
            let (mut session, checklist) = new_session(
                g,
                treatment_plan,
                topic_focus,
                plan.difficulty,
                old.autism_level.clone(),
                old.age.clone(),
                old.attempt_limit,
                old.details_threshold,
                old.image_style.clone(),
            );
            say(&mut session.chat, "System", notice);
            assert(session@.chat =~= seq![
                (
                    "System"@,
                    notice_text(
                        plan.notice,
                        old@.identified_details.len(),
                        session@.key_details.len(),
                        plan.difficulty,
                    ),
                ),
            ]);
            let ghost before = saved.deep_view();
            old.completed = true;
            saved.push(old);
            assert(saved.deep_view() =~= before.push(archived(active_session@)));
            TurnResult { active_session: session, saved_sessions: saved, checklist, advanced: true }
        },
        Err(_) => {
            let mut session = active_session;
            say(
                &mut session.chat,
                "System",
                owned("There was an issue generating a new image. Please try again."),
            );
            TurnResult { active_session: session, saved_sessions, checklist, advanced: false }
        },
    }
}

/// Whatever a turn brings, a well-formed session stays well formed: its
/// identified details remain distinct key details, and its key details,
/// its threshold and its attempt limit remain what they were.
pub proof fn lemma_turn_keeps_invariant(s: SessionView, utterance: Seq<char>, v: VerdictView)
    requires
        s.well_formed(),
    ensures
        after_verdict(s, utterance, v).well_formed(),
        after_verdict(s, utterance, v).identified_set().subset_of(s.key_details.to_set()),
        s.identified_set().subset_of(after_verdict(s, utterance, v).identified_set()),
        after_verdict(s, utterance, v).key_details == s.key_details,
        after_no_image(s).well_formed(),
        after_failed_generation(s).well_formed(),
        archived(s).well_formed(),
{
    lemma_merged(s.identified_details, v.newly_identified, s.key_details);
    crate::session::lemma_identified_within_key_details(after_verdict(s, utterance, v));
}

/// An archive of well-formed sessions stays one when a well-formed session
/// joins it, as it is or marked completed.
pub proof fn lemma_archive_keeps_invariant(archive: Seq<SessionView>, s: SessionView)
    requires
        s.well_formed(),
        forall|i: int| 0 <= i < archive.len() ==> (#[trigger] archive[i]).well_formed(),
    ensures
        forall|i: int|
            0 <= i < archive.len() + 1 ==> (#[trigger] archive.push(archived(s))[i]).well_formed(),
        forall|i: int| 0 <= i < archive.len() + 1 ==> (#[trigger] archive.push(s)[i]).well_formed(),
{
}

/// The counter of fruitless attempts goes up by one on a turn whose
/// verdict names nothing as newly identified, and on no other turn; it
/// never goes down.
pub proof fn lemma_attempt_counting(s: SessionView, utterance: Seq<char>, v: VerdictView)
    ensures
        after_verdict(s, utterance, v).attempt_count == s.attempt_count + 1
            <==> v.newly_identified.len() == 0,
        v.newly_identified.len() > 0 ==> after_verdict(s, utterance, v).attempt_count
            == s.attempt_count,
        after_verdict(s, utterance, v).attempt_count >= s.attempt_count,
{
}

/// A session whose attempt count has reached its limit ends, whatever the
/// threshold and the checklist say; the notice is that of used-up
/// attempts, and the difficulty stays unless the threshold was reached or
/// the evaluator asked for advancement.
pub proof fn lemma_attempt_limit_ends_session(
    s: SessionView,
    should_advance: bool,
    proposed: Difficulty,
)
    requires
        s.attempt_count >= s.attempt_limit,
    ensures
        advancement_of(s, should_advance).triggered(),
        advancement_of(s, should_advance).notice(s.difficulty, proposed) == Notice::Exhausted,
        !advancement_of(s, should_advance).threshold_reached && !should_advance
            ==> advancement_of(s, should_advance).next_difficulty(s.difficulty, proposed)
            == s.difficulty,
{
}

/// A session in which as many details are identified as the threshold
/// asks for ends, also where some detail is yet to be identified.
pub proof fn lemma_threshold_ends_session(s: SessionView, should_advance: bool)
    requires
        s.identified_details.len() >= crate::policy::threshold_count(
            s.key_details.len(),
            s.details_threshold,
        ),
    ensures
        advancement_of(s, should_advance).triggered(),
        advancement_of(s, should_advance).threshold_reached,
{
}

/// The replacement of a well-formed session is well formed, starts with no
/// attempt made and nothing identified, and keeps the settings.
pub proof fn lemma_replacement(
    old: SessionView,
    difficulty: Difficulty,
    notice: Notice,
    prompt: Seq<char>,
    image: Seq<char>,
    description: Seq<char>,
    key_details: Seq<Seq<char>>,
)
    requires
        old.well_formed(),
    ensures
        ({
            let next = replacement(
                old,
                difficulty,
                notice,
                prompt,
                image,
                description,
                key_details,
            );
            &&& next.well_formed()
            &&& next.attempt_count == 0
            &&& next.identified_details.len() == 0
            &&& next.chat.len() == 1
            &&& next.difficulty == difficulty
            &&& next.attempt_limit == old.attempt_limit
            &&& next.details_threshold == old.details_threshold
            &&& next.age == old.age
            &&& next.autism_level == old.autism_level
            &&& next.image_style == old.image_style
            &&& !next.completed
        }),
{
}

} // verus!
