use visolearn::checklist::ChecklistItem;
use visolearn::difficulty::Difficulty;
use visolearn::engine::{
    begin_turn, chat_respond, complete_advance, merge_identified, notice_message, AdvancePlan,
    TurnDecision, TurnStart,
};
use visolearn::lifecycle::{generate_image_and_reset_chat, Generated};
use visolearn::payload::PayloadError;
use visolearn::policy::{Advancement, Notice};
use visolearn::session::Session;
use visolearn::verdict::{Source, Verdict};

fn texts(items: &[&str]) -> Vec<String> {
    items.iter().map(|s| s.to_string()).collect()
}

fn material(details: &[&str]) -> Generated {
    Generated::from_material(
        "A calm scene".to_string(),
        &[1, 2, 3, 4],
        "A cat on a mat".to_string(),
        texts(details),
    )
}

fn five_detail_session(threshold_input: u64) -> Session {
    let started = generate_image_and_reset_chat(
        "5",
        "Level 2",
        "Animals",
        "Plan A",
        Some(3),
        Some(threshold_input),
        &Session::new(),
        &Vec::new(),
        "Realistic",
        Ok(material(&["cat", "mat", "window", "sun", "tree"])),
    );
    started.unwrap().active_session
}

fn verdict(newly: &[&str], proposed: Difficulty, should_advance: bool) -> Verdict {
    Verdict {
        feedback: "Good looking!".to_string(),
        updated_difficulty: proposed,
        should_advance,
        newly_identified: texts(newly),
        score: 50,
        source: Source::Structured,
    }
}

fn flags(checklist: &[ChecklistItem]) -> Vec<bool> {
    checklist.iter().map(|item| item.identified).collect()
}

fn expect_continue(decision: TurnDecision) -> (Session, Vec<ChecklistItem>) {
    match decision {
        TurnDecision::Continue { session, checklist } => (session, checklist),
        TurnDecision::Advance { .. } => panic!("the session should go on"),
    }
}

fn expect_advance(decision: TurnDecision) -> (Session, Vec<ChecklistItem>, AdvancePlan) {
    match decision {
        TurnDecision::Advance { session, checklist, plan, .. } => (session, checklist, plan),
        TurnDecision::Continue { .. } => panic!("the session should end"),
    }
}

#[test]
fn without_an_image_the_teacher_asks_for_one() {
    let mut session = Session::new();
    session.attempt_count = 1;
    session.chat = vec![("System".to_string(), "Welcome".to_string())];
    match begin_turn("I see a cat", session) {
        TurnStart::NoImage { session } => {
            assert_eq!(
                session.chat,
                vec![
                    ("System".to_string(), "Welcome".to_string()),
                    ("Teacher".to_string(), "Please generate an image first.".to_string()),
                ]
            );
            assert_eq!(session.attempt_count, 1);
            assert!(session.key_details.is_empty());
            assert_eq!(session.difficulty, Difficulty::VerySimple);
            assert!(session.identified_details.is_empty());
            assert_eq!(session.image, None);
            assert_eq!(session.prompt, None);
            assert!(!session.completed);
        }
        _ => panic!("there is no image"),
    }
}

#[test]
fn with_an_image_the_session_goes_to_evaluation_untouched() {
    let session = five_detail_session(700_000);
    match begin_turn("I see a cat", session) {
        TurnStart::Evaluate { session, current_image } => {
            assert_eq!(current_image, Some(vec![1, 2, 3, 4]));
            assert!(session.chat.is_empty());
            assert_eq!(session.attempt_count, 0);
            assert!(session.identified_details.is_empty());
        }
        _ => panic!("there is an image"),
    }
}

#[test]
fn an_image_text_without_payload_is_evaluated_without_bytes() {
    let mut session = Session::new();
    session.image = Some("https://example.org/image.png".to_string());
    match begin_turn("I see a cat", session) {
        TurnStart::Evaluate { session, current_image } => {
            assert_eq!(current_image, None);
            assert!(session.chat.is_empty());
        }
        _ => panic!("the image text is kept"),
    }
}

#[test]
fn an_undecodable_image_ends_the_turn_without_change() {
    let mut session = Session::new();
    session.image = Some("data:image/png;base64,dummydata".to_string());
    match begin_turn("Child description", session) {
        TurnStart::Undecodable { session, error } => {
            assert_eq!(error, PayloadError::NotBase64);
            assert!(session.chat.is_empty());
            assert_eq!(session.attempt_count, 0);
        }
        _ => panic!("the payload is no base64"),
    }
}

#[test]
fn merge_keeps_order_and_takes_new_key_details_once() {
    let keys = texts(&["cat", "mat", "window"]);
    let merged = merge_identified(texts(&["mat"]), &texts(&["window", "dog", "mat", "window"]), &keys);
    assert_eq!(merged, texts(&["mat", "window"]));
    let same = merge_identified(texts(&["mat"]), &Vec::new(), &keys);
    assert_eq!(same, texts(&["mat"]));
}

#[test]
fn a_turn_with_new_details_does_not_count_as_an_attempt() {
    let session = five_detail_session(700_000);
    let (session, checklist) =
        expect_continue(chat_respond("a cat", session, verdict(&["cat"], Difficulty::Simple, false)));
    assert_eq!(session.attempt_count, 0);
    assert_eq!(session.identified_details, texts(&["cat"]));
    assert_eq!(flags(&checklist), vec![true, false, false, false, false]);
    assert_eq!(
        session.chat,
        vec![
            ("Child".to_string(), "a cat".to_string()),
            ("Teacher".to_string(), "Good looking!".to_string()),
        ]
    );
}

#[test]
fn a_turn_without_new_details_counts_as_an_attempt() {
    let session = five_detail_session(700_000);
    let (session, checklist) =
        expect_continue(chat_respond("hmm", session, verdict(&[], Difficulty::Simple, false)));
    assert_eq!(session.attempt_count, 1);
    assert!(session.identified_details.is_empty());
    assert_eq!(flags(&checklist), vec![false; 5]);
    assert_eq!(session.chat.len(), 2);
}

#[test]
fn a_phrase_that_is_no_key_detail_is_not_identified() {
    let session = five_detail_session(700_000);
    let (session, checklist) =
        expect_continue(chat_respond("a dog", session, verdict(&["dog"], Difficulty::Simple, false)));
    assert!(session.identified_details.is_empty());
    assert_eq!(session.attempt_count, 0);
    assert_eq!(flags(&checklist), vec![false; 5]);
    assert!(session.is_well_formed());
}

#[test]
fn three_turns_to_the_threshold() {
    let session = five_detail_session(700_000);
    assert_eq!(session.details_threshold.basis_points, 7000);
    assert_eq!(session.details_threshold.count(session.key_details.len()), 4);

    let (session, checklist) = expect_continue(chat_respond(
        "a cat on a mat",
        session,
        verdict(&["cat", "mat"], Difficulty::VerySimple, false),
    ));
    assert_eq!(session.identified_details.len(), 2);
    assert_eq!(session.attempt_count, 0);
    assert_eq!(flags(&checklist), vec![true, true, false, false, false]);

    let (session, checklist) = expect_continue(chat_respond(
        "I do not know",
        session,
        verdict(&[], Difficulty::VerySimple, false),
    ));
    assert_eq!(session.identified_details.len(), 2);
    assert_eq!(session.attempt_count, 1);
    assert_eq!(flags(&checklist), vec![true, true, false, false, false]);

    let (session, checklist, plan) = expect_advance(chat_respond(
        "a window and the sun",
        session,
        verdict(&["window", "sun"], Difficulty::VerySimple, false),
    ));
    assert_eq!(session.identified_details.len(), 4);
    assert_eq!(session.attempt_count, 1);
    assert_eq!(flags(&checklist), vec![true, true, true, true, false]);
    assert_eq!(
        plan.advancement,
        Advancement {
            threshold_reached: true,
            all_identified: false,
            attempts_exhausted: false,
            should_advance: false,
        }
    );
    assert_eq!(plan.difficulty, Difficulty::VerySimple);
    assert_eq!(plan.notice, Notice::SameDifficulty);
    assert_eq!(session.chat.len(), 6);
    assert!(session.is_well_formed());
}

#[test]
fn reaching_the_threshold_takes_the_proposed_difficulty() {
    let mut session = five_detail_session(700_000);
    session.identified_details = texts(&["cat", "mat", "window"]);
    let (_, _, plan) = expect_advance(chat_respond(
        "the sun",
        session,
        verdict(&["sun"], Difficulty::Simple, false),
    ));
    assert_eq!(plan.difficulty, Difficulty::Simple);
    assert_eq!(plan.notice, Notice::ThresholdAdvance);
}

#[test]
fn used_up_attempts_end_the_session_at_the_same_difficulty() {
    let mut session = five_detail_session(700_000);
    session.attempt_count = 2;
    let (session, _, plan) = expect_advance(chat_respond(
        "nothing",
        session,
        verdict(&[], Difficulty::Detailed, false),
    ));
    assert_eq!(session.attempt_count, 3);
    assert!(plan.advancement.attempts_exhausted);
    assert!(!plan.advancement.threshold_reached);
    assert_eq!(plan.notice, Notice::Exhausted);
    assert_eq!(plan.difficulty, Difficulty::VerySimple);
}

#[test]
fn used_up_attempts_bring_a_fresh_session_and_the_notice_of_it() {
    let mut session = five_detail_session(700_000);
    session.attempt_count = 2;
    session.identified_details = texts(&["cat"]);
    let (old, checklist, plan) = expect_advance(chat_respond(
        "nothing",
        session,
        verdict(&[], Difficulty::Detailed, false),
    ));
    let result = complete_advance(old, checklist, Vec::new(), &plan, Ok(material(&["dog", "ball"])));
    assert!(result.advanced);
    assert_eq!(
        result.active_session.chat,
        vec![(
            "System".to_string(),
            "You've used all your allowed attempts. Let's try a new image.".to_string()
        )]
    );
    assert_eq!(result.active_session.attempt_count, 0);
    assert!(result.active_session.identified_details.is_empty());
    assert_eq!(result.active_session.difficulty, Difficulty::VerySimple);
    assert_eq!(flags(&result.checklist), vec![false, false]);
    assert_eq!(result.saved_sessions.len(), 1);
    assert!(result.saved_sessions[0].completed);
    assert_eq!(result.saved_sessions[0].attempt_count, 3);
    assert_eq!(result.saved_sessions[0].identified_details, texts(&["cat"]));
}

#[test]
fn a_new_detail_at_the_largest_count_leaves_the_count() {
    let mut session = five_detail_session(1_000_000);
    session.attempt_count = u32::MAX;
    session.attempt_limit = u32::MAX;
    let (session, _, plan) = expect_advance(chat_respond(
        "a cat",
        session,
        verdict(&["cat"], Difficulty::Simple, false),
    ));
    assert_eq!(session.attempt_count, u32::MAX);
    assert_eq!(plan.notice, Notice::Exhausted);
}

#[test]
fn an_attempt_limit_of_zero_ends_every_session_at_once() {
    let started = generate_image_and_reset_chat(
        "5",
        "Level 2",
        "Animals",
        "Plan A",
        Some(0),
        None,
        &Session::new(),
        &Vec::new(),
        "Realistic",
        Ok(material(&["cat", "mat"])),
    )
    .unwrap();
    assert_eq!(started.active_session.attempt_limit, 0);
    assert_eq!(started.active_session.attempt_count, 0);
    assert!(started.active_session.is_well_formed());
    let (_, _, plan) = expect_advance(chat_respond(
        "a cat",
        started.active_session,
        verdict(&["cat"], Difficulty::Simple, false),
    ));
    assert_eq!(plan.notice, Notice::Exhausted);
}

#[test]
fn used_up_attempts_with_a_request_to_advance_take_the_proposal() {
    let mut session = five_detail_session(700_000);
    session.attempt_count = 2;
    let (_, _, plan) = expect_advance(chat_respond(
        "nothing",
        session,
        verdict(&[], Difficulty::Detailed, true),
    ));
    assert_eq!(plan.notice, Notice::Exhausted);
    assert_eq!(plan.difficulty, Difficulty::Detailed);
}

#[test]
fn the_evaluator_can_ask_for_advancement() {
    let session = five_detail_session(700_000);
    let (session, _, plan) = expect_advance(chat_respond(
        "a cat",
        session,
        verdict(&["cat"], Difficulty::Moderate, true),
    ));
    assert_eq!(session.identified_details, texts(&["cat"]));
    assert_eq!(plan.notice, Notice::Advanced);
    assert_eq!(plan.difficulty, Difficulty::Moderate);
    assert!(plan.advancement.should_advance);
}

#[test]
fn all_identified_ends_the_session() {
    let mut session = five_detail_session(1_000_000);
    session.identified_details = texts(&["cat", "mat", "window", "sun"]);
    let (_, checklist, plan) = expect_advance(chat_respond(
        "a tree",
        session,
        verdict(&["tree"], Difficulty::Simple, false),
    ));
    assert_eq!(flags(&checklist), vec![true; 5]);
    assert!(plan.advancement.all_identified);
    assert!(plan.advancement.threshold_reached);
}

#[test]
fn ending_a_session_says_what_to_generate_next() {
    let mut session = five_detail_session(700_000);
    session.attempt_count = 2;
    match chat_respond("nothing", session, verdict(&[], Difficulty::Detailed, true)) {
        TurnDecision::Advance { request, plan, .. } => {
            assert_eq!(request.difficulty, Difficulty::Detailed);
            assert_eq!(request.difficulty, plan.difficulty);
            assert_eq!(request.age, "5");
            assert_eq!(request.autism_level, "Level 2");
            assert_eq!(request.topic_focus, "Animals");
            assert_eq!(request.treatment_plan, "Plan A");
            assert_eq!(request.image_style, "Realistic");
        }
        TurnDecision::Continue { .. } => panic!("the session should end"),
    }
    let mut bare = Session::new();
    bare.image = Some("data:image/png;base64,AAAA".to_string());
    match chat_respond("x", bare, verdict(&[], Difficulty::Simple, false)) {
        TurnDecision::Advance { request, .. } => {
            assert_eq!(request.difficulty, Difficulty::Simple);
            assert_eq!(request.topic_focus, "");
            assert_eq!(request.treatment_plan, "");
            assert!(request
                .prompt_query()
                .contains("- Treatment Plan: Develop social communication skills"));
        }
        TurnDecision::Continue { .. } => panic!("nothing is left to identify"),
    }
}

#[test]
fn notices_read_as_written() {
    assert_eq!(
        notice_message(Notice::Exhausted, 1, 5, Difficulty::Simple),
        "You've used all your allowed attempts. Let's try a new image."
    );
    assert_eq!(
        notice_message(Notice::ThresholdAdvance, 4, 5, Difficulty::Simple),
        "Congratulations! You've identified enough details (4/5) to advance to Simple difficulty! Here's a new image to describe."
    );
    assert_eq!(
        notice_message(Notice::ThresholdAdvance, 12, 15, Difficulty::VeryDetailed),
        "Congratulations! You've identified enough details (12/15) to advance to Very Detailed difficulty! Here's a new image to describe."
    );
    assert_eq!(
        notice_message(Notice::Advanced, 0, 0, Difficulty::Moderate),
        "Congratulations! You've advanced to Moderate difficulty! Here's a new image to describe."
    );
    assert_eq!(
        notice_message(Notice::SameDifficulty, 0, 0, Difficulty::Moderate),
        "Great job identifying the details! Here's a new image at the same difficulty level."
    );
    assert_eq!(notice_message(Notice::NewImage, 0, 0, Difficulty::Moderate), "Let's try a new image!");
}

fn ended_session() -> (Session, Vec<ChecklistItem>, AdvancePlan) {
    let mut session = five_detail_session(700_000);
    session.identified_details = texts(&["cat", "mat", "window"]);
    session.attempt_count = 1;
    expect_advance(chat_respond("the sun", session, verdict(&["sun"], Difficulty::Simple, false)))
}

#[test]
fn advancing_archives_the_old_session_and_starts_afresh() {
    let (old, checklist, plan) = ended_session();
    let archive = vec![Session::new()];
    let result = complete_advance(
        old.clone(),
        checklist,
        archive,
        &plan,
        Ok(Generated::from_material(
            "A new scene".to_string(),
            b"hello",
            "A dog in a park".to_string(),
            texts(&["dog", "ball", "park", "bench", "bird", "cloud"]),
        )),
    );
    assert!(result.advanced);
    let new = &result.active_session;
    assert_eq!(new.prompt, Some("A new scene".to_string()));
    assert_eq!(new.image, Some("data:image/png;base64,aGVsbG8=".to_string()));
    assert_eq!(new.image_description, Some("A dog in a park".to_string()));
    assert_eq!(
        new.chat,
        vec![(
            "System".to_string(),
            "Congratulations! You've identified enough details (4/6) to advance to Simple difficulty! Here's a new image to describe.".to_string()
        )]
    );
    assert_eq!(new.treatment_plan, Some("Plan A".to_string()));
    assert_eq!(new.topic_focus, Some("Animals".to_string()));
    assert_eq!(new.key_details, texts(&["dog", "ball", "park", "bench", "bird", "cloud"]));
    assert!(new.identified_details.is_empty());
    assert!(new.used_hints.is_empty());
    assert_eq!(new.difficulty, Difficulty::Simple);
    assert_eq!(new.autism_level, "Level 2");
    assert_eq!(new.age, "5");
    assert_eq!(new.attempt_limit, 3);
    assert_eq!(new.attempt_count, 0);
    assert_eq!(new.details_threshold.basis_points, 7000);
    assert_eq!(new.image_style, "Realistic");
    assert!(!new.completed);
    assert!(new.is_well_formed());

    assert_eq!(result.checklist.len(), 6);
    assert_eq!(flags(&result.checklist), vec![false; 6]);
    for (i, item) in result.checklist.iter().enumerate() {
        assert_eq!(item.id, i);
        assert_eq!(item.detail, new.key_details[i]);
    }

    assert_eq!(result.saved_sessions.len(), 2);
    assert_eq!(result.saved_sessions[0].prompt, None);
    let kept = &result.saved_sessions[1];
    assert!(kept.completed);
    assert_eq!(kept.prompt, old.prompt);
    assert_eq!(kept.chat, old.chat);
    assert_eq!(kept.identified_details, texts(&["cat", "mat", "window", "sun"]));
    assert_eq!(kept.attempt_count, 1);
    assert_eq!(kept.difficulty, Difficulty::VerySimple);
}

#[test]
fn a_failed_generation_keeps_the_progress_of_the_turn() {
    let (old, checklist, plan) = ended_session();
    let archive = vec![Session::new()];
    let result =
        complete_advance(old.clone(), checklist, archive, &plan, Err("HTTP error: 503".to_string()));
    assert!(!result.advanced);
    let kept = &result.active_session;
    assert_eq!(kept.identified_details, texts(&["cat", "mat", "window", "sun"]));
    assert_eq!(kept.attempt_count, 1);
    assert_eq!(kept.chat.len(), old.chat.len() + 1);
    assert_eq!(kept.chat[..old.chat.len()], old.chat[..]);
    assert_eq!(
        kept.chat[old.chat.len()],
        (
            "System".to_string(),
            "There was an issue generating a new image. Please try again.".to_string()
        )
    );
    assert_eq!(kept.prompt, old.prompt);
    assert_eq!(kept.image, old.image);
    assert_eq!(kept.difficulty, old.difficulty);
    assert!(!kept.completed);
    assert_eq!(result.saved_sessions.len(), 1);
    assert_eq!(flags(&result.checklist), vec![true, true, true, true, false]);
}

#[test]
fn a_session_without_plan_or_topic_is_replaced_with_empty_ones() {
    let mut old = Session::new();
    old.image = Some("data:image/png;base64,AAAA".to_string());
    old.key_details = texts(&["cat", "mat"]);
    let (old, checklist, plan) =
        expect_advance(chat_respond("x", old, verdict(&[], Difficulty::Simple, true)));
    let result = complete_advance(old, checklist, Vec::new(), &plan, Ok(material(&["cat"])));
    assert_eq!(result.active_session.treatment_plan, Some(String::new()));
    assert_eq!(result.active_session.topic_focus, Some(String::new()));
    assert_eq!(
        result.active_session.chat,
        vec![(
            "System".to_string(),
            "Congratulations! You've advanced to Simple difficulty! Here's a new image to describe."
                .to_string()
        )]
    );
}

#[test]
fn the_same_inputs_give_the_same_turn() {
    let run = || {
        let session = five_detail_session(700_000);
        chat_respond("a cat", session, verdict(&["cat", "tree"], Difficulty::Simple, false))
    };
    let (a, ca) = expect_continue(run());
    let (b, cb) = expect_continue(run());
    assert_eq!(a.chat, b.chat);
    assert_eq!(a.identified_details, b.identified_details);
    assert_eq!(a.attempt_count, b.attempt_count);
    assert_eq!(flags(&ca), flags(&cb));
}
