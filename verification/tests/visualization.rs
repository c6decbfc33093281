use visolearn::checklist::{project, ChecklistItem};
use visolearn::difficulty::Difficulty;
use visolearn::policy::{Encouragement, Threshold};
use visolearn::session::Session;
use visolearn::visualization::{
    progress_summary, update_attempt_counter, update_checklist_html, update_difficulty_label,
    update_progress_html,
};

fn texts(items: &[&str]) -> Vec<String> {
    items.iter().map(|s| s.to_string()).collect()
}

fn sample_checklist() -> Vec<ChecklistItem> {
    project(
        &texts(&[
            "Red flower in the corner",
            "Blue sky background",
            "Mountain silhouette",
            "Small bird in flight",
        ]),
        &texts(&["Red flower in the corner", "Blue sky background"]),
    )
}

#[test]
fn the_difficulty_label() {
    let mut session = Session::new();
    assert_eq!(update_difficulty_label(&session), "**Current Difficulty:** Very Simple");
    session.difficulty = Difficulty::Detailed;
    assert_eq!(update_difficulty_label(&session), "**Current Difficulty:** Detailed");
}

#[test]
fn the_attempt_counter() {
    let mut session = Session::new();
    session.attempt_count = 1;
    session.attempt_limit = 3;
    let want = format!(
        r#"
        <div id="attempt-counter" style="margin-top: 10px; padding: 10px; background-color: #000000; color: #ffffff; border-radius: 5px; border: 1px solid #444;">
            <p style="margin: 0; font-weight: bold; text-align: center;">Attempts: {}/{}</p>
        </div>
    "#,
        1, 3
    );
    assert_eq!(update_attempt_counter(&session), want);
    assert!(update_attempt_counter(&session).contains("Attempts: 1/3</p>"));
    session.attempt_count = 12;
    session.attempt_limit = 10;
    assert!(update_attempt_counter(&session).contains("Attempts: 12/10</p>"));
}

#[test]
fn an_empty_checklist_asks_for_an_image() {
    let want = r#"
            <div id="checklist-container" style="background-color: #000000; color: #ffffff; padding: 15px; border-radius: 8px;">
                <p>Generate an image to see details to identify.</p>
            </div>
        "#;
    assert_eq!(update_checklist_html(&Vec::new()), want);
}

#[test]
fn a_checklist_has_one_line_per_item() {
    let mut want = String::from(
        r#"
        <div id="checklist-container" style="background-color: #000000; color: #ffffff; padding: 15px; border-radius: 8px;">
            <style>
                .checklist-item {
                    display: flex;
                    align-items: center;
                    margin-bottom: 10px;
                    padding: 8px;
                    border-radius: 5px;
                    transition: background-color 0.3s;
                }
                .identified {
                    background-color: #1e4620;
                    text-decoration: line-through;
                    color: #7fff7f;
                }
                .not-identified {
                    background-color: #222222;
                    color: #ffffff;
                }
                .checkmark {
                    margin-right: 10px;
                    font-size: 1.2em;
                }
            </style>
    "#,
    );
    for (class, mark, detail) in [
        ("identified", "✅", "Red flower in the corner"),
        ("identified", "✅", "Blue sky background"),
        ("not-identified", "❌", "Mountain silhouette"),
        ("not-identified", "❌", "Small bird in flight"),
    ] {
        want.push_str(&format!(
            r#"
            <div class="checklist-item {}">
                <span class="checkmark">{}</span>
                <span>{}</span>
            </div>
        "#,
            class, mark, detail
        ));
    }
    want.push_str(
        r#"
        </div>
    "#,
    );
    assert_eq!(update_checklist_html(&sample_checklist()), want);
}

#[test]
fn progress_in_numbers() {
    let session = Session::new();
    let progress = progress_summary(&sample_checklist(), &session);
    assert_eq!(progress.identified, 2);
    assert_eq!(progress.total, 4);
    assert_eq!(progress.threshold_count, 3);
    assert_eq!(progress.threshold_percent, 70);
    assert_eq!(progress.percent, 50);
    assert_eq!(progress.tier, Encouragement::Halfway);
    let none = progress_summary(&Vec::new(), &session);
    assert_eq!(none.identified, 0);
    assert_eq!(none.total, 0);
    assert_eq!(none.threshold_count, 0);
    assert_eq!(none.percent, 0);
    assert_eq!(none.tier, Encouragement::ThresholdReached);
}

#[test]
fn no_progress_without_a_checklist() {
    let want = r#"
            <div id="progress-container" style="background-color: #000000; color: #ffffff; padding: 15px; border-radius: 8px;">
                <p>No active session.</p>
            </div>
        "#;
    assert_eq!(update_progress_html(&Vec::new(), &Session::new(), "0%", "0", "-5"), want);
}

#[test]
fn progress_as_shown() {
    let session = Session::new();
    let checklist = sample_checklist();
    let fraction = 2.0_f64 / 4.0 * 100.0;
    let bar_width = format!("{}%", fraction);
    let mark = 3.0_f64 / 4.0 * 100.0;
    let mut want = format!(
        r#"
        <div id="progress-container" style="background-color: #000000; color: #ffffff; padding: 15px; border-radius: 8px;">
            <h3>Progress: {} / {} details</h3>
            <div style="width: 100%; background-color: #333333; border-radius: 5px; margin-bottom: 10px; position: relative;">
                <div style="width: {}; height: 24px; background-color: #4CAF50; border-radius: 5px;"></div>
                <div style="position: absolute; top: 0; bottom: 0; left: {}%; width: 2px; background-color: #ff6b6b;"></div>
                <div style="position: absolute; top: -15px; left: {}%; color: #ff6b6b; font-weight: bold;">⚠️</div>
            </div>
            <p style="font-size: 14px; text-align: center; color: #dddddd;">
                Need to identify at least {} details ({}%) to advance
            </p>
            <p style="font-size: 16px; font-weight: bold; text-align: center; color: #ffffff;">
    "#,
        2,
        4,
        bar_width,
        mark,
        mark - 5.0,
        3,
        70
    );
    want.push_str("Halfway there! You're doing great!");
    want.push_str(
        r#"
            </p>
        </div>
    "#,
    );
    let got = update_progress_html(
        &checklist,
        &session,
        &bar_width,
        &mark.to_string(),
        &(mark - 5.0).to_string(),
    );
    assert_eq!(got, want);
    assert!(got.contains("<h3>Progress: 2 / 4 details</h3>"));
    assert!(got.contains("Need to identify at least 3 details (70%) to advance"));
}

#[test]
fn progress_at_the_threshold() {
    let mut session = Session::new();
    session.details_threshold = Threshold::normalize(5000);
    let got = update_progress_html(&sample_checklist(), &session, "50%", "50", "45");
    assert!(got.contains("Need to identify at least 2 details (50%) to advance"));
    assert!(got.contains("🎉 Threshold reached! Ready to advance! 🎉"));
}
