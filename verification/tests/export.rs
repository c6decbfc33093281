use visolearn::export::{
    has_exportable_image, image_export_dir, image_export_summary, image_exports, redact,
    session_log_entries, session_log_failed, session_log_filename, session_log_saved,
    REDACTED_IMAGE,
};
use visolearn::session::Session;

fn session(prompt: Option<&str>, image: Option<&str>) -> Session {
    let mut s = Session::new();
    s.prompt = prompt.map(|p| p.to_string());
    s.image = image.map(|i| i.to_string());
    s
}

#[test]
fn the_log_holds_a_mark_in_place_of_each_image() {
    let s = session(Some("a scene"), Some("data:image/png;base64,AAAA"));
    let r = redact(&s);
    assert_eq!(r.image, Some("[IMAGE_DATA_REMOVED]".to_string()));
    assert_eq!(r.prompt, s.prompt);
    assert_eq!(r.age, s.age);
    assert_eq!(REDACTED_IMAGE, "[IMAGE_DATA_REMOVED]");
    let without = redact(&session(Some("a scene"), None));
    assert_eq!(without.image, None);
}

#[test]
fn the_log_holds_the_archive_and_a_real_active_session() {
    let archive = vec![
        session(Some("one"), Some("data:image/png;base64,AAAA")),
        session(Some("two"), None),
    ];
    let entries =
        session_log_entries(&archive, &session(Some("three"), Some("data:image/png;base64,BBBB")));
    assert_eq!(entries.len(), 3);
    assert_eq!(entries[0].prompt, Some("one".to_string()));
    assert_eq!(entries[0].image, Some("[IMAGE_DATA_REMOVED]".to_string()));
    assert_eq!(entries[1].image, None);
    assert_eq!(entries[2].prompt, Some("three".to_string()));
    assert_eq!(entries[2].image, Some("[IMAGE_DATA_REMOVED]".to_string()));
    let entries = session_log_entries(&archive, &Session::new());
    assert_eq!(entries.len(), 2);
}

#[test]
fn the_log_holds_an_active_session_with_an_empty_prompt() {
    let archive = vec![session(Some("one"), None)];
    let active = session(Some(""), Some("data:image/png;base64,BBBB"));
    let entries = session_log_entries(&archive, &active);
    assert_eq!(entries.len(), 2);
    assert_eq!(entries[0].prompt, Some("one".to_string()));
    assert_eq!(entries[1].prompt, Some(String::new()));
    assert_eq!(entries[1].image, Some("[IMAGE_DATA_REMOVED]".to_string()));
    assert_eq!(archive.len(), 1);
    assert_eq!(active.image, Some("data:image/png;base64,BBBB".to_string()));
}

#[test]
fn log_file_name_and_reports() {
    assert_eq!(session_log_filename("20240131_235959"), "session_log_20240131_235959.json");
    assert_eq!(
        session_log_saved("session_log_20240131_235959.json"),
        "✅ Session log saved to: session_log_20240131_235959.json"
    );
    assert_eq!(session_log_failed("disk full"), "❌ Error saving session log: disk full");
}

#[test]
fn images_are_named_by_their_place_in_the_archive() {
    let archive = vec![
        session(Some("one"), Some("data:image/png;base64,AAAA")),
        session(Some("two"), None),
        session(Some("three"), Some("https://example.org/x.png")),
        session(Some("four"), Some("data:image/jpeg;base64,CCCC")),
    ];
    let active = session(Some("five"), Some("data:image/png;base64,BBBB"));
    let exports = image_exports(&archive, &active, "20240131_235959");
    let got: Vec<(&str, &str)> =
        exports.iter().map(|e| (e.filename.as_str(), e.data_url.as_str())).collect();
    assert_eq!(
        got,
        vec![
            ("saved_images_20240131_235959/session_0_20240131_235959.png", "data:image/png;base64,AAAA"),
            ("saved_images_20240131_235959/session_3_20240131_235959.png", "data:image/jpeg;base64,CCCC"),
            ("saved_images_20240131_235959/active_session_20240131_235959.png", "data:image/png;base64,BBBB"),
        ]
    );
    assert_eq!(image_export_dir("20240131_235959"), "saved_images_20240131_235959");
}

#[test]
fn every_image_goes_to_a_file_of_its_own() {
    let mut archive = Vec::new();
    for _ in 0..25 {
        archive.push(session(Some("a scene"), Some("data:image/png;base64,AAAA")));
    }
    let active = session(Some("active"), Some("data:image/png;base64,AAAA"));
    let exports = image_exports(&archive, &active, "1_1");
    assert_eq!(exports.len(), 26);
    for (i, a) in exports.iter().enumerate() {
        for b in exports.iter().skip(i + 1) {
            assert_ne!(a.filename, b.filename);
        }
    }
    assert_eq!(exports[11].filename, "saved_images_1_1/session_11_1_1.png");
    assert_eq!(exports[25].filename, "saved_images_1_1/active_session_1_1.png");
}

#[test]
fn nothing_to_export_without_images() {
    let exports = image_exports(&Vec::new(), &Session::new(), "t");
    assert!(exports.is_empty());
    assert!(!has_exportable_image(&Session::new()));
    assert!(has_exportable_image(&session(None, Some("data:image/png;base64,AAAA"))));
    assert!(!has_exportable_image(&session(None, Some("data:text/plain,AAAA"))));
}

#[test]
fn the_summary_counts_the_writes_that_succeeded() {
    assert_eq!(
        image_export_summary(&vec![true, false, true], "saved_images_t"),
        "✅ Successfully saved 2 images to folder: saved_images_t"
    );
    assert_eq!(
        image_export_summary(&Vec::new(), "saved_images_t"),
        "✅ Successfully saved 0 images to folder: saved_images_t"
    );
    assert_eq!(
        image_export_summary(&vec![false, false], "d"),
        "✅ Successfully saved 0 images to folder: d"
    );
}
