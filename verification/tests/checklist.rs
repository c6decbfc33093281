use visolearn::checklist::{
    all_identified, identified_count, project, update_checklist, ChecklistItem,
};

fn texts(items: &[&str]) -> Vec<String> {
    items.iter().map(|s| s.to_string()).collect()
}

fn flags(checklist: &[ChecklistItem]) -> Vec<bool> {
    checklist.iter().map(|item| item.identified).collect()
}

#[test]
fn projection_keeps_order_and_numbers_by_position() {
    let keys = texts(&["cat", "mat", "window", "sun", "tree"]);
    let checklist = project(&keys, &texts(&["sun", "cat"]));
    assert_eq!(checklist.len(), 5);
    for (i, item) in checklist.iter().enumerate() {
        assert_eq!(item.id, i);
        assert_eq!(item.detail, keys[i]);
    }
    assert_eq!(flags(&checklist), vec![true, false, false, true, false]);
}

#[test]
fn projection_of_nothing_identified_marks_nothing() {
    let keys = texts(&["cat", "mat", "window"]);
    let checklist = project(&keys, &Vec::new());
    assert_eq!(flags(&checklist), vec![false, false, false]);
    assert_eq!(identified_count(&checklist), 0);
    assert!(!all_identified(&checklist));
}

#[test]
fn projection_is_the_same_on_every_call() {
    let keys = texts(&["cat", "mat", "window"]);
    let found = texts(&["mat"]);
    let first = project(&keys, &found);
    let second = project(&keys, &found);
    assert_eq!(flags(&first), flags(&second));
    for (a, b) in first.iter().zip(second.iter()) {
        assert_eq!(a.detail, b.detail);
        assert_eq!(a.id, b.id);
    }
}

#[test]
fn projection_depends_on_the_set_not_on_its_order() {
    let keys = texts(&["cat", "mat", "window"]);
    let one = project(&keys, &texts(&["mat", "cat"]));
    let other = project(&keys, &texts(&["cat", "mat", "cat"]));
    assert_eq!(flags(&one), flags(&other));
}

#[test]
fn projection_never_drops_items_as_the_set_grows() {
    let keys = texts(&["cat", "mat", "window"]);
    let mut found: Vec<String> = Vec::new();
    let mut before = flags(&project(&keys, &found));
    for detail in ["window", "cat", "mat"] {
        found.push(detail.to_string());
        let after = project(&keys, &found);
        assert_eq!(after.len(), keys.len());
        for (i, item) in after.iter().enumerate() {
            assert_eq!(item.detail, keys[i]);
            assert!(!before[i] || item.identified);
        }
        before = flags(&after);
    }
    assert_eq!(before, vec![true, true, true]);
}

#[test]
fn projection_ignores_what_is_no_key_detail() {
    let keys = texts(&["cat", "mat"]);
    let checklist = project(&keys, &texts(&["dog"]));
    assert_eq!(flags(&checklist), vec![false, false]);
}

#[test]
fn projection_of_no_key_details_is_empty() {
    let checklist = project(&Vec::new(), &texts(&["cat"]));
    assert!(checklist.is_empty());
    assert!(all_identified(&checklist));
}

#[test]
fn update_checklist_keeps_earlier_marks() {
    let keys = texts(&["cat", "mat", "window"]);
    let checklist = project(&keys, &texts(&["cat"]));
    let updated = update_checklist(&checklist, texts(&["window", "dog"]), &keys);
    assert_eq!(flags(&updated), vec![true, false, true]);
    let clipped = update_checklist(&checklist, texts(&["window", "mat"]), &texts(&["cat", "mat"]));
    assert_eq!(flags(&clipped), vec![true, true, false]);
    for (i, item) in updated.iter().enumerate() {
        assert_eq!(item.id, i);
        assert_eq!(item.detail, keys[i]);
    }
    let again = update_checklist(&updated, Vec::new(), &keys);
    assert_eq!(flags(&again), vec![true, false, true]);
}

#[test]
fn update_checklist_agrees_with_the_projection_of_the_union() {
    let keys = texts(&["cat", "mat", "window", "sun"]);
    let checklist = project(&keys, &texts(&["cat"]));
    let updated = update_checklist(&checklist, texts(&["sun", "mat"]), &keys);
    let direct = project(&keys, &texts(&["cat", "sun", "mat"]));
    assert_eq!(flags(&updated), flags(&direct));
}

#[test]
fn counting_and_all_identified() {
    let keys = texts(&["cat", "mat"]);
    let some = project(&keys, &texts(&["mat"]));
    assert_eq!(identified_count(&some), 1);
    assert!(!all_identified(&some));
    let all = project(&keys, &texts(&["mat", "cat"]));
    assert_eq!(identified_count(&all), 2);
    assert!(all_identified(&all));
}

#[test]
fn checklist_item_clone_is_equal() {
    let item = ChecklistItem { detail: "cat".to_string(), identified: true, id: 3 };
    let copy = item.clone();
    assert_eq!(copy.detail, "cat");
    assert!(copy.identified);
    assert_eq!(copy.id, 3);
}
