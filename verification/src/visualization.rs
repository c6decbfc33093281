//! The views of a session as text: the difficulty label, the checklist,
//! the progress towards the threshold and the attempt counter.

use crate::checklist::{identified_count, marked_count, ChecklistItem, ChecklistItemView};
use crate::policy::{
    encouragement, encouragement_tier, lemma_threshold_count_bounds, percent_identified,
    percent_of, threshold_count, Encouragement,
};
use crate::session::Session;
use crate::text::{decimal, owned, to_decimal};
use vstd::prelude::*;
use vstd::string::*;

verus! {

/// What stands before the difficulty in its label.
pub const DIFFICULTY_LABEL: &'static str = "**Current Difficulty:** ";

/// The checklist shown while there is nothing to identify.
pub const EMPTY_CHECKLIST: &'static str = r#"
            <div id="checklist-container" style="background-color: #000000; color: #ffffff; padding: 15px; border-radius: 8px;">
                <p>Generate an image to see details to identify.</p>
            </div>
        "#;

/// What opens a checklist with items.
pub const CHECKLIST_HEAD: &'static str = r#"
        <div id="checklist-container" style="background-color: #000000; color: #ffffff; padding: 15px; border-radius: 8px;">
            <style>
                .checklist-item {
                    display: flex;
                    align-items: center;
                    margin-bottom: 10px;
                    padding: 8px;
                    border-radius: 5px;
                    transition: background-color 0.3s;
                }
                .identified {
                    background-color: #1e4620;
                    text-decoration: line-through;
                    color: #7fff7f;
                }
                .not-identified {
                    background-color: #222222;
                    color: #ffffff;
                }
                .checkmark {
                    margin-right: 10px;
                    font-size: 1.2em;
                }
            </style>
    "#;

/// What closes a checklist with items.
pub const CHECKLIST_TAIL: &'static str = r#"
        </div>
    "#;

/// The style class of an identified item.
pub const IDENTIFIED_CLASS: &'static str = "identified";

/// The style class of an item yet to be identified.
pub const OPEN_CLASS: &'static str = "not-identified";

/// The mark of an identified item.
pub const IDENTIFIED_MARK: &'static str = "✅";

/// The mark of an item yet to be identified.
pub const OPEN_MARK: &'static str = "❌";

/// Piece 0 of the line of a checklist item.
pub const ITEM_0: &'static str = r#"
            <div class="checklist-item "#;

/// Piece 1 of the line of a checklist item.
pub const ITEM_1: &'static str = r#"">
                <span class="checkmark">"#;

/// Piece 2 of the line of a checklist item.
pub const ITEM_2: &'static str = r#"</span>
                <span>"#;

/// Piece 3 of the line of a checklist item.
pub const ITEM_3: &'static str = r#"</span>
            </div>
        "#;

/// The progress shown while there is no checklist.
pub const EMPTY_PROGRESS: &'static str = r#"
            <div id="progress-container" style="background-color: #000000; color: #ffffff; padding: 15px; border-radius: 8px;">
                <p>No active session.</p>
            </div>
        "#;

/// Piece 0 of the progress display.
pub const PROGRESS_0: &'static str = r#"
        <div id="progress-container" style="background-color: #000000; color: #ffffff; padding: 15px; border-radius: 8px;">
            <h3>Progress: "#;

/// Piece 1 of the progress display.
pub const PROGRESS_1: &'static str = r#" / "#;

/// Piece 2 of the progress display.
pub const PROGRESS_2: &'static str = r#" details</h3>
            <div style="width: 100%; background-color: #333333; border-radius: 5px; margin-bottom: 10px; position: relative;">
                <div style="width: "#;

/// Piece 3 of the progress display.
pub const PROGRESS_3: &'static str = r#"; height: 24px; background-color: #4CAF50; border-radius: 5px;"></div>
                <div style="position: absolute; top: 0; bottom: 0; left: "#;

/// Piece 4 of the progress display.
pub const PROGRESS_4: &'static str = r#"%; width: 2px; background-color: #ff6b6b;"></div>
                <div style="position: absolute; top: -15px; left: "#;

/// Piece 5 of the progress display.
pub const PROGRESS_5: &'static str = r#"%; color: #ff6b6b; font-weight: bold;">⚠️</div>
            </div>
            <p style="font-size: 14px; text-align: center; color: #dddddd;">
                Need to identify at least "#;

/// Piece 6 of the progress display.
pub const PROGRESS_6: &'static str = r#" details ("#;

/// Piece 7 of the progress display.
pub const PROGRESS_7: &'static str = r#"%) to advance
            </p>
            <p style="font-size: 16px; font-weight: bold; text-align: center; color: #ffffff;">
    "#;

/// What closes the progress display.
pub const PROGRESS_TAIL: &'static str = r#"
            </p>
        </div>
    "#;

/// Piece 0 of the attempt counter.
pub const ATTEMPTS_0: &'static str = r#"
        <div id="attempt-counter" style="margin-top: 10px; padding: 10px; background-color: #000000; color: #ffffff; border-radius: 5px; border: 1px solid #444;">
            <p style="margin: 0; font-weight: bold; text-align: center;">Attempts: "#;

/// Piece 1 of the attempt counter.
pub const ATTEMPTS_1: &'static str = r#"/"#;

/// Piece 2 of the attempt counter.
pub const ATTEMPTS_2: &'static str = r#"</p>
        </div>
    "#;

/// Where a learner stands on a checklist.
#[derive(Clone, Copy, Debug, PartialEq, Eq, Structural)]
pub struct Progress {
    /// The number of identified items.
    pub identified: usize,
    /// The number of items.
    pub total: usize,
    /// The number of items that the threshold asks for.
    pub threshold_count: usize,
    /// The threshold, in whole percent, rounded down.
    pub threshold_percent: u32,
    /// The share of identified items, in whole percent, rounded down.
    pub percent: usize,
    /// The encouragement that goes with it.
    pub tier: Encouragement,
}

/// The progress on a checklist `items` under a threshold of
/// `basis_points`.
pub open spec fn progress_of(items: Seq<ChecklistItemView>, basis_points: nat) -> Progress {
    Progress {
        identified: marked_count(items) as usize,
        total: items.len() as usize,
        threshold_count: threshold_count(items.len(), basis_points) as usize,
        threshold_percent: (basis_points / 100) as u32,
        percent: percent_identified(marked_count(items), items.len()) as usize,
        tier: encouragement(marked_count(items), items.len(), basis_points),
    }
}

/// The label that names the difficulty of a session.
pub open spec fn difficulty_label_text(label: Seq<char>) -> Seq<char> {
    DIFFICULTY_LABEL@ + label
}

/// The line of one checklist item: its style class, its mark and its
/// detail.
pub open spec fn item_html(item: ChecklistItemView) -> Seq<char> {
    ITEM_0@ + (if item.identified {
        IDENTIFIED_CLASS@
    } else {
        OPEN_CLASS@
    }) + ITEM_1@ + (if item.identified {
        IDENTIFIED_MARK@
    } else {
        OPEN_MARK@
    }) + ITEM_2@ + item.detail + ITEM_3@
}

/// The lines of the items of a checklist, in order.
pub open spec fn items_html(items: Seq<ChecklistItemView>) -> Seq<char>
    decreases items.len(),
{
    if items.len() == 0 {
        Seq::empty()
    } else {
        items_html(items.drop_last()) + item_html(items.last())
    }
}

/// The checklist as it is shown: a fixed text while it is empty, one line
/// per item otherwise.
pub open spec fn checklist_html(items: Seq<ChecklistItemView>) -> Seq<char> {
    if items.len() == 0 {
        EMPTY_CHECKLIST@
    } else {
        CHECKLIST_HEAD@ + items_html(items) + CHECKLIST_TAIL@
    }
}

/// The attempt counter as it is shown.
pub open spec fn attempt_counter_html(count: nat, limit: nat) -> Seq<char> {
    ATTEMPTS_0@ + decimal(count) + ATTEMPTS_1@ + decimal(limit) + ATTEMPTS_2@
}

/// The progress as it is shown, with the three lengths of the bar written
/// out by the caller: the width of the bar, the place of the threshold
/// mark and the place of its sign.
pub open spec fn progress_html(
    items: Seq<ChecklistItemView>,
    basis_points: nat,
    bar_width: Seq<char>,
    threshold_mark: Seq<char>,
    sign_offset: Seq<char>,
) -> Seq<char> {
    if items.len() == 0 {
        EMPTY_PROGRESS@
    } else {
        PROGRESS_0@ + decimal(marked_count(items)) + PROGRESS_1@ + decimal(items.len())
            + PROGRESS_2@ + bar_width + PROGRESS_3@ + threshold_mark + PROGRESS_4@ + sign_offset
            + PROGRESS_5@ + decimal(threshold_count(items.len(), basis_points)) + PROGRESS_6@
            + decimal(basis_points / 100) + PROGRESS_7@ + encouragement(
            marked_count(items),
            items.len(),
            basis_points,
        ).spec_message() + PROGRESS_TAIL@
    }
}

/// The count of a checklist's identified items never exceeds its length.
pub proof fn lemma_marked_count_bound(items: Seq<ChecklistItemView>)
    ensures
        marked_count(items) <= items.len(),
    decreases items.len(),
{
    if items.len() > 0 {
        lemma_marked_count_bound(items.drop_last());
    }
}

/// Where the learner stands on the checklist of a session.
pub fn progress_summary(checklist: &Vec<ChecklistItem>, active_session: &Session) -> (r: Progress)
    requires
        active_session.details_threshold.well_formed(),
    ensures
        r == progress_of(checklist.deep_view(), active_session.details_threshold.basis_points as nat),
{
    let identified = identified_count(checklist);
    let total = checklist.len();
    let threshold = active_session.details_threshold;
    Progress {
        identified,
        total,
        threshold_count: threshold.count(total),
        threshold_percent: threshold.percent(),
        percent: percent_of(identified, total),
        tier: encouragement_tier(identified, total, threshold),
    }
}

/// The label that names the difficulty of the session.
pub fn update_difficulty_label(active_session: &Session) -> (r: String)
    ensures
        r@ == difficulty_label_text(active_session.difficulty.spec_label()),
{
    let mut r = owned(DIFFICULTY_LABEL);
    r.append(active_session.difficulty.label());
    r
}

/// The checklist as it is shown.
pub fn update_checklist_html(checklist: &Vec<ChecklistItem>) -> (r: String)
    ensures
        r@ == checklist_html(checklist.deep_view()),
{
    if checklist.len() == 0 {
        return owned(EMPTY_CHECKLIST);
    }
    let ghost items = checklist.deep_view();
    let mut r = owned(CHECKLIST_HEAD);
    let mut i: usize = 0;
    assert(items.take(0) =~= Seq::empty());
    assert(r@ =~= CHECKLIST_HEAD@ + items_html(items.take(0)));
    while i < checklist.len()
        invariant
            i <= checklist.len(),
            items == checklist.deep_view(),
            r@ == CHECKLIST_HEAD@ + items_html(items.take(i as int)),
        decreases checklist.len() - i,
    {
        let item = &checklist[i];
        proof {
            assert(items.take(i + 1).drop_last() =~= items.take(i as int));
            assert(items.take(i + 1).last() == item@);
        }
        r.append(ITEM_0);
        r.append(if item.identified {
            IDENTIFIED_CLASS
        } else {
            OPEN_CLASS
        });
        r.append(ITEM_1);
        r.append(if item.identified {
            IDENTIFIED_MARK
        } else {
            OPEN_MARK
        });
        r.append(ITEM_2);
        r.append(item.detail.as_str());
        r.append(ITEM_3);
        assert(r@ =~= CHECKLIST_HEAD@ + items_html(items.take(i + 1)));
        i += 1;
    }
    assert(items.take(checklist.len() as int) =~= items);
    r.append(CHECKLIST_TAIL);
    r
}

/// The progress as it is shown. The three lengths of the bar are fractions
/// and come written out from the caller; the counts, the threshold and the
/// encouragement are those of [`progress_of`].
pub fn update_progress_html(
    checklist: &Vec<ChecklistItem>,
    active_session: &Session,
    bar_width: &str,
    threshold_mark: &str,
    sign_offset: &str,
) -> (r: String)
    requires
        active_session.details_threshold.well_formed(),
    ensures
        r@ == progress_html(
            checklist.deep_view(),
            active_session.details_threshold.basis_points as nat,
            bar_width@,
            threshold_mark@,
            sign_offset@,
        ),
{
    if checklist.len() == 0 {
        return owned(EMPTY_PROGRESS);
    }
    let progress = progress_summary(checklist, active_session);
    proof {
        lemma_marked_count_bound(checklist.deep_view());
        lemma_threshold_count_bounds(
            checklist.deep_view().len(),
            active_session.details_threshold.basis_points as nat,
        );
    }
    let mut r = owned(PROGRESS_0);
    r.append(to_decimal(progress.identified as u64).as_str());
    r.append(PROGRESS_1);
    r.append(to_decimal(progress.total as u64).as_str());
    r.append(PROGRESS_2);
    r.append(bar_width);
    r.append(PROGRESS_3);
    r.append(threshold_mark);
    r.append(PROGRESS_4);
    r.append(sign_offset);
    r.append(PROGRESS_5);
    r.append(to_decimal(progress.threshold_count as u64).as_str());
    r.append(PROGRESS_6);
    r.append(to_decimal(progress.threshold_percent as u64).as_str());
    r.append(PROGRESS_7);
    r.append(progress.tier.message());
    r.append(PROGRESS_TAIL);
    r
}

/// The attempt counter as it is shown.
pub fn update_attempt_counter(active_session: &Session) -> (r: String)
    ensures
        r@ == attempt_counter_html(
            active_session.attempt_count as nat,
            active_session.attempt_limit as nat,
        ),
{
    let mut r = owned(ATTEMPTS_0);
    r.append(to_decimal(active_session.attempt_count as u64).as_str());
    r.append(ATTEMPTS_1);
    r.append(to_decimal(active_session.attempt_limit as u64).as_str());
    r.append(ATTEMPTS_2);
    r
}

} // verus!
