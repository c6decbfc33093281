//! The checklist: one item per key detail, in key-detail order, each marked
//! as identified or not.

use crate::text::contains_text;
use vstd::prelude::*;

verus! {

/// One line of the checklist: a key detail, whether it has been identified,
/// and its position among the key details.
#[derive(Debug)]
pub struct ChecklistItem {
    pub detail: String,
    pub identified: bool,
    pub id: usize,
}

/// What a [`ChecklistItem`] stands for.
pub struct ChecklistItemView {
    pub detail: Seq<char>,
    pub identified: bool,
    pub id: nat,
}

impl View for ChecklistItem {
    type V = ChecklistItemView;

    open spec fn view(&self) -> ChecklistItemView {
        ChecklistItemView { detail: self.detail@, identified: self.identified, id: self.id as nat }
    }
}

impl DeepView for ChecklistItem {
    type V = ChecklistItemView;

    open spec fn deep_view(&self) -> ChecklistItemView {
        self@
    }
}

impl Clone for ChecklistItem {
    fn clone(&self) -> (r: ChecklistItem)
        ensures
            r@ == self@,
    {
        ChecklistItem { detail: self.detail.clone(), identified: self.identified, id: self.id }
    }
}

/// The checklist of a session with key details `keys` of which those in
/// `identified` are identified: one item per key detail, in key-detail
/// order, numbered by position.
pub open spec fn projection(keys: Seq<Seq<char>>, identified: Set<Seq<char>>) -> Seq<
    ChecklistItemView,
> {
    Seq::new(
        keys.len(),
        |i: int|
            ChecklistItemView {
                detail: keys[i],
                identified: identified.contains(keys[i]),
                id: i as nat,
            },
    )
}

/// A checklist in which every item is marked that was marked in `items` or
/// whose detail is among `newly`; details and numbers stay as they are.
pub open spec fn marked(items: Seq<ChecklistItemView>, newly: Set<Seq<char>>) -> Seq<
    ChecklistItemView,
> {
    Seq::new(
        items.len(),
        |i: int|
            ChecklistItemView {
                detail: items[i].detail,
                identified: items[i].identified || newly.contains(items[i].detail),
                id: items[i].id,
            },
    )
}

/// Whether every item of a checklist is identified.
pub open spec fn all_marked(items: Seq<ChecklistItemView>) -> bool {
    forall|i: int| 0 <= i < items.len() ==> (#[trigger] items[i]).identified
}

/// The number of identified items of a checklist.
pub open spec fn marked_count(items: Seq<ChecklistItemView>) -> nat
    decreases items.len(),
{
    if items.len() == 0 {
        0
    } else {
        marked_count(items.drop_last()) + if items.last().identified {
            1nat
        } else {
            0nat
        }
    }
}

/// The checklist of the key details `key_details` of which those in
/// `identified` are identified.
pub fn project(key_details: &Vec<String>, identified: &Vec<String>) -> (r: Vec<ChecklistItem>)
    ensures
        r.deep_view() == projection(key_details.deep_view(), identified.deep_view().to_set()),
{
    let mut r: Vec<ChecklistItem> = Vec::new();
    let mut i: usize = 0;
    let ghost want = projection(key_details.deep_view(), identified.deep_view().to_set());
    while i < key_details.len()
        invariant
            i <= key_details.len(),
            r.len() == i,
            want == projection(key_details.deep_view(), identified.deep_view().to_set()),
            forall|j: int| 0 <= j < i ==> r.deep_view()[j] == want[j],
        decreases key_details.len() - i,
    {
        let found = contains_text(identified, key_details[i].as_str());
        assert(key_details.deep_view()[i as int] == key_details[i as int]@);
        r.push(ChecklistItem { detail: key_details[i].clone(), identified: found, id: i });
        i += 1;
    }
    assert(r.deep_view() =~= want);
    r
}

/// The checklist `checklist` with every item marked whose detail is among
/// `newly_identified` and among `key_details`. Items that were marked stay
/// marked; details, numbers and order stay as they are.
pub fn update_checklist(
    checklist: &Vec<ChecklistItem>,
    newly_identified: Vec<String>,
    key_details: &Vec<String>,
) -> (r: Vec<ChecklistItem>)
    ensures
        r.deep_view() == marked(
            checklist.deep_view(),
            newly_identified.deep_view().to_set().intersect(key_details.deep_view().to_set()),
        ),
{
    let mut r: Vec<ChecklistItem> = Vec::new();
    let mut i: usize = 0;
    let ghost want = marked(
        checklist.deep_view(),
        newly_identified.deep_view().to_set().intersect(key_details.deep_view().to_set()),
    );
    while i < checklist.len()
        invariant
            i <= checklist.len(),
            r.len() == i,
            want == marked(
                checklist.deep_view(),
                newly_identified.deep_view().to_set().intersect(key_details.deep_view().to_set()),
            ),
            forall|j: int| 0 <= j < i ==> r.deep_view()[j] == want[j],
        decreases checklist.len() - i,
    {
        let item = &checklist[i];
        let found = item.identified || (contains_text(&newly_identified, item.detail.as_str())
            && contains_text(key_details, item.detail.as_str()));
        assert(checklist.deep_view()[i as int] == checklist[i as int]@);
        r.push(ChecklistItem { detail: item.detail.clone(), identified: found, id: item.id });
        i += 1;
    }
    assert(r.deep_view() =~= want);
    r
}

/// Whether every item of the checklist is identified.
pub fn all_identified(checklist: &Vec<ChecklistItem>) -> (r: bool)
    ensures
        r == all_marked(checklist.deep_view()),
{
    let mut i: usize = 0;
    while i < checklist.len()
        invariant
            i <= checklist.len(),
            forall|j: int| 0 <= j < i ==> (#[trigger] checklist.deep_view()[j]).identified,
        decreases checklist.len() - i,
    {
        if !checklist[i].identified {
            assert(!checklist.deep_view()[i as int].identified);
            return false;
        }
        i += 1;
    }
    true
}

/// The number of identified items of the checklist.
pub fn identified_count(checklist: &Vec<ChecklistItem>) -> (r: usize)
    ensures
        r == marked_count(checklist.deep_view()),
        r <= checklist.len(),
{
    let mut n: usize = 0;
    let mut i: usize = 0;
    let ghost items = checklist.deep_view();
    while i < checklist.len()
        invariant
            i <= checklist.len(),
            items == checklist.deep_view(),
            n == marked_count(items.take(i as int)),
            n <= i,
        decreases checklist.len() - i,
    {
        proof {
            assert(items.take(i + 1).drop_last() =~= items.take(i as int));
            assert(items.take(i + 1).last() == checklist[i as int]@);
        }
        if checklist[i].identified {
            n += 1;
        }
        i += 1;
    }
    assert(items.take(checklist.len() as int) =~= items);
    n
}

/// The projection has one item per key detail, in key-detail order and
/// numbered by position, whatever is identified.
pub proof fn lemma_projection_shape(keys: Seq<Seq<char>>, identified: Set<Seq<char>>)
    ensures
        projection(keys, identified).len() == keys.len(),
        forall|i: int|
            0 <= i < keys.len() ==> {
                &&& (#[trigger] projection(keys, identified)[i]).detail == keys[i]
                &&& projection(keys, identified)[i].id == i
                &&& projection(keys, identified)[i].identified == identified.contains(keys[i])
            },
{
}

/// With nothing identified, no item of the projection is marked.
pub proof fn lemma_projection_of_nothing(keys: Seq<Seq<char>>)
    ensures
        forall|i: int|
            0 <= i < keys.len() ==> !(#[trigger] projection(keys, Set::empty())[i]).identified,
        marked_count(projection(keys, Set::empty())) == 0,
        keys.len() > 0 ==> !all_marked(projection(keys, Set::empty())),
    decreases keys.len(),
{
    let p = projection(keys, Set::<Seq<char>>::empty());
    if keys.len() > 0 {
        lemma_projection_of_nothing(keys.drop_last());
        assert(p.drop_last() =~= projection(keys.drop_last(), Set::empty()));
        assert(!p[0].identified);
    }
}

/// The projection depends on the key details and on which details are
/// identified, not on how that set is written down: equal inputs give equal
/// checklists, call after call.
pub proof fn lemma_projection_deterministic(
    keys: Seq<Seq<char>>,
    first: Seq<Seq<char>>,
    second: Seq<Seq<char>>,
)
    requires
        first.to_set() =~= second.to_set(),
    ensures
        projection(keys, first.to_set()) == projection(keys, second.to_set()),
{
}

/// As the identified set grows, the projection keeps its items, their order
/// and their numbers, and no marked item loses its mark.
pub proof fn lemma_projection_grows(
    keys: Seq<Seq<char>>,
    smaller: Set<Seq<char>>,
    larger: Set<Seq<char>>,
)
    requires
        smaller.subset_of(larger),
    ensures
        projection(keys, larger).len() == projection(keys, smaller).len(),
        forall|i: int|
            0 <= i < keys.len() ==> {
                &&& (#[trigger] projection(keys, larger)[i]).detail == projection(
                    keys,
                    smaller,
                )[i].detail
                &&& projection(keys, larger)[i].id == projection(keys, smaller)[i].id
                &&& projection(keys, smaller)[i].identified ==> projection(
                    keys,
                    larger,
                )[i].identified
            },
{
}

/// Marking the projection of one identified set with further details gives
/// the projection of the union.
pub proof fn lemma_marked_projection(
    keys: Seq<Seq<char>>,
    identified: Set<Seq<char>>,
    newly: Set<Seq<char>>,
)
    ensures
        marked(projection(keys, identified), newly) == projection(keys, identified.union(newly)),
{
    assert(marked(projection(keys, identified), newly) =~= projection(
        keys,
        identified.union(newly),
    ));
}

} // verus!
