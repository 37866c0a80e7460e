//! The tag filter: which records answer a tag requirement.
//!
//! A record answers when it carries every required tag, with exactly the
//! required key and value. Tags beyond the required ones do not matter; a
//! reported tag that lacks its key or its value is no tag.

use crate::inventory::{record_views, InstanceRecord, InstanceRecordView};
use crate::request::{tag_views, Tag};
use vstd::prelude::*;

verus! {

/// Whether a record carries a tag: one of its reported tags has that key and
/// that value.
pub open spec fn carries(record: InstanceRecordView, tag: (Seq<char>, Seq<char>)) -> bool {
    record.tags.contains((Some(tag.0), Some(tag.1)))
}

/// Whether a record carries every required tag.
pub open spec fn carries_all(
    record: InstanceRecordView,
    required: Seq<(Seq<char>, Seq<char>)>,
) -> bool {
    forall|j: int| 0 <= j < required.len() ==> carries(record, #[trigger] required[j])
}

/// The records that carry every required tag, in the order they came in.
pub open spec fn matching(
    records: Seq<InstanceRecordView>,
    required: Seq<(Seq<char>, Seq<char>)>,
) -> Seq<InstanceRecordView> {
    records.filter(|r: InstanceRecordView| carries_all(r, required))
}

/// Tells whether the record carries the tag.
pub fn carries_tag(record: &InstanceRecord, tag: &Tag) -> (found: bool)
    ensures
        found == carries(record@, tag@),
{
    match &record.tags {
        None => false,
        Some(tags) => {
            let ghost wanted = (Some(tag.key@), Some(tag.value@));
            let mut i: usize = 0;
            while i < tags.len()
                invariant
                    i <= tags.len(),
                    record.tags == Some(*tags),
                    wanted == (Some(tag.key@), Some(tag.value@)),
                    forall|j: int| 0 <= j < i ==> record@.tags[j] != wanted,
                decreases tags.len() - i,
            {
                let reported = &tags[i];
                assert(record@.tags[i as int] == reported@);
                let same_key = match &reported.key {
                    Some(key) => *key == tag.key,
                    None => false,
                };
                let same_value = match &reported.value {
                    Some(value) => *value == tag.value,
                    None => false,
                };
                if same_key && same_value {
                    assert(record@.tags[i as int] == wanted);
                    return true;
                }
                i = i + 1;
            }
            false
        },
    }
}

/// Tells whether the record carries every required tag.
pub fn has_required_tags(record: &InstanceRecord, required: &Vec<Tag>) -> (all: bool)
    ensures
        all == carries_all(record@, tag_views(required@)),
{
    let mut j: usize = 0;
    while j < required.len()
        invariant
            j <= required.len(),
            forall|k: int| 0 <= k < j ==> carries(record@, #[trigger] tag_views(required@)[k]),
        decreases required.len() - j,
    {
        assert(tag_views(required@)[j as int] == required@[j as int]@);
        if !carries_tag(record, &required[j]) {
            return false;
        }
        j = j + 1;
    }
    true
}

/// Keeps the records that carry every required tag, in their order.
pub fn filter_by_tags<'a>(records: &Vec<&'a InstanceRecord>, required: &Vec<Tag>) -> (kept: Vec<
    &'a InstanceRecord,
>)
    ensures
        record_views(kept@) == matching(record_views(records@), tag_views(required@)),
{
    let ghost views = record_views(records@);
    let ghost answers = |r: InstanceRecordView| carries_all(r, tag_views(required@));
    let mut kept: Vec<&'a InstanceRecord> = Vec::new();
    let mut i: usize = 0;
    proof {
        reveal(Seq::filter);
        assert(views.take(0).filter(answers) =~= Seq::<InstanceRecordView>::empty());
    }
    while i < records.len()
        invariant
            i <= records.len(),
            views == record_views(records@),
            answers == |r: InstanceRecordView| carries_all(r, tag_views(required@)),
            record_views(kept@) =~= views.take(i as int).filter(answers),
        decreases records.len() - i,
    {
        let ghost before = record_views(kept@);
        let record = records[i];
        proof {
            assert(views.take(i + 1) =~= views.take(i as int).push(record@));
            views.take(i as int).lemma_filter_push(record@, answers);
        }
        if has_required_tags(record, required) {
            kept.push(record);
            assert(record_views(kept@) =~= before.push(record@));
        }
        i = i + 1;
    }
    assert(views.take(i as int) =~= views);
    kept
}

/// The tag filter keeps a record if and only if the record came in and
/// carries every required tag.
pub proof fn filter_keeps_exactly_the_carriers(
    records: Seq<InstanceRecordView>,
    required: Seq<(Seq<char>, Seq<char>)>,
    record: InstanceRecordView,
)
    ensures
        matching(records, required).contains(record) <==> (records.contains(record) && carries_all(
            record,
            required,
        )),
{
    let answers = |r: InstanceRecordView| carries_all(r, required);
    let kept = matching(records, required);
    if kept.contains(record) {
        let k = choose|k: int| 0 <= k < kept.len() && kept[k] == record;
        records.lemma_filter_pred(answers, k);
        records.lemma_filter_contains_rev(answers, record);
    }
    if records.contains(record) && carries_all(record, required) {
        let i = choose|i: int| 0 <= i < records.len() && records[i] == record;
        records.lemma_filter_contains(answers, i);
    }
}

/// A record that carries every required tag still does so when it reports
/// further tags.
pub proof fn further_tags_keep_a_match(
    record: InstanceRecordView,
    further: Seq<(Option<Seq<char>>, Option<Seq<char>>)>,
    required: Seq<(Seq<char>, Seq<char>)>,
)
    requires
        carries_all(record, required),
    ensures
        carries_all(
            InstanceRecordView { tags: record.tags + further, ..record },
            required,
        ),
{
    let wider = InstanceRecordView { tags: record.tags + further, ..record };
    assert forall|j: int| 0 <= j < required.len() implies carries(wider, #[trigger] required[j]) by {
        assert(carries(record, required[j]));
        let wanted = (Some(required[j].0), Some(required[j].1));
        let i = choose|i: int| 0 <= i < record.tags.len() && record.tags[i] == wanted;
        assert(wider.tags[i] == wanted);
    }
}

} // verus!
