//! The whole pipeline after the listing: one record per listed name, then
//! the records that pass the filter.

use vstd::prelude::*;
use crate::enricher::{enrich, enriched, DetailReply};
use crate::filter::{filter_records, selected, HealthFilter};
use crate::record::CollectionInfo;

verus! {

/// Whether `records` holds, in order, one record for each listed name, built
/// from the reply to that name's detail request.
pub open spec fn records_for(names: Seq<String>, replies: Seq<DetailReply>, records: Seq<CollectionInfo>) -> bool {
    &&& records.len() == names.len()
    &&& forall|i: int| 0 <= i < names.len() ==> enriched(names[i]@, replies[i], #[trigger] records[i]@)
}

/// Whether `report` is what the listed names and their replies give under the
/// filter: the records, one per name in listing order, that pass it.
pub open spec fn report_of(
    names: Seq<String>,
    replies: Seq<DetailReply>,
    only: Option<HealthFilter>,
    report: Seq<CollectionInfo>,
) -> bool {
    exists|records: Seq<CollectionInfo>|
        records_for(names, replies, records) && report == #[trigger] selected(only, records)
}

/// The report for the listed `names`, where `replies[i]` is what the detail
/// request for `names[i]` brought back.
pub fn build_report(names: Vec<String>, replies: Vec<DetailReply>, only: Option<HealthFilter>) -> (r: Vec<CollectionInfo>)
    requires
        names@.len() == replies@.len(),
    ensures
        report_of(names@, replies@, only, r@),
{
    let ghost all_names = names@;
    let ghost all_replies = replies@;
    let mut names = names;
    let mut replies = replies;
    let mut records: Vec<CollectionInfo> = Vec::new();
    while names.len() > 0
        invariant
            names@.len() == replies@.len(),
            records@.len() + names@.len() == all_names.len(),
            all_names.len() == all_replies.len(),
            names@ == all_names.subrange(records@.len() as int, all_names.len() as int),
            replies@ == all_replies.subrange(records@.len() as int, all_replies.len() as int),
            records_for(all_names.take(records@.len() as int), all_replies, records@),
        decreases names.len(),
    {
        let ghost k = records@.len() as int;
        let name = names.remove(0);
        let reply = replies.remove(0);
        let rec = enrich(name, reply);
        records.push(rec);
        assert(names@ =~= all_names.subrange(k + 1, all_names.len() as int));
        assert(replies@ =~= all_replies.subrange(k + 1, all_replies.len() as int));
        assert forall|i: int| 0 <= i < k + 1 implies enriched(
            all_names.take(k + 1)[i]@,
            all_replies[i],
            #[trigger] records@[i]@,
        ) by {
            if i < k {
                assert(all_names.take(k)[i] == all_names.take(k + 1)[i]);
            }
        }
    }
    assert(all_names.take(records@.len() as int) =~= all_names);
    let report = filter_records(records, only);
    assert(records_for(all_names, all_replies, records@));
    report
}

/// With no collection listed no record is built, and the report is empty
/// whatever the filter.
pub proof fn lemma_no_collections_empty_report(
    replies: Seq<DetailReply>,
    only: Option<HealthFilter>,
    report: Seq<CollectionInfo>,
)
    requires
        report_of(Seq::empty(), replies, only, report),
    ensures
        report == Seq::<CollectionInfo>::empty(),
        forall|records: Seq<CollectionInfo>|
            #[trigger] records_for(Seq::empty(), replies, records) ==> records.len() == 0,
{
    let records = choose|records: Seq<CollectionInfo>|
        records_for(Seq::empty(), replies, records) && report == #[trigger] selected(only, records);
    assert(records =~= Seq::<CollectionInfo>::empty());
    reveal(Seq::filter);
    assert(selected(only, records) =~= Seq::<CollectionInfo>::empty());
}

} // verus!
