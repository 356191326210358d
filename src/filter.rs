//! Selecting records by their health.

use vstd::prelude::*;
use crate::record::{healthy, CollectionInfo, CollectionView};

verus! {

/// Which records a report shows.
#[derive(Clone, Copy, Debug, PartialEq, Eq, Structural)]
pub enum HealthFilter {
    Healthy,
    Unhealthy,
}

/// A filter name other than "healthy" and "unhealthy".
pub struct InvalidFilter {
    pub value: String,
}

pub open spec fn filter_named(value: Seq<char>) -> Option<HealthFilter> {
    if value == "healthy"@ {
        Some(HealthFilter::Healthy)
    } else if value == "unhealthy"@ {
        Some(HealthFilter::Unhealthy)
    } else {
        None
    }
}

/// Whether a record passes the filter; with no filter every record does.
pub open spec fn keeps(only: Option<HealthFilter>, c: CollectionView) -> bool {
    match only {
        None => true,
        Some(HealthFilter::Healthy) => healthy(c),
        Some(HealthFilter::Unhealthy) => !healthy(c),
    }
}

/// The records that pass the filter, in their order.
pub open spec fn selected(only: Option<HealthFilter>, s: Seq<CollectionInfo>) -> Seq<CollectionInfo> {
    s.filter(|c: CollectionInfo| keeps(only, c@))
}

impl InvalidFilter {
    /// A sentence that names the rejected value and the accepted ones.
    pub fn message(&self) -> (r: String)
        ensures
            r@ == "Invalid value for --only: '"@ + self.value@
                + "'. Must be 'healthy' or 'unhealthy'"@,
    {
        let mut m = String::from_str("Invalid value for --only: '");
        m.append(self.value.as_str());
        m.append("'. Must be 'healthy' or 'unhealthy'");
        m
    }
}

/// The filter that `value` names: "healthy" or "unhealthy"; anything else is
/// rejected.
pub fn parse_health_filter(value: &str) -> (r: Result<HealthFilter, InvalidFilter>)
    ensures
        match filter_named(value@) {
            Some(f) => r == Ok::<HealthFilter, InvalidFilter>(f),
            None => r matches Err(e) && e.value@ == value@,
        },
{
    let v = value.to_owned();
    if v.eq(&String::from_str("healthy")) {
        Ok(HealthFilter::Healthy)
    } else if v.eq(&String::from_str("unhealthy")) {
        Ok(HealthFilter::Unhealthy)
    } else {
        Err(InvalidFilter { value: v })
    }
}

/// The records that pass the filter, in their original order.
pub fn filter_records(records: Vec<CollectionInfo>, only: Option<HealthFilter>) -> (r: Vec<CollectionInfo>)
    ensures
        r@ == selected(only, records@),
{
    let ghost all = records@;
    let mut rest = records;
    let mut kept: Vec<CollectionInfo> = Vec::new();
    let ghost done: int = 0;
    while rest.len() > 0
        invariant
            0 <= done <= all.len(),
            rest@ == all.subrange(done, all.len() as int),
            kept@ == selected(only, all.take(done)),
        decreases rest.len(),
    {
        let c = rest.remove(0);
        let keep = match only {
            None => true,
            Some(HealthFilter::Healthy) => c.is_healthy(),
            Some(HealthFilter::Unhealthy) => !c.is_healthy(),
        };
        proof {
            assert(all.take(done + 1) =~= all.take(done).push(c));
            all.take(done).lemma_filter_push(c, |x: CollectionInfo| keeps(only, x@));
        }
        if keep {
            kept.push(c);
        }
        proof {
            done = done + 1;
        }
        assert(rest@ =~= all.subrange(done, all.len() as int));
    }
    assert(all.take(done) =~= all);
    kept
}

/// Filtering one sequence of records by "healthy" and by "unhealthy" splits
/// it: the two parts hold together exactly the records of the whole, each as
/// often as the whole does, and no record is in both.
pub proof fn lemma_filters_partition(s: Seq<CollectionInfo>)
    ensures
        selected(Some(HealthFilter::Healthy), s).to_multiset().add(
            selected(Some(HealthFilter::Unhealthy), s).to_multiset(),
        ) == s.to_multiset(),
        forall|c: CollectionInfo|
            #[trigger] s.contains(c) ==> selected(Some(HealthFilter::Healthy), s).contains(c)
                || selected(Some(HealthFilter::Unhealthy), s).contains(c),
        forall|c: CollectionInfo|
            #[trigger] selected(Some(HealthFilter::Healthy), s).contains(c) ==> s.contains(c)
                && !selected(Some(HealthFilter::Unhealthy), s).contains(c),
        forall|c: CollectionInfo|
            #[trigger] selected(Some(HealthFilter::Unhealthy), s).contains(c) ==> s.contains(c)
                && !selected(Some(HealthFilter::Healthy), s).contains(c),
{
    let h = |c: CollectionInfo| keeps(Some(HealthFilter::Healthy), c@);
    let u = |c: CollectionInfo| keeps(Some(HealthFilter::Unhealthy), c@);
    lemma_partition_counts(s);
    assert forall|c: CollectionInfo| #[trigger] s.contains(c) implies s.filter(h).contains(c)
        || s.filter(u).contains(c) by {
        let i = choose|i: int| 0 <= i < s.len() && s[i] == c;
        if h(c) {
            s.lemma_filter_contains(h, i);
        } else {
            s.lemma_filter_contains(u, i);
        }
    }
    assert forall|c: CollectionInfo| #[trigger] s.filter(h).contains(c) implies s.contains(c)
        && !s.filter(u).contains(c) by {
        s.lemma_filter_contains_rev(h, c);
        let i = choose|i: int| 0 <= i < s.filter(h).len() && s.filter(h)[i] == c;
        s.lemma_filter_pred(h, i);
        if s.filter(u).contains(c) {
            let j = choose|j: int| 0 <= j < s.filter(u).len() && s.filter(u)[j] == c;
            s.lemma_filter_pred(u, j);
        }
    }
    assert forall|c: CollectionInfo| #[trigger] s.filter(u).contains(c) implies s.contains(c)
        && !s.filter(h).contains(c) by {
        s.lemma_filter_contains_rev(u, c);
        let j = choose|j: int| 0 <= j < s.filter(u).len() && s.filter(u)[j] == c;
        s.lemma_filter_pred(u, j);
        if s.filter(h).contains(c) {
            let i = choose|i: int| 0 <= i < s.filter(h).len() && s.filter(h)[i] == c;
            s.lemma_filter_pred(h, i);
        }
    }
}

proof fn lemma_partition_counts(s: Seq<CollectionInfo>)
    ensures
        selected(Some(HealthFilter::Healthy), s).to_multiset().add(
            selected(Some(HealthFilter::Unhealthy), s).to_multiset(),
        ) == s.to_multiset(),
    decreases s.len(),
{
    broadcast use vstd::seq_lib::group_seq_properties, vstd::multiset::group_multiset_axioms;
    let h = |c: CollectionInfo| keeps(Some(HealthFilter::Healthy), c@);
    let u = |c: CollectionInfo| keeps(Some(HealthFilter::Unhealthy), c@);
    if s.len() == 0 {
        assert(s.filter(h) =~= s);
        assert(s.filter(u) =~= s);
        assert(s.filter(h).to_multiset().add(s.filter(u).to_multiset()) =~= s.to_multiset());
    } else {
        let p = s.drop_last();
        let x = s.last();
        lemma_partition_counts(p);
        assert(s =~= p.push(x));
        p.lemma_filter_push(x, h);
        p.lemma_filter_push(x, u);
        assert(s.filter(h).to_multiset().add(s.filter(u).to_multiset()) =~= s.to_multiset());
    }
}

} // verus!
