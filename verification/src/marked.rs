//! The marked-date index: an externally owned mapping from a date to an
//! annotation (a "deletable" flag and free-form detail text). The
//! date-selection state machine only reads it; only dates present here
//! and marked deletable may start the delete-confirmation sub-flow.

use vstd::prelude::*;
use crate::date::Date;

verus! {

/// The annotation attached to a marked date.
#[derive(Clone, Debug, PartialEq, Eq)]
pub struct DateInfo {
    /// Whether this date may be the target of the delete-confirmation
    /// sub-flow.
    pub deletable: bool,
    /// Free-form detail text, shown when the cursor rests on the date.
    pub details: String,
}

/// The annotation for `d` among `entries`, reading from position `i`
/// on: the first entry whose date is `d` wins.
pub open spec fn spec_lookup_from(entries: Seq<(Date, DateInfo)>, d: Date, i: int) -> Option<
    DateInfo,
>
    decreases entries.len() - i,
{
    if i < 0 || i >= entries.len() {
        None
    } else if entries[i].0 == d {
        Some(entries[i].1)
    } else {
        spec_lookup_from(entries, d, i + 1)
    }
}

/// The annotation for `d` among `entries`, if any.
pub open spec fn spec_lookup(entries: Seq<(Date, DateInfo)>, d: Date) -> Option<DateInfo> {
    spec_lookup_from(entries, d, 0)
}

/// A read-only index from date to annotation. The most recently
/// inserted annotation for a date is the one reported.
#[derive(Clone, Debug, PartialEq, Eq)]
pub struct MarkedDates {
    entries: Vec<(Date, DateInfo)>,
}

/// Reading an index from any position past a fresh front entry sees
/// exactly what the index without that entry showed.
proof fn lemma_lookup_after_prepend(
    entries: Seq<(Date, DateInfo)>,
    e: (Date, DateInfo),
    d: Date,
    i: int,
)
    requires
        0 <= i <= entries.len(),
    ensures
        spec_lookup_from(entries.insert(0, e), d, i + 1) == spec_lookup_from(entries, d, i),
    decreases entries.len() - i,
{
    if i < entries.len() {
        lemma_lookup_after_prepend(entries, e, d, i + 1);
    }
}

impl MarkedDates {
    /// The entries of the index, most recently inserted first.
    pub closed spec fn view(&self) -> Seq<(Date, DateInfo)> {
        self.entries@
    }

    /// The annotation the index reports for `d`.
    pub open spec fn spec_get(&self, d: Date) -> Option<DateInfo> {
        spec_lookup(self@, d)
    }

    /// An empty index.
    pub fn new() -> (r: MarkedDates)
        ensures
            r@ == Seq::<(Date, DateInfo)>::empty(),
    {
        MarkedDates { entries: Vec::new() }
    }

    /// Annotates `d` with `info`; an earlier annotation for `d` is
    /// shadowed.
    pub fn insert(&mut self, d: Date, info: DateInfo)
        ensures
            final(self).spec_get(d) == Some(info),
            forall|x: Date| x != d ==> final(self).spec_get(x) == old(self).spec_get(x),
    {
        let ghost entries = self.entries@;
        self.entries.insert(0, (d, info));
        proof {
            assert forall|x: Date| x != d implies self.spec_get(x) == spec_lookup(
                entries,
                x,
            ) by {
                lemma_lookup_after_prepend(entries, (d, info), x, 0);
            }
        }
    }

    /// The annotation for `d`, if `d` is marked.
    pub fn get(&self, d: &Date) -> (r: Option<&DateInfo>)
        ensures
            r matches Some(info) ==> self.spec_get(*d) == Some(*info),
            r is None ==> self.spec_get(*d) is None,
    {
        let n = self.entries.len();
        let mut i: usize = 0;
        while i < n
            invariant
                n == self@.len(),
                0 <= i <= n,
                spec_lookup(self@, *d) == spec_lookup_from(self@, *d, i as int),
            decreases n - i,
        {
            if self.entries[i].0 == *d {
                return Some(&self.entries[i].1);
            }
            i = i + 1;
        }
        None
    }

    /// Whether `d` is marked at all.
    pub fn contains(&self, d: &Date) -> (r: bool)
        ensures
            r == (self.spec_get(*d) is Some),
    {
        self.get(d).is_some()
    }
}

} // verus!
