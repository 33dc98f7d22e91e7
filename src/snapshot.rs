//! The snapshot: a duplicate-free collection of process records.
use vstd::prelude::*;

use crate::record::{ProcInfo, ProcView};

verus! {

/// The records of a sequence, as values.
pub open spec fn views(s: Seq<ProcInfo>) -> Seq<ProcView> {
    s.map_values(|p: ProcInfo| p@)
}

/// Whether a record is new with respect to an older set of records.
pub open spec fn is_new_in(old: Set<ProcView>) -> spec_fn(ProcView) -> bool {
    |x: ProcView| !old.contains(x)
}

/// All processes observed at one moment. No two of its records are the same
/// record; the order in which they are held is the order in which they were
/// first inserted.
pub struct Snapshot {
    records: Vec<ProcInfo>,
}

impl View for Snapshot {
    type V = Set<ProcView>;

    open spec fn view(&self) -> Set<ProcView> {
        self.seq().to_set()
    }
}

impl Snapshot {
    /// The records in the order in which the snapshot holds them.
    pub closed spec fn seq(&self) -> Seq<ProcView> {
        views(self.records@)
    }

    #[verifier::type_invariant]
    spec fn no_repeats(self) -> bool {
        self.seq().no_duplicates()
    }

    /// An empty snapshot.
    pub fn new() -> (r: Snapshot)
        ensures
            r.seq() == Seq::<ProcView>::empty(),
            r@ == Set::<ProcView>::empty(),
    {
        let r = Snapshot { records: Vec::new() };
        assert(r@ =~= Set::<ProcView>::empty());
        r
    }

    /// The number of records.
    pub fn len(&self) -> (r: usize)
        ensures
            r == self.seq().len(),
            r == self@.len(),
    {
        proof {
            use_type_invariant(self);
            self.seq().unique_seq_to_set();
        }
        self.records.len()
    }

    /// Whether the snapshot holds no record.
    pub fn is_empty(&self) -> (r: bool)
        ensures
            r == (self@ == Set::<ProcView>::empty()),
            r == (self.seq().len() == 0),
    {
        proof {
            use_type_invariant(self);
            self.seq().unique_seq_to_set();
            if self.seq().len() > 0 {
                assert(self@.contains(self.seq()[0]));
            } else {
                assert(self@ =~= Set::<ProcView>::empty());
            }
        }
        self.records.len() == 0
    }

    /// The records, in the order in which the snapshot holds them.
    pub fn records(&self) -> (r: &Vec<ProcInfo>)
        ensures
            views(r@) == self.seq(),
            views(r@).no_duplicates(),
            views(r@).to_set() == self@,
    {
        proof {
            use_type_invariant(self);
        }
        &self.records
    }

    /// Whether the snapshot holds a record equal to `p`.
    pub fn contains(&self, p: &ProcInfo) -> (r: bool)
        ensures
            r == self@.contains(p@),
    {
        let mut i: usize = 0;
        while i < self.records.len()
            invariant
                i <= self.records.len(),
                forall|j: int| 0 <= j < i ==> self.seq()[j] != p@,
            decreases self.records.len() - i,
        {
            if self.records[i].same(p) {
                assert(self.seq()[i as int] == p@);
                return true;
            }
            i += 1;
        }
        false
    }

    /// Adds `p` unless the snapshot already holds it; says whether it was
    /// added.
    pub fn insert(&mut self, p: ProcInfo) -> (added: bool)
        ensures
            added == !old(self)@.contains(p@),
            final(self)@ == old(self)@.insert(p@),
            final(self).seq() == if added {
                old(self).seq().push(p@)
            } else {
                old(self).seq()
            },
    {
        if self.contains(&p) {
            proof {
                assert(self@.insert(p@) =~= self@);
            }
            false
        } else {
            proof {
                use_type_invariant(&*self);
            }
            let ghost before = self.records@;
            let ghost pv = p@;
            let mut records: Vec<ProcInfo> = Vec::new();
            std::mem::swap(&mut records, &mut self.records);
            records.push(p);
            proof {
                assert(views(records@) =~= views(before).push(pv));
                assert forall|j: int| 0 <= j < views(before).len() implies views(before)[j]
                    != pv by {
                    if views(before)[j] == pv {
                        assert(views(before).to_set().contains(pv));
                    }
                }
            }
            self.records = records;
            proof {
                views(before).lemma_push_to_set_commute(pv);
            }
            true
        }
    }

    /// The snapshot of the distinct records among `records`.
    pub fn from_records(records: &Vec<ProcInfo>) -> (r: Snapshot)
        ensures
            r@ == views(records@).to_set(),
    {
        let mut r = Snapshot::new();
        let mut i: usize = 0;
        while i < records.len()
            invariant
                i <= records.len(),
                r@ == views(records@.take(i as int)).to_set(),
            decreases records.len() - i,
        {
            let p = records[i].clone();
            r.insert(p);
            proof {
                assert(views(records@.take(i + 1)) =~= views(records@.take(i as int)).push(
                    records@[i as int]@,
                ));
                views(records@.take(i as int)).lemma_push_to_set_commute(records@[i as int]@);
            }
            i += 1;
        }
        assert(records@.take(records.len() as int) =~= records@);
        r
    }

    /// The records of this snapshot that `old` does not hold, in the order in
    /// which this snapshot holds them.
    pub fn difference(&self, prior: &Snapshot) -> (r: Vec<ProcInfo>)
        ensures
            views(r@) == self.seq().filter(is_new_in(prior@)),
            views(r@).no_duplicates(),
            views(r@).to_set() == self@.difference(prior@),
    {
        let mut r: Vec<ProcInfo> = Vec::new();
        let ghost pred = is_new_in(prior@);
        let mut i: usize = 0;
        while i < self.records.len()
            invariant
                i <= self.records.len(),
                pred == is_new_in(prior@),
                views(r@) == self.seq().take(i as int).filter(pred),
            decreases self.records.len() - i,
        {
            let fresh = !prior.contains(&self.records[i]);
            proof {
                let s = self.seq().take(i + 1);
                assert(s.drop_last() =~= self.seq().take(i as int));
                assert(s.last() == self.records@[i as int]@);
                reveal(Seq::filter);
            }
            if fresh {
                let p = self.records[i].clone();
                let ghost before = r@;
                r.push(p);
                proof {
                    assert(views(r@) =~= views(before).push(p@));
                }
            }
            i += 1;
        }
        proof {
            assert(self.seq().take(self.records.len() as int) =~= self.seq());
            use_type_invariant(self);
            self.seq().unique_seq_to_set();
            lemma_filter_of_distinct(self.seq(), pred);
            lemma_filter_to_set(self.seq(), pred);
            assert(views(r@).to_set() =~= self@.difference(prior@));
        }
        r
    }
}

/// Filtering keeps a sequence free of duplicates.
proof fn lemma_filter_of_distinct(s: Seq<ProcView>, pred: spec_fn(ProcView) -> bool)
    requires
        s.no_duplicates(),
    ensures
        s.filter(pred).no_duplicates(),
    decreases s.len(),
{
    reveal(Seq::filter);
    if s.len() > 0 {
        let rest = s.drop_last();
        lemma_filter_of_distinct(rest, pred);
        if pred(s.last()) {
            broadcast use vstd::seq_lib::group_filter_ensures;
            if rest.filter(pred).contains(s.last()) {
                lemma_filter_to_set(rest, pred);
                assert(rest.filter(pred).to_set().contains(s.last()));
                assert(rest.to_set().contains(s.last()));
                let k = choose|k: int| 0 <= k < rest.len() && rest[k] == s.last();
                assert(s[k] == s[s.len() - 1]);
            }
        }
    }
}

/// An element is kept by a filter exactly when it is in the sequence and
/// satisfies the predicate.
proof fn lemma_filter_to_set(s: Seq<ProcView>, pred: spec_fn(ProcView) -> bool)
    ensures
        forall|x: ProcView| #[trigger] s.filter(pred).to_set().contains(x) <==> (
        s.to_set().contains(x) && pred(x)),
{
    broadcast use vstd::seq_lib::group_filter_ensures;
    assert forall|x: ProcView| #[trigger] s.filter(pred).to_set().contains(x) implies (
    s.to_set().contains(x) && pred(x)) by {
        s.lemma_filter_contains_rev(pred, x);
        let k = choose|k: int| 0 <= k < s.filter(pred).len() && s.filter(pred)[k] == x;
        assert(pred(s.filter(pred)[k]));
    }
    assert forall|x: ProcView| s.to_set().contains(x) && pred(x) implies #[trigger] s.filter(
        pred,
    ).to_set().contains(x) by {
        let k = choose|k: int| 0 <= k < s.len() && s[k] == x;
        s.lemma_filter_contains(pred, k);
    }
}

} // verus!
