//! Filtered search over a snapshot.
use vstd::prelude::*;

use crate::record::{ProcInfo, ProcView};
use crate::snapshot::{views, Snapshot};

verus! {

/// A search request: each field that is set must match the record's field
/// exactly; a field that is unset matches anything.
pub struct SearchQuery {
    pub pid: Option<u32>,
    pub uid: Option<u32>,
    pub name: Option<String>,
    pub username: Option<String>,
}

/// Why a search was refused.
#[derive(Debug, Clone, Copy, PartialEq, Eq, Structural)]
pub enum SearchError {
    /// No field of the request is set: it would match every record.
    Unfiltered,
}

impl SearchQuery {
    /// Whether no field of the request is set.
    pub open spec fn unfiltered(&self) -> bool {
        &&& self.pid is None
        &&& self.uid is None
        &&& self.name is None
        &&& self.username is None
    }

    /// Whether a record satisfies every field that is set.
    pub open spec fn accepts(&self, p: ProcView) -> bool {
        &&& (self.pid matches Some(pid) ==> pid == p.pid)
        &&& (self.uid matches Some(uid) ==> uid == p.uid)
        &&& (self.name matches Some(name) ==> name@ == p.name)
        &&& (self.username matches Some(username) ==> username@ == p.username)
    }

    /// The predicate of the request, as a function on records.
    pub open spec fn filter_fn(&self) -> spec_fn(ProcView) -> bool {
        |p: ProcView| self.accepts(p)
    }

    /// Whether no field of the request is set.
    pub fn is_unfiltered(&self) -> (r: bool)
        ensures
            r == self.unfiltered(),
    {
        self.pid.is_none() && self.uid.is_none() && self.name.is_none() && self.username.is_none()
    }

    /// Whether `p` satisfies every field that is set.
    pub fn matches(&self, p: &ProcInfo) -> (r: bool)
        ensures
            r == self.accepts(p@),
    {
        let pid_ok = match self.pid {
            Some(pid) => pid == p.pid,
            None => true,
        };
        let uid_ok = match self.uid {
            Some(uid) => uid == p.uid,
            None => true,
        };
        let name_ok = match &self.name {
            Some(name) => *name == p.name,
            None => true,
        };
        let username_ok = match &self.username {
            Some(username) => *username == p.username,
            None => true,
        };
        pid_ok && uid_ok && name_ok && username_ok
    }
}

/// The records of `snapshot` that satisfy `query`, in the snapshot's order.
/// A request with no field set is refused whatever the snapshot holds.
pub fn search_procs(query: &SearchQuery, snapshot: &Snapshot) -> (r: Result<
    Vec<ProcInfo>,
    SearchError,
>)
    ensures
        query.unfiltered() <==> r is Err,
        r matches Err(e) ==> e == SearchError::Unfiltered,
        r matches Ok(found) ==> views(found@) == snapshot.seq().filter(query.filter_fn()),
{
    if query.is_unfiltered() {
        return Err(SearchError::Unfiltered);
    }
    let records = snapshot.records();
    let mut found: Vec<ProcInfo> = Vec::new();
    let ghost pred = query.filter_fn();
    let mut i: usize = 0;
    while i < records.len()
        invariant
            i <= records.len(),
            views(records@) == snapshot.seq(),
            pred == query.filter_fn(),
            views(found@) == snapshot.seq().take(i as int).filter(pred),
        decreases records.len() - i,
    {
        let keep = query.matches(&records[i]);
        proof {
            let s = snapshot.seq().take(i + 1);
            assert(s.drop_last() =~= snapshot.seq().take(i as int));
            assert(s.last() == records@[i as int]@);
            reveal(Seq::filter);
        }
        if keep {
            let p = records[i].clone();
            let ghost before = found@;
            found.push(p);
            proof {
                assert(views(found@) =~= views(before).push(p@));
            }
        }
        i += 1;
    }
    assert(snapshot.seq().take(records.len() as int) =~= snapshot.seq());
    Ok(found)
}

} // verus!
