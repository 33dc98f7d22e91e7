//! One process record: identity and attributes of a running process.
use vstd::prelude::*;

use crate::snapshot::Snapshot;

verus! {

/// What a record stands for: its four fields as mathematical values.
pub struct ProcView {
    pub pid: u32,
    pub uid: u32,
    pub name: Seq<char>,
    pub username: Seq<char>,
}

/// A process as the cache holds it. Two records are the same record exactly
/// when all four fields agree.
#[derive(Debug, Hash)]
pub struct ProcInfo {
    pub pid: u32,
    pub uid: u32,
    pub name: String,
    pub username: String,
}

impl View for ProcInfo {
    type V = ProcView;

    open spec fn view(&self) -> ProcView {
        ProcView { pid: self.pid, uid: self.uid, name: self.name@, username: self.username@ }
    }
}

impl ProcInfo {
    /// Structural comparison over all four fields.
    pub fn same(&self, other: &ProcInfo) -> (r: bool)
        ensures
            r == (self@ == other@),
    {
        self.pid == other.pid && self.uid == other.uid && self.name == other.name
            && self.username == other.username
    }
}

impl Clone for ProcInfo {
    fn clone(&self) -> (r: Self)
        ensures
            r == *self,
    {
        ProcInfo {
            pid: self.pid,
            uid: self.uid,
            name: self.name.clone(),
            username: self.username.clone(),
        }
    }
}

impl PartialEq for ProcInfo {
    fn eq(&self, other: &ProcInfo) -> (r: bool) {
        self.same(other)
    }
}

impl vstd::std_specs::cmp::PartialEqSpecImpl for ProcInfo {
    open spec fn obeys_eq_spec() -> bool {
        true
    }

    open spec fn eq_spec(&self, other: &ProcInfo) -> bool {
        self@ == other@
    }
}

impl Eq for ProcInfo {
}

/// Why a collection of the process list failed.
#[derive(Debug, Clone, Copy, PartialEq, Eq, Structural)]
pub enum CollectError {
    /// The process has no owning user.
    NoOwner { pid: u32 },
    /// The owning user's name could not be resolved.
    UnknownOwner { pid: u32, uid: u32 },
}

/// A process as the host reports it, before its owner is known for sure:
/// the owning user's id, and that user's name, may be missing.
pub struct RawProc {
    pub pid: u32,
    pub name: String,
    pub uid: Option<u32>,
    pub username: Option<String>,
}

impl RawProc {
    /// Whether the owner and the owner's name are both known.
    pub open spec fn complete(&self) -> bool {
        self.uid is Some && self.username is Some
    }

    /// The record that a complete report stands for.
    pub open spec fn record(&self) -> ProcView {
        ProcView {
            pid: self.pid,
            uid: self.uid->0,
            name: self.name@,
            username: self.username->0@,
        }
    }

    /// The error that an incomplete report gives.
    pub open spec fn failure(&self) -> CollectError {
        if self.uid is None {
            CollectError::NoOwner { pid: self.pid }
        } else {
            CollectError::UnknownOwner { pid: self.pid, uid: self.uid->0 }
        }
    }
}

/// The records that a list of complete reports stands for.
pub open spec fn records_of(rows: Seq<RawProc>) -> Seq<ProcView> {
    rows.map_values(|r: RawProc| r.record())
}

impl ProcInfo {
    /// Builds the snapshot of the processes that the host reported.
    ///
    /// Fails on the first report, in the given order, whose owner or owner's
    /// name is missing; otherwise the snapshot holds one record for each
    /// distinct report.
    pub fn collect_all(rows: &Vec<RawProc>) -> (r: Result<Snapshot, CollectError>)
        ensures
            r is Ok <==> forall|i: int| 0 <= i < rows.len() ==> #[trigger] rows@[i].complete(),
            r matches Ok(s) ==> s@ == records_of(rows@).to_set(),
            r matches Err(e) ==> exists|i: int|
                0 <= i < rows.len() && !#[trigger] rows@[i].complete() && (forall|j: int|
                    0 <= j < i ==> rows@[j].complete()) && e == rows@[i].failure(),
    {
        let mut snapshot = Snapshot::new();
        let mut i: usize = 0;
        while i < rows.len()
            invariant
                i <= rows.len(),
                forall|j: int| 0 <= j < i ==> #[trigger] rows@[j].complete(),
                snapshot@ == records_of(rows@.take(i as int)).to_set(),
            decreases rows.len() - i,
        {
            let row = &rows[i];
            let uid = match row.uid {
                Some(uid) => uid,
                None => {
                    assert(!rows@[i as int].complete());
                    assert(rows@[i as int].failure() == CollectError::NoOwner { pid: row.pid });
                    return Err(CollectError::NoOwner { pid: row.pid });
                },
            };
            let username = match &row.username {
                Some(username) => username.clone(),
                None => {
                    assert(!rows@[i as int].complete());
                    assert(rows@[i as int].failure() == CollectError::UnknownOwner {
                        pid: row.pid,
                        uid,
                    });
                    return Err(CollectError::UnknownOwner { pid: row.pid, uid });
                },
            };
            let p = ProcInfo { pid: row.pid, uid, name: row.name.clone(), username };
            assert(p@ == row.record());
            snapshot.insert(p);
            proof {
                assert(records_of(rows@.take(i + 1)) =~= records_of(rows@.take(i as int)).push(
                    rows@[i as int].record(),
                ));
                records_of(rows@.take(i as int)).lemma_push_to_set_commute(
                    rows@[i as int].record(),
                );
            }
            i += 1;
        }
        assert(rows@.take(rows.len() as int) =~= rows@);
        Ok(snapshot)
    }
}

} // verus!
