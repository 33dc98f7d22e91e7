//! The cache: one shared snapshot, and a fan-out channel that carries the
//! records each refresh adds while anyone is listening.
use vstd::prelude::*;

use tokio::sync::broadcast::{Receiver, Sender};

use crate::channel::{open_channel, receiver_count, send_batch, subscribe_to};
use crate::record::{CollectError, ProcInfo, ProcView};
use crate::snapshot::{is_new_in, views, Snapshot};

verus! {

/// The batch that a refresh from `prior` to `fresh` broadcasts: the records of
/// `fresh` that `prior` does not hold, in the order in which `fresh` holds them.
pub open spec fn delta(prior: Snapshot, fresh: Snapshot) -> Seq<ProcView> {
    fresh.seq().filter(is_new_in(prior@))
}

/// How a refresh that took in `collected` leads from `before` to `after`.
///
/// A failed collection changes nothing. A successful one replaces the
/// snapshot, and either broadcasts nothing (no receiver was alive, or no
/// record is new) or broadcasts the records that the new snapshot adds to
/// the old one.
pub open spec fn refreshed(
    before: CacheInner,
    collected: Result<Snapshot, CollectError>,
    after: CacheInner,
) -> bool {
    match collected {
        Err(_) => after.snapshot() == before.snapshot() && after.sent() == before.sent(),
        Ok(fresh) => {
            &&& after.snapshot() == fresh
            &&& after.sent() == before.sent() || (delta(before.snapshot(), fresh).len() > 0
                && after.sent() == before.sent().push(delta(before.snapshot(), fresh)))
        },
    }
}

/// The current snapshot of the host's processes, and the channel through
/// which live subscribers learn of the records that each refresh adds.
///
/// With no receiver alive, a refresh only replaces the snapshot; with at
/// least one, it also broadcasts the new records. The mode is read from the
/// channel's receiver count at each refresh, never stored.
pub struct CacheInner {
    cache: Snapshot,
    channel: Sender<Vec<ProcInfo>>,
    sent: Ghost<Seq<Seq<ProcView>>>,
}

impl CacheInner {
    /// How many batches the channel keeps for a subscriber that lags.
    pub const CHAN_CAP: usize = 16;

    /// The snapshot that reads return.
    pub closed spec fn snapshot(&self) -> Snapshot {
        self.cache
    }

    /// Every batch handed to the channel so far, oldest first.
    pub closed spec fn sent(&self) -> Seq<Seq<ProcView>> {
        self.sent@
    }

    /// An empty cache whose channel has no subscriber.
    pub fn new() -> (r: CacheInner)
        ensures
            r.snapshot()@ == Set::<ProcView>::empty(),
            r.snapshot().seq() == Seq::<ProcView>::empty(),
            r.sent() == Seq::<Seq<ProcView>>::empty(),
    {
        CacheInner {
            cache: Snapshot::new(),
            channel: open_channel(Self::CHAN_CAP),
            sent: Ghost(Seq::empty()),
        }
    }

    /// The current snapshot. Reading changes nothing, so two reads with no
    /// refresh between them return the same snapshot.
    pub fn get(&self) -> (r: &Snapshot)
        ensures
            *r == self.snapshot(),
    {
        &self.cache
    }

    /// A new subscription: a receiver of the batches broadcast after this
    /// call. While it is alive, refreshes run in streaming mode.
    pub fn subscribe(&self) -> Receiver<Vec<ProcInfo>> {
        subscribe_to(&self.channel)
    }

    /// What a refresh to `fresh` broadcasts when `listeners` receivers are
    /// alive: the records of `fresh` that the current snapshot does not hold.
    /// Nothing is broadcast when no receiver is alive, nor when there is no
    /// such record (records that only disappear are not announced).
    pub fn batch_for(&self, fresh: &Snapshot, listeners: usize) -> (r: Option<Vec<ProcInfo>>)
        ensures
            r is Some <==> listeners > 0 && delta(self.snapshot(), *fresh).len() > 0,
            r matches Some(b) ==> views(b@) == delta(self.snapshot(), *fresh),
            r matches Some(b) ==> views(b@).no_duplicates(),
            r matches Some(b) ==> views(b@).to_set() == fresh@.difference(self.snapshot()@),
    {
        if listeners == 0 {
            return None;
        }
        let added = fresh.difference(&self.cache);
        if added.len() == 0 {
            None
        } else {
            Some(added)
        }
    }

    /// Takes in the result of a collection of the process list.
    ///
    /// On a failed collection the cache is left as it was and the error is
    /// returned. On success the snapshot becomes the collected one; if the
    /// channel has a receiver at that moment, the records that the new
    /// snapshot adds to the old one are broadcast as one batch, unless there
    /// are none. Records that disappear are not announced. A send that finds
    /// no receiver left is not an error.
    pub fn refresh(&mut self, collected: Result<Snapshot, CollectError>) -> (r: Result<
        (),
        CollectError,
    >)
        ensures
            r == match collected {
                Ok(_) => Ok::<(), CollectError>(()),
                Err(e) => Err(e),
            },
            refreshed(*old(self), collected, *final(self)),
            final(self).sent().len() > old(self).sent().len() ==> {
                &&& final(self).sent().last().no_duplicates()
                &&& final(self).sent().last().to_set() == final(self).snapshot()@.difference(
                    old(self).snapshot()@,
                )
            },
    {
        match collected {
            Err(e) => Err(e),
            Ok(fresh) => {
                let listeners = receiver_count(&self.channel);
                let batch = self.batch_for(&fresh, listeners);
                self.cache = fresh;
                if let Some(b) = batch {
                    let ghost bv = views(b@);
                    let _ = send_batch(&self.channel, b);
                    self.sent = Ghost(self.sent@.push(bv));
                }
                Ok(())
            },
        }
    }
}

impl Default for CacheInner {
    /// An empty cache whose channel has no subscriber.
    fn default() -> (r: CacheInner)
        ensures
            r.snapshot()@ == Set::<ProcView>::empty(),
            r.snapshot().seq() == Seq::<ProcView>::empty(),
            r.sent() == Seq::<Seq<ProcView>>::empty(),
    {
        CacheInner::new()
    }
}

} // verus!
