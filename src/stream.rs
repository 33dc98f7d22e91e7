//! The live feed of one consumer: the snapshot first, then every batch that
//! the cache broadcasts, until the channel closes.
use vstd::prelude::*;

use tokio::sync::broadcast::Receiver;

use crate::cache::CacheInner;
use crate::record::{ProcInfo, ProcView};
use crate::snapshot::views;

verus! {

/// What one wait on a subscription brought.
pub enum Delivery {
    /// A batch of new records.
    Batch(Vec<ProcInfo>),
    /// The subscriber fell behind and this many batches were lost to it.
    Lagged(u64),
    /// The channel closed: nothing more will come.
    Closed,
}

/// The state of one live feed. It yields the records of the snapshot that
/// was current when it opened, then the records of each delivered batch in
/// delivery order, and stops for good once the channel closes.
pub struct ProcStream {
    ended: bool,
    initial: Ghost<Seq<ProcView>>,
    received: Ghost<Seq<Seq<ProcView>>>,
    yielded: Ghost<Seq<ProcView>>,
}

impl ProcStream {
    #[verifier::type_invariant]
    spec fn yields_in_order(self) -> bool {
        self.yielded@ == self.initial@ + self.received@.flatten()
    }

    /// The records yielded when the feed opened.
    pub closed spec fn initial(&self) -> Seq<ProcView> {
        self.initial@
    }

    /// The batches delivered since the feed opened, in delivery order.
    pub closed spec fn received(&self) -> Seq<Seq<ProcView>> {
        self.received@
    }

    /// Every record yielded so far, in order.
    pub closed spec fn yielded(&self) -> Seq<ProcView> {
        self.yielded@
    }

    /// Whether the feed has stopped.
    pub closed spec fn ended(&self) -> bool {
        self.ended
    }

    /// Opens a feed on `cache`: subscribes first, which puts the cache in
    /// streaming mode, then reads the snapshot. Returns the feed, its
    /// subscription, and the records to yield first.
    pub fn open(cache: &CacheInner) -> (r: (ProcStream, Receiver<Vec<ProcInfo>>, Vec<ProcInfo>))
        ensures
            views(r.2@) == cache.snapshot().seq(),
            views(r.2@).no_duplicates(),
            views(r.2@).to_set() == cache.snapshot()@,
            r.0.initial() == views(r.2@),
            r.0.received() == Seq::<Seq<ProcView>>::empty(),
            r.0.yielded() == views(r.2@),
            !r.0.ended(),
    {
        let rx = cache.subscribe();
        let held = cache.get().records();
        let first = held.clone();
        proof {
            assert(views(first@) =~= views(held@));
            assert(Seq::<Seq<ProcView>>::empty().flatten() =~= Seq::<ProcView>::empty());
            assert(views(first@) + Seq::<ProcView>::empty() =~= views(first@));
        }
        let stream = ProcStream {
            ended: false,
            initial: Ghost(views(first@)),
            received: Ghost(Seq::empty()),
            yielded: Ghost(views(first@)),
        };
        (stream, rx, first)
    }

    /// Whether the feed has stopped.
    pub fn is_ended(&self) -> (r: bool)
        ensures
            r == self.ended(),
    {
        self.ended
    }

    /// Takes in what one wait on the subscription brought, and returns the
    /// records to yield next, or `None` once the feed has stopped.
    ///
    /// A batch is yielded whole. A lag yields nothing and the feed goes on
    /// past the lost batches. A closed channel stops the feed.
    pub fn deliver(&mut self, d: Delivery) -> (r: Option<Vec<ProcInfo>>)
        ensures
            final(self).initial() == old(self).initial(),
            final(self).yielded() == final(self).initial() + final(self).received().flatten(),
            old(self).ended() ==> r is None && *final(self) == *old(self),
            !old(self).ended() ==> match d {
                Delivery::Batch(b) => {
                    &&& r == Some(b)
                    &&& final(self).received() == old(self).received().push(views(b@))
                    &&& final(self).yielded() == old(self).yielded() + views(b@)
                    &&& !final(self).ended()
                },
                Delivery::Lagged(_) => {
                    &&& r matches Some(none) && none@.len() == 0
                    &&& *final(self) == *old(self)
                },
                Delivery::Closed => {
                    &&& r is None
                    &&& final(self).received() == old(self).received()
                    &&& final(self).yielded() == old(self).yielded()
                    &&& final(self).ended()
                },
            },
    {
        proof {
            use_type_invariant(&*self);
        }
        if self.ended {
            return None;
        }
        match d {
            Delivery::Batch(b) => {
                let ghost bv = views(b@);
                proof {
                    self.received@.lemma_flatten_push(bv);
                    assert(self.initial@ + self.received@.push(bv).flatten() =~= self.yielded@
                        + bv);
                }
                *self = ProcStream {
                    ended: false,
                    initial: Ghost(self.initial@),
                    received: Ghost(self.received@.push(bv)),
                    yielded: Ghost(self.yielded@ + bv),
                };
                Some(b)
            },
            Delivery::Lagged(_) => Some(Vec::new()),
            Delivery::Closed => {
                self.ended = true;
                None
            },
        }
    }
}

} // verus!
