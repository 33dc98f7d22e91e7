//! Properties that hold across several operations of the cache and the feed.
use vstd::prelude::*;

use crate::cache::{refreshed, CacheInner};
use crate::record::CollectError;
use crate::snapshot::Snapshot;
use crate::stream::ProcStream;

verus! {

/// The snapshot that a run of refreshes leaves behind: the last collection
/// that succeeded, or `start` when none did.
pub open spec fn last_collected(start: Snapshot, results: Seq<Result<Snapshot, CollectError>>) -> Snapshot
    decreases results.len(),
{
    if results.len() == 0 {
        start
    } else {
        match results.last() {
            Ok(fresh) => fresh,
            Err(_) => last_collected(start, results.drop_last()),
        }
    }
}

/// After any run of refreshes, a read returns exactly what the last
/// successful collection returned; failed collections leave no trace. The
/// subscribers do not matter to it.
///
/// `states[i + 1]` is the cache after the refresh that took in `results[i]`
/// from `states[i]`.
pub proof fn lemma_read_after_refreshes(
    states: Seq<CacheInner>,
    results: Seq<Result<Snapshot, CollectError>>,
)
    requires
        states.len() == results.len() + 1,
        forall|i: int|
            0 <= i < results.len() ==> refreshed(
                #[trigger] states[i],
                results[i],
                states[i + 1],
            ),
    ensures
        states.last().snapshot() == last_collected(states[0].snapshot(), results),
        states.last().snapshot()@ == last_collected(states[0].snapshot(), results)@,
    decreases results.len(),
{
    if results.len() > 0 {
        let n = results.len() - 1;
        assert(refreshed(states[n], results[n], states[n + 1]));
        lemma_read_after_refreshes(states.drop_last(), results.drop_last());
        assert(states.drop_last().last() == states[n]);
    }
}

/// Reading twice with no refresh between the reads gives the same snapshot,
/// record for record.
pub proof fn lemma_reads_agree(cache: CacheInner, first: Snapshot, second: Snapshot)
    requires
        first == cache.snapshot(),
        second == cache.snapshot(),
    ensures
        first == second,
        first@ == second@,
        first.seq() == second.seq(),
{
}

/// A feed yields the snapshot it opened on first, each record once, and then
/// the records of the delivered batches, batch after batch in delivery order.
pub proof fn lemma_feed_order(feed: ProcStream, opened_on: Snapshot)
    requires
        feed.yielded() == feed.initial() + feed.received().flatten(),
        feed.initial() == opened_on.seq(),
        opened_on.seq().no_duplicates(),
    ensures
        feed.yielded().take(opened_on.seq().len() as int) == opened_on.seq(),
        feed.yielded().take(opened_on.seq().len() as int).no_duplicates(),
        feed.yielded().take(opened_on.seq().len() as int).to_set() == opened_on@,
        feed.yielded().skip(opened_on.seq().len() as int) == feed.received().flatten(),
{
    let n = opened_on.seq().len() as int;
    assert(feed.yielded().take(n) =~= opened_on.seq());
    assert(feed.yielded().skip(n) =~= feed.received().flatten());
}

} // verus!
