//! The broadcast channel of tokio, as the cache and the streams use it.
use vstd::prelude::*;

use tokio::sync::broadcast::{Receiver, Sender};

use crate::record::ProcInfo;

verus! {

/// The sending half of a tokio broadcast channel, opaque here.
#[verifier::external_type_specification]
#[verifier::external_body]
#[verifier::reject_recursive_types(T)]
pub struct ExSender<T>(Sender<T>);

/// The receiving half of a tokio broadcast channel, opaque here.
#[verifier::external_type_specification]
#[verifier::external_body]
#[verifier::reject_recursive_types(T)]
pub struct ExReceiver<T>(Receiver<T>);

/// Relies on `broadcast::Sender::new`: a channel with no receiver yet, holding
/// at most `capacity` unread values. It panics on a capacity of zero or above
/// `usize::MAX / 2`.
#[verifier::external_body]
pub(crate) fn open_channel(capacity: usize) -> Sender<Vec<ProcInfo>>
    requires
        0 < capacity <= usize::MAX / 2,
{
    Sender::new(capacity)
}

/// Relies on `broadcast::Sender::receiver_count`: the number of receivers
/// alive at the moment of the call. Other handles change it at any time, so
/// nothing is promised of it.
#[verifier::external_body]
pub(crate) fn receiver_count(tx: &Sender<Vec<ProcInfo>>) -> usize {
    tx.receiver_count()
}

/// Relies on `broadcast::Sender::send`: hands `batch` to every receiver alive
/// now and returns how many there were; with none, the batch is dropped and
/// `None` comes back. It never blocks.
#[verifier::external_body]
pub(crate) fn send_batch(tx: &Sender<Vec<ProcInfo>>, batch: Vec<ProcInfo>) -> (r: Option<usize>)
    ensures
        r matches Some(n) ==> n > 0,
{
    tx.send(batch).ok()
}

/// Relies on `broadcast::Sender::subscribe`: a new receiver that sees the
/// values sent after this call. It panics only once `usize::MAX / 4`
/// receivers are alive at the same time.
#[verifier::external_body]
pub(crate) fn subscribe_to(tx: &Sender<Vec<ProcInfo>>) -> Receiver<Vec<ProcInfo>> {
    tx.subscribe()
}

} // verus!
