use proc_api::cache::CacheInner;
use proc_api::record::ProcInfo;
use proc_api::snapshot::Snapshot;
use proc_api::stream::{Delivery, ProcStream};
use tokio::sync::broadcast::error::TryRecvError;

fn proc(pid: u32, uid: u32, name: &str, username: &str) -> ProcInfo {
    ProcInfo { pid, uid, name: name.to_string(), username: username.to_string() }
}

fn p1() -> ProcInfo {
    proc(1, 0, "init", "root")
}

fn p2() -> ProcInfo {
    proc(2, 1000, "bash", "alice")
}

fn refresh(cache: &mut CacheInner, records: Vec<ProcInfo>) {
    cache.refresh(Ok(Snapshot::from_records(&records))).unwrap();
}

fn next(feed: &mut ProcStream, rx: &mut tokio::sync::broadcast::Receiver<Vec<ProcInfo>>) -> Option<Vec<ProcInfo>> {
    match rx.try_recv() {
        Ok(batch) => feed.deliver(Delivery::Batch(batch)),
        Err(TryRecvError::Lagged(n)) => feed.deliver(Delivery::Lagged(n)),
        Err(TryRecvError::Closed) => feed.deliver(Delivery::Closed),
        Err(TryRecvError::Empty) => None,
    }
}

#[test]
fn test_stream_procs_empty() {
    let cache = CacheInner::default();
    let (mut feed, mut rx, first) = ProcStream::open(&cache);
    assert!(first.is_empty());
    assert_eq!(next(&mut feed, &mut rx), None);
    assert!(!feed.is_ended());
}

#[test]
fn test_stream_procs_refreshed_after() {
    let mut cache = CacheInner::default();
    let (mut feed, mut rx, first) = ProcStream::open(&cache);
    assert!(first.is_empty());
    refresh(&mut cache, vec![p1(), p2()]);
    assert_eq!(next(&mut feed, &mut rx), Some(vec![p1(), p2()]));
}

#[test]
fn test_stream_procs_refreshed_first() {
    let mut cache = CacheInner::default();
    refresh(&mut cache, vec![p1(), p2()]);
    let (mut feed, mut rx, first) = ProcStream::open(&cache);
    assert_eq!(first, vec![p1(), p2()]);
    assert_eq!(cache.get().len(), 2);
    assert_eq!(next(&mut feed, &mut rx), None);
}

#[test]
fn test_stream_procs_refreshed_first_and_after() {
    let mut cache = CacheInner::default();
    refresh(&mut cache, vec![p1()]);
    let (mut feed, mut rx, first) = ProcStream::open(&cache);
    assert_eq!(first, vec![p1()]);
    refresh(&mut cache, vec![p1(), p2()]);
    assert_eq!(next(&mut feed, &mut rx), Some(vec![p2()]));
}

#[test]
fn test_stream_procs_close_refreshed_after() {
    let mut cache = CacheInner::default();
    let (mut feed, mut rx, _) = ProcStream::open(&cache);
    refresh(&mut cache, vec![p1()]);
    assert_eq!(next(&mut feed, &mut rx), Some(vec![p1()]));
    drop(rx);
    refresh(&mut cache, vec![p1(), p2()]);
    assert_eq!(cache.get().len(), 2);
    let mut late = cache.subscribe();
    assert_eq!(late.try_recv(), Err(TryRecvError::Empty));
}

#[test]
fn test_stream_procs_close_reopen_refreshed() {
    let mut cache = CacheInner::default();
    for round in 0..3u32 {
        let (mut feed, mut rx, _) = ProcStream::open(&cache);
        let added = proc(10 + round, 0, "worker", "root");
        let mut records = cache.get().records().clone();
        records.push(added.clone());
        refresh(&mut cache, records);
        assert_eq!(next(&mut feed, &mut rx), Some(vec![added]));
        drop(rx);
        let same = cache.get().records().clone();
        refresh(&mut cache, same);
        let (_, _, replay) = ProcStream::open(&cache);
        assert_eq!(replay.len() as u32, round + 1);
    }
}

#[test]
fn feed_yields_each_batch_in_order() {
    let mut cache = CacheInner::new();
    let (mut feed, mut rx, first) = ProcStream::open(&cache);
    assert!(first.is_empty());
    refresh(&mut cache, vec![p1()]);
    refresh(&mut cache, vec![p1(), p2()]);
    assert_eq!(next(&mut feed, &mut rx), Some(vec![p1()]));
    assert_eq!(next(&mut feed, &mut rx), Some(vec![p2()]));
    assert_eq!(next(&mut feed, &mut rx), None);
}

#[test]
fn feed_survives_lag_and_stops_on_close() {
    let mut feed = ProcStream::open(&CacheInner::new()).0;
    assert_eq!(feed.deliver(Delivery::Lagged(3)), Some(vec![]));
    assert!(!feed.is_ended());
    assert_eq!(feed.deliver(Delivery::Batch(vec![p1()])), Some(vec![p1()]));
    assert_eq!(feed.deliver(Delivery::Closed), None);
    assert!(feed.is_ended());
    assert_eq!(feed.deliver(Delivery::Batch(vec![p2()])), None);
}

#[test]
fn lagging_subscriber_is_told_of_the_gap() {
    let mut cache = CacheInner::new();
    let (mut feed, mut rx, _) = ProcStream::open(&cache);
    for pid in 0..(CacheInner::CHAN_CAP as u32 + 4) {
        let mut records = cache.get().records().clone();
        records.push(proc(100 + pid, 0, "job", "root"));
        refresh(&mut cache, records);
    }
    assert_eq!(next(&mut feed, &mut rx), Some(vec![]));
    assert!(!feed.is_ended());
    assert_eq!(next(&mut feed, &mut rx), Some(vec![proc(104, 0, "job", "root")]));
}

#[test]
fn feed_yields_nothing_for_vanished_record() {
    let mut cache = CacheInner::new();
    refresh(&mut cache, vec![p1()]);
    let (mut feed, mut rx, first) = ProcStream::open(&cache);
    assert_eq!(first, vec![p1()]);
    refresh(&mut cache, vec![]);
    assert_eq!(next(&mut feed, &mut rx), None);
    assert!(!feed.is_ended());
    assert!(cache.get().is_empty());
}
