use std::sync::atomic::{AtomicUsize, Ordering};
use std::sync::{Arc, PoisonError};
use std::task::{Wake, Waker};
use wakers::sync_wakers::unpoisoned;
use wakers::{Poisoned, SendWakers, SyncWakers, WakerQueue, Wakers, WakersMut, WakersRef};

struct Sleeper {
    woken: AtomicUsize,
}

impl Wake for Sleeper {
    fn wake(self: Arc<Self>) {
        self.woken.fetch_add(1, Ordering::SeqCst);
    }
}

fn sleeper() -> (Arc<Sleeper>, Waker) {
    let sleeper = Arc::new(Sleeper { woken: AtomicUsize::new(0) });
    let waker = Waker::from(sleeper.clone());
    (sleeper, waker)
}

fn wakes(sleeper: &Arc<Sleeper>) -> usize {
    sleeper.woken.load(Ordering::SeqCst)
}

fn register_through(shared: &impl Wakers, waker: &Waker) {
    shared.pend_by_ref(waker);
}

fn fire_through(shared: &impl WakersRef) {
    shared.wake_by_ref();
}

#[test]
fn send_wakers_round_trip_keeps_an_empty_store() {
    let (a, wa) = sleeper();
    let mut slot = SendWakers::new(WakerQueue::new()).into_inner();
    slot.wake();
    slot.pend(&wa);
    assert_eq!(wakes(&a), 0);
}

#[test]
fn send_wakers_round_trip_keeps_the_waiter() {
    let (a, wa) = sleeper();
    let mut slot = WakerQueue::new();
    slot.pend(&wa);
    let mut slot = SendWakers::new(slot).into_inner();
    assert_eq!(wakes(&a), 0);
    slot.pend(&wa);
    assert_eq!(wakes(&a), 0);
    slot.wake();
    assert_eq!(wakes(&a), 1);
    slot.wake();
    assert_eq!(wakes(&a), 1);
}

#[test]
fn send_wakers_registers_and_fires_by_reference() {
    let (a, wa) = sleeper();
    let (b, wb) = sleeper();
    let adapter = SendWakers::new(WakerQueue::new());
    register_through(&adapter, &wa);
    register_through(&adapter, &wa);
    assert_eq!(wakes(&a), 0);
    register_through(&adapter, &wb);
    assert_eq!(wakes(&a), 1);
    assert_eq!(wakes(&b), 0);
    fire_through(&adapter);
    assert_eq!(wakes(&b), 1);
    fire_through(&adapter);
    assert_eq!(wakes(&a), 1);
    assert_eq!(wakes(&b), 1);
}

#[test]
fn send_wakers_shares_one_store_between_both_ways_in() {
    let (a, wa) = sleeper();
    let (b, wb) = sleeper();
    let mut adapter = SendWakers::new(WakerQueue::new());
    adapter.pend(&wa);
    adapter.pend_by_ref(&wb);
    assert_eq!(wakes(&a), 1);
    adapter.get_mut().pend(&wa);
    assert_eq!(wakes(&b), 1);
    adapter.wake_by_ref();
    assert_eq!(wakes(&a), 2);
    adapter.pend_by_ref(&wb);
    adapter.wake();
    assert_eq!(wakes(&b), 2);
    let mut slot = adapter.into_inner();
    slot.wake();
    assert_eq!(wakes(&a), 2);
    assert_eq!(wakes(&b), 2);
}

#[test]
fn send_wakers_gives_back_what_was_registered_by_reference() {
    let (a, wa) = sleeper();
    let adapter = SendWakers::new(WakerQueue::new());
    adapter.pend_by_ref(&wa);
    let mut slot = adapter.into_inner();
    assert_eq!(wakes(&a), 0);
    slot.wake();
    assert_eq!(wakes(&a), 1);
}

#[test]
fn send_wakers_default_is_empty() {
    let (a, wa) = sleeper();
    let adapter: SendWakers<WakerQueue> = SendWakers::default();
    adapter.wake_by_ref();
    adapter.pend_by_ref(&wa);
    assert_eq!(wakes(&a), 0);
    adapter.wake_by_ref();
    assert_eq!(wakes(&a), 1);
}

#[test]
fn send_wakers_nest() {
    let (a, wa) = sleeper();
    let adapter = SendWakers::new(SendWakers::new(WakerQueue::new()));
    adapter.pend_by_ref(&wa);
    adapter.wake_by_ref();
    assert_eq!(wakes(&a), 1);
    adapter.wake_by_ref();
    assert_eq!(wakes(&a), 1);
}

#[test]
fn sync_wakers_round_trip_keeps_an_empty_store() {
    let (a, wa) = sleeper();
    let mut slot = match SyncWakers::new(WakerQueue::new()).into_inner() {
        Ok(slot) => slot,
        Err(Poisoned) => panic!("a fresh lock is not poisoned"),
    };
    slot.wake();
    slot.pend(&wa);
    assert_eq!(wakes(&a), 0);
}

#[test]
fn sync_wakers_round_trip_keeps_the_waiter() {
    let (a, wa) = sleeper();
    let mut slot = WakerQueue::new();
    slot.pend(&wa);
    let mut slot = SyncWakers::new(slot).into_inner().unwrap();
    assert_eq!(wakes(&a), 0);
    slot.pend(&wa);
    assert_eq!(wakes(&a), 0);
    slot.wake();
    assert_eq!(wakes(&a), 1);
    slot.wake();
    assert_eq!(wakes(&a), 1);
}

#[test]
fn sync_wakers_registers_and_fires_by_reference() {
    let (a, wa) = sleeper();
    let (b, wb) = sleeper();
    let adapter = SyncWakers::new(WakerQueue::new());
    register_through(&adapter, &wa);
    register_through(&adapter, &wa);
    assert_eq!(wakes(&a), 0);
    register_through(&adapter, &wb);
    assert_eq!(wakes(&a), 1);
    assert_eq!(wakes(&b), 0);
    fire_through(&adapter);
    assert_eq!(wakes(&b), 1);
    fire_through(&adapter);
    assert_eq!(wakes(&a), 1);
    assert_eq!(wakes(&b), 1);
}

#[test]
fn sync_wakers_shares_one_store_between_both_ways_in() {
    let (a, wa) = sleeper();
    let (b, wb) = sleeper();
    let mut adapter = SyncWakers::new(WakerQueue::new());
    adapter.pend(&wa);
    adapter.pend_by_ref(&wb);
    assert_eq!(wakes(&a), 1);
    adapter.get_mut().unwrap().pend(&wa);
    assert_eq!(wakes(&b), 1);
    adapter.wake_by_ref();
    assert_eq!(wakes(&a), 2);
    adapter.pend_by_ref(&wb);
    adapter.wake();
    assert_eq!(wakes(&b), 2);
    let mut slot = adapter.into_inner().unwrap();
    slot.wake();
    assert_eq!(wakes(&a), 2);
    assert_eq!(wakes(&b), 2);
}

#[test]
fn sync_wakers_gives_back_what_was_registered_by_reference() {
    let (a, wa) = sleeper();
    let adapter = SyncWakers::new(WakerQueue::new());
    adapter.pend_by_ref(&wa);
    let mut slot = adapter.into_inner().unwrap();
    assert_eq!(wakes(&a), 0);
    slot.wake();
    assert_eq!(wakes(&a), 1);
}

#[test]
fn sync_wakers_default_is_empty() {
    let (a, wa) = sleeper();
    let adapter: SyncWakers<WakerQueue> = SyncWakers::default();
    adapter.wake_by_ref();
    adapter.pend_by_ref(&wa);
    assert_eq!(wakes(&a), 0);
    adapter.wake_by_ref();
    assert_eq!(wakes(&a), 1);
}

#[test]
fn sync_wakers_is_shared_through_an_arc() {
    let (a, wa) = sleeper();
    let adapter = Arc::new(SyncWakers::new(WakerQueue::new()));
    let other = adapter.clone();
    other.pend_by_ref(&wa);
    adapter.wake_by_ref();
    assert_eq!(wakes(&a), 1);
    other.wake_by_ref();
    assert_eq!(wakes(&a), 1);
}

#[test]
fn unpoisoned_keeps_the_value() {
    assert_eq!(unpoisoned(Ok(7u32)), Ok(7u32));
    assert_eq!(unpoisoned(Ok("store")), Ok("store"));
}

#[test]
fn unpoisoned_reports_a_poisoned_lock() {
    assert_eq!(unpoisoned(Err(PoisonError::new(7u32))), Err(Poisoned));
}

#[test]
fn adapters_show_their_store() {
    let send = SendWakers::new(WakerQueue::new());
    assert_eq!(format!("{:?}", send), "SendWakers { wakers: RefCell { value: WakerQueue { waker: None } } }");
    let sync = SyncWakers::new(WakerQueue::new());
    assert!(format!("{:?}", sync).contains("WakerQueue { waker: None }"));
}

fn crosses_threads<T: Send>(_: &T) {}

fn is_shared_by_threads<T: Sync>(_: &T) {}

#[test]
fn adapters_may_move_to_another_thread() {
    crosses_threads(&WakerQueue::new());
    crosses_threads(&SendWakers::new(WakerQueue::new()));
    crosses_threads(&SyncWakers::new(WakerQueue::new()));
    is_shared_by_threads(&SyncWakers::new(WakerQueue::new()));
}

#[test]
fn sync_wakers_nest() {
    let (a, wa) = sleeper();
    let adapter = SyncWakers::new(SendWakers::new(WakerQueue::new()));
    adapter.pend_by_ref(&wa);
    adapter.pend_by_ref(&wa);
    assert_eq!(wakes(&a), 0);
    adapter.wake_by_ref();
    assert_eq!(wakes(&a), 1);
    adapter.wake_by_ref();
    assert_eq!(wakes(&a), 1);
}
