//! Storage for the wakers of tasks that wait on a shared resource.
//!
//! A resource (a queue, a lock, a channel) has to remember who waits for it
//! and to wake them when it changes. `WakerQueue` is the store: one slot,
//! which holds the waker of the waiter that registered last and wakes a
//! waiter that it has to let go. `SendWakers` and `SyncWakers` put a store
//! where the holders of a shared reference can reach it: the first for one
//! owner at a time, without a lock, the second behind a lock.

pub mod queue;
pub mod send_wakers;
pub mod sync_wakers;
pub mod task;
pub mod wakers;

pub use queue::WakerQueue;
pub use send_wakers::SendWakers;
pub use sync_wakers::{Poisoned, SyncWakers};
pub use wakers::{Wakers, WakersMut, WakersRef};
