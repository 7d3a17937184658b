//! Synchronisation primitives built on the futex wait/wake pair: a wait and
//! wake core, a two-state lock word, a condition variable, a counting
//! semaphore and the index protocol of a multi-writer, single-reader ring
//! buffer.
//!
//! Each blocking operation is offered as a round: it makes one attempt and,
//! where it cannot finish, sleeps at most once on a futex word before it
//! returns and says so. The caller runs rounds until one reports completion.
pub mod cond_var;
pub mod mutex;
pub mod ring_buffer;
pub mod semaphore;
pub mod wait_wake;

pub use cond_var::CondVar;
pub use mutex::{lock_round, new_unlocked_futex, unlock, LockAttempt, LockBlocking, State};
pub use ring_buffer::{CellValue, ReadPlan, ReadStep, RingBuffer, WriteTarget};
pub use semaphore::Semaphore;
pub use wait_wake::{
    busy_futex_wait_round, futex_wait, futex_wait_round, futex_wake, FutexError, FutexWaitContext, SyncError, TimeoutMeasure,
    WaitRound, WakeWaiters, U31,
};
