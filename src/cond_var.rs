//! A condition variable: a generation counter that notifiers bump and
//! waiters sleep on, and a count of waiters that lets a notifier with no
//! audience skip the wake.
use crate::mutex::unlock;
use crate::wait_wake::{
    futex_wait, futex_wake, settle, wake_needed, wake_one, FutexWaitContext, SyncError, WakeWaiters,
};
use std::sync::atomic::{AtomicU32, AtomicUsize, Ordering};
use vstd::prelude::*;

verus! {

#[derive(Debug)]
pub struct CondVar {
    counter: AtomicU32,
    waiters: AtomicUsize,
}

impl CondVar {
    pub fn new() -> CondVar {
        CondVar { counter: AtomicU32::new(0), waiters: AtomicUsize::new(0) }
    }

    /// Releases the lock held on `futex` and sleeps until a notify that comes
    /// after the release. The generation is read before the lock is
    /// released, so a notify made after the release is never missed. The
    /// return may be spurious, and the lock is not held on return: the
    /// caller takes it again and checks its own condition.
    ///
    /// The sleeper count on `futex` is the mutex's own, passed through to
    /// its unlock.
    pub fn wait(&self, futex: &AtomicU32, mutex_waiters: Option<&AtomicUsize>) -> (r: Result<
        (),
        SyncError,
    >)
        ensures
            r is Err ==> r->Err_0.is_lasting(),
            r is Err ==> r->Err_0 is CorruptState || r->Err_0 is Futex,
    {
        self.waiters.fetch_add(1, Ordering::Relaxed);
        let generation = self.counter.load(Ordering::Relaxed);
        let r = match unlock(futex, mutex_waiters) {
            Ok(()) => settle(
                futex_wait(FutexWaitContext { word: &self.counter, expected: generation, timeout: None }),
            ),
            Err(e) => Err(e),
        };
        self.waiters.fetch_sub(1, Ordering::Relaxed);
        r
    }

    /// Wakes one waiter, if any is counted. The counter is bumped with relaxed
    /// ordering: the wake that follows is a full barrier.
    pub fn notify_one(&self) -> (r: Result<(), SyncError>)
        ensures
            r is Err ==> r->Err_0.is_lasting() && r->Err_0 is Futex,
    {
        if !wake_needed(Some(self.waiters.load(Ordering::Relaxed))) {
            return Ok(());
        }
        self.counter.fetch_add(1, Ordering::Relaxed);
        wake_one(&self.counter)
    }

    /// Wakes every waiter, if any is counted.
    pub fn notify_all(&self) -> (r: Result<(), SyncError>)
        ensures
            r is Err ==> r->Err_0.is_lasting() && r->Err_0 is Futex,
    {
        if !wake_needed(Some(self.waiters.load(Ordering::Relaxed))) {
            return Ok(());
        }
        self.counter.fetch_add(1, Ordering::Relaxed);
        match futex_wake(&self.counter, WakeWaiters::All) {
            Ok(_) => Ok(()),
            Err(e) => Err(SyncError::Futex(e)),
        }
    }
}

} // verus!
