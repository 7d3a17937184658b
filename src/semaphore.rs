//! A counting semaphore on a futex word: the word is the count, which never
//! falls below zero.
use crate::wait_wake::{futex_wait, settle, wake_needed, wake_one, FutexWaitContext, SyncError};
use std::sync::atomic::{AtomicU32, AtomicUsize, Ordering};
use vstd::prelude::*;

verus! {

/// A change of the count by one.
#[derive(Debug, Clone, Copy, PartialEq, Eq)]
pub enum CountStep {
    /// A signal: one more token.
    Up,
    /// A wait: one token taken.
    Down,
}

/// The count after a step from `v`, or `None` where the step is not
/// allowed: no token to take, or no room for one more.
pub open spec fn stepped(v: u32, step: CountStep) -> Option<u32> {
    match step {
        CountStep::Up => if v < u32::MAX {
            Some((v + 1) as u32)
        } else {
            None
        },
        CountStep::Down => if v > 0 {
            Some((v - 1) as u32)
        } else {
            None
        },
    }
}

/// The count after `n` takes in a row from `v`, or `None` once one of them
/// finds no token.
pub open spec fn takes(v: u32, n: nat) -> Option<u32>
    decreases n,
{
    if n == 0 {
        Some(v)
    } else {
        match takes(v, (n - 1) as nat) {
            Some(c) => stepped(c, CountStep::Down),
            None => None,
        }
    }
}

proof fn lemma_takes_below(v: u32, n: nat)
    requires
        n <= v,
    ensures
        takes(v, n) == Some((v - n) as u32),
    decreases n,
{
    if n > 0 {
        lemma_takes_below(v, (n - 1) as nat);
    }
}

/// A semaphore made with `k` tokens lets exactly `k` takes in a row pass, and
/// the next one finds none; a signal then adds the one token that lets one
/// more take pass.
pub proof fn lemma_k_takes_pass(k: u32)
    ensures
        takes(k, k as nat) == Some(0u32),
        takes(k, k as nat + 1) is None,
        stepped(0, CountStep::Up) == Some(1u32),
        takes(1, 1) == Some(0u32),
{
    lemma_takes_below(k, k as nat);
    lemma_takes_below(1, 1);
}

pub fn step_count(v: u32, step: CountStep) -> (r: Option<u32>)
    ensures
        r == stepped(v, step),
{
    match step {
        CountStep::Up => v.checked_add(1),
        CountStep::Down => if v > 0 {
            Some(v - 1)
        } else {
            None
        },
    }
}

/// Relies on `AtomicU32::fetch_update`: it applies the step atomically when
/// `step_count` allows it and returns the count it replaced as `Ok`, or
/// returns the count it found as `Err` when `step_count` refused it.
#[verifier::external_body]
fn fetch_update_count(value: &AtomicU32, step: CountStep, order: Ordering) -> (r: Result<u32, u32>)
    ensures
        r is Ok ==> stepped(r->Ok_0, step) is Some,
        r is Err ==> stepped(r->Err_0, step) is None,
{
    value.fetch_update(order, Ordering::Relaxed, |v| step_count(v, step))
}

/// A semaphore is an integer whose value is never allowed to fall below zero.
#[derive(Debug)]
pub struct Semaphore {
    value: AtomicU32,
    waiters: Option<AtomicUsize>,
}

impl Semaphore {
    /// Whether the semaphore counts its sleepers; one that does not makes a
    /// wake call on every signal.
    pub closed spec fn counts_sleepers(&self) -> bool {
        self.waiters is Some
    }

    /// A semaphore that counts its sleepers, so that a signal with no one
    /// asleep makes no wake call.
    ///
    /// The caller must make sure that no waiter stops abnormally between
    /// counting itself in and out (a panic in a critical section): the count
    /// would stay too high, and later signals would make wake calls that wake
    /// no one.
    pub fn new_panic_unsafe(value: u32) -> (r: Semaphore)
        ensures
            r.counts_sleepers(),
    {
        Semaphore { value: AtomicU32::new(value), waiters: Some(AtomicUsize::new(0)) }
    }

    /// A semaphore that does not count its sleepers: each signal makes a wake
    /// call.
    pub fn new(value: u32) -> (r: Semaphore)
        ensures
            !r.counts_sleepers(),
    {
        Semaphore { value: AtomicU32::new(value), waiters: None }
    }

    /// Takes a token if there is one, without sleeping; returns whether it
    /// took one.
    pub fn try_wait(&self) -> (r: bool) {
        fetch_update_count(&self.value, CountStep::Down, Ordering::Acquire).is_ok()
    }

    /// One round of a wait: takes a token if there is one and returns `true`;
    /// otherwise sleeps once while the count reads zero and returns `false`,
    /// for the caller to run another round.
    pub fn wait_round(&self) -> (r: Result<bool, SyncError>)
        ensures
            r is Err ==> r->Err_0.is_lasting() && r->Err_0 is Futex,
    {
        if self.try_wait() {
            return Ok(true);
        }
        match &self.waiters {
            Some(count) => {
                count.fetch_add(1, Ordering::Relaxed);
            },
            None => {},
        }
        let outcome = futex_wait(FutexWaitContext { word: &self.value, expected: 0, timeout: None });
        match &self.waiters {
            Some(count) => {
                count.fetch_sub(1, Ordering::Relaxed);
            },
            None => {},
        }
        match settle(outcome) {
            Ok(()) => Ok(false),
            Err(e) => Err(e),
        }
    }

    /// Adds a token with release ordering, then wakes one sleeper, unless the
    /// sleepers are counted and none is. A count already at `u32::MAX` is not
    /// changed, and the signal fails with `Overflow`.
    pub fn signal(&self) -> (r: Result<(), SyncError>)
        ensures
            r is Err ==> r->Err_0.is_lasting(),
            r is Err ==> r->Err_0 is Overflow || r->Err_0 is Futex,
    {
        match fetch_update_count(&self.value, CountStep::Up, Ordering::Release) {
            Err(_) => {
                return Err(SyncError::Overflow);
            },
            Ok(_) => {},
        }
        let sleepers = match &self.waiters {
            Some(count) => Some(count.load(Ordering::Relaxed)),
            None => None,
        };
        if !wake_needed(sleepers) {
            return Ok(());
        }
        wake_one(&self.value)
    }
}

} // verus!
