//! The lock word: a futex word that is either unlocked or locked, with an
//! optional count of sleepers used only to skip needless wakes.
use crate::wait_wake::{futex_wait, settle, wake_needed, wake_one, FutexWaitContext, SyncError};
use std::sync::atomic::{AtomicU32, AtomicUsize, Ordering};
use vstd::prelude::*;

verus! {

/// The encoding of `State::Unlocked`.
pub const UNLOCKED: u32 = 0;

/// The encoding of `State::Locked`.
pub const LOCKED: u32 = 1;

/// How many compare-exchange attempts a lock round makes before it gives up
/// or sleeps, unless the caller names another number.
pub const SPINS: usize = 128;

/// The states of a lock word.
#[derive(Debug, Clone, Copy, PartialEq, Eq)]
pub enum State {
    Unlocked,
    Locked,
}

impl State {
    /// The word that encodes the state.
    pub open spec fn encode(self) -> u32 {
        match self {
            State::Unlocked => UNLOCKED,
            State::Locked => LOCKED,
        }
    }

    /// The state a word encodes, if any.
    pub open spec fn decode(w: u32) -> Option<State> {
        if w == UNLOCKED {
            Some(State::Unlocked)
        } else if w == LOCKED {
            Some(State::Locked)
        } else {
            None
        }
    }

    pub fn word(self) -> (r: u32)
        ensures
            r == self.encode(),
    {
        match self {
            State::Unlocked => UNLOCKED,
            State::Locked => LOCKED,
        }
    }

    /// Reads a word; any value but the two encodings is corruption.
    pub fn from_word(w: u32) -> (r: Option<State>)
        ensures
            r == State::decode(w),
    {
        if w == UNLOCKED {
            Some(State::Unlocked)
        } else if w == LOCKED {
            Some(State::Locked)
        } else {
            None
        }
    }
}

/// Whether a lock round may sleep when the word stays locked.
#[derive(Debug, Clone, Copy, PartialEq, Eq)]
pub enum LockBlocking {
    Blocking,
    Nonblocking,
}

/// What one lock round achieved.
#[derive(Debug, Clone, Copy, PartialEq, Eq)]
pub enum LockAttempt {
    /// This round moved the word from unlocked to locked: the caller holds
    /// the lock.
    Acquired,
    /// Every attempt found the word locked and the round may not sleep.
    Contended,
    /// Every attempt found the word locked; the round slept once and woke.
    /// The lock is not held: run another round.
    Woken,
}

/// A failure that names a word which decodes to no state.
pub open spec fn names_corrupt_word(e: SyncError) -> bool {
    e matches SyncError::CorruptState(w) ==> State::decode(w) is None
}

/// A fresh lock word, unlocked.
pub fn new_unlocked_futex() -> AtomicU32 {
    AtomicU32::new(State::Unlocked.word())
}

/// Whether the word is locked now; a word that encodes no state is reported
/// as corruption.
pub fn locked(futex: &AtomicU32) -> (r: Result<bool, SyncError>)
    ensures
        r is Err ==> r->Err_0 is CorruptState && names_corrupt_word(r->Err_0),
{
    let w = futex.load(Ordering::Relaxed);
    match State::from_word(w) {
        Some(State::Locked) => Ok(true),
        Some(State::Unlocked) => Ok(false),
        None => Err(SyncError::CorruptState(w)),
    }
}

/// Relies on `std::hint::spin_loop`: a hint to the processor, with no effect
/// on any value.
#[verifier::external_body]
fn spin_hint() {
    std::hint::spin_loop()
}

/// One round of taking the lock. It checks that the word encodes a state,
/// then makes up to `spins` acquire-ordered compare-exchange attempts from
/// unlocked to locked (at least one). If all fail, a nonblocking round
/// reports contention; a blocking one counts itself among the sleepers,
/// sleeps once while the word reads locked, and reports that it woke.
pub fn lock_round(
    futex: &AtomicU32,
    waiters: Option<&AtomicUsize>,
    blocking: LockBlocking,
    spins: usize,
) -> (r: Result<LockAttempt, SyncError>)
    ensures
        r matches Ok(LockAttempt::Contended) ==> blocking is Nonblocking,
        r matches Ok(LockAttempt::Woken) ==> blocking is Blocking,
        blocking is Nonblocking ==> r matches Ok(LockAttempt::Acquired) || r matches Ok(
            LockAttempt::Contended,
        ) || (r is Err && r->Err_0 is CorruptState),
        r is Err ==> r->Err_0.is_lasting() && names_corrupt_word(r->Err_0),
        r is Err ==> !(r->Err_0 is Overflow) && !(r->Err_0 is CorruptIndex),
{
    match locked(futex) {
        Err(e) => {
            return Err(e);
        },
        Ok(_) => {},
    }
    let attempts: usize = if spins == 0 {
        1
    } else {
        spins
    };
    let mut i: usize = 0;
    while i < attempts
        invariant
            i <= attempts,
        decreases attempts - i,
    {
        if futex.compare_exchange(UNLOCKED, LOCKED, Ordering::Acquire, Ordering::Relaxed).is_ok() {
            return Ok(LockAttempt::Acquired);
        }
        spin_hint();
        i = i + 1;
    }
    match blocking {
        LockBlocking::Nonblocking => Ok(LockAttempt::Contended),
        LockBlocking::Blocking => {
            if let Some(count) = waiters {
                count.fetch_add(1, Ordering::Relaxed);
            }
            let outcome = futex_wait(FutexWaitContext { word: futex, expected: LOCKED, timeout: None });
            if let Some(count) = waiters {
                count.fetch_sub(1, Ordering::Relaxed);
            }
            match settle(outcome) {
                Ok(()) => Ok(LockAttempt::Woken),
                Err(e) => Err(e),
            }
        },
    }
}

/// Releases the lock: stores unlocked with release ordering, then wakes one
/// sleeper, unless the sleeper count is tracked and reads zero. An unlocked
/// word is left as it is.
pub fn unlock(futex: &AtomicU32, waiters: Option<&AtomicUsize>) -> (r: Result<(), SyncError>)
    ensures
        r is Err ==> r->Err_0.is_lasting() && names_corrupt_word(r->Err_0),
        r is Err ==> r->Err_0 is CorruptState || r->Err_0 is Futex,
{
    match locked(futex) {
        Err(e) => {
            return Err(e);
        },
        Ok(false) => {
            return Ok(());
        },
        Ok(true) => {},
    }
    futex.store(UNLOCKED, Ordering::Release);
    let sleepers = match waiters {
        Some(count) => Some(count.load(Ordering::Relaxed)),
        None => None,
    };
    if !wake_needed(sleepers) {
        return Ok(());
    }
    wake_one(futex)
}

} // verus!
