//! The wait/wake core: a typed front to the kernel's futex wait and wake.
use rustix::io::Errno;
use rustix::thread::futex::{Flags, Timespec};
use std::sync::atomic::{AtomicU32, Ordering};
use std::time::Duration;
use vstd::prelude::*;

verus! {

/// The clock a wait's timeout is measured on.
#[derive(Debug, Clone, Copy, PartialEq, Eq)]
pub enum TimeoutMeasure {
    RealTime,
    MonoTime,
}

/// One wait request: sleep on `word` as long as it holds `expected`.
#[derive(Debug, Clone, Copy)]
pub struct FutexWaitContext<'a> {
    pub word: &'a AtomicU32,
    pub expected: u32,
    pub timeout: Option<(Duration, TimeoutMeasure)>,
}

/// How a wait or wake ended when it did not succeed.
#[derive(Debug, Clone, Copy, PartialEq, Eq)]
pub enum FutexError {
    /// The word did not hold the expected value when the wait began.
    WouldBlock,
    /// A signal ended the wait.
    Interrupted,
    /// The timeout elapsed.
    TimedOut,
    /// Any other failure, by its OS error code.
    Os(i32),
}

impl FutexError {
    /// An outcome that a waiter answers by looking at its word again.
    pub open spec fn is_transient(self) -> bool {
        self is WouldBlock || self is Interrupted
    }
}

/// A failure that the primitives do not recover from.
#[derive(Debug, Clone, Copy, PartialEq, Eq)]
pub enum SyncError {
    /// A wait or wake failed for a reason other than a stale word or a signal.
    Futex(FutexError),
    /// A lock word held a value that encodes no state.
    CorruptState(u32),
    /// A count would pass the largest value its word can hold.
    Overflow,
    /// A ring index word held a value outside the ring.
    CorruptIndex(usize),
}

impl SyncError {
    /// Every futex error that reaches a caller as a `SyncError` is a lasting one.
    pub open spec fn is_lasting(self) -> bool {
        self matches SyncError::Futex(e) ==> !e.is_transient()
    }
}

/// Relies on `rustix::thread::futex::wait` (FUTEX_WAIT): it sleeps only while
/// `word` holds `expected`, and reports a stale word, a signal and a timeout by
/// their error codes. A timeout is reported only where one was given;
/// nothing else is promised of which outcome comes.
#[verifier::external_body]
fn sys_futex_wait(
    word: &AtomicU32,
    expected: u32,
    timeout: Option<(Duration, TimeoutMeasure)>,
) -> (r: Result<(), FutexError>)
    ensures
        r matches Err(FutexError::TimedOut) ==> timeout is Some,
{
    let flags = match timeout {
        Some((_, TimeoutMeasure::RealTime)) => Flags::CLOCK_REALTIME,
        _ => Flags::empty(),
    };
    let ts = timeout.map(|(d, _)| Timespec { tv_sec: d.as_secs() as i64, tv_nsec: d.subsec_nanos() as i64 });
    match rustix::thread::futex::wait(word, flags, expected, ts) {
        Ok(()) => Ok(()),
        Err(Errno::AGAIN) => Err(FutexError::WouldBlock),
        Err(Errno::INTR) => Err(FutexError::Interrupted),
        Err(Errno::TIMEDOUT) => Err(FutexError::TimedOut),
        Err(e) => Err(FutexError::Os(e.raw_os_error())),
    }
}

/// The most sleepers a kernel wake asked for `count` may wake: a count of
/// zero still wakes one.
pub open spec fn wake_bound(count: u32) -> u32 {
    if count == 0 {
        1
    } else {
        count
    }
}

/// Relies on `rustix::thread::futex::wake` (FUTEX_WAKE), which hands `count`
/// to the kernel unchanged: it wakes at most `count` of the threads asleep on
/// `word` (one, for a count of zero) and returns how many it woke.
#[verifier::external_body]
fn sys_futex_wake(word: &AtomicU32, count: u32) -> (r: Result<usize, FutexError>)
    ensures
        r is Ok ==> r->Ok_0 <= wake_bound(count),
        r is Err ==> r->Err_0 is Os,
{
    match rustix::thread::futex::wake(word, Flags::empty(), count) {
        Ok(n) => Ok(n),
        Err(e) => Err(FutexError::Os(e.raw_os_error())),
    }
}

/// Sleeps on `cx.word` while it holds `cx.expected`, until a wake, the
/// timeout or a signal. A stale word gives `WouldBlock` at once; a return of
/// `Ok` may be spurious. A wait without a timeout never times out.
pub fn futex_wait(cx: FutexWaitContext<'_>) -> (r: Result<(), FutexError>)
    ensures
        r matches Err(FutexError::TimedOut) ==> cx.timeout is Some,
{
    sys_futex_wait(cx.word, cx.expected, cx.timeout)
}

/// What one wait amounted to, once the word was read again.
#[derive(Debug, Clone, Copy, PartialEq, Eq)]
pub enum WaitRound {
    /// The word no longer holds the expected value.
    Changed,
    /// The wait returned but the word still holds the expected value, or a
    /// signal cut the wait short: wait again.
    Spurious,
}

/// How a wait that ended in `outcome`, after which the word read `now`, is
/// judged when the waiter expected `expected`.
pub open spec fn wait_verdict(outcome: Result<(), FutexError>, now: u32, expected: u32) -> Result<
    WaitRound,
    FutexError,
> {
    match outcome {
        Ok(()) => if now == expected {
            Ok(WaitRound::Spurious)
        } else {
            Ok(WaitRound::Changed)
        },
        Err(FutexError::Interrupted) => Ok(WaitRound::Spurious),
        Err(e) => Err(e),
    }
}

/// Judges a finished wait: a return with the word unchanged and a signal are
/// spurious, a return with the word changed is genuine, any other error is
/// handed on.
pub fn judge_wait(outcome: Result<(), FutexError>, now: u32, expected: u32) -> (r: Result<
    WaitRound,
    FutexError,
>)
    ensures
        r == wait_verdict(outcome, now, expected),
{
    match outcome {
        Ok(()) => if now == expected {
            Ok(WaitRound::Spurious)
        } else {
            Ok(WaitRound::Changed)
        },
        Err(FutexError::Interrupted) => Ok(WaitRound::Spurious),
        Err(e) => Err(e),
    }
}

/// One round of a retrying wait: waits once, then reads the word again and
/// judges the round. A caller that repeats it until `Changed` or an error has
/// a wait that absorbs signals and spurious wakes.
pub fn futex_wait_round(cx: FutexWaitContext<'_>) -> (r: Result<WaitRound, FutexError>)
    ensures
        r is Err ==> !(r->Err_0 is Interrupted),
{
    let outcome = futex_wait(cx);
    let now = cx.word.load(Ordering::Relaxed);
    judge_wait(outcome, now, cx.expected)
}

/// How a busy waiter judges a round: a stale word, too, means "wait again".
pub open spec fn busy_verdict(round: Result<WaitRound, FutexError>) -> Result<WaitRound, FutexError> {
    match round {
        Err(FutexError::WouldBlock) => Ok(WaitRound::Spurious),
        other => other,
    }
}

pub fn judge_busy(round: Result<WaitRound, FutexError>) -> (r: Result<WaitRound, FutexError>)
    ensures
        r == busy_verdict(round),
{
    match round {
        Err(FutexError::WouldBlock) => Ok(WaitRound::Spurious),
        other => other,
    }
}

/// One round of a busy wait: as `futex_wait_round`, but a stale word is
/// answered by another round instead of an error.
pub fn busy_futex_wait_round(cx: FutexWaitContext<'_>) -> (r: Result<WaitRound, FutexError>)
    ensures
        r is Err ==> !r->Err_0.is_transient(),
{
    judge_busy(futex_wait_round(cx))
}

/// Whether a release must wake: always where sleepers are not counted,
/// else only where the count is above zero.
pub open spec fn must_wake(sleepers: Option<usize>) -> bool {
    sleepers is None || sleepers->Some_0 > 0
}

pub fn wake_needed(sleepers: Option<usize>) -> (r: bool)
    ensures
        r == must_wake(sleepers),
{
    match sleepers {
        None => true,
        Some(n) => n > 0,
    }
}

/// What a single wait means to a caller that checks its own state after
/// every wait: a stale word and a signal are as good as a wake.
pub open spec fn settled(outcome: Result<(), FutexError>) -> Result<(), SyncError> {
    match outcome {
        Err(e) => if e.is_transient() {
            Ok(())
        } else {
            Err(SyncError::Futex(e))
        },
        Ok(()) => Ok(()),
    }
}

/// Settles a single wait for such a caller: `Ok` unless the wait failed for
/// good.
pub fn settle(outcome: Result<(), FutexError>) -> (r: Result<(), SyncError>)
    ensures
        r == settled(outcome),
        r.is_err() ==> r->Err_0.is_lasting(),
{
    match outcome {
        Err(FutexError::WouldBlock) | Err(FutexError::Interrupted) | Ok(()) => Ok(()),
        Err(e) => Err(SyncError::Futex(e)),
    }
}

/// The largest count a wake request can carry: the largest positive `i32`.
pub const U31_MAX: u32 = 0x7fff_ffff;

/// An unsigned count that fits in 31 bits, so that the kernel reads it as a
/// positive `i32`.
#[derive(Debug, Clone, Copy, PartialEq, Eq, PartialOrd, Ord, Hash)]
pub struct U31(u32);

impl U31 {
    /// The count held.
    pub closed spec fn value(self) -> u32 {
        self.0
    }

    #[verifier::type_invariant]
    closed spec fn fits(self) -> bool {
        self.0 <= U31_MAX
    }

    /// Accepts every count up to `U31_MAX` and refuses every larger one.
    pub fn new(v: u32) -> (r: Option<U31>)
        ensures
            r is Some <==> v <= U31_MAX,
            r is Some ==> r->Some_0.value() == v,
    {
        if v > U31_MAX {
            return None;
        }
        Some(U31(v))
    }

    pub fn get(&self) -> (r: u32)
        ensures
            r == self.value(),
            r <= U31_MAX,
    {
        proof {
            use_type_invariant(self);
        }
        self.0
    }
}

/// Which sleepers a wake request addresses.
#[derive(Debug, Clone, Copy)]
pub enum WakeWaiters {
    Amount(U31),
    All,
}

/// The largest number of sleepers a wake request may wake.
pub open spec fn wake_limit(w: WakeWaiters) -> u32 {
    match w {
        WakeWaiters::Amount(n) => n.value(),
        WakeWaiters::All => U31_MAX,
    }
}

/// Wakes up to the requested number of sleepers on `word` and returns how
/// many it woke. The kernel's wake is a full barrier: what was written before
/// it is seen by the threads it wakes.
pub fn futex_wake(word: &AtomicU32, waiters: WakeWaiters) -> (r: Result<usize, FutexError>)
    ensures
        r is Ok ==> r->Ok_0 <= wake_bound(wake_limit(waiters)),
        r is Err ==> r->Err_0 is Os,
{
    let count = match waiters {
        WakeWaiters::Amount(n) => n.get(),
        WakeWaiters::All => U31_MAX,
    };
    sys_futex_wake(word, count)
}

/// Wakes one sleeper on `word`, for a caller that counts only lasting
/// failures.
pub fn wake_one(word: &AtomicU32) -> (r: Result<(), SyncError>)
    ensures
        r.is_err() ==> r->Err_0.is_lasting() && r->Err_0 is Futex,
{
    match futex_wake(word, WakeWaiters::Amount(U31(1))) {
        Ok(_) => Ok(()),
        Err(e) => Err(SyncError::Futex(e)),
    }
}

} // verus!
