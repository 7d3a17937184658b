use futex::wait_wake::{judge_busy, judge_wait, settle, wake_needed, U31_MAX};
use futex::{
    busy_futex_wait_round, futex_wait, futex_wait_round, futex_wake, FutexError, FutexWaitContext, SyncError, TimeoutMeasure,
    WaitRound, WakeWaiters, U31,
};
use std::sync::atomic::AtomicU32;
use std::time::Duration;

#[test]
fn test_wait_would_block() {
    let word = AtomicU32::new(0);
    let Err(e) = futex_wait(FutexWaitContext {
        word: &word,
        expected: 1,
        timeout: None,
    }) else {
        panic!();
    };
    assert!(matches!(e, FutexError::WouldBlock));
}

#[test]
fn wait_times_out_on_an_unchanged_word() {
    let word = AtomicU32::new(7);
    let r = futex_wait(FutexWaitContext {
        word: &word,
        expected: 7,
        timeout: Some((Duration::from_millis(20), TimeoutMeasure::MonoTime)),
    });
    assert_eq!(r, Err(FutexError::TimedOut));
}

#[test]
fn wait_round_hands_on_a_stale_word() {
    let word = AtomicU32::new(3);
    let cx = FutexWaitContext {
        word: &word,
        expected: 4,
        timeout: None,
    };
    assert_eq!(futex_wait_round(cx), Err(FutexError::WouldBlock));
}

#[test]
fn wake_with_no_sleepers_wakes_none() {
    let word = AtomicU32::new(0);
    assert_eq!(futex_wake(&word, WakeWaiters::Amount(U31::new(1).unwrap())), Ok(0));
    assert_eq!(futex_wake(&word, WakeWaiters::All), Ok(0));
}

#[test]
fn judge_wait_tells_genuine_from_spurious() {
    assert_eq!(judge_wait(Ok(()), 5, 5), Ok(WaitRound::Spurious));
    assert_eq!(judge_wait(Ok(()), 6, 5), Ok(WaitRound::Changed));
    assert_eq!(judge_wait(Err(FutexError::Interrupted), 5, 5), Ok(WaitRound::Spurious));
    assert_eq!(judge_wait(Err(FutexError::WouldBlock), 6, 5), Err(FutexError::WouldBlock));
    assert_eq!(judge_wait(Err(FutexError::TimedOut), 5, 5), Err(FutexError::TimedOut));
    assert_eq!(judge_wait(Err(FutexError::Os(22)), 5, 5), Err(FutexError::Os(22)));
}

#[test]
fn settle_absorbs_only_transient_outcomes() {
    assert_eq!(settle(Ok(())), Ok(()));
    assert_eq!(settle(Err(FutexError::WouldBlock)), Ok(()));
    assert_eq!(settle(Err(FutexError::Interrupted)), Ok(()));
    assert_eq!(settle(Err(FutexError::TimedOut)), Err(SyncError::Futex(FutexError::TimedOut)));
    assert_eq!(settle(Err(FutexError::Os(14))), Err(SyncError::Futex(FutexError::Os(14))));
}

#[test]
fn u31_accepts_exactly_the_positive_i32_range() {
    assert_eq!(U31::new(0).map(|n| n.get()), Some(0));
    assert_eq!(U31::new(1).map(|n| n.get()), Some(1));
    assert_eq!(U31::new(i32::MAX as u32).map(|n| n.get()), Some(i32::MAX as u32));
    assert_eq!(U31_MAX, i32::MAX as u32);
    assert!(U31::new(i32::MAX as u32 + 1).is_none());
    assert!(U31::new(u32::MAX).is_none());
}

#[test]
fn busy_round_answers_a_stale_word_with_another_round() {
    let word = AtomicU32::new(3);
    let cx = FutexWaitContext {
        word: &word,
        expected: 4,
        timeout: None,
    };
    assert_eq!(busy_futex_wait_round(cx), Ok(WaitRound::Spurious));
}

#[test]
fn judge_busy_turns_only_a_stale_word_into_a_retry() {
    assert_eq!(judge_busy(Err(FutexError::WouldBlock)), Ok(WaitRound::Spurious));
    assert_eq!(judge_busy(Ok(WaitRound::Changed)), Ok(WaitRound::Changed));
    assert_eq!(judge_busy(Ok(WaitRound::Spurious)), Ok(WaitRound::Spurious));
    assert_eq!(judge_busy(Err(FutexError::TimedOut)), Err(FutexError::TimedOut));
    assert_eq!(judge_busy(Err(FutexError::Os(1))), Err(FutexError::Os(1)));
}

#[test]
fn wake_needed_skips_only_counted_absence() {
    assert!(wake_needed(None));
    assert!(wake_needed(Some(1)));
    assert!(wake_needed(Some(usize::MAX)));
    assert!(!wake_needed(Some(0)));
}

#[test]
fn wake_of_zero_with_no_sleepers_wakes_none() {
    let word = AtomicU32::new(0);
    assert_eq!(futex_wake(&word, WakeWaiters::Amount(U31::new(0).unwrap())), Ok(0));
}
