use ipc_sem::ops::apply_post;
use ipc_sem::ops::apply_try_wait;
use ipc_sem::ops::apply_wait;
use ipc_sem::ops::op_flags;
use ipc_sem::ops::post_decision;
use ipc_sem::ops::try_wait_decision;
use ipc_sem::ops::wait_decision;
use ipc_sem::ops::PostStep;
use ipc_sem::ops::TryWaitStep;
use ipc_sem::ops::WaitStep;
use ipc_sem::ops::ERRNO_INTR;
use ipc_sem::ops::ERRNO_WOULD_BLOCK;
use ipc_sem::ops::FLAG_NO_WAIT;
use ipc_sem::ops::FLAG_UNDO;

#[test]
fn flags_always_carry_undo() {
    assert_eq!(op_flags(true), FLAG_UNDO);
    assert_eq!(op_flags(false), FLAG_UNDO | FLAG_NO_WAIT);
    assert_eq!(op_flags(true), 4096);
    assert_eq!(op_flags(false), 6144);
}

#[test]
fn wait_retries_on_interrupt() {
    assert_eq!(wait_decision(0, 0), WaitStep::Acquired);
    assert_eq!(wait_decision(-1, ERRNO_INTR), WaitStep::Retry);
    assert_eq!(wait_decision(-1, 22), WaitStep::Fatal { errno: 22 });
}

#[test]
fn try_wait_turns_would_block_into_false() {
    assert_eq!(try_wait_decision(0, 0), TryWaitStep::Acquired);
    assert_eq!(
        try_wait_decision(-1, ERRNO_WOULD_BLOCK),
        TryWaitStep::WouldBlock
    );
    assert_eq!(try_wait_decision(-1, 43), TryWaitStep::Fatal { errno: 43 });
}

#[test]
fn post_failure_is_fatal() {
    assert_eq!(post_decision(0, 0), PostStep::Posted);
    assert_eq!(post_decision(-1, 28), PostStep::Fatal { errno: 28 });
}

#[test]
fn wait_then_post_restores_count() {
    let c = 5;
    assert_eq!(apply_post(apply_wait(c)), c);
}

#[test]
fn try_wait_boundary() {
    assert_eq!(apply_try_wait(0), (false, 0));
    assert_eq!(apply_try_wait(1), (true, 0));
    assert_eq!(apply_try_wait(4), (true, 3));
}

#[test]
fn count_one_then_wait_exhausts() {
    // new("test-sem", 1); wait(); try_wait() -> false
    let c = 1;
    let c = apply_wait(c);
    assert_eq!(apply_try_wait(c), (false, 0));
}

#[test]
fn count_zero_try_wait_fails_immediately() {
    // new("test-sem", 0); try_wait() -> false, without blocking
    assert_eq!(apply_try_wait(0), (false, 0));
}

#[test]
fn shared_count_three_allows_three_waits() {
    // Two handles over one kernel object share one count: three waits
    // succeed in any split between them, the fourth try fails.
    let mut c = 3;
    for _ in 0..3 {
        let (ok, rest) = apply_try_wait(c);
        assert!(ok);
        c = rest;
    }
    assert_eq!(apply_try_wait(c), (false, 0));
}
