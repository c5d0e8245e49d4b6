//! Wait, try-wait and post: the decision logic and the observable count.
//!
//! The kernel performs the atomic decrement and increment; this module fixes
//! what each outcome means. A blocking decrement retries transparently when a
//! signal interrupts it; a non-blocking decrement turns the would-block error
//! into a plain `false`; every other failure of a live handle is a defect the
//! caller must treat as fatal, never as a recoverable result.

use vstd::prelude::*;

verus! {

/// Error number the host reports when a signal interrupted a blocking call
/// (`EINTR` on Linux).
pub const ERRNO_INTR: i32 = 4;

/// Error number the host reports when a non-blocking decrement found the
/// count at zero (`EAGAIN` on Linux).
pub const ERRNO_WOULD_BLOCK: i32 = 11;

/// Operation flag: the kernel reverses the operation if the process exits
/// abnormally (`SEM_UNDO` on Linux). Every decrement and increment carries
/// it; automatic cleanup is the reason this backend was chosen.
pub const FLAG_UNDO: i16 = 4096;

/// Operation flag: fail with the would-block error instead of blocking
/// (`IPC_NOWAIT` on Linux).
pub const FLAG_NO_WAIT: i16 = 2048;

/// The flags a decrement or increment must carry: always undo-on-exit, and
/// the no-wait flag exactly when the caller refuses to block.
pub open spec fn spec_op_flags(block: bool) -> i16 {
    if block {
        FLAG_UNDO
    } else {
        FLAG_UNDO | FLAG_NO_WAIT
    }
}

/// The flags for one semaphore operation.
pub fn op_flags(block: bool) -> (f: i16)
    ensures
        f == spec_op_flags(block),
{
    if block {
        FLAG_UNDO
    } else {
        FLAG_UNDO | FLAG_NO_WAIT
    }
}

/// What the outcome of a blocking decrement means.
#[derive(Clone, Copy, PartialEq, Eq, Structural, Debug)]
pub enum WaitStep {
    /// The decrement completed: the count was positive and is one less.
    Acquired,
    /// A signal interrupted the call; retry it, invisibly to the caller.
    Retry,
    /// An unexpected failure: the caller must abort, not return an error.
    Fatal { errno: i32 },
}

/// Decide what a blocking decrement's outcome means. `ret` is the host
/// call's return value, zero on success; `errno` its error number otherwise.
pub fn wait_decision(ret: i32, errno: i32) -> (d: WaitStep)
    ensures
        ret == 0 ==> d == WaitStep::Acquired,
        ret != 0 && errno == ERRNO_INTR ==> d == WaitStep::Retry,
        ret != 0 && errno != ERRNO_INTR ==> d == (WaitStep::Fatal { errno }),
{
    if ret == 0 {
        WaitStep::Acquired
    } else if errno == ERRNO_INTR {
        WaitStep::Retry
    } else {
        WaitStep::Fatal { errno }
    }
}

/// What the outcome of a non-blocking decrement means.
#[derive(Clone, Copy, PartialEq, Eq, Structural, Debug)]
pub enum TryWaitStep {
    /// The decrement completed: the count was positive and is one less.
    Acquired,
    /// The count was zero; nothing changed.
    WouldBlock,
    /// An unexpected failure: the caller must abort, not return an error.
    Fatal { errno: i32 },
}

/// Decide what a non-blocking decrement's outcome means.
pub fn try_wait_decision(ret: i32, errno: i32) -> (d: TryWaitStep)
    ensures
        ret == 0 ==> d == TryWaitStep::Acquired,
        ret != 0 && errno == ERRNO_WOULD_BLOCK ==> d == TryWaitStep::WouldBlock,
        ret != 0 && errno != ERRNO_WOULD_BLOCK ==> d == (TryWaitStep::Fatal { errno }),
{
    if ret == 0 {
        TryWaitStep::Acquired
    } else if errno == ERRNO_WOULD_BLOCK {
        TryWaitStep::WouldBlock
    } else {
        TryWaitStep::Fatal { errno }
    }
}

/// What the outcome of an increment means.
#[derive(Clone, Copy, PartialEq, Eq, Structural, Debug)]
pub enum PostStep {
    /// The increment completed; at most one blocked waiter wakes.
    Posted,
    /// An unexpected failure: the caller must abort, not return an error.
    Fatal { errno: i32 },
}

/// Decide what an increment's outcome means.
pub fn post_decision(ret: i32, errno: i32) -> (d: PostStep)
    ensures
        ret == 0 ==> d == PostStep::Posted,
        ret != 0 ==> d == (PostStep::Fatal { errno }),
{
    if ret == 0 {
        PostStep::Posted
    } else {
        PostStep::Fatal { errno }
    }
}

/// The observable count after a post: one more.
pub open spec fn count_after_post(c: nat) -> nat {
    c + 1
}

/// The observable count after a completed wait: one less. A wait completes
/// only at a positive count; at zero it blocks instead of returning.
pub open spec fn count_after_wait(c: nat) -> nat
    recommends
        c > 0,
{
    (c - 1) as nat
}

/// Whether a non-blocking decrement succeeds at count `c`.
pub open spec fn try_wait_succeeds(c: nat) -> bool {
    c > 0
}

/// The observable count after a try-wait: one less on success, unchanged
/// on failure.
pub open spec fn count_after_try_wait(c: nat) -> nat {
    if c > 0 {
        (c - 1) as nat
    } else {
        c
    }
}

/// The observable count after adding `k` in one atomic signal call, as the
/// create-or-join initializer does.
pub open spec fn count_after_add(c: nat, k: nat) -> nat {
    c + k
}

/// Apply a post to an observed count.
pub fn apply_post(c: u64) -> (r: u64)
    requires
        c < u64::MAX,
    ensures
        r == count_after_post(c as nat),
{
    c + 1
}

/// Apply a completed wait to an observed positive count.
pub fn apply_wait(c: u64) -> (r: u64)
    requires
        c > 0,
    ensures
        r == count_after_wait(c as nat),
{
    c - 1
}

/// Law: a completed wait followed at once by a post leaves the observable
/// count exactly where it stood before the pair.
pub proof fn lemma_wait_post_round_trip(c: nat)
    requires
        c > 0,
    ensures
        count_after_post(count_after_wait(c)) == c,
{
}

/// Law: a try-wait at count zero fails and leaves the count at zero; at a
/// positive count it succeeds and decrements by exactly one.
pub proof fn lemma_try_wait_boundary(c: nat)
    ensures
        c == 0 ==> !try_wait_succeeds(c) && count_after_try_wait(c) == 0,
        c > 0 ==> try_wait_succeeds(c) && count_after_try_wait(c) == c - 1,
{
}

/// Apply a try-wait to an observed count: whether it succeeded, and the
/// count afterwards.
pub fn apply_try_wait(c: u64) -> (r: (bool, u64))
    ensures
        r.0 == try_wait_succeeds(c as nat),
        r.1 == count_after_try_wait(c as nat),
{
    if c > 0 {
        (true, c - 1)
    } else {
        (false, c)
    }
}

} // verus!
