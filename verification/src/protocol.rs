//! The create-or-join protocol for the process-table semaphore backend.
//!
//! Kernel-set allocation and initialization are two separate calls, so any
//! number of racing constructions must agree on one initializer. The only
//! designation mechanism available is the exclusive-create race: the winner
//! zeroes the raw value and then adds the initial count through the normal
//! signal primitive (only that primitive updates the last-operation time that
//! everyone else polls as the initialization marker); every loser reopens the
//! existing set and polls the marker under a bounded attempt budget.
//!
//! The machine here holds that whole decision logic: an unverified driver
//! performs each requested kernel call and feeds the outcome back as an
//! [`Event`]. The driver decides nothing on its own.

use vstd::prelude::*;

verus! {

/// Error number the host reports when an excluded object already exists
/// (`EEXIST` on Linux).
pub const ERRNO_EXIST: i32 = 17;

/// How many metadata reads a joiner may spend waiting for the creator to
/// finish initialization before it reports a timeout.
pub const POLL_ATTEMPTS: u32 = 1000;

/// Why a construction failed.
#[derive(Clone, Copy, PartialEq, Eq, Structural, Debug)]
pub enum CreateError {
    /// The host reported an unexpected error; its raw error number is kept.
    Os { errno: i32 },
    /// The joiner exhausted its polling budget before the creator finished
    /// initializing the set.
    TimedOut,
}

/// The kernel call the driver must perform next.
#[derive(Clone, Copy, PartialEq, Eq, Structural, Debug)]
pub enum Action {
    /// Allocate a one-element set for the derived key, demanding that none
    /// exists yet (create and exclusive flags together).
    ExclusiveCreate,
    /// Force the element's raw value to zero with a direct set operation.
    SetBaseline { semid: i32 },
    /// Add the initial count through the normal signal primitive, never by a
    /// second raw set: only the signal primitive updates the marker.
    AddInitial { semid: i32, count: u16 },
    /// Destroy the half-initialized set the caller allocated.
    Destroy { semid: i32 },
    /// Open the existing set for the derived key, without creating.
    OpenExisting,
    /// Read the set's metadata and report whether the initialization marker
    /// (its last-operation time) is nonzero.
    ReadMarker { semid: i32 },
}

/// What the requested kernel call reported back.
#[derive(Clone, Copy, PartialEq, Eq, Structural, Debug)]
pub enum Event {
    /// Exclusive creation succeeded: the caller won the race.
    Created { semid: i32 },
    /// Exclusive creation failed with the given error number.
    CreateFailed { errno: i32 },
    /// A set, signal or destroy call succeeded.
    Completed,
    /// A set, signal, destroy, open or metadata call failed.
    CallFailed { errno: i32 },
    /// Reopening the existing set succeeded.
    Opened { semid: i32 },
    /// The metadata read found the initialization marker nonzero.
    MarkerSet,
    /// The metadata read found the initialization marker still zero.
    MarkerClear,
}

/// Where a construction stands between kernel calls.
#[derive(Clone, Copy, PartialEq, Eq, Structural, Debug)]
pub enum Phase {
    /// Nothing attempted yet.
    Start,
    /// Won the race; the raw value must be zeroed next.
    Zeroing { semid: i32 },
    /// Baseline set; the initial count must be added next.
    Adding { semid: i32 },
    /// Initialization failed; the set must be destroyed before the error
    /// that caused the failure is reported.
    RollingBack { semid: i32, errno: i32 },
    /// Lost the race; the existing set must be opened.
    Opening,
    /// Joined the existing set; polling the initialization marker.
    Polling { semid: i32, attempts_left: u32 },
    /// Construction succeeded: the set is initialized and usable.
    Ready { semid: i32 },
    /// Construction failed.
    Failed { err: CreateError },
}

/// Whether a phase is terminal: no further kernel call is requested.
pub open spec fn phase_is_terminal(p: Phase) -> bool {
    p matches Phase::Ready { .. } || p matches Phase::Failed { .. }
}

/// Whether every poll budget in `p` is within the fixed attempt budget.
/// `begin` establishes it and `step` preserves it: a joiner can never hold
/// more attempts than the budget grants, nor poll with none left.
pub open spec fn phase_wf(p: Phase) -> bool {
    match p {
        Phase::Polling { semid, attempts_left } => 1 <= attempts_left <= POLL_ATTEMPTS,
        _ => true,
    }
}

/// The kernel call pending in phase `p`, for a construction that requests
/// initial count `count`; `None` in the terminal phases.
pub open spec fn phase_action(p: Phase, count: u16) -> Option<Action> {
    match p {
        Phase::Start => Some(Action::ExclusiveCreate),
        Phase::Zeroing { semid } => Some(Action::SetBaseline { semid }),
        Phase::Adding { semid } => Some(Action::AddInitial { semid, count }),
        Phase::RollingBack { semid, errno } => Some(Action::Destroy { semid }),
        Phase::Opening => Some(Action::OpenExisting),
        Phase::Polling { semid, attempts_left } => Some(Action::ReadMarker { semid }),
        Phase::Ready { .. } => None,
        Phase::Failed { .. } => None,
    }
}

/// The events that can answer the pending call of phase `p`.
pub open spec fn event_answers(p: Phase, ev: Event) -> bool {
    match p {
        Phase::Start => ev matches Event::Created { .. } || ev matches Event::CreateFailed {
            ..
        },
        Phase::Zeroing { .. } => ev matches Event::Completed || ev matches Event::CallFailed {
            ..
        },
        Phase::Adding { .. } => ev matches Event::Completed || ev matches Event::CallFailed {
            ..
        },
        Phase::RollingBack { .. } => ev matches Event::Completed || ev matches Event::CallFailed {
            ..
        },
        Phase::Opening => ev matches Event::Opened { .. } || ev matches Event::CallFailed { .. },
        Phase::Polling { .. } => ev matches Event::MarkerSet || ev matches Event::MarkerClear
            || ev matches Event::CallFailed { .. },
        Phase::Ready { .. } => false,
        Phase::Failed { .. } => false,
    }
}

/// The transition relation of the create-or-join protocol. An event that
/// cannot answer the pending call leaves the phase unchanged.
pub open spec fn spec_step(p: Phase, ev: Event) -> Phase {
    match (p, ev) {
        (Phase::Start, Event::Created { semid }) => Phase::Zeroing { semid },
        (Phase::Start, Event::CreateFailed { errno }) => if errno == ERRNO_EXIST {
            Phase::Opening
        } else {
            Phase::Failed { err: CreateError::Os { errno } }
        },
        (Phase::Zeroing { semid }, Event::Completed) => Phase::Adding { semid },
        (Phase::Zeroing { semid }, Event::CallFailed { errno }) => Phase::RollingBack {
            semid,
            errno,
        },
        (Phase::Adding { semid }, Event::Completed) => Phase::Ready { semid },
        (Phase::Adding { semid }, Event::CallFailed { errno }) => Phase::RollingBack {
            semid,
            errno,
        },
        // The destroy call's own outcome is ignored: the error that caused
        // the rollback is what gets reported.
        (Phase::RollingBack { semid, errno }, Event::Completed) => Phase::Failed {
            err: CreateError::Os { errno },
        },
        (Phase::RollingBack { semid, errno }, Event::CallFailed { .. }) => Phase::Failed {
            err: CreateError::Os { errno },
        },
        (Phase::Opening, Event::Opened { semid }) => Phase::Polling {
            semid,
            attempts_left: POLL_ATTEMPTS,
        },
        (Phase::Opening, Event::CallFailed { errno }) => Phase::Failed {
            err: CreateError::Os { errno },
        },
        (Phase::Polling { semid, .. }, Event::MarkerSet) => Phase::Ready { semid },
        (Phase::Polling { semid, attempts_left }, Event::MarkerClear) => if attempts_left <= 1 {
            Phase::Failed { err: CreateError::TimedOut }
        } else {
            Phase::Polling { semid, attempts_left: (attempts_left - 1) as u32 }
        },
        (Phase::Polling { .. }, Event::CallFailed { errno }) => Phase::Failed {
            err: CreateError::Os { errno },
        },
        (_, _) => p,
    }
}

/// The phase after `k` consecutive marker reads that all found the marker
/// still clear.
pub open spec fn after_clear_reads(p: Phase, k: nat) -> Phase
    decreases k,
{
    if k == 0 {
        p
    } else {
        after_clear_reads(spec_step(p, Event::MarkerClear), (k - 1) as nat)
    }
}

/// Law: while its budget lasts, a joiner that keeps finding the marker
/// clear just keeps polling, one attempt fewer each time; it neither gives
/// up early nor claims readiness.
pub proof fn lemma_poll_counts_down(semid: i32, attempts: u32, k: nat)
    requires
        k < attempts,
    ensures
        after_clear_reads(Phase::Polling { semid, attempts_left: attempts }, k) == (Phase::Polling {
            semid,
            attempts_left: (attempts - k) as u32,
        }),
    decreases k,
{
    if k > 0 {
        lemma_poll_counts_down(semid, (attempts - 1) as u32, (k - 1) as nat);
    }
}

/// Law: polling is bounded. A joiner that never observes the marker set
/// exhausts its whole attempt budget and then fails with the timeout
/// error — it does not hang, and it does not report success.
pub proof fn lemma_poll_budget_times_out(semid: i32, attempts: u32)
    requires
        attempts >= 1,
    ensures
        after_clear_reads(Phase::Polling { semid, attempts_left: attempts }, attempts as nat) == (
        Phase::Failed { err: CreateError::TimedOut }),
{
    lemma_poll_counts_down(semid, attempts, (attempts - 1) as nat);
    let last = Phase::Polling { semid, attempts_left: 1u32 };
    let q = spec_step(last, Event::MarkerClear);
    assert(q == (Phase::Failed { err: CreateError::TimedOut }));
    assert(after_clear_reads(q, 0) == q);
    assert(after_clear_reads(last, 1) == q);
    lemma_clear_reads_add(
        Phase::Polling { semid, attempts_left: attempts },
        (attempts - 1) as nat,
        1,
    );
}

/// Splitting a run of still-clear reads: `j + k` reads are `j` reads
/// followed by `k` more.
pub proof fn lemma_clear_reads_add(p: Phase, j: nat, k: nat)
    ensures
        after_clear_reads(p, j + k) == after_clear_reads(after_clear_reads(p, j), k),
    decreases j,
{
    if j > 0 {
        lemma_clear_reads_add(spec_step(p, Event::MarkerClear), (j - 1) as nat, k);
    }
}

/// Law: the exclusive-create race designates the caller's path. Winning
/// makes it the initializer; losing to an existing set makes it a joiner;
/// losing for any other reason ends the construction with that error.
pub proof fn lemma_race_designates_path(semid: i32, errno: i32)
    ensures
        spec_step(Phase::Start, Event::Created { semid }) == (Phase::Zeroing { semid }),
        errno == ERRNO_EXIST ==> spec_step(Phase::Start, Event::CreateFailed { errno })
            == Phase::Opening,
        errno != ERRNO_EXIST ==> spec_step(Phase::Start, Event::CreateFailed { errno }) == (
        Phase::Failed { err: CreateError::Os { errno } }),
{
}

/// Law: the winner initializes in exactly two steps — zero the raw value
/// by a direct set, then add the requested count through the signal
/// primitive — and the count it leaves behind is exactly the one requested.
pub proof fn lemma_winner_initializes(semid: i32, count: u16)
    ensures
        phase_action(Phase::Start, count) == Some(Action::ExclusiveCreate),
        spec_step(Phase::Start, Event::Created { semid }) == (Phase::Zeroing { semid }),
        phase_action(Phase::Zeroing { semid }, count) == Some(Action::SetBaseline { semid }),
        spec_step(Phase::Zeroing { semid }, Event::Completed) == (Phase::Adding { semid }),
        phase_action(Phase::Adding { semid }, count) == Some(Action::AddInitial { semid, count }),
        spec_step(Phase::Adding { semid }, Event::Completed) == (Phase::Ready { semid }),
        crate::ops::count_after_add(0, count as nat) == count as nat,
{
}

/// Law: the only ways into `Ready` are the initializer completing its
/// count-adding step and a joiner observing the marker set; no phase
/// reaches readiness otherwise.
pub proof fn lemma_ready_paths(p: Phase, ev: Event, semid: i32)
    requires
        !phase_is_terminal(p),
        spec_step(p, ev) == (Phase::Ready { semid }),
    ensures
        (p == (Phase::Adding { semid }) && ev == Event::Completed) || (ev == Event::MarkerSet
            && exists|a: u32| p == (Phase::Polling { semid, attempts_left: a })),
{
    match p {
        Phase::Polling { semid: s, attempts_left } => {
            assert(p == (Phase::Polling { semid: s, attempts_left }));
        },
        _ => {},
    }
}

/// Law: a creator that fails during initialization destroys its set before
/// reporting. Every initialization failure passes through the rollback
/// phase, whose pending call is the destroy, and whatever the destroy
/// itself reports, the error surfaced is the one that caused the rollback —
/// no half-initialized set is left behind for joiners to poll forever.
pub proof fn lemma_rollback_before_report(semid: i32, errno: i32, count: u16, ev: Event)
    ensures
        spec_step(Phase::Zeroing { semid }, Event::CallFailed { errno }) == (Phase::RollingBack {
            semid,
            errno,
        }),
        spec_step(Phase::Adding { semid }, Event::CallFailed { errno }) == (Phase::RollingBack {
            semid,
            errno,
        }),
        phase_action(Phase::RollingBack { semid, errno }, count) == Some(
            Action::Destroy { semid },
        ),
        event_answers(Phase::RollingBack { semid, errno }, ev) ==> spec_step(
            Phase::RollingBack { semid, errno },
            ev,
        ) == (Phase::Failed { err: CreateError::Os { errno } }),
{
}

/// Law: the only way into the initializer's phases is winning the race and
/// completing each step in order, and the only way into the joiner's
/// phases is losing the race to an existing set; the two paths never mix.
pub proof fn lemma_phase_inversion(p: Phase, ev: Event, semid: i32, attempts: u32)
    requires
        !phase_is_terminal(p),
        phase_wf(p),
        event_answers(p, ev),
    ensures
        spec_step(p, ev) == (Phase::Zeroing { semid }) ==> p == Phase::Start && ev == (
        Event::Created { semid }),
        spec_step(p, ev) == (Phase::Adding { semid }) ==> p == (Phase::Zeroing { semid }) && ev
            == Event::Completed,
        spec_step(p, ev) == Phase::Opening ==> p == Phase::Start && ev == (Event::CreateFailed {
            errno: ERRNO_EXIST,
        }),
        spec_step(p, ev) == (Phase::Polling { semid, attempts_left: attempts }) ==> (p
            == Phase::Opening && ev == (Event::Opened { semid }) && attempts == POLL_ATTEMPTS) || (
        p == (Phase::Polling { semid, attempts_left: (attempts + 1) as u32 }) && ev
            == Event::MarkerClear && attempts < POLL_ATTEMPTS),
{
}

/// Law: the step relation keeps the poll budget within range: a joiner
/// never holds more attempts than the budget grants, nor polls with none
/// left.
pub proof fn lemma_step_preserves_wf(p: Phase, ev: Event)
    requires
        phase_wf(p),
    ensures
        phase_wf(spec_step(p, ev)),
{
}

/// The phases only an initializer — a process whose exclusive create
/// succeeded — ever occupies.
pub open spec fn initializer_phase(p: Phase) -> bool {
    p matches Phase::Zeroing { .. } || p matches Phase::Adding { .. } || p
        matches Phase::RollingBack { .. }
}

/// The phases only a joiner — a process that lost the race — ever occupies.
pub open spec fn joiner_phase(p: Phase) -> bool {
    p matches Phase::Opening || p matches Phase::Polling { .. }
}

/// The phase after the machine hears the events of `evs`, in order.
pub open spec fn run(p: Phase, evs: Seq<Event>) -> Phase
    decreases evs.len(),
{
    if evs.len() == 0 {
        p
    } else {
        run(spec_step(p, evs[0]), evs.drop_first())
    }
}

proof fn lemma_no_created_stays_off_initializer_path(p: Phase, evs: Seq<Event>)
    requires
        !initializer_phase(p),
        forall|i: int|
            0 <= i < evs.len() ==> !((#[trigger] evs[i]) matches Event::Created { .. }),
    ensures
        !initializer_phase(run(p, evs)),
    decreases evs.len(),
{
    if evs.len() > 0 {
        let q = spec_step(p, evs[0]);
        assert(!initializer_phase(q));
        lemma_no_created_stays_off_initializer_path(q, evs.drop_first());
    }
}

proof fn lemma_off_start_stays_off_joiner_path(p: Phase, evs: Seq<Event>)
    requires
        !joiner_phase(p),
        p != Phase::Start,
    ensures
        !joiner_phase(run(p, evs)),
        run(p, evs) != Phase::Start,
    decreases evs.len(),
{
    if evs.len() > 0 {
        let q = spec_step(p, evs[0]);
        assert(!joiner_phase(q) && q != Phase::Start);
        lemma_off_start_stays_off_joiner_path(q, evs.drop_first());
    }
}

/// Law: the race designation is permanent, one way. A construction that
/// never hears "created exclusively" never executes any step of the
/// initializer path, however its other calls turn out.
pub proof fn lemma_only_winner_initializes(evs: Seq<Event>)
    requires
        forall|i: int|
            0 <= i < evs.len() ==> !((#[trigger] evs[i]) matches Event::Created { .. }),
    ensures
        !initializer_phase(run(Phase::Start, evs)),
{
    lemma_no_created_stays_off_initializer_path(Phase::Start, evs);
}

/// Law: the race designation is permanent, the other way. Once the
/// exclusive create has succeeded, no continuation of the construction
/// enters any joiner phase: the winner never polls for someone else's
/// initialization.
pub proof fn lemma_winner_never_joins(semid: i32, evs: Seq<Event>)
    ensures
        !joiner_phase(run(Phase::Zeroing { semid }, evs)),
{
    lemma_off_start_stays_off_joiner_path(Phase::Zeroing { semid }, evs);
}

/// An upper bound on how many answered kernel calls a construction in
/// phase `p` can still make.
pub open spec fn phase_measure(p: Phase) -> nat {
    match p {
        Phase::Start => POLL_ATTEMPTS as nat + 2,
        Phase::Opening => POLL_ATTEMPTS as nat + 1,
        Phase::Polling { semid, attempts_left } => attempts_left as nat,
        Phase::Zeroing { .. } => 3,
        Phase::Adding { .. } => 2,
        Phase::RollingBack { .. } => 1,
        Phase::Ready { .. } => 0,
        Phase::Failed { .. } => 0,
    }
}

/// Law: construction always terminates. Every answered kernel call
/// strictly decreases the bound on the calls still possible, so a driver
/// that performs each pending call reaches a terminal phase after a
/// bounded number of them — whatever the calls report.
pub proof fn lemma_step_decreases_measure(p: Phase, ev: Event)
    requires
        !phase_is_terminal(p),
        phase_wf(p),
        event_answers(p, ev),
    ensures
        phase_measure(spec_step(p, ev)) < phase_measure(p),
{
}

/// The largest initial count the process-table backend can apply in its
/// single atomic add.
pub const MAX_INITIAL_COUNT: u16 = 32767;

/// The initial count as the machine carries it, if it is representable:
/// the backend adds the whole count in one signed operation, so anything
/// above the largest signed 16-bit value is rejected rather than truncated.
pub fn checked_initial_count(cnt: usize) -> (r: Option<u16>)
    ensures
        cnt <= MAX_INITIAL_COUNT ==> r == Some(cnt as u16),
        cnt > MAX_INITIAL_COUNT ==> r is None,
{
    if cnt <= MAX_INITIAL_COUNT as usize {
        Some(cnt as u16)
    } else {
        None
    }
}

/// One construction in progress: the phase it stands in and the initial
/// count it requests.
pub struct Machine {
    pub phase: Phase,
    pub count: u16,
}

impl Machine {
    /// Begin a construction that requests initial count `count`. The count
    /// must be one the backend can apply in its single atomic add; callers
    /// take it from [`checked_initial_count`].
    pub fn begin(count: u16) -> (m: Machine)
        requires
            count <= MAX_INITIAL_COUNT,
        ensures
            m.phase == Phase::Start,
            m.count == count,
            phase_wf(m.phase),
    {
        Machine { phase: Phase::Start, count }
    }

    /// Whether construction has finished, successfully or not.
    pub open spec fn spec_done(self) -> bool {
        phase_is_terminal(self.phase)
    }

    /// Whether construction has finished, successfully or not.
    pub fn done(&self) -> (r: bool)
        ensures
            r == self.spec_done(),
    {
        match self.phase {
            Phase::Ready { .. } => true,
            Phase::Failed { .. } => true,
            _ => false,
        }
    }

    /// The kernel call the driver must perform next; `None` once done.
    pub fn next_action(&self) -> (a: Option<Action>)
        ensures
            a == phase_action(self.phase, self.count),
            a is None <==> self.spec_done(),
    {
        match self.phase {
            Phase::Start => Some(Action::ExclusiveCreate),
            Phase::Zeroing { semid } => Some(Action::SetBaseline { semid }),
            Phase::Adding { semid } => Some(Action::AddInitial { semid, count: self.count }),
            Phase::RollingBack { semid, errno: _ } => Some(Action::Destroy { semid }),
            Phase::Opening => Some(Action::OpenExisting),
            Phase::Polling { semid, attempts_left: _ } => Some(Action::ReadMarker { semid }),
            Phase::Ready { .. } => None,
            Phase::Failed { .. } => None,
        }
    }

    /// Feed back the outcome of the pending kernel call.
    pub fn step(&mut self, ev: Event)
        requires
            !old(self).spec_done(),
            event_answers(old(self).phase, ev),
        ensures
            final(self).phase == spec_step(old(self).phase, ev),
            final(self).count == old(self).count,
            phase_wf(old(self).phase) ==> phase_wf(final(self).phase),
    {
        let next = match (self.phase, ev) {
            (Phase::Start, Event::Created { semid }) => Phase::Zeroing { semid },
            (Phase::Start, Event::CreateFailed { errno }) => {
                if errno == ERRNO_EXIST {
                    Phase::Opening
                } else {
                    Phase::Failed { err: CreateError::Os { errno } }
                }
            },
            (Phase::Zeroing { semid }, Event::Completed) => Phase::Adding { semid },
            (Phase::Zeroing { semid }, Event::CallFailed { errno }) => Phase::RollingBack {
                semid,
                errno,
            },
            (Phase::Adding { semid }, Event::Completed) => Phase::Ready { semid },
            (Phase::Adding { semid }, Event::CallFailed { errno }) => Phase::RollingBack {
                semid,
                errno,
            },
            (Phase::RollingBack { semid: _, errno }, _) => Phase::Failed {
                err: CreateError::Os { errno },
            },
            (Phase::Opening, Event::Opened { semid }) => Phase::Polling {
                semid,
                attempts_left: POLL_ATTEMPTS,
            },
            (Phase::Opening, Event::CallFailed { errno }) => Phase::Failed {
                err: CreateError::Os { errno },
            },
            (Phase::Polling { semid, .. }, Event::MarkerSet) => Phase::Ready { semid },
            (Phase::Polling { semid, attempts_left }, Event::MarkerClear) => {
                if attempts_left <= 1 {
                    Phase::Failed { err: CreateError::TimedOut }
                } else {
                    Phase::Polling { semid, attempts_left: attempts_left - 1 }
                }
            },
            (Phase::Polling { .. }, Event::CallFailed { errno }) => Phase::Failed {
                err: CreateError::Os { errno },
            },
            (p, _) => p,
        };
        self.phase = next;
    }
}

} // verus!
