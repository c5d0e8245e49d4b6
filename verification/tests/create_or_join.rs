use ipc_sem::protocol::Action;
use ipc_sem::protocol::CreateError;
use ipc_sem::protocol::Event;
use ipc_sem::protocol::Machine;
use ipc_sem::protocol::Phase;
use ipc_sem::protocol::checked_initial_count;
use ipc_sem::protocol::ERRNO_EXIST;
use ipc_sem::protocol::POLL_ATTEMPTS;

#[test]
fn winner_initializes_in_order() {
    let mut m = Machine::begin(3);
    assert_eq!(m.next_action(), Some(Action::ExclusiveCreate));
    m.step(Event::Created { semid: 5 });
    assert_eq!(m.next_action(), Some(Action::SetBaseline { semid: 5 }));
    m.step(Event::Completed);
    assert_eq!(m.next_action(), Some(Action::AddInitial { semid: 5, count: 3 }));
    m.step(Event::Completed);
    assert!(m.done());
    assert_eq!(m.phase, Phase::Ready { semid: 5 });
    assert_eq!(m.next_action(), None);
}

#[test]
fn loser_joins_and_sees_marker() {
    let mut m = Machine::begin(2);
    m.step(Event::CreateFailed { errno: ERRNO_EXIST });
    assert_eq!(m.next_action(), Some(Action::OpenExisting));
    m.step(Event::Opened { semid: 7 });
    assert_eq!(m.next_action(), Some(Action::ReadMarker { semid: 7 }));
    m.step(Event::MarkerClear);
    m.step(Event::MarkerClear);
    assert_eq!(m.next_action(), Some(Action::ReadMarker { semid: 7 }));
    m.step(Event::MarkerSet);
    assert_eq!(m.phase, Phase::Ready { semid: 7 });
}

#[test]
fn loser_times_out_on_abandoned_set() {
    // An allocated-but-never-initialized set leaves the marker clear
    // forever: the joiner must stop with the timeout error, not hang.
    let mut m = Machine::begin(1);
    m.step(Event::CreateFailed { errno: ERRNO_EXIST });
    m.step(Event::Opened { semid: 9 });
    let mut reads: u32 = 0;
    while !m.done() {
        assert_eq!(m.next_action(), Some(Action::ReadMarker { semid: 9 }));
        m.step(Event::MarkerClear);
        reads += 1;
        assert!(reads <= POLL_ATTEMPTS);
    }
    assert_eq!(reads, POLL_ATTEMPTS);
    assert_eq!(m.phase, Phase::Failed { err: CreateError::TimedOut });
}

#[test]
fn unexpected_create_error_is_reported() {
    let mut m = Machine::begin(1);
    m.step(Event::CreateFailed { errno: 13 });
    assert_eq!(m.phase, Phase::Failed { err: CreateError::Os { errno: 13 } });
    assert_eq!(m.next_action(), None);
}

#[test]
fn reopen_failure_is_fatal() {
    // The set that caused "already exists" vanished before the reopen:
    // reported, not retried.
    let mut m = Machine::begin(1);
    m.step(Event::CreateFailed { errno: ERRNO_EXIST });
    m.step(Event::CallFailed { errno: 2 });
    assert_eq!(m.phase, Phase::Failed { err: CreateError::Os { errno: 2 } });
}

#[test]
fn failed_initializer_rolls_back() {
    let mut m = Machine::begin(4);
    m.step(Event::Created { semid: 11 });
    m.step(Event::CallFailed { errno: 28 });
    assert_eq!(m.next_action(), Some(Action::Destroy { semid: 11 }));
    m.step(Event::Completed);
    assert_eq!(m.phase, Phase::Failed { err: CreateError::Os { errno: 28 } });
}

#[test]
fn rollback_reports_first_error_even_if_destroy_fails() {
    let mut m = Machine::begin(4);
    m.step(Event::Created { semid: 11 });
    m.step(Event::Completed);
    m.step(Event::CallFailed { errno: 28 });
    assert_eq!(m.next_action(), Some(Action::Destroy { semid: 11 }));
    m.step(Event::CallFailed { errno: 22 });
    assert_eq!(m.phase, Phase::Failed { err: CreateError::Os { errno: 28 } });
}

#[test]
fn initial_count_is_checked_not_truncated() {
    assert_eq!(checked_initial_count(0), Some(0));
    assert_eq!(checked_initial_count(3), Some(3));
    assert_eq!(checked_initial_count(32767), Some(32767));
    assert_eq!(checked_initial_count(32768), None);
    assert_eq!(checked_initial_count(usize::MAX), None);
}

#[test]
fn marker_poll_failure_is_reported() {
    let mut m = Machine::begin(1);
    m.step(Event::CreateFailed { errno: ERRNO_EXIST });
    m.step(Event::Opened { semid: 3 });
    m.step(Event::MarkerClear);
    m.step(Event::CallFailed { errno: 43 });
    assert_eq!(m.phase, Phase::Failed { err: CreateError::Os { errno: 43 } });
}
