use kyron::errors::CommonErrors;
use kyron::futures::{FutureInternalReturn, FutureState};
use kyron::mock::{MockAnswer, MockExpectation, Sequence};
use kyron::task::{
    must_respawn, BarrierCounter, CancelTransition, CompletionTransition, IdleTransition, JoinWake, NotifyTransition,
    TaskPollResult, TaskStage,
};

#[test]
fn task_result_taken_once() {
    let mut stage: TaskStage<(), u32> = TaskStage::InProgress(());
    assert_eq!(stage.take_result(false, false), Err(CommonErrors::NoData));
    stage.complete(7);
    assert_eq!(stage.take_result(true, true), Err(CommonErrors::OperationAborted));
    assert_eq!(stage.take_result(false, true), Ok(7));
    assert_eq!(stage.take_result(false, true), Err(CommonErrors::AlreadyDone));
    stage.clear();
    assert!(matches!(stage, TaskStage::Extracted));
}

#[test]
fn test_thread_wait_barrier_exceed_notifiers() {
    let mut barrier = BarrierCounter::new(2);
    assert!(barrier.get_notifier());
    assert!(barrier.get_notifier());
    assert!(!barrier.get_notifier());
    barrier.ready();
    assert!(!barrier.all_ready());
    barrier.ready();
    assert!(barrier.all_ready());
}

#[test]
fn future_state_follows_outcome() {
    let mut s = FutureState::default();
    assert_eq!(s, FutureState::New);
    assert_eq!(s.assign_and_propagate(FutureInternalReturn::<u8>::polled()), None);
    assert_eq!(s, FutureState::Polled);
    assert_eq!(s.assign_and_propagate(FutureInternalReturn::ready(3u8)), Some(3));
    assert_eq!(s, FutureState::Finished);
    let d: FutureInternalReturn<u8> = FutureInternalReturn::default();
    assert_eq!(d.into_poll(), None);
}

#[test]
fn mock_expectation_counts() {
    let mut m = MockExpectation::new();
    m.times(3);
    m.build();
    for _ in 0..3 {
        assert_eq!(m.call(), MockAnswer::Repeated);
    }
    assert!(m.verify());
    m.call();
    assert!(!m.verify());

    let mut once = MockExpectation::new();
    once.will_once();
    once.will_once();
    once.build();
    assert_eq!(once.call(), MockAnswer::Once);
    assert!(!once.verify());
    assert_eq!(once.call(), MockAnswer::Once);
    assert!(once.verify());
    assert_eq!(once.times_called(), 2);

    let mut rep = MockExpectation::new();
    rep.will_once();
    rep.will_repeatedly();
    rep.build();
    assert_eq!(rep.call(), MockAnswer::Once);
    assert!(!rep.verify());
    assert_eq!(rep.call(), MockAnswer::Repeated);
    assert!(rep.verify());
}

#[test]
fn mock_sequence_order() {
    let mut seq = Sequence::new();
    let mut m1 = MockExpectation::new();
    m1.in_sequence(&mut seq);
    let mut m2 = MockExpectation::new();
    m2.in_sequence(&mut seq);
    assert_eq!((m1.id(), m2.id()), (0, 1));
    seq.record(m1.id());
    seq.record(m2.id());
    assert!(seq.verify_executed_order_and_prepare_for_next_iteration());
    seq.record(m2.id());
    seq.record(m1.id());
    assert!(!seq.verify_executed_order());
}

#[test]
fn pending_poll_outcomes() {
    let mut s: TaskStage<u8, u32> = TaskStage::InProgress(1);
    assert_eq!(s.finish_pending_poll(IdleTransition::Done), TaskPollResult::Done);
    assert!(matches!(s, TaskStage::InProgress(1)));
    assert_eq!(s.finish_pending_poll(IdleTransition::Notified), TaskPollResult::Notified);
    assert!(matches!(s, TaskStage::InProgress(1)));
    assert_eq!(s.finish_pending_poll(IdleTransition::Aborted), TaskPollResult::Done);
    assert!(matches!(s, TaskStage::Extracted));
}

#[test]
fn completed_poll_wakes_the_joiner() {
    let mut s: TaskStage<u8, u32> = TaskStage::Completed(5);
    assert_eq!(s.finish_completed_poll(CompletionTransition::Done, true, true), JoinWake::Nobody);
    assert_eq!(s.finish_completed_poll(CompletionTransition::HadConnectedJoinHandle, false, true), JoinWake::Regular);
    assert_eq!(s.finish_completed_poll(CompletionTransition::HadConnectedJoinHandle, true, false), JoinWake::Regular);
    assert_eq!(s.finish_completed_poll(CompletionTransition::HadConnectedJoinHandle, true, true), JoinWake::Safety);
    assert!(matches!(s, TaskStage::Completed(5)));
    assert_eq!(s.finish_completed_poll(CompletionTransition::Aborted, true, true), JoinWake::Nobody);
    assert!(matches!(s, TaskStage::Extracted));
}

#[test]
fn abort_only_drops_an_idle_task() {
    let mut s: TaskStage<u8, u32> = TaskStage::InProgress(2);
    assert!(!s.abort(CancelTransition::DoneWhileRunning));
    assert!(matches!(s, TaskStage::InProgress(2)));
    assert!(!s.abort(CancelTransition::AlreadyDone));
    assert!(s.abort(CancelTransition::Done));
    assert!(matches!(s, TaskStage::Extracted));
}

#[test]
fn only_a_fresh_notification_respawns() {
    assert!(must_respawn(NotifyTransition::Done));
    assert!(!must_respawn(NotifyTransition::AlreadyNotified));
    assert!(!must_respawn(NotifyTransition::Running));
}

/// Runs a task whose work finished with `result` while its join handle waits,
/// and returns who is woken and what the join handle gets.
fn complete_safety_task(result: Result<bool, bool>, is_with_safety: bool) -> (JoinWake, Result<bool, bool>) {
    let mut stage: TaskStage<(), Result<bool, bool>> = TaskStage::InProgress(());
    let is_safety_err = result.is_err();
    let (polled, wake) = stage.poll_step(
        Some(result),
        IdleTransition::Done,
        CompletionTransition::HadConnectedJoinHandle,
        is_safety_err,
        is_with_safety,
    );
    assert_eq!(polled, TaskPollResult::Done);
    let joined = stage.take_result(false, true).unwrap();
    (wake, joined)
}

#[test]
fn test_safety_task_error_does_not_respawn_safety_if_not_enabled() {
    let (wake, result) = complete_safety_task(Err(true), false);
    assert!(result.is_err());
    assert_eq!(wake, JoinWake::Regular);
}

#[test]
fn test_safety_task_error_does_respawn_safety_if_enabled() {
    let (wake, result) = complete_safety_task(Err(true), true);
    assert!(result.is_err());
    assert_eq!(wake, JoinWake::Safety);
}

#[test]
fn test_safety_task_ok_does_not_respawn_safety_if_enabled() {
    let (wake, result) = complete_safety_task(Ok(false), true);
    assert!(result.is_ok());
    assert_eq!(wake, JoinWake::Regular);
}

#[test]
fn test_safety_task_ok_does_not_respawn_safety_if_not_enabled() {
    let (wake, result) = complete_safety_task(Ok(false), false);
    assert!(result.is_ok());
    assert_eq!(wake, JoinWake::Regular);
}

#[test]
fn poll_step_pending_and_aborted() {
    let mut stage: TaskStage<u8, u32> = TaskStage::InProgress(1);
    assert_eq!(
        stage.poll_step(None, IdleTransition::Notified, CompletionTransition::Done, false, false),
        (TaskPollResult::Notified, JoinWake::Nobody)
    );
    assert!(matches!(stage, TaskStage::InProgress(1)));
    assert_eq!(
        stage.poll_step(Some(9), IdleTransition::Done, CompletionTransition::Aborted, false, false),
        (TaskPollResult::Done, JoinWake::Nobody)
    );
    assert!(matches!(stage, TaskStage::Extracted));
}
