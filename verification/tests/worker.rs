use kyron::engine::UniqueWorkerId;
use kyron::worker::{
    ParkDecision, WakeAction, WorkerBookkeeping, WorkerId, WorkerState, WorkerType, WORKER_STATE_EXECUTING,
    WORKER_STATE_NOTIFIED, WORKER_STATE_SHUTTINGDOWN, WORKER_STATE_SLEEPING_CV, WORKER_STATE_SLEEPING_IO,
};

#[test]
fn test_worker_shutdown_state() {
    let mut worker = WorkerState::new(WORKER_STATE_EXECUTING);
    worker = WorkerState::new(WORKER_STATE_SHUTTINGDOWN);
    assert_eq!(worker.unpark(), WakeAction::Nothing);
    let state = worker.get();
    assert_eq!(state, WORKER_STATE_SHUTTINGDOWN);
}

#[test]
fn test_worker_unpark_from_sleeping_cv() {
    let mut worker = WorkerState::new(WORKER_STATE_SLEEPING_CV);
    assert_eq!(worker.unpark(), WakeAction::NotifyCv);
    let state = worker.get();
    assert_eq!(state, WORKER_STATE_NOTIFIED);
}

#[test]
fn test_worker_unpark_from_executing() {
    let mut worker = WorkerState::new(WORKER_STATE_EXECUTING);
    assert_eq!(worker.unpark(), WakeAction::Nothing);
    let state = worker.get();
    assert_eq!(state, WORKER_STATE_NOTIFIED);
}

#[test]
fn worker_park_cycle() {
    let mut worker = WorkerState::new(WORKER_STATE_EXECUTING);
    assert_eq!(worker.park_pre_stage(WORKER_STATE_SLEEPING_IO), ParkDecision::Sleep);
    assert_eq!(worker.get(), WORKER_STATE_SLEEPING_IO);
    assert_eq!(worker.unpark(), WakeAction::UnparkIo);
    assert_eq!(worker.park_condition_check_and_transition(), (false, true));
    assert_eq!(worker.get(), WORKER_STATE_EXECUTING);

    assert_eq!(worker.unpark(), WakeAction::Nothing);
    assert_eq!(worker.park_pre_stage(WORKER_STATE_SLEEPING_CV), ParkDecision::Notified);
    assert_eq!(worker.get(), WORKER_STATE_EXECUTING);

    assert_eq!(worker.park_pre_stage(WORKER_STATE_SLEEPING_CV), ParkDecision::Sleep);
    assert_eq!(worker.park_condition_check_and_transition(), (true, false));
    assert!(worker.move_to_executing());
    assert_eq!(worker.request_stop(), WakeAction::Nothing);
    assert!(worker.is_shutdown_requested());
    assert!(!worker.move_to_executing());
    assert_eq!(worker.park_pre_stage(WORKER_STATE_SLEEPING_CV), ParkDecision::ShuttingDown);
    assert!(worker.is_shutdown_requested());
}

#[test]
fn request_stop_wakes_sleepers() {
    let mut cv = WorkerState::new(WORKER_STATE_SLEEPING_CV);
    assert_eq!(cv.request_stop(), WakeAction::NotifyCv);
    let mut io = WorkerState::new(WORKER_STATE_SLEEPING_IO);
    assert_eq!(io.request_stop(), WakeAction::UnparkIo);
}

#[test]
fn should_transition_to_searching_test() {
    let mut scheduler = WorkerBookkeeping::new(1);
    assert!(scheduler.try_transition_worker_to_searching());
    assert!(!scheduler.try_transition_worker_to_searching());

    let mut scheduler = WorkerBookkeeping::new(2);
    assert!(scheduler.should_notify_some_worker());
    assert!(scheduler.try_transition_worker_to_searching());
    assert!(!scheduler.should_notify_some_worker());

    let mut scheduler = WorkerBookkeeping::new(10);
    assert!(scheduler.should_notify_some_worker());
    assert!(scheduler.try_transition_worker_to_searching());
    assert!(!scheduler.should_notify_some_worker());
    assert!(scheduler.try_transition_worker_to_searching());
    assert!(!scheduler.should_notify_some_worker());
    assert!(scheduler.try_transition_worker_to_searching());
    assert!(!scheduler.should_notify_some_worker());
    assert!(scheduler.try_transition_worker_to_searching());
    assert!(!scheduler.should_notify_some_worker());
    assert!(scheduler.try_transition_worker_to_searching());
    assert!(!scheduler.should_notify_some_worker());
    assert!(!scheduler.try_transition_worker_to_searching());
}

#[test]
fn parked_workers_are_notified_and_removed() {
    let mut s = WorkerBookkeeping::new(4);
    assert!(s.try_transition_worker_to_searching());
    assert!(s.transition_to_parked(true, 2));
    assert!(!s.transition_to_parked(false, 0));
    assert!(!s.transition_to_parked(false, 3));
    assert_eq!(s.take_worker_to_notify(Some(2)), Some(0));
    s.transition_from_parked(2);
    assert_eq!(s.take_worker_to_notify(Some(3)), None);
    assert_eq!(s.take_worker_to_notify(None), Some(3));
    assert_eq!(s.take_worker_to_notify(None), None);
    let id = WorkerId::new(UniqueWorkerId::new(9), 1, 2, WorkerType::Async);
    assert_eq!(id.unique_id(), UniqueWorkerId::new(9));
    assert_eq!((id.engine_id(), id.worker_id(), id.typ()), (1, 2, WorkerType::Async));
}

#[test]
fn parked_list_holds_one_entry_per_worker() {
    let mut b = WorkerBookkeeping::new(1);
    assert!(b.try_transition_worker_to_searching());
    assert_eq!(b.searching_count(), 1);
    assert!(b.transition_to_parked(true, 0));
    assert_eq!(b.searching_count(), 0);
    assert!(!b.transition_to_parked(false, 0));
    assert_eq!(b.take_worker_to_notify(None), Some(0));
    assert_eq!(b.take_worker_to_notify(None), None);
}
