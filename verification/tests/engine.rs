use kyron::engine::{
    AsyncRuntimeBuilder, EngineState, ExecutionEngineBuilder, SchedulerType, ThreadParameters, UniqueWorkerId,
};
use kyron::errors::RuntimeErrors;
use kyron::worker::{WorkerType, MAX_NUM_OF_WORKERS};

#[test]
fn create_with_correct_task_queue_size_works() {
    ExecutionEngineBuilder::new().task_queue_size(2).build();
    ExecutionEngineBuilder::new().task_queue_size(8).build();
    ExecutionEngineBuilder::new().task_queue_size(2_u32.pow(5)).build();
    ExecutionEngineBuilder::new().task_queue_size(2_u32.pow(20)).build();
}

#[test]
fn create_with_correct_num_of_workers() {
    ExecutionEngineBuilder::new().workers(1).build();
    ExecutionEngineBuilder::new().workers(MAX_NUM_OF_WORKERS).build();
    ExecutionEngineBuilder::new().workers(MAX_NUM_OF_WORKERS - 1).build();
}

#[test]
fn test_async_runtime_builder_build_preserves_order() {
    let builder1 = ExecutionEngineBuilder::new().workers(1);
    let builder2 = ExecutionEngineBuilder::new().workers(2);
    let builder3 = ExecutionEngineBuilder::new().workers(3);

    let (builder, _id1) = AsyncRuntimeBuilder::new().with_engine(builder1);
    let (builder, _id2) = builder.with_engine(builder2);
    let (builder, _id3) = builder.with_engine(builder3);

    let runtime = builder.build().unwrap();

    assert_eq!(runtime.engine(0).unwrap().worker_count(), 1);

    for i in 0..runtime.engines_count() {
        assert_eq!(i + 1, runtime.engine(i).unwrap().worker_count());
    }
}

#[test]
fn test_stop_is_idempotent() {
    let mut engine = ExecutionEngineBuilder::new().workers(2).task_queue_size(8).build();
    assert_eq!(engine.state(), EngineState::Running);
    engine.start();
    assert!(engine.state().is_running());
    assert!(engine.stop());
    assert!(!engine.stop());
    assert!(engine.state().is_stopped());
}

#[test]
fn engine_ids_and_unknown_engine() {
    let (builder, id0) = AsyncRuntimeBuilder::new().with_engine(ExecutionEngineBuilder::new());
    let (builder, id1) = builder.with_engine(ExecutionEngineBuilder::new().workers(4));
    assert_eq!((id0, id1), (0, 1));
    let mut runtime = builder.build().unwrap();
    assert_eq!(runtime.engine_index(1), Ok(1));
    assert_eq!(runtime.engine_index(2), Err(RuntimeErrors::EngineNotAvailable));
    assert!(runtime.engine(2).is_none());
    assert_eq!(runtime.shutdown(), vec![true, true]);
    assert_eq!(runtime.shutdown(), vec![false, false]);
}

#[test]
fn engine_layout_follows_builder() {
    let params = ThreadParameters::default().priority(10).scheduler_type(SchedulerType::Fifo);
    let engine = ExecutionEngineBuilder::new()
        .workers(3)
        .task_queue_size(16)
        .thread_priority(5)
        .thread_affinity(&[2, 3])
        .thread_scheduler(SchedulerType::RoundRobin)
        .thread_stack_size(1 << 20)
        .with_dedicated_worker(UniqueWorkerId::new(42), params)
        .with_dedicated_worker(UniqueWorkerId::new(43), ThreadParameters::default())
        .enable_safety_worker(ThreadParameters::default())
        .build();
    assert_eq!(engine.worker_count(), 3);
    assert_eq!(engine.dedicated_worker_count(), 2);
    assert!(engine.has_safety_worker());
    assert_eq!(engine.thread_count(), 6);
    assert_eq!(engine.queue_size(), 16);
    let tp = engine.thread_params();
    assert_eq!(tp.priority, Some(5));
    assert_eq!(tp.affinity, Some(2));
    assert_eq!(tp.scheduler_type, Some(SchedulerType::RoundRobin));
    assert_eq!(tp.stack_size, Some(1 << 20));
    assert!(!tp.priority_and_policy_mismatch());
    assert!(ThreadParameters::default().priority(1).priority_and_policy_mismatch());
    let _ = WorkerType::Dedicated;
}

#[test]
fn builder_detects_registered_dedicated_worker() {
    let b = ExecutionEngineBuilder::new().with_dedicated_worker(UniqueWorkerId::new(1), ThreadParameters::default());
    assert!(b.has_dedicated_worker(UniqueWorkerId::new(1)));
    assert!(!b.has_dedicated_worker(UniqueWorkerId::new(2)));
    assert!(kyron::engine::is_power_of_two(64));
    assert!(!kyron::engine::is_power_of_two(123));
    assert!(!kyron::engine::is_power_of_two(0));
}

#[test]
fn dedicated_worker_lookup_by_unique_id() {
    let engine = ExecutionEngineBuilder::new()
        .with_dedicated_worker(UniqueWorkerId::new(42), ThreadParameters::default())
        .with_dedicated_worker(UniqueWorkerId::new(43), ThreadParameters::default())
        .build();
    assert_eq!(engine.dedicated_worker_index(UniqueWorkerId::new(42)), Some(0));
    assert_eq!(engine.dedicated_worker_index(UniqueWorkerId::new(43)), Some(1));
    assert_eq!(engine.dedicated_worker_index(UniqueWorkerId::new(44)), None);
}

#[test]
fn engine_has_one_queue_per_async_worker() {
    let engine = ExecutionEngineBuilder::new().workers(3).task_queue_size(16).build();
    assert_eq!(engine.async_queue_count(), 3);
    for i in 0..3 {
        assert_eq!(engine.async_queue_capacity(i), 16);
        assert_eq!(engine.async_worker(i).unique_id(), UniqueWorkerId::new(i as u64));
    }
    let with_safety = ExecutionEngineBuilder::new().enable_safety_worker(ThreadParameters::default()).build();
    let (safety, _) = with_safety.safety_worker().unwrap();
    assert_ne!(safety.unique_id(), with_safety.async_worker(0).unique_id());
}

#[test]
fn default_builder_is_new() {
    let engine = ExecutionEngineBuilder::default().build();
    assert_eq!(engine.worker_count(), 1);
    assert_eq!(engine.queue_size(), 256);
    assert_eq!(engine.dedicated_worker_count(), 0);
    assert!(!engine.has_safety_worker());
    assert_eq!(engine.thread_params(), ThreadParameters::default());
}
