//! Configuration of execution engines: thread parameters, the builder of an
//! engine with its checks, the layout of workers and queues an engine is made
//! of, and the life cycle of an engine.

use vstd::prelude::*;

use crate::errors::RuntimeErrors;
use crate::queue::{MpmcQueue, Queue};
use crate::worker::{WorkerBookkeeping, WorkerId, WorkerType, MAX_NUM_OF_WORKERS};

verus! {

/// Identity of a dedicated worker, chosen by the user of the runtime.
#[derive(Copy, Clone, Debug, PartialEq, Eq, Structural)]
pub struct UniqueWorkerId(pub u64);

impl UniqueWorkerId {
    /// An identity holding `id`.
    pub fn new(id: u64) -> (r: Self)
        ensures
            r.0 == id,
    {
        UniqueWorkerId(id)
    }
}

/// Scheduling policy of a worker thread.
#[derive(Clone, Copy, Debug, PartialEq, Eq, Structural)]
pub enum SchedulerType {
    /// First in, first out.
    Fifo,
    /// Round robin.
    RoundRobin,
    /// The default policy of the system.
    Other,
}

/// Parameters of a worker thread; `None` means inherited from the parent thread.
#[derive(Clone, Copy, Debug, PartialEq, Eq, Structural)]
pub struct ThreadParameters {
    /// Thread priority.
    pub priority: Option<u8>,
    /// Scheduling policy.
    pub scheduler_type: Option<SchedulerType>,
    /// The CPU core the thread runs on.
    pub affinity: Option<usize>,
    /// Stack size in bytes.
    pub stack_size: Option<u64>,
}

impl Default for ThreadParameters {
    fn default() -> (r: Self)
        ensures
            r == ThreadParameters::inherited(),
    {
        ThreadParameters { priority: None, scheduler_type: None, affinity: None, stack_size: None }
    }
}

impl ThreadParameters {
    /// Parameters that inherit everything from the parent thread.
    pub open spec fn inherited() -> ThreadParameters {
        ThreadParameters { priority: None, scheduler_type: None, affinity: None, stack_size: None }
    }

    /// These parameters with priority `prio`.
    pub fn priority(self, prio: u8) -> (r: Self)
        ensures
            r == (ThreadParameters { priority: Some(prio), ..self }),
    {
        ThreadParameters { priority: Some(prio), ..self }
    }

    /// These parameters with scheduling policy `typ`.
    pub fn scheduler_type(self, typ: SchedulerType) -> (r: Self)
        ensures
            r == (ThreadParameters { scheduler_type: Some(typ), ..self }),
    {
        ThreadParameters { scheduler_type: Some(typ), ..self }
    }

    /// These parameters pinned to the first core of `cores`; unchanged when `cores` is empty.
    pub fn affinity(self, cores: &[usize]) -> (r: Self)
        ensures
            cores@.len() == 0 ==> r == self,
            cores@.len() > 0 ==> r == (ThreadParameters { affinity: Some(cores@[0]), ..self }),
    {
        if cores.len() == 0 {
            self
        } else {
            ThreadParameters { affinity: Some(cores[0]), ..self }
        }
    }

    /// These parameters with stack size `size`.
    pub fn stack_size(self, size: u64) -> (r: Self)
        ensures
            r == (ThreadParameters { stack_size: Some(size), ..self }),
    {
        ThreadParameters { stack_size: Some(size), ..self }
    }

    /// Whether exactly one of priority and policy is set; then both are inherited.
    pub fn priority_and_policy_mismatch(&self) -> (r: bool)
        ensures
            r == (self.priority.is_some() != self.scheduler_type.is_some()),
    {
        self.priority.is_none() != self.scheduler_type.is_none()
    }
}

/// Whether `x` is a power of two.
pub open spec fn power_of_two(x: u32) -> bool {
    x != 0 && x & ((x - 1) as u32) == 0
}

/// Returns `true` when `x` is a power of two.
pub fn is_power_of_two(x: u32) -> (r: bool)
    ensures
        r == power_of_two(x),
{
    x != 0 && (x & (x - 1)) == 0
}

/// Size of the global task queue of an engine.
pub const GLOBAL_QUEUE_SIZE: usize = 32;

/// Size of the task queue of the safety worker.
pub const SAFETY_QUEUE_SIZE: usize = 64;

/// The unique id of the safety worker, apart from those of the async workers.
pub const SAFETY_WORKER_UNIQUE_ID: u64 = MAX_NUM_OF_WORKERS as u64;

/// Builder of an execution engine.
pub struct ExecutionEngineBuilder {
    async_workers_cnt: usize,
    queue_size: u32,
    thread_params: ThreadParameters,
    dedicated_workers_ids: Vec<(UniqueWorkerId, ThreadParameters)>,
    with_safe_worker: (bool, ThreadParameters),
}

/// Whether some entry of `s` has id `id`.
pub open spec fn has_id(s: Seq<(UniqueWorkerId, ThreadParameters)>, id: UniqueWorkerId) -> bool {
    exists|i: int| 0 <= i < s.len() && s[i].0 == id
}

impl ExecutionEngineBuilder {
    /// The number of async workers.
    pub closed spec fn workers_spec(&self) -> nat {
        self.async_workers_cnt as nat
    }

    /// The size of the task queue of each async worker.
    pub closed spec fn queue_size_spec(&self) -> u32 {
        self.queue_size
    }

    /// The thread parameters of the async workers.
    pub closed spec fn thread_params_spec(&self) -> ThreadParameters {
        self.thread_params
    }

    /// The dedicated workers with their thread parameters, in the order they were added.
    pub closed spec fn dedicated_spec(&self) -> Seq<(UniqueWorkerId, ThreadParameters)> {
        self.dedicated_workers_ids@
    }

    /// Whether the safety worker is enabled, and its thread parameters.
    pub closed spec fn safety_spec(&self) -> (bool, ThreadParameters) {
        self.with_safe_worker
    }

    /// The builder holds a worker count in range, a power-of-two queue size and distinct dedicated ids.
    pub closed spec fn wf(&self) -> bool {
        &&& 1 <= self.async_workers_cnt <= MAX_NUM_OF_WORKERS
        &&& power_of_two(self.queue_size)
        &&& forall|i: int, j: int|
            0 <= i < j < self.dedicated_workers_ids@.len() ==> self.dedicated_workers_ids@[i].0
                != self.dedicated_workers_ids@[j].0
    }

    /// One async worker, queues of 256 entries, no dedicated worker, no safety worker,
    /// inherited thread parameters.
    pub fn new() -> (r: Self)
        ensures
            r.wf(),
            r.workers_spec() == 1,
            r.queue_size_spec() == 256,
            r.thread_params_spec() == ThreadParameters::inherited(),
            r.dedicated_spec() == Seq::<(UniqueWorkerId, ThreadParameters)>::empty(),
            r.safety_spec() == (false, ThreadParameters::inherited()),
    {
        assert(256u32 & 255u32 == 0) by (bit_vector);
        Self {
            async_workers_cnt: 1,
            queue_size: 256,
            dedicated_workers_ids: Vec::new(),
            with_safe_worker: (false, ThreadParameters::default()),
            thread_params: ThreadParameters::default(),
        }
    }

    /// Engine with `cnt` async workers; `cnt` has to be in `[1, 128]`.
    pub fn workers(self, cnt: usize) -> (r: Self)
        requires
            self.wf(),
            0 < cnt <= MAX_NUM_OF_WORKERS,
        ensures
            r.wf(),
            r.workers_spec() == cnt,
            r.queue_size_spec() == self.queue_size_spec(),
            r.thread_params_spec() == self.thread_params_spec(),
            r.dedicated_spec() == self.dedicated_spec(),
            r.safety_spec() == self.safety_spec(),
    {
        let mut s = self;
        s.async_workers_cnt = cnt;
        s
    }

    /// Size of the task queue of each async worker; `size` has to be a power of two.
    pub fn task_queue_size(self, size: u32) -> (r: Self)
        requires
            self.wf(),
            power_of_two(size),
        ensures
            r.wf(),
            r.queue_size_spec() == size,
            r.workers_spec() == self.workers_spec(),
            r.thread_params_spec() == self.thread_params_spec(),
            r.dedicated_spec() == self.dedicated_spec(),
            r.safety_spec() == self.safety_spec(),
    {
        let mut s = self;
        s.queue_size = size;
        s
    }

    /// Thread priority of the async workers.
    pub fn thread_priority(self, thread_prio: u8) -> (r: Self)
        requires
            self.wf(),
        ensures
            r.wf(),
            r.thread_params_spec() == (ThreadParameters { priority: Some(thread_prio), ..self.thread_params_spec() }),
            r.workers_spec() == self.workers_spec(),
            r.queue_size_spec() == self.queue_size_spec(),
            r.dedicated_spec() == self.dedicated_spec(),
            r.safety_spec() == self.safety_spec(),
    {
        let mut s = self;
        s.thread_params = s.thread_params.priority(thread_prio);
        s
    }

    /// Thread affinity of the async workers: the first core of `affinity`.
    pub fn thread_affinity(self, affinity: &[usize]) -> (r: Self)
        requires
            self.wf(),
        ensures
            r.wf(),
            affinity@.len() == 0 ==> r.thread_params_spec() == self.thread_params_spec(),
            affinity@.len() > 0 ==> r.thread_params_spec() == (ThreadParameters { affinity: Some(affinity@[0]), ..self.thread_params_spec() }),
            r.workers_spec() == self.workers_spec(),
            r.queue_size_spec() == self.queue_size_spec(),
            r.dedicated_spec() == self.dedicated_spec(),
            r.safety_spec() == self.safety_spec(),
    {
        let mut s = self;
        s.thread_params = s.thread_params.affinity(affinity);
        s
    }

    /// Scheduling policy of the async workers.
    pub fn thread_scheduler(self, thread_scheduler_type: SchedulerType) -> (r: Self)
        requires
            self.wf(),
        ensures
            r.wf(),
            r.thread_params_spec() == (ThreadParameters { scheduler_type: Some(thread_scheduler_type), ..self.thread_params_spec() }),
            r.workers_spec() == self.workers_spec(),
            r.queue_size_spec() == self.queue_size_spec(),
            r.dedicated_spec() == self.dedicated_spec(),
            r.safety_spec() == self.safety_spec(),
    {
        let mut s = self;
        s.thread_params = s.thread_params.scheduler_type(thread_scheduler_type);
        s
    }

    /// Stack size of the async workers.
    pub fn thread_stack_size(self, thread_stack_size: u64) -> (r: Self)
        requires
            self.wf(),
        ensures
            r.wf(),
            r.thread_params_spec() == (ThreadParameters { stack_size: Some(thread_stack_size), ..self.thread_params_spec() }),
            r.workers_spec() == self.workers_spec(),
            r.queue_size_spec() == self.queue_size_spec(),
            r.dedicated_spec() == self.dedicated_spec(),
            r.safety_spec() == self.safety_spec(),
    {
        let mut s = self;
        s.thread_params = s.thread_params.stack_size(thread_stack_size);
        s
    }

    /// Enables the safety worker with thread parameters `params`.
    pub fn enable_safety_worker(self, params: ThreadParameters) -> (r: Self)
        requires
            self.wf(),
        ensures
            r.wf(),
            r.safety_spec() == (true, params),
            r.workers_spec() == self.workers_spec(),
            r.queue_size_spec() == self.queue_size_spec(),
            r.thread_params_spec() == self.thread_params_spec(),
            r.dedicated_spec() == self.dedicated_spec(),
    {
        let mut s = self;
        s.with_safe_worker = (true, params);
        s
    }

    /// Adds a dedicated worker `id` with thread parameters `params`; `id` must not be added twice.
    pub fn with_dedicated_worker(self, id: UniqueWorkerId, params: ThreadParameters) -> (r: Self)
        requires
            self.wf(),
            !has_id(self.dedicated_spec(), id),
        ensures
            r.wf(),
            r.dedicated_spec() == self.dedicated_spec().push((id, params)),
            r.workers_spec() == self.workers_spec(),
            r.queue_size_spec() == self.queue_size_spec(),
            r.thread_params_spec() == self.thread_params_spec(),
            r.safety_spec() == self.safety_spec(),
    {
        let mut s = self;
        s.dedicated_workers_ids.push((id, params));
        proof {
            assert forall|i: int, j: int|
                0 <= i < j < s.dedicated_workers_ids@.len() implies s.dedicated_workers_ids@[i].0
                != s.dedicated_workers_ids@[j].0 by {
                if j == s.dedicated_workers_ids@.len() - 1 {
                    assert(self.dedicated_spec()[i] == s.dedicated_workers_ids@[i]);
                }
            }
        }
        s
    }

    /// Whether `id` is already registered as a dedicated worker.
    pub fn has_dedicated_worker(&self, id: UniqueWorkerId) -> (r: bool)
        ensures
            r == has_id(self.dedicated_spec(), id),
    {
        let mut i: usize = 0;
        while i < self.dedicated_workers_ids.len()
            invariant
                i <= self.dedicated_workers_ids@.len(),
                forall|j: int| 0 <= j < i ==> self.dedicated_workers_ids@[j].0 != id,
            decreases self.dedicated_workers_ids.len() - i,
        {
            if self.dedicated_workers_ids[i].0 == id {
                return true;
            }
            i = i + 1;
        }
        false
    }

    /// Lays the engine out: one worker and one task queue of `queue_size`
    /// per async worker, the global queue and the bookkeeping of searching and
    /// parked workers, one worker and one queue of `queue_size` per dedicated
    /// worker, the safety worker with its queue when enabled; then starts it:
    /// the engine comes out running. The queues hold the ids of tasks.
    /// Spawning the worker threads of that layout is left to the caller.
    pub fn build(self) -> (r: ExecutionEngine)
        requires
            self.wf(),
        ensures
            r.built_from(self),
    {
        let mut async_workers: Vec<WorkerId> = Vec::new();
        let mut async_queues: Vec<Queue<u64>> = Vec::new();
        let mut i: usize = 0;
        while i < self.async_workers_cnt
            invariant
                i <= self.async_workers_cnt,
                self.async_workers_cnt <= MAX_NUM_OF_WORKERS,
                async_workers@.len() == i,
                async_queues@.len() == i,
                forall|j: int| 0 <= j < i ==> {
                    let w = #[trigger] async_workers@[j];
                    &&& w.unique_id_spec() == UniqueWorkerId(j as u64)
                    &&& w.engine_id_spec() == 0
                    &&& w.worker_id_spec() == j
                    &&& w.typ_spec() == WorkerType::Async
                },
                forall|j: int| 0 <= j < i ==> (#[trigger] async_queues@[j]).wf() && async_queues@[j].view()
                    == Seq::<u64>::empty() && async_queues@[j].capacity_spec() == self.queue_size,
            decreases self.async_workers_cnt - i,
        {
            async_workers.push(WorkerId::new(UniqueWorkerId(i as u64), 0, i as u8, WorkerType::Async));
            async_queues.push(Queue::new(self.queue_size as usize));
            i = i + 1;
        }
        let mut dedicated_workers: Vec<(WorkerId, ThreadParameters)> = Vec::new();
        let mut dedicated_queues: Vec<Queue<u64>> = Vec::new();
        let n = self.dedicated_workers_ids.len();
        let mut k: usize = 0;
        while k < n
            invariant
                k <= n,
                n == self.dedicated_workers_ids@.len(),
                dedicated_workers@.len() == k,
                dedicated_queues@.len() == k,
                forall|j: int| 0 <= j < k ==> (#[trigger] dedicated_queues@[j]).wf() && dedicated_queues@[j].view()
                    == Seq::<u64>::empty() && dedicated_queues@[j].capacity_spec() == self.queue_size,
                forall|j: int| 0 <= j < k ==> {
                    let w = #[trigger] dedicated_workers@[j];
                    &&& w.0.unique_id_spec() == self.dedicated_workers_ids@[j].0
                    &&& w.0.engine_id_spec() == 0
                    &&& w.0.worker_id_spec() == j as u8
                    &&& w.0.typ_spec() == WorkerType::Dedicated
                    &&& w.1 == self.dedicated_workers_ids@[j].1
                },
            decreases n - k,
        {
            let (id, params) = self.dedicated_workers_ids[k];
            dedicated_workers.push((WorkerId::new(id, 0, #[verifier::truncate] (k as u8), WorkerType::Dedicated), params));
            dedicated_queues.push(Queue::new(self.queue_size as usize));
            k = k + 1;
        }
        let (safety_worker, safety_queue) = if self.with_safe_worker.0 {
            (
                Some(
                    (
                        WorkerId::new(UniqueWorkerId(SAFETY_WORKER_UNIQUE_ID), 0, 0, WorkerType::Dedicated),
                        self.with_safe_worker.1,
                    ),
                ),
                Some(Queue::new(SAFETY_QUEUE_SIZE)),
            )
        } else {
            (None, None)
        };
        let mut engine = ExecutionEngine {
            async_workers,
            async_queues,
            global_queue: MpmcQueue::new(GLOBAL_QUEUE_SIZE),
            scheduler: WorkerBookkeeping::new(self.async_workers_cnt),
            queue_size: self.queue_size,
            dedicated_workers,
            dedicated_queues,
            safety_worker,
            safety_queue,
            thread_params: self.thread_params,
            state: EngineState::Starting,
        };
        proof {
            assert(engine.async_queue_sizes() =~= Seq::new(self.workers_spec(), |_i: int| self.queue_size_spec() as nat));
        }
        engine.start();
        engine
    }
}

impl Default for ExecutionEngineBuilder {
    fn default() -> (r: Self)
        ensures
            r.wf(),
            r.workers_spec() == 1,
            r.queue_size_spec() == 256,
            r.thread_params_spec() == ThreadParameters::inherited(),
            r.dedicated_spec() == Seq::<(UniqueWorkerId, ThreadParameters)>::empty(),
            r.safety_spec() == (false, ThreadParameters::inherited()),
    {
        Self::new()
    }
}

/// Life cycle of an engine.
#[derive(Clone, Copy, Debug, PartialEq, Eq, Structural)]
pub enum EngineState {
    /// Workers are being started.
    Starting,
    /// Workers run.
    Running,
    /// No worker runs anymore.
    Stopped,
}

impl EngineState {
    /// Whether the engine runs.
    pub fn is_running(&self) -> (r: bool)
        ensures
            r == (*self == EngineState::Running),
    {
        match self {
            EngineState::Running => true,
            _ => false,
        }
    }

    /// Whether the engine was stopped.
    pub fn is_stopped(&self) -> (r: bool)
        ensures
            r == (*self == EngineState::Stopped),
    {
        match self {
            EngineState::Stopped => true,
            _ => false,
        }
    }
}

/// An execution engine as laid out by its builder: its async workers with
/// their task queues, the global queue and the scheduler's bookkeeping, its
/// dedicated workers with their queues, its optional safety worker with its
/// queue, and its state. The queues hold the ids of tasks. Threads are
/// attached to it by whoever runs it.
pub struct ExecutionEngine {
    async_workers: Vec<WorkerId>,
    async_queues: Vec<Queue<u64>>,
    global_queue: MpmcQueue<u64>,
    scheduler: WorkerBookkeeping,
    queue_size: u32,
    dedicated_workers: Vec<(WorkerId, ThreadParameters)>,
    dedicated_queues: Vec<Queue<u64>>,
    safety_worker: Option<(WorkerId, ThreadParameters)>,
    safety_queue: Option<Queue<u64>>,
    thread_params: ThreadParameters,
    state: EngineState,
}

impl ExecutionEngine {
    /// The number of async workers.
    pub closed spec fn worker_count_spec(&self) -> nat {
        self.async_workers@.len()
    }

    /// The identities of the async workers, by index.
    pub closed spec fn async_worker_ids(&self) -> Seq<WorkerId> {
        self.async_workers@
    }

    /// The dedicated workers with their thread parameters, by index.
    pub closed spec fn dedicated_worker_ids(&self) -> Seq<(WorkerId, ThreadParameters)> {
        self.dedicated_workers@
    }

    /// The safety worker, when enabled.
    pub closed spec fn safety_worker_spec(&self) -> Option<(WorkerId, ThreadParameters)> {
        self.safety_worker
    }

    /// The size of each async task queue.
    pub closed spec fn queue_size_spec(&self) -> u32 {
        self.queue_size
    }

    /// The task queues of the async workers, by worker index.
    pub closed spec fn async_queues_spec(&self) -> Seq<Queue<u64>> {
        self.async_queues@
    }

    /// The capacities of the async task queues, by worker index.
    pub open spec fn async_queue_sizes(&self) -> Seq<nat> {
        self.async_queues_spec().map_values(|q: Queue<u64>| q.capacity_spec())
    }

    /// The global task queue, shared by the async workers.
    pub closed spec fn global_queue_spec(&self) -> MpmcQueue<u64> {
        self.global_queue
    }

    /// The bookkeeping of searching and parked async workers.
    pub closed spec fn scheduler_spec(&self) -> WorkerBookkeeping {
        self.scheduler
    }

    /// The task queues of the dedicated workers, by index.
    pub closed spec fn dedicated_queues_spec(&self) -> Seq<Queue<u64>> {
        self.dedicated_queues@
    }

    /// The task queue of the safety worker, when enabled.
    pub closed spec fn safety_queue_spec(&self) -> Option<Queue<u64>> {
        self.safety_queue
    }

    /// The thread parameters of the async workers.
    pub closed spec fn thread_params_spec(&self) -> ThreadParameters {
        self.thread_params
    }

    /// The state of the engine.
    pub closed spec fn state_spec(&self) -> EngineState {
        self.state
    }

    /// This engine is the layout `b` describes: one async worker per
    /// configured worker (with index as worker id), the dedicated workers in
    /// the order they were added with their parameters, the safety worker
    /// when enabled, the queue size and thread parameters of `b`, running.
    pub open spec fn built_from(&self, b: ExecutionEngineBuilder) -> bool {
        &&& self.worker_count_spec() == b.workers_spec()
        &&& self.queue_size_spec() == b.queue_size_spec()
        &&& self.thread_params_spec() == b.thread_params_spec()
        &&& self.state_spec() == EngineState::Running
        &&& self.async_queue_sizes() == Seq::new(b.workers_spec(), |_i: int| b.queue_size_spec() as nat)
        &&& forall|i: int| 0 <= i < b.workers_spec() ==> {
            let q = #[trigger] self.async_queues_spec()[i];
            q.wf() && q.view() == Seq::<u64>::empty()
        }
        &&& self.global_queue_spec().wf() && self.global_queue_spec().view() == Seq::<u64>::empty()
        &&& self.global_queue_spec().capacity_spec() == GLOBAL_QUEUE_SIZE
        &&& self.scheduler_spec().wf() && self.scheduler_spec().workers() == b.workers_spec()
        &&& self.scheduler_spec().searching() == 0 && self.scheduler_spec().parked() == Seq::<usize>::empty()
        &&& self.dedicated_queues_spec().len() == b.dedicated_spec().len()
        &&& forall|i: int| 0 <= i < b.dedicated_spec().len() ==> {
            let q = #[trigger] self.dedicated_queues_spec()[i];
            q.wf() && q.view() == Seq::<u64>::empty() && q.capacity_spec() == b.queue_size_spec()
        }
        &&& forall|i: int| 0 <= i < b.workers_spec() ==> {
            let w = #[trigger] self.async_worker_ids()[i];
            &&& w.unique_id_spec() == UniqueWorkerId(i as u64)
            &&& w.engine_id_spec() == 0
            &&& w.worker_id_spec() == i
            &&& w.typ_spec() == WorkerType::Async
        }
        &&& self.dedicated_worker_ids().len() == b.dedicated_spec().len()
        &&& forall|i: int| 0 <= i < b.dedicated_spec().len() ==> {
            let w = #[trigger] self.dedicated_worker_ids()[i];
            &&& w.0.unique_id_spec() == b.dedicated_spec()[i].0
            &&& w.0.engine_id_spec() == 0
            &&& w.0.worker_id_spec() == i as u8
            &&& w.0.typ_spec() == WorkerType::Dedicated
            &&& w.1 == b.dedicated_spec()[i].1
        }
        &&& b.safety_spec().0 ==> (self.safety_worker_spec() matches Some(s) && s.1 == b.safety_spec().1
            && s.0.typ_spec() == WorkerType::Dedicated && s.0.worker_id_spec() == 0 && s.0.engine_id_spec() == 0
            && s.0.unique_id_spec() == UniqueWorkerId(SAFETY_WORKER_UNIQUE_ID))
        &&& b.safety_spec().0 ==> (self.safety_queue_spec() matches Some(q) && q.wf() && q.view()
            == Seq::<u64>::empty() && q.capacity_spec() == SAFETY_QUEUE_SIZE)
        &&& !b.safety_spec().0 ==> self.safety_worker_spec() is None && self.safety_queue_spec() is None
    }

    /// The number of async workers.
    pub fn worker_count(&self) -> (r: usize)
        ensures
            r == self.worker_count_spec(),
    {
        self.async_workers.len()
    }

    /// The position of the dedicated worker with unique id `id`, whose queue
    /// takes the tasks spawned on it: the first such worker, or `None` when no
    /// dedicated worker has that id.
    pub fn dedicated_worker_index(&self, id: UniqueWorkerId) -> (r: Option<usize>)
        ensures
            r is None <==> forall|j: int|
                0 <= j < self.dedicated_worker_ids().len() ==> #[trigger] self.dedicated_worker_ids()[j].0.unique_id_spec()
                    != id,
            r matches Some(i) ==> i < self.dedicated_worker_ids().len() && self.dedicated_worker_ids()[i as int].0.unique_id_spec()
                == id && forall|j: int| 0 <= j < i ==> #[trigger] self.dedicated_worker_ids()[j].0.unique_id_spec() != id,
    {
        let mut i: usize = 0;
        while i < self.dedicated_workers.len()
            invariant
                i <= self.dedicated_workers@.len(),
                forall|j: int| 0 <= j < i ==> #[trigger] self.dedicated_workers@[j].0.unique_id_spec() != id,
            decreases self.dedicated_workers.len() - i,
        {
            if self.dedicated_workers[i].0.unique_id() == id {
                assert(self.dedicated_worker_ids()[i as int].0.unique_id_spec() == id);
                return Some(i);
            }
            i = i + 1;
        }
        None
    }

    /// The number of async task queues.
    pub fn async_queue_count(&self) -> (r: usize)
        ensures
            r == self.async_queues_spec().len(),
    {
        self.async_queues.len()
    }

    /// The capacity of the task queue of async worker `i`.
    pub fn async_queue_capacity(&self, i: usize) -> (r: usize)
        requires
            i < self.async_queues_spec().len(),
        ensures
            r == self.async_queue_sizes()[i as int],
    {
        self.async_queues[i].capacity()
    }

    /// The identity of the async worker with index `i`.
    pub fn async_worker(&self, i: usize) -> (r: WorkerId)
        requires
            i < self.worker_count_spec(),
        ensures
            r == self.async_worker_ids()[i as int],
    {
        self.async_workers[i]
    }

    /// The dedicated worker with index `i` and its thread parameters.
    pub fn dedicated_worker(&self, i: usize) -> (r: (WorkerId, ThreadParameters))
        requires
            i < self.dedicated_worker_ids().len(),
        ensures
            r == self.dedicated_worker_ids()[i as int],
    {
        self.dedicated_workers[i]
    }

    /// The safety worker and its thread parameters, when enabled.
    pub fn safety_worker(&self) -> (r: Option<(WorkerId, ThreadParameters)>)
        ensures
            r == self.safety_worker_spec(),
    {
        self.safety_worker
    }

    /// The number of dedicated workers.
    pub fn dedicated_worker_count(&self) -> (r: usize)
        ensures
            r == self.dedicated_worker_ids().len(),
    {
        self.dedicated_workers.len()
    }

    /// Whether the engine has a safety worker.
    pub fn has_safety_worker(&self) -> (r: bool)
        ensures
            r == self.safety_worker_spec().is_some(),
    {
        self.safety_worker.is_some()
    }

    /// The number of worker threads to start: async, dedicated and safety workers.
    pub fn thread_count(&self) -> (r: usize)
        requires
            self.worker_count_spec() + self.dedicated_worker_ids().len() + 1 <= usize::MAX,
        ensures
            r == self.worker_count_spec() + self.dedicated_worker_ids().len() + (if self.safety_worker_spec().is_some() { 1int } else { 0 }),
    {
        let s: usize = if self.safety_worker.is_some() { 1 } else { 0 };
        self.async_workers.len() + self.dedicated_workers.len() + s
    }

    /// The size of each async task queue.
    pub fn queue_size(&self) -> (r: u32)
        ensures
            r == self.queue_size_spec(),
    {
        self.queue_size
    }

    /// The thread parameters of the async workers.
    pub fn thread_params(&self) -> (r: ThreadParameters)
        ensures
            r == self.thread_params_spec(),
    {
        self.thread_params
    }

    /// The state of the engine.
    pub fn state(&self) -> (r: EngineState)
        ensures
            r == self.state_spec(),
    {
        self.state
    }

    /// Starts the engine: from here on it runs, unless it was stopped before.
    /// The layout of workers and queues stays as it is; the threads of the
    /// workers (`thread_count` of them) are spawned by the caller.
    pub fn start(&mut self)
        ensures
            old(self).state_spec() == EngineState::Stopped ==> final(self).state_spec() == EngineState::Stopped,
            old(self).state_spec() != EngineState::Stopped ==> final(self).state_spec() == EngineState::Running,
            final(self).async_worker_ids() == old(self).async_worker_ids(),
            final(self).async_queues_spec() == old(self).async_queues_spec(),
            final(self).global_queue_spec() == old(self).global_queue_spec(),
            final(self).scheduler_spec() == old(self).scheduler_spec(),
            final(self).dedicated_queues_spec() == old(self).dedicated_queues_spec(),
            final(self).safety_queue_spec() == old(self).safety_queue_spec(),
            final(self).dedicated_worker_ids() == old(self).dedicated_worker_ids(),
            final(self).safety_worker_spec() == old(self).safety_worker_spec(),
            final(self).queue_size_spec() == old(self).queue_size_spec(),
            final(self).thread_params_spec() == old(self).thread_params_spec(),
    {
        if !self.state.is_stopped() {
            self.state = EngineState::Running;
        }
    }

    /// Stops the engine. Returns whether the workers have to be stopped now:
    /// `false` when the engine was already stopped, so stopping twice does nothing more.
    pub fn stop(&mut self) -> (r: bool)
        ensures
            (final(self).state_spec(), r) == stop_outcome(old(self).state_spec()),
            final(self).worker_count_spec() == old(self).worker_count_spec(),
    {
        if self.state.is_stopped() {
            return false;
        }
        self.state = EngineState::Stopped;
        true
    }
}

/// The outcome of stopping an engine in state `s`: the next state and whether
/// the workers have to be stopped now.
pub open spec fn stop_outcome(s: EngineState) -> (EngineState, bool) {
    (EngineState::Stopped, s != EngineState::Stopped)
}

/// Stopping is idempotent: after a stop, a second stop has nothing to do and
/// the engine stays stopped.
pub proof fn law_stop_idempotent(s: EngineState)
    ensures
        stop_outcome(stop_outcome(s).0).0 == stop_outcome(s).0,
        !stop_outcome(stop_outcome(s).0).1,
{
}

/// Builder of a runtime made of several engines.
pub struct AsyncRuntimeBuilder {
    engine_builders: Vec<ExecutionEngineBuilder>,
    next_id: usize,
}

impl AsyncRuntimeBuilder {
    /// The builders of the engines, in the order they were added.
    pub closed spec fn builders(&self) -> Seq<ExecutionEngineBuilder> {
        self.engine_builders@
    }

    /// The id the next engine gets.
    pub closed spec fn next_id_spec(&self) -> nat {
        self.next_id as nat
    }

    /// The ids are the positions: the next id is the number of engines, and every builder is well formed.
    pub closed spec fn wf(&self) -> bool {
        &&& self.next_id == self.engine_builders@.len()
        &&& forall|i: int| 0 <= i < self.engine_builders@.len() ==> #[trigger] self.engine_builders@[i].wf()
    }

    /// A runtime builder without engines.
    pub fn new() -> (r: Self)
        ensures
            r.wf(),
            r.builders() == Seq::<ExecutionEngineBuilder>::empty(),
            r.next_id_spec() == 0,
    {
        Self { engine_builders: Vec::new(), next_id: 0 }
    }

    /// Adds the engine configured by `builder`; returns the builder and the id of the engine,
    /// which is its position.
    pub fn with_engine(self, builder: ExecutionEngineBuilder) -> (r: (Self, usize))
        requires
            self.wf(),
            builder.wf(),
            self.next_id_spec() < usize::MAX,
        ensures
            r.0.wf(),
            r.1 == self.next_id_spec(),
            r.1 == self.builders().len(),
            r.0.builders()[r.1 as int] == builder,
            r.0.builders() == self.builders().push(builder),
            r.0.next_id_spec() == self.next_id_spec() + 1,
    {
        let mut s = self;
        let id = s.next_id;
        s.engine_builders.push(builder);
        s.next_id = s.next_id + 1;
        proof {
            assert forall|i: int| 0 <= i < s.engine_builders@.len() implies #[trigger] s.engine_builders@[i].wf() by {
                if i < self.engine_builders@.len() {
                    assert(s.engine_builders@[i] == self.engine_builders@[i]);
                }
            }
        }
        (s, id)
    }

    /// Builds every engine; engine `i` of the runtime is built from the builder with id `i`.
    pub fn build(self) -> (r: Result<AsyncRuntime, ()>)
        requires
            self.wf(),
        ensures
            r matches Ok(rt) && rt.engines_spec().len() == self.builders().len() && (forall|i: int|
                0 <= i < self.builders().len() ==> (#[trigger] rt.engines_spec()[i]).built_from(self.builders()[i])),
    {
        let mut builders = self.engine_builders;
        let ghost orig = builders@;
        let mut engines: Vec<ExecutionEngine> = Vec::new();
        while builders.len() > 0
            invariant
                builders@ == orig.take(builders@.len() as int),
                builders@.len() + engines@.len() == orig.len(),
                forall|i: int| 0 <= i < orig.len() ==> #[trigger] orig[i].wf(),
                forall|j: int| 0 <= j < engines@.len() ==> (#[trigger] engines@[j]).built_from(orig[orig.len() - 1 - j]),
            decreases builders.len(),
        {
            let b = builders.pop().unwrap();
            proof {
                assert(b == orig[builders@.len() as int]);
            }
            engines.push(b.build());
            proof {
                assert(builders@ =~= orig.take(builders@.len() as int));
            }
        }
        let mut ordered: Vec<ExecutionEngine> = Vec::new();
        while engines.len() > 0
            invariant
                engines@.len() + ordered@.len() == orig.len(),
                forall|j: int| 0 <= j < engines@.len() ==> (#[trigger] engines@[j]).built_from(orig[orig.len() - 1 - j]),
                forall|j: int| 0 <= j < ordered@.len() ==> (#[trigger] ordered@[j]).built_from(orig[j]),
            decreases engines.len(),
        {
            let e = engines.pop().unwrap();
            ordered.push(e);
        }
        Ok(AsyncRuntime { engines: ordered })
    }
}

/// A runtime made of engines, addressed by their ids.
pub struct AsyncRuntime {
    engines: Vec<ExecutionEngine>,
}

impl AsyncRuntime {
    /// The engines, by id.
    pub closed spec fn engines_spec(&self) -> Seq<ExecutionEngine> {
        self.engines@
    }

    /// The number of engines.
    pub fn engines_count(&self) -> (r: usize)
        ensures
            r == self.engines_spec().len(),
    {
        self.engines.len()
    }

    /// The engine with id `engine_id`, if there is one.
    pub fn engine(&self, engine_id: usize) -> (r: Option<&ExecutionEngine>)
        ensures
            engine_id < self.engines_spec().len() ==> r == Some(&self.engines_spec()[engine_id as int]),
            engine_id >= self.engines_spec().len() ==> r is None,
    {
        if engine_id < self.engines.len() {
            Some(&self.engines[engine_id])
        } else {
            None
        }
    }

    /// Checks that `engine_id` names an engine: its index, or `EngineNotAvailable`.
    pub fn engine_index(&self, engine_id: usize) -> (r: Result<usize, RuntimeErrors>)
        ensures
            engine_id < self.engines_spec().len() ==> r == Ok::<usize, RuntimeErrors>(engine_id),
            engine_id >= self.engines_spec().len() ==> r == Err::<usize, RuntimeErrors>(RuntimeErrors::EngineNotAvailable),
    {
        if engine_id < self.engines.len() {
            Ok(engine_id)
        } else {
            Err(RuntimeErrors::EngineNotAvailable)
        }
    }

    /// Stops every engine. Returns, by engine, whether its workers have to be stopped now.
    pub fn shutdown(&mut self) -> (r: Vec<bool>)
        ensures
            r@.len() == old(self).engines_spec().len(),
            final(self).engines_spec().len() == old(self).engines_spec().len(),
            forall|i: int| 0 <= i < r@.len() ==> {
                &&& (#[trigger] final(self).engines_spec()[i]).state_spec() == EngineState::Stopped
                &&& r@[i] == (old(self).engines_spec()[i].state_spec() != EngineState::Stopped)
                &&& final(self).engines_spec()[i].worker_count_spec() == old(self).engines_spec()[i].worker_count_spec()
            },
    {
        let mut out: Vec<bool> = Vec::new();
        let n = self.engines.len();
        let mut i: usize = 0;
        while i < n
            invariant
                i <= n,
                n == self.engines@.len(),
                n == old(self).engines_spec().len(),
                out@.len() == i,
                forall|j: int| i <= j < n ==> self.engines@[j] == old(self).engines_spec()[j],
                forall|j: int| 0 <= j < i ==> {
                    &&& (#[trigger] self.engines@[j]).state_spec() == EngineState::Stopped
                    &&& out@[j] == (old(self).engines_spec()[j].state_spec() != EngineState::Stopped)
                    &&& self.engines@[j].worker_count_spec() == old(self).engines_spec()[j].worker_count_spec()
                },
            decreases n - i,
        {
            let stopped = self.engines[i].stop();
            out.push(stopped);
            i = i + 1;
        }
        out
    }
}

/// The id `with_engine` hands out counts the engines added before: a runtime
/// builder made by `new` and `k` calls of `with_engine` gives id `k` to the
/// next engine, which the built runtime has at that index.
pub proof fn law_engine_id_counts_earlier_engines(b: AsyncRuntimeBuilder)
    requires
        b.wf(),
    ensures
        b.next_id_spec() == b.builders().len(),
{
}

} // verus!
