# kyron

The decision logic of an asynchronous runtime, verified with Verus.

`src/` is the verified library:

- `readiness`, `mio_types`, `registration`: readiness words (state bits and a
  tick), event interests, and the per-source registration that stores the
  wakers of readers, writers and waiting futures and wakes them when events
  arrive.
- `registrations`, `io_driver`: the slot map of live registrations (the
  fixed-capacity slot map of `iceoryx2_bb_container`), delayed release of
  deregistered sources, the dispatch of selector events, and the sleep plan of
  a worker that waits for timers.
- `time_wheel`: one level of a hierarchical timer wheel with an occupancy
  bitmap.
- `worker`, `engine`: worker state transitions (park, unpark, shutdown), the
  bookkeeping of searching and parked workers, engine and runtime builders,
  and the engine layout with its task queues.
- `task`, `futures`, `channels`, `queue`, `intrusive_list`,
  `vector_extension`, `read_buf`, `mock`: task stages, future states,
  single-producer and broadcast channels, bounded queues, a keyed list,
  removal from fixed-capacity vectors, read buffers, and mock expectations.

Channel values wait in the library's own bounded FIFO `Queue`, not in the
single-producer queue of `iceoryx2_bb_lock_free`: that queue is generic in its
item type, and a contract can only speak of what an outside collection holds
through a name for its contents, which cannot be generic; so its contents could
not be stated for a channel of any value type.

`app/` holds what needs threads, locks, clocks or closures: condition-variable
parking, thread-safe queues and barriers, channel futures, the I/O driver's
event loop and mock functions. `tests/` exercises the library.
